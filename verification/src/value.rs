//! The value that a reply frame carries.

use vstd::prelude::*;

verus! {

/// What Dream Daemon answered to a topic.
#[derive(Debug, Clone, PartialEq, Eq)]
pub enum ByondTopicValue {
    /// No usable value: nothing was received, or the frame was not understood.
    Nothing,
    /// Character data, one character per payload byte.
    String(String),
    /// A number, held as the bit pattern of an IEEE-754 binary32 value.
    Number(u32),
}

/// Mathematical model of a [`ByondTopicValue`].
pub enum DecodedValue {
    Nothing,
    String(Seq<char>),
    Number(u32),
}

impl View for ByondTopicValue {
    type V = DecodedValue;

    open spec fn view(&self) -> DecodedValue {
        match self {
            ByondTopicValue::Nothing => DecodedValue::Nothing,
            ByondTopicValue::String(s) => DecodedValue::String(s@),
            ByondTopicValue::Number(bits) => DecodedValue::Number(*bits),
        }
    }
}

} // verus!
