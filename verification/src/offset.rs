use vstd::prelude::*;

verus! {

/// An offset from UTC, in seconds east of Greenwich.
///
/// The broken-down record carries an offset along and hands it out again; it
/// never computes with it. Building one, copying it and comparing two of them
/// are the only operations the record relies on.
#[derive(Debug, Copy, Clone, Hash, PartialEq, Eq, Structural)]
pub struct UtcOffset {
    /// Seconds to add to UTC to get local time; negative west of Greenwich.
    pub seconds: i32,
}

impl UtcOffset {
    /// The offset of `seconds` seconds from UTC.
    pub fn new(seconds: i32) -> (offset: Self)
        ensures
            offset.seconds == seconds,
    {
        UtcOffset { seconds }
    }
}

} // verus!
