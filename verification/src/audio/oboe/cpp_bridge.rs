//! Values which the Oboe C++ code and this code exchange.

use vstd::prelude::*;

verus! {

pub const STATUS_OK: i32 = 0;

pub const STATUS_ERROR: i32 = -1;

/// What an underrun check found.
#[derive(Debug, Clone, Copy, PartialEq, Eq, Structural)]
pub enum UnderrunReport {
    Nothing,
    /// Underrun check failed. It is now disabled.
    CheckFailed,
    /// There are new underruns. This is the count of all of them.
    NewUnderruns(i32),
}

/// Compare the underrun count of the stream, or `STATUS_ERROR`, with the
/// previous one. `previous_underrun_count` is `None` when the check is disabled.
pub fn check_underruns(previous_underrun_count: &mut Option<i32>, underrun_count: i32) -> (report:
    UnderrunReport)
    ensures
        match *old(previous_underrun_count) {
            None => {
                &&& report == UnderrunReport::Nothing
                &&& *final(previous_underrun_count) == None::<i32>
            },
            Some(previous_count) => if underrun_count == STATUS_ERROR {
                &&& report == UnderrunReport::CheckFailed
                &&& *final(previous_underrun_count) == None::<i32>
            } else if underrun_count > previous_count {
                &&& report == UnderrunReport::NewUnderruns(underrun_count)
                &&& *final(previous_underrun_count) == Some(underrun_count)
            } else {
                &&& report == UnderrunReport::Nothing
                &&& *final(previous_underrun_count) == Some(previous_count)
            },
        },
{
    if underrun_count == STATUS_ERROR {
        if previous_underrun_count.take().is_some() {
            return UnderrunReport::CheckFailed;
        }
        return UnderrunReport::Nothing;
    }
    match *previous_underrun_count {
        Some(previous_count) => {
            if underrun_count > previous_count {
                *previous_underrun_count = Some(underrun_count);
                UnderrunReport::NewUnderruns(underrun_count)
            } else {
                UnderrunReport::Nothing
            }
        },
        None => UnderrunReport::Nothing,
    }
}

} // verus!
