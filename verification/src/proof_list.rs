//! The rules of the proof list that are decided before the store is asked.
use vstd::prelude::*;
use crate::fault::Fault;

verus! {

/// Decides whether the element at `index` of a list of `length` elements can
/// be overwritten: only a position inside the list can.
pub fn check_overwrite(index: u64, length: u64) -> (r: Result<(), Fault>)
    ensures
        r == (if index < length {
            Ok::<(), Fault>(())
        } else {
            Err::<(), Fault>(Fault::IndexOutOfBounds)
        }),
{
    if index < length {
        Ok(())
    } else {
        Err(Fault::IndexOutOfBounds)
    }
}

/// The length that a list of `length` elements has after it was truncated to
/// `new_length`.
pub open spec fn length_after_truncate(length: u64, new_length: u64) -> u64 {
    if new_length < length {
        new_length
    } else {
        length
    }
}

/// Decides what truncating a list of `length` elements to `new_length` asks
/// of the store: `Some(new_length)` where elements have to go, `None` where
/// the list is short enough already and nothing is to be done.
pub fn plan_truncate(length: u64, new_length: u64) -> (r: Option<u64>)
    ensures
        r == (if new_length < length {
            Some(new_length)
        } else {
            None::<u64>
        }),
        r is Some ==> r->0 == length_after_truncate(length, new_length),
        r is None ==> length == length_after_truncate(length, new_length),
{
    if new_length < length {
        Some(new_length)
    } else {
        None
    }
}

/// Decides whether `from..to` is a range that a proof can be asked for: its
/// start must not lie after its end. An empty range is a legal one.
pub fn check_range(from: u64, to: u64) -> (r: Result<(), Fault>)
    ensures
        r == (if from <= to {
            Ok::<(), Fault>(())
        } else {
            Err::<(), Fault>(Fault::IllegalRange)
        }),
{
    if from <= to {
        Ok(())
    } else {
        Err(Fault::IllegalRange)
    }
}

} // verus!
