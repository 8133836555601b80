use vstd::prelude::*;

verus! {

/// The three hooks through which the polling loop drives a source: `prepare`
/// before the loop blocks (ready now, and at most how long to block, in
/// milliseconds), `check` after it woke (by default: not ready), and
/// `dispatch` when the source is ready (whether it stays armed).
pub trait SourceFuncs {
    fn check(&self) -> bool {
        false
    }

    fn dispatch(&self) -> bool;

    fn prepare(&self) -> (bool, Option<u32>);
}

/// A truth value in the loop's native integer form.
pub open spec fn int_of(b: bool) -> i32 {
    if b {
        1
    } else {
        0
    }
}

/// `1` for true, `0` for false.
pub fn bool_to_int(b: bool) -> (r: i32)
    ensures
        r == int_of(b),
{
    if b {
        1
    } else {
        0
    }
}

/// Hand the outcome of a source's `prepare` to the loop: the readiness in
/// native form, and the timeout written into the loop's slot when the source
/// asked for one (the slot is left alone otherwise).
pub fn prepare_result(result: (bool, Option<u32>), timeout: &mut i32) -> (r: i32)
    ensures
        r == int_of(result.0),
        result.1 is None ==> *final(timeout) == *old(timeout),
        result.1 matches Some(t) ==> *final(timeout) == t as i32,
{
    if let Some(t) = result.1 {
        *timeout = t as i32;
    }
    bool_to_int(result.0)
}

} // verus!
