use vstd::prelude::*;

verus! {

/// Runs `f` when `cond` holds and gives `None` otherwise.
pub fn if_then<F, T>(cond: bool, f: F) -> (r: Option<T>) where F: FnOnce() -> Option<T>
    requires
        cond ==> f.requires(()),
    ensures
        cond ==> f.ensures((), r),
        !cond ==> r is None,
{
    if cond {
        f()
    } else {
        None
    }
}

} // verus!
