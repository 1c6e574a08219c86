//! Native handles and who owns them.
//!
//! A handle is the address of a native object, and the address zero stands for
//! no object. Each wrapper of this library keeps one handle in a slot of its
//! own. The slot is filled once, when the wrapper is made, and emptied once,
//! when the handle is handed out for release.

use vstd::prelude::*;
use vstd::string::*;
use crate::internal_error::{VLCError, VLCResult};

verus! {

/// Whether `e` is the failure that `what` handed back no handle.
pub open spec fn is_null_pointer(e: VLCError, what: Seq<char>) -> bool {
    e matches VLCError::NullPointer(text) && text@ == what
}

/// Accepts the address that the native operation `what` handed back, unless it
/// is the null address.
pub fn not_null(ptr: usize, what: &str) -> (out: VLCResult<usize>)
    ensures
        match out {
            Ok(handle) => ptr != 0 && handle == ptr,
            Err(e) => ptr == 0 && is_null_pointer(e, what@),
        },
{
    if ptr == 0 {
        Err(VLCError::NullPointer(String::from_str(what)))
    } else {
        Ok(ptr)
    }
}

/// What a wrapper that holds `ptr` hands out for release: the address, unless
/// it holds none.
pub open spec fn released_handle(ptr: usize) -> Option<usize> {
    if ptr == 0 {
        None
    } else {
        Some(ptr)
    }
}

/// Takes the address out of `slot` for release and leaves the slot empty.
pub fn take_handle(slot: &mut usize) -> (handle: Option<usize>)
    ensures
        handle == released_handle(*old(slot)),
        *final(slot) == 0,
    no_unwind
{
    let ptr: usize = *slot;
    *slot = 0;
    if ptr == 0 {
        None
    } else {
        Some(ptr)
    }
}

/// What `n` releases in a row hand out, first to last, from a slot that holds
/// `ptr` before the first of them.
pub open spec fn release_log(ptr: usize, n: nat) -> Seq<Option<usize>>
    decreases n,
{
    if n == 0 {
        Seq::empty()
    } else {
        seq![released_handle(ptr)] + release_log(0, (n - 1) as nat)
    }
}

/// However often a wrapper is released, its handle is handed out at most once:
/// by the first release, if the wrapper held one, and by no later release.
pub proof fn handle_is_released_once(ptr: usize, n: nat)
    ensures
        release_log(ptr, n).len() == n,
        n > 0 ==> release_log(ptr, n)[0] == released_handle(ptr),
        forall|i: int| 1 <= i < n ==> release_log(ptr, n)[i] is None,
        forall|i: int| 0 <= i < n && release_log(ptr, n)[i] is Some ==> i == 0 && ptr != 0
            && release_log(ptr, n)[i] == Some(ptr),
    decreases n,
{
    if n > 0 {
        handle_is_released_once(0, (n - 1) as nat);
        let rest = release_log(0, (n - 1) as nat);
        assert(release_log(ptr, n) == seq![released_handle(ptr)] + rest);
        assert forall|i: int| 1 <= i < n implies release_log(ptr, n)[i] is None by {
            assert(release_log(ptr, n)[i] == rest[i - 1]);
            if i - 1 >= 1 {
            } else {
                assert(rest[0] == released_handle(0));
            }
        }
    }
}

} // verus!

