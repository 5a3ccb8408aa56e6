use crate::error::FIDO_DEBUG;
use vstd::prelude::*;

verus! {

/// The flags that native initialization is given for a `debug` request.
pub open spec fn init_flags(debug: bool) -> i32 {
    if debug {
        FIDO_DEBUG
    } else {
        0
    }
}

/// One construction of the library context, from a record that says whether
/// initialization already ran: whether this construction runs it, and the
/// record afterwards.
pub open spec fn begin_spec(initialized: bool) -> (bool, bool) {
    (!initialized, true)
}

/// How many of `n` constructions in a row run native initialization,
/// starting from the record `initialized`.
pub open spec fn inits_run(initialized: bool, n: nat) -> nat
    decreases n,
{
    if n == 0 {
        0
    } else {
        let (runs, after) = begin_spec(initialized);
        (if runs {
            1nat
        } else {
            0nat
        }) + inits_run(after, (n - 1) as nat)
    }
}

/// The process-wide record of whether the native library was initialized.
///
/// One value of it is shared by every construction of the library context,
/// in every thread, behind a lock.
pub struct LibraryInit {
    pub initialized: bool,
}

impl LibraryInit {
    /// A record for a process in which nothing was initialized yet.
    pub fn new() -> (r: Self)
        ensures
            !r.initialized,
    {
        LibraryInit { initialized: false }
    }

    /// Records one construction of the context. Gives the flags to initialize
    /// the native library with when this construction must do it, and `None`
    /// when an earlier one did.
    pub fn begin(&mut self, debug: bool) -> (r: Option<i32>)
        ensures
            (r is Some, final(self).initialized) == begin_spec(old(self).initialized),
            r matches Some(flags) ==> flags == init_flags(debug),
    {
        if self.initialized {
            None
        } else {
            self.initialized = true;
            if debug {
                Some(FIDO_DEBUG)
            } else {
                Some(0)
            }
        }
    }
}

/// Initialization is idempotent: however many contexts are constructed, the
/// native library is initialized by the first one and by no other.
pub proof fn lemma_init_runs_once(initialized: bool, n: nat)
    ensures
        inits_run(initialized, n) == (if !initialized && n > 0 {
            1nat
        } else {
            0nat
        }),
    decreases n,
{
    if n > 0 {
        lemma_init_runs_once(true, (n - 1) as nat);
    }
}

} // verus!
