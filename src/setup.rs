use crate::error::{FidoError, FIDO_OK};
use vstd::prelude::*;

verus! {

/// Applies a planned sequence of native setter calls, one at a time.
///
/// The caller asks for the next step, performs it against the native object
/// and records the status it returned. The first failing status ends the run:
/// no later step is handed out, and the outcome is that status. Configuration
/// already applied by earlier steps is not undone.
#[derive(Debug)]
pub struct Setup<S> {
    steps: Vec<S>,
    applied: usize,
    failure: Option<FidoError>,
}

impl<S> Setup<S> {
    #[verifier::type_invariant]
    closed spec fn well_formed(self) -> bool {
        &&& self.applied <= self.steps@.len()
        &&& self.failure is Some ==> self.applied < self.steps@.len()
        &&& self.failure matches Some(e) ==> e@ != FIDO_OK
    }
}

impl<S: Copy> Setup<S> {
    /// The planned steps.
    pub closed spec fn plan(&self) -> Seq<S> {
        self.steps@
    }

    /// How many steps succeeded so far.
    pub closed spec fn applied(&self) -> nat {
        self.applied as nat
    }

    /// The status of the step that failed, if one did.
    pub closed spec fn failure(&self) -> Option<i32> {
        match self.failure {
            Some(e) => Some(e@),
            None => None,
        }
    }

    /// Whether no further step will be handed out.
    pub open spec fn finished(&self) -> bool {
        self.failure() is Some || self.applied() == self.plan().len()
    }

    /// A run of `steps` in which nothing was applied yet.
    pub fn new(steps: Vec<S>) -> (r: Self)
        ensures
            r.plan() == steps@,
            r.applied() == 0,
            r.failure() is None,
    {
        Setup { steps, applied: 0, failure: None }
    }

    /// The step to perform now; `None` once every step succeeded or one failed.
    pub fn next_step(&self) -> (r: Option<S>)
        ensures
            self.applied() <= self.plan().len(),
            r is None <==> self.finished(),
            r matches Some(s) ==> s == self.plan()[self.applied() as int],
    {
        proof {
            use_type_invariant(self);
        }
        if self.failure.is_none() && self.applied < self.steps.len() {
            Some(self.steps[self.applied])
        } else {
            None
        }
    }

    /// Records the status that the step handed out by `next_step` returned.
    pub fn record(&mut self, status: i32)
        requires
            !old(self).finished(),
        ensures
            final(self).plan() == old(self).plan(),
            status == FIDO_OK ==> final(self).applied() == old(self).applied() + 1
                && final(self).failure() is None,
            status != FIDO_OK ==> final(self).applied() == old(self).applied()
                && final(self).failure() == Some(status),
    {
        proof {
            use_type_invariant(&*self);
        }
        let planned = self.steps.len();
        if status == FIDO_OK {
            assert(self.applied < planned);
            self.applied = self.applied + 1;
        } else {
            self.failure = Some(crate::error::failed(status));
        }
    }

    /// The result of a finished run: `Ok` when every step succeeded, else the
    /// error of the step that failed.
    pub fn outcome(&self) -> (r: Result<(), FidoError>)
        requires
            self.finished(),
        ensures
            r is Ok <==> self.failure() is None,
            r matches Err(e) ==> self.failure() == Some(e@),
    {
        match self.failure {
            Some(e) => Err(e),
            None => Ok(()),
        }
    }
}

} // verus!
