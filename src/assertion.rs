use crate::error::{FidoError, FIDO_OK};
use crate::ffi::{FidoAssert, NonNull};
use crate::setup::Setup;
use vstd::prelude::*;

verus! {

/// Options of an assertion request.
#[derive(Clone, Copy, Debug, PartialEq, Eq, Structural)]
pub struct AssertionOptions {
    /// Require the user's consent.
    pub user_presence: bool,
    /// Require a gesture that verifies the user.
    pub user_verification: bool,
}

impl AssertionOptions {
    /// No option set.
    pub fn empty() -> (r: Self)
        ensures
            !r.user_presence,
            !r.user_verification,
    {
        AssertionOptions { user_presence: false, user_verification: false }
    }
}

/// What an assertion request is configured with before it goes to a device.
#[derive(Clone, Copy, Debug, PartialEq, Eq)]
pub struct AssertionCreationData<'a> {
    pub relying_party_id: &'a str,
    pub client_data_hash: &'a [u8],
    /// The credential ids the authenticator may use; `None` leaves the choice
    /// to the authenticator.
    pub allowed_credential_ids: Option<&'a [&'a [u8]]>,
    pub options: AssertionOptions,
    /// The salt of the symmetric-secret extension, if it is asked for.
    pub hmac_salt: Option<&'a [u8]>,
}

/// One native setter call that configures an assertion request.
#[derive(Clone, Copy, Debug, PartialEq, Eq)]
pub enum AssertionSetup<'a> {
    RelyingParty(&'a str),
    ClientDataHash(&'a [u8]),
    /// Allow one credential id.
    AllowCredential(&'a [u8]),
    Options { user_presence: bool, user_verification: bool },
    HmacSalt(&'a [u8]),
}

/// The calls that allow each of `ids`, in order.
pub open spec fn allow_steps<'a>(ids: Seq<&'a [u8]>) -> Seq<AssertionSetup<'a>> {
    Seq::new(ids.len(), |i: int| AssertionSetup::AllowCredential(ids[i]))
}

/// The setter calls that configure a request with `d`, in order.
pub open spec fn assertion_plan<'a>(d: AssertionCreationData<'a>) -> Seq<AssertionSetup<'a>> {
    let allowed = match d.allowed_credential_ids {
        Some(ids) => allow_steps(ids@),
        None => Seq::empty(),
    };
    let salt = match d.hmac_salt {
        Some(s) => seq![AssertionSetup::HmacSalt(s)],
        None => Seq::empty(),
    };
    seq![
        AssertionSetup::RelyingParty(d.relying_party_id),
        AssertionSetup::ClientDataHash(d.client_data_hash),
    ] + allowed + seq![
        AssertionSetup::Options {
            user_presence: d.options.user_presence,
            user_verification: d.options.user_verification,
        },
    ] + salt
}

impl<'a> AssertionCreationData<'a> {
    /// Data for `relying_party_id` and `client_data_hash`, with no allowed id
    /// list, no option and no salt.
    pub fn with_defaults(relying_party_id: &'a str, client_data_hash: &'a [u8]) -> (r: Self)
        ensures
            r.relying_party_id == relying_party_id,
            r.client_data_hash == client_data_hash,
            r.allowed_credential_ids is None,
            r.options == (AssertionOptions { user_presence: false, user_verification: false }),
            r.hmac_salt is None,
    {
        AssertionCreationData {
            relying_party_id,
            client_data_hash,
            allowed_credential_ids: None,
            options: AssertionOptions::empty(),
            hmac_salt: None,
        }
    }

    /// The setter calls that configure a request with this data, in order.
    pub fn setup_steps(&self) -> (r: Vec<AssertionSetup<'a>>)
        ensures
            r@ == assertion_plan(*self),
    {
        let mut steps: Vec<AssertionSetup<'a>> = Vec::new();
        steps.push(AssertionSetup::RelyingParty(self.relying_party_id));
        steps.push(AssertionSetup::ClientDataHash(self.client_data_hash));
        let ghost head = steps@;
        let ghost allowed = match self.allowed_credential_ids {
            Some(ids) => allow_steps(ids@),
            None => Seq::empty(),
        };
        match self.allowed_credential_ids {
            Some(ids) => {
                let mut i: usize = 0;
                while i < ids.len()
                    invariant
                        i <= ids@.len(),
                        allowed == allow_steps(ids@),
                        steps@ == head + allowed.take(i as int),
                    decreases ids@.len() - i,
                {
                    steps.push(AssertionSetup::AllowCredential(ids[i]));
                    i = i + 1;
                    assert(steps@ =~= head + allowed.take(i as int));
                }
                assert(allowed.take(i as int) =~= allowed);
            },
            None => {
                assert(steps@ =~= head + allowed);
            },
        }
        steps.push(
            AssertionSetup::Options {
                user_presence: self.options.user_presence,
                user_verification: self.options.user_verification,
            },
        );
        match self.hmac_salt {
            Some(s) => steps.push(AssertionSetup::HmacSalt(s)),
            None => {},
        }
        assert(steps@ =~= assertion_plan(*self));
        steps
    }
}

/// An assertion request being configured: owns a native assertion object
/// that no device has populated.
#[derive(Debug)]
pub struct AssertionCreator {
    raw: NonNull<FidoAssert>,
}

/// An assertion that a device produced, with its statements.
///
/// It is only ever obtained from `AssertionCreator::complete` on a
/// successful device call, so its native object is always populated.
#[derive(Debug)]
pub struct Assertion {
    raw: NonNull<FidoAssert>,
    count: usize,
}

impl View for AssertionCreator {
    type V = usize;

    closed spec fn view(&self) -> usize {
        self.raw@
    }
}

impl View for Assertion {
    type V = usize;

    closed spec fn view(&self) -> usize {
        self.raw@
    }
}

impl Assertion {
    /// How many statements the device returned.
    pub closed spec fn spec_len(&self) -> nat {
        self.count as nat
    }

    /// The number of statements.
    pub fn len(&self) -> (r: usize)
        ensures
            r == self.spec_len(),
    {
        self.count
    }

    /// Whether the device returned no statement.
    pub fn is_empty(&self) -> (r: bool)
        ensures
            r == (self.spec_len() == 0),
    {
        self.count == 0
    }

    /// The index of each statement, in the device's order: the positions
    /// at which a statement may be read, and no other.
    pub fn indices(&self) -> (r: Vec<usize>)
        ensures
            r@ == Seq::new(self.spec_len(), |i: int| i as usize),
    {
        let mut r: Vec<usize> = Vec::new();
        let mut i: usize = 0;
        while i < self.count
            invariant
                i <= self.count,
                r@ == Seq::new(i as nat, |j: int| j as usize),
            decreases self.count - i,
        {
            r.push(i);
            i = i + 1;
            assert(r@ =~= Seq::new(i as nat, |j: int| j as usize));
        }
        r
    }

    /// The native object's address, for a call that reads it.
    pub fn as_ptr(&self) -> (r: usize)
        ensures
            r == self@,
            r != 0,
    {
        self.raw.as_ptr()
    }

    /// Gives up the native object, for its release.
    pub fn into_raw(self) -> (r: NonNull<FidoAssert>)
        ensures
            r@ == self@,
    {
        self.raw
    }
}

impl AssertionCreator {
    /// Takes `raw`, the native object that `setup` configured, as a request
    /// when every step succeeded; otherwise hands `raw` back, for release,
    /// with the error of the step that failed.
    pub fn configured<'a>(raw: NonNull<FidoAssert>, setup: &Setup<AssertionSetup<'a>>) -> (r: Result<
        AssertionCreator,
        (FidoError, NonNull<FidoAssert>),
    >)
        requires
            setup.finished(),
        ensures
            r is Ok <==> setup.failure() is None,
            r matches Ok(c) ==> c@ == raw@,
            r matches Err((e, back)) ==> setup.failure() == Some(e@) && back == raw,
    {
        match setup.outcome() {
            Ok(()) => Ok(AssertionCreator { raw }),
            Err(e) => Err((e, raw)),
        }
    }

    /// Turns the request into an assertion when the device call that it was
    /// sent with returned `status`, and the object then holds `count`
    /// statements; on failure the request comes back, with the error, for
    /// release.
    pub fn complete(self, status: i32, count: usize) -> (r: Result<
        Assertion,
        (FidoError, AssertionCreator),
    >)
        ensures
            r is Ok <==> status == FIDO_OK,
            r matches Ok(a) ==> a@ == self@ && a.spec_len() == count,
            r matches Err((e, back)) ==> e@ == status && back@ == self@,
    {
        match crate::error::check_status(status) {
            Ok(()) => Ok(Assertion { raw: self.raw, count }),
            Err(e) => Err((e, self)),
        }
    }

    /// The native object's address, for a call that reads it.
    pub fn as_ptr(&self) -> (r: usize)
        ensures
            r == self@,
            r != 0,
    {
        self.raw.as_ptr()
    }

    /// The native object's address, for a call that changes it.
    pub fn as_ptr_mut(&mut self) -> (r: usize)
        ensures
            r == old(self)@,
            r != 0,
            final(self)@ == old(self)@,
    {
        self.raw.as_ptr_mut()
    }

    /// Gives up the native object, for its release.
    pub fn into_raw(self) -> (r: NonNull<FidoAssert>)
        ensures
            r@ == self@,
    {
        self.raw
    }
}

/// One statement of an assertion, borrowed from the assertion's native
/// object. The client-data hash is the one shared by all statements; the
/// user fields are present only where a discoverable credential answered.
#[derive(Clone, Copy, Debug, PartialEq, Eq)]
pub struct Statement<'a> {
    pub auth_data: &'a [u8],
    pub client_data_hash: &'a [u8],
    pub hmac_secret: Option<&'a [u8]>,
    pub signature: &'a [u8],
    pub user_id: Option<&'a [u8]>,
    pub user_name: Option<&'a str>,
    pub user_display_name: Option<&'a str>,
    pub user_image_uri: Option<&'a str>,
}

/// The items whose verification status is `FIDO_OK`, in their order.
pub open spec fn kept<T>(items: Seq<T>, statuses: Seq<i32>) -> Seq<T>
    decreases items.len(),
{
    if items.len() == 0 {
        Seq::empty()
    } else {
        let earlier = kept(items.drop_last(), statuses.take(items.len() - 1));
        if statuses[items.len() - 1] == FIDO_OK {
            earlier.push(items.last())
        } else {
            earlier
        }
    }
}

/// Keeps the statements whose signature verified: `statuses[i]` is what the
/// native check of `items[i]` returned. A statement that fails is left out;
/// it never fails the whole selection.
pub fn select_verified<T: Copy>(items: &Vec<T>, statuses: &Vec<i32>) -> (r: Vec<T>)
    requires
        items@.len() == statuses@.len(),
    ensures
        r@ == kept(items@, statuses@),
{
    let mut r: Vec<T> = Vec::new();
    let mut i: usize = 0;
    while i < items.len()
        invariant
            items@.len() == statuses@.len(),
            i <= items@.len(),
            r@ == kept(items@.take(i as int), statuses@.take(i as int)),
        decreases items@.len() - i,
    {
        let ghost before = items@.take(i as int);
        proof {
            let next = items@.take(i + 1);
            assert(next.drop_last() =~= before);
            assert(statuses@.take(i + 1).take(i as int) =~= statuses@.take(i as int));
        }
        if statuses[i] == FIDO_OK {
            r.push(items[i]);
        }
        i = i + 1;
    }
    assert(items@.take(i as int) =~= items@);
    assert(statuses@.take(i as int) =~= statuses@);
    r
}

/// Selecting verified statements keeps none when every check failed, which
/// is the case for a key that signed none of them, and keeps all of them,
/// in order, when every check succeeded. Between the two it keeps those
/// that verified and no other, never more than there were.
pub proof fn lemma_verified_selection<T>(items: Seq<T>, statuses: Seq<i32>)
    requires
        items.len() == statuses.len(),
    ensures
        (forall|i: int| 0 <= i < statuses.len() ==> statuses[i] != FIDO_OK) ==> kept(
            items,
            statuses,
        ).len() == 0,
        (forall|i: int| 0 <= i < statuses.len() ==> statuses[i] == FIDO_OK) ==> kept(items, statuses)
            == items,
        kept(items, statuses).len() <= items.len(),
    decreases items.len(),
{
    if items.len() > 0 {
        let n = items.len() - 1;
        let s = statuses.take(n);
        lemma_verified_selection(items.drop_last(), s);
        assert forall|i: int| 0 <= i < s.len() implies s[i] == statuses[i] by {}
        if forall|i: int| 0 <= i < statuses.len() ==> statuses[i] == FIDO_OK {
            assert(items.drop_last().push(items.last()) =~= items);
        }
    }
}

} // verus!
