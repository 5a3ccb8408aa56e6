use crate::error::{FidoError, FIDO_OK};
use crate::ffi::{FidoCborInfo, NonNull};
use crate::text::same_text;
use vstd::prelude::*;

verus! {

/// The capability record that a device returned.
///
/// It is only ever obtained from `CBORData::from_query` after the native
/// query succeeded.
#[derive(Debug)]
pub struct CBORData {
    raw: NonNull<FidoCborInfo>,
}

impl View for CBORData {
    type V = usize;

    closed spec fn view(&self) -> usize {
        self.raw@
    }
}

impl CBORData {
    /// The record in `raw`, when the device query into it returned `status`;
    /// on failure the empty record comes back, with the error, for release.
    pub fn from_query(raw: NonNull<FidoCborInfo>, status: i32) -> (r: Result<
        CBORData,
        (FidoError, NonNull<FidoCborInfo>),
    >)
        ensures
            r is Ok <==> status == FIDO_OK,
            r matches Ok(c) ==> c@ == raw@,
            r matches Err((e, back)) ==> e@ == status && back == raw,
    {
        match crate::error::check_status(status) {
            Ok(()) => Ok(CBORData { raw }),
            Err(e) => Err((e, raw)),
        }
    }

    /// The record's address, for a call that reads it.
    pub fn as_ptr(&self) -> (r: usize)
        ensures
            r == self@,
            r != 0,
    {
        self.raw.as_ptr()
    }

    /// Gives up the record, for its release.
    pub fn into_raw(self) -> (r: NonNull<FidoCborInfo>)
        ensures
            r@ == self@,
    {
        self.raw
    }
}

/// The option map of named pairs: each name maps to the value of its last
/// pair.
pub open spec fn options_map<'a>(pairs: Seq<(&'a str, bool)>) -> Map<Seq<char>, bool>
    decreases pairs.len(),
{
    if pairs.len() == 0 {
        Map::empty()
    } else {
        options_map(pairs.drop_last()).insert(pairs.last().0@, pairs.last().1)
    }
}

/// A name is in the option map exactly when some pair carries it.
proof fn lemma_options_keys<'a>(pairs: Seq<(&'a str, bool)>, k: Seq<char>)
    ensures
        options_map(pairs).contains_key(k) <==> exists|j: int| 0 <= j < pairs.len() && (
        #[trigger] pairs[j]).0@ == k,
    decreases pairs.len(),
{
    if pairs.len() > 0 {
        let earlier = pairs.drop_last();
        lemma_options_keys(earlier, k);
        if exists|j: int| 0 <= j < pairs.len() && (#[trigger] pairs[j]).0@ == k {
            let j = choose|j: int| 0 <= j < pairs.len() && (#[trigger] pairs[j]).0@ == k;
            if j < pairs.len() - 1 {
                assert(earlier[j] == pairs[j]);
            }
        }
        if exists|j: int| 0 <= j < earlier.len() && (#[trigger] earlier[j]).0@ == k {
            let j = choose|j: int| 0 <= j < earlier.len() && (#[trigger] earlier[j]).0@ == k;
            assert(pairs[j] == earlier[j]);
        }
    }
}

/// The options a device declares, by name.
#[derive(Clone, Debug)]
pub struct CapabilityOptions<'a> {
    pairs: Vec<(&'a str, bool)>,
}

impl<'a> View for CapabilityOptions<'a> {
    type V = Map<Seq<char>, bool>;

    closed spec fn view(&self) -> Map<Seq<char>, bool> {
        options_map(self.pairs@)
    }
}

impl<'a> CapabilityOptions<'a> {
    /// The value of the option `name`, if the device declares it.
    pub fn get(&self, name: &str) -> (r: Option<bool>)
        ensures
            r == (if self@.contains_key(name@) {
                Some(self@[name@])
            } else {
                None
            }),
    {
        let ghost k = name@;
        let mut j: usize = self.pairs.len();
        assert(self.pairs@.take(j as int) =~= self.pairs@);
        while j > 0
            invariant
                k == name@,
                j <= self.pairs@.len(),
                options_map(self.pairs@).contains_key(k) == options_map(
                    self.pairs@.take(j as int),
                ).contains_key(k),
                options_map(self.pairs@).contains_key(k) ==> options_map(self.pairs@)[k]
                    == options_map(self.pairs@.take(j as int))[k],
            decreases j,
        {
            let pair: (&'a str, bool) = self.pairs[j - 1];
            let n: &'a str = pair.0;
            let v: bool = pair.1;
            let ghost whole = self.pairs@.take(j as int);
            proof {
                assert(whole.drop_last() =~= self.pairs@.take(j - 1));
                assert(whole.last() == (n, v));
                assert(options_map(whole) == options_map(self.pairs@.take(j - 1)).insert(n@, v));
            }
            if same_text(n, name) {
                return Some(v);
            }
            j = j - 1;
        }
        None
    }
}

impl<'a> CapabilityOptions<'a> {
    /// Whether every option of `self` is an option of `other`, with the same
    /// value.
    fn covered_by(&self, other: &Self) -> (r: bool)
        ensures
            r == forall|k: Seq<char>| #[trigger]
                self@.contains_key(k) ==> other@.contains_key(k) && other@[k] == self@[k],
    {
        let mut j: usize = 0;
        while j < self.pairs.len()
            invariant
                j <= self.pairs@.len(),
                forall|i: int|
                    0 <= i < j ==> {
                        let k = (#[trigger] self.pairs@[i]).0@;
                        other@.contains_key(k) && other@[k] == self@[k]
                    },
            decreases self.pairs@.len() - j,
        {
            let name: &'a str = self.pairs[j].0;
            proof {
                lemma_options_keys(self.pairs@, name@);
                assert(self.pairs@[j as int].0@ == name@);
            }
            let mine = self.get(name);
            let theirs = other.get(name);
            let same = match (mine, theirs) {
                (Some(a), Some(b)) => a == b,
                _ => false,
            };
            if !same {
                return false;
            }
            j = j + 1;
        }
        proof {
            assert forall|k: Seq<char>| #[trigger]
                self@.contains_key(k) implies other@.contains_key(k) && other@[k] == self@[k] by {
                lemma_options_keys(self.pairs@, k);
                let i = choose|i: int|
                    0 <= i < self.pairs@.len() && (#[trigger] self.pairs@[i]).0@ == k;
                assert(self.pairs@[i].0@ == k);
            }
        }
        true
    }
}

impl<'a> PartialEq for CapabilityOptions<'a> {
    /// Two option maps are equal when they declare the same options with the
    /// same values, in whatever order.
    fn eq(&self, other: &Self) -> (r: bool)
        ensures
            r == (self@ == other@),
    {
        let r = self.covered_by(other) && other.covered_by(self);
        if r {
            assert(self@ =~= other@);
        }
        r
    }
}

impl<'a> vstd::std_specs::cmp::PartialEqSpecImpl for CapabilityOptions<'a> {
    open spec fn obeys_eq_spec() -> bool {
        true
    }

    open spec fn eq_spec(&self, other: &Self) -> bool {
        self@ == other@
    }
}

impl<'a> Eq for CapabilityOptions<'a> {
}

/// The pairs of `names` and `values`, position by position.
pub open spec fn zipped<'a>(names: Seq<&'a str>, values: Seq<bool>) -> Seq<(&'a str, bool)> {
    Seq::new(names.len(), |i: int| (names[i], values[i]))
}

/// A device's capability record, decoded. Fields that the native layer left
/// unset are empty.
#[derive(Clone, Debug, PartialEq, Eq)]
pub struct CBORDataRef<'a> {
    pub aag_uid: Option<&'a [u8]>,
    pub pin_protocols: &'a [u8],
    pub extensions: Vec<&'a str>,
    pub ctap_versions: Vec<&'a str>,
    pub options: CapabilityOptions<'a>,
}

impl<'a> CBORDataRef<'a> {
    /// Decodes what the native record holds: each argument is `None` where
    /// the record left the field unset. The option map zips the option names
    /// with their values; names without a value array of the same length
    /// break the native layer's contract and give `None`.
    pub fn decode(
        aag_uid: Option<&'a [u8]>,
        pin_protocols: Option<&'a [u8]>,
        extensions: Option<Vec<&'a str>>,
        ctap_versions: Option<Vec<&'a str>>,
        option_names: Option<Vec<&'a str>>,
        option_values: Option<&'a [bool]>,
    ) -> (r: Option<Self>)
        ensures
            r is None <==> (option_names matches Some(names) && !(option_values matches Some(
                values,
            ) && values@.len() == names@.len())),
            r matches Some(d) ==> {
                &&& d.aag_uid == aag_uid
                &&& d.pin_protocols@ == (match pin_protocols {
                    Some(p) => p@,
                    None => Seq::empty(),
                })
                &&& d.extensions@ == (match extensions {
                    Some(e) => e@,
                    None => Seq::empty(),
                })
                &&& d.ctap_versions@ == (match ctap_versions {
                    Some(v) => v@,
                    None => Seq::empty(),
                })
                &&& d.options@ == (match (option_names, option_values) {
                    (Some(names), Some(values)) => options_map(zipped(names@, values@)),
                    _ => Map::empty(),
                })
            },
    {
        let empty_protocols: &'a [u8] = &[];
        let pin_protocols = match pin_protocols {
            Some(p) => p,
            None => empty_protocols,
        };
        let extensions = match extensions {
            Some(e) => e,
            None => Vec::new(),
        };
        let ctap_versions = match ctap_versions {
            Some(v) => v,
            None => Vec::new(),
        };
        let mut pairs: Vec<(&'a str, bool)> = Vec::new();
        match option_names {
            Some(names) => {
                let values = match option_values {
                    Some(values) => values,
                    None => {
                        return None;
                    },
                };
                if values.len() != names.len() {
                    return None;
                }
                let mut i: usize = 0;
                while i < names.len()
                    invariant
                        i <= names@.len(),
                        values@.len() == names@.len(),
                        pairs@ == zipped(names@, values@).take(i as int),
                    decreases names@.len() - i,
                {
                    pairs.push((names[i], values[i]));
                    i = i + 1;
                    assert(pairs@ =~= zipped(names@, values@).take(i as int));
                }
                assert(pairs@ =~= zipped(names@, values@));
            },
            None => {},
        }
        let r = CBORDataRef {
            aag_uid,
            pin_protocols,
            extensions,
            ctap_versions,
            options: CapabilityOptions { pairs },
        };
        assert(r.options@ == options_map(pairs@));
        Some(r)
    }
}

} // verus!
