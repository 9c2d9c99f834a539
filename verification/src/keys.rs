//! The parsed, immutable representation of one fetched set of keys.

use vstd::prelude::*;

verus! {

/// One algorithm-specific key-material field, kept verbatim under its JSON
/// member name (for instance the RSA modulus under `"n"`). The value is
/// opaque text: this library never interprets it.
#[derive(Clone, Debug, PartialEq, Eq)]
pub struct KeyParam {
    pub name: String,
    pub value: String,
}

/// One signing key of a key set. `kid` is the lookup key; everything else is
/// carried for the consumer and never interpreted here. Immutable once
/// constructed.
#[derive(Clone, Debug, PartialEq, Eq)]
pub struct JsonWebKey {
    /// The key identifier, required and used as the lookup key.
    pub kid: String,
    /// The key type, required.
    pub kty: String,
    /// The intended use, when the source states one.
    pub key_use: Option<String>,
    /// The algorithm, when the source states one.
    pub alg: Option<String>,
    /// The algorithm-specific key material, opaque to this library.
    pub params: Vec<KeyParam>,
}

/// An ordered collection of keys, as received in one fetch. Lookup is by
/// `kid`; when the source delivers duplicate identifiers, the first
/// occurrence wins, matching arrival order.
#[derive(Clone, Debug, PartialEq, Eq)]
pub struct KeySet {
    pub keys: Vec<JsonWebKey>,
}

/// The mathematical model of one key: every field by its character data,
/// the key material as (name, value) pairs in arrival order.
pub ghost struct JwkModel {
    pub kid: Seq<char>,
    pub kty: Seq<char>,
    pub key_use: Option<Seq<char>>,
    pub alg: Option<Seq<char>>,
    pub params: Seq<(Seq<char>, Seq<char>)>,
}

impl DeepView for KeyParam {
    type V = (Seq<char>, Seq<char>);

    open spec fn deep_view(&self) -> (Seq<char>, Seq<char>) {
        (self.name@, self.value@)
    }
}

impl DeepView for JsonWebKey {
    type V = JwkModel;

    open spec fn deep_view(&self) -> JwkModel {
        JwkModel {
            kid: self.kid@,
            kty: self.kty@,
            key_use: self.key_use.deep_view(),
            alg: self.alg.deep_view(),
            params: self.params.deep_view(),
        }
    }
}

impl View for KeySet {
    type V = Seq<JwkModel>;

    open spec fn view(&self) -> Seq<JwkModel> {
        self.keys.deep_view()
    }
}

/// Whether some key in `keys` carries the identifier `kid`.
pub open spec fn has_kid(keys: Seq<JsonWebKey>, kid: Seq<char>) -> bool {
    exists|i: int| 0 <= i < keys.len() && #[trigger] keys[i].kid@ == kid
}

/// `k` is the first key of `keys` whose identifier is `kid`.
pub open spec fn is_first_match(keys: Seq<JsonWebKey>, kid: Seq<char>, k: JsonWebKey) -> bool {
    exists|i: int|
        #![auto]
        {
            &&& 0 <= i < keys.len()
            &&& keys[i] == k
            &&& keys[i].kid@ == kid
            &&& forall|j: int| 0 <= j < i ==> keys[j].kid@ != kid
        }
}

/// Relies on `str`'s `PartialEq`: two string slices are equal exactly when
/// their character sequences are equal.
#[verifier::external_body]
fn str_eq(a: &str, b: &str) -> (r: bool)
    ensures
        r == (a@ == b@),
{
    a == b
}

impl KeySet {
    /// A key set with no keys.
    pub fn empty() -> (ks: KeySet)
        ensures
            ks.keys@.len() == 0,
    {
        KeySet { keys: Vec::new() }
    }

    /// How many keys the set holds.
    pub fn len(&self) -> (n: usize)
        ensures
            n == self.keys@.len(),
    {
        self.keys.len()
    }

    /// The first key whose identifier equals `kid`, or `None` when no key
    /// carries it. Never mutates the set.
    pub fn find<'a>(&'a self, kid: &str) -> (r: Option<&'a JsonWebKey>)
        ensures
            match r {
                Some(k) => is_first_match(self.keys@, kid@, *k),
                None => !has_kid(self.keys@, kid@),
            },
    {
        let mut i: usize = 0;
        while i < self.keys.len()
            invariant
                i <= self.keys@.len(),
                forall|j: int| 0 <= j < i ==> #[trigger] self.keys@[j].kid@ != kid@,
            decreases self.keys@.len() - i,
        {
            if str_eq(self.keys[i].kid.as_str(), kid) {
                return Some(&self.keys[i]);
            }
            i = i + 1;
        }
        None
    }
}

} // verus!
