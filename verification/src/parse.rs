//! Parsing a fetched JWKS document into a [`KeySet`].
//!
//! The JSON syntax itself is read by serde_json behind the one trusted
//! wrapper below, which hands the document over as plain member data; what
//! that data parses to — an object whose `keys` member is an array of key
//! objects with a required `kid` and `kty` — is this library's own logic and
//! is verified against the model-level rules. Any shape violation rejects
//! the whole document atomically with [`FetchError::Malformed`]: nothing
//! half-parsed is ever produced.

use vstd::prelude::*;

use crate::errors::FetchError;
use crate::keys::{JsonWebKey, JwkModel, KeyParam, KeySet};

verus! {

/// What one member read out of a key object looks like as plain data:
/// absent (`None`), present but not a string (`Some(None)`), or a string
/// (`Some(Some(text))`).
pub type MemberText = Option<Option<String>>;

/// One element of the `keys` array, read out as plain member data before
/// any shape rule is applied: the identifying members and the key-material
/// members this library carries.
pub struct RawKey {
    pub kid: MemberText,
    pub kty: MemberText,
    pub key_use: MemberText,
    pub alg: MemberText,
    pub n: MemberText,
    pub e: MemberText,
    pub crv: MemberText,
    pub x: MemberText,
    pub y: MemberText,
    pub k: MemberText,
}

/// The model of one raw key: each member by its character data.
pub ghost struct RawKeyModel {
    pub kid: Option<Option<Seq<char>>>,
    pub kty: Option<Option<Seq<char>>>,
    pub key_use: Option<Option<Seq<char>>>,
    pub alg: Option<Option<Seq<char>>>,
    pub n: Option<Option<Seq<char>>>,
    pub e: Option<Option<Seq<char>>>,
    pub crv: Option<Option<Seq<char>>>,
    pub x: Option<Option<Seq<char>>>,
    pub y: Option<Option<Seq<char>>>,
    pub k: Option<Option<Seq<char>>>,
}

impl DeepView for RawKey {
    type V = RawKeyModel;

    open spec fn deep_view(&self) -> RawKeyModel {
        RawKeyModel {
            kid: self.kid.deep_view(),
            kty: self.kty.deep_view(),
            key_use: self.key_use.deep_view(),
            alg: self.alg.deep_view(),
            n: self.n.deep_view(),
            e: self.e.deep_view(),
            crv: self.crv.deep_view(),
            x: self.x.deep_view(),
            y: self.y.deep_view(),
            k: self.k.deep_view(),
        }
    }
}

/// What serde_json's parse makes of a JWKS body: `None` when the body is no
/// JSON document carrying a `keys` array, else the array's elements as
/// plain member data, in order. The outcome is a function of the body
/// alone; [`read_shape`] returns it.
pub uninterp spec fn jwks_shape_of(body: Seq<char>) -> Option<Seq<RawKeyModel>>;

/// Relies on serde_json::from_str and serde_json::Value's get, as_str and
/// as_array accessors: parses the body as one JSON document and reads each
/// element of its `keys` array out as plain member data. The result depends
/// on the body alone; `jwks_shape_of` names it.
#[verifier::external_body]
fn read_shape(body: &str) -> (r: Option<Vec<RawKey>>)
    ensures
        r matches Some(v) ==> jwks_shape_of(body@) matches Some(s) && v.deep_view() == s,
        r is None ==> jwks_shape_of(body@) is None,
{
    let doc: serde_json::Value = serde_json::from_str(body).ok()?;
    let arr = doc.get("keys")?.as_array()?;
    let member = |v: &serde_json::Value, key: &str| v.get(key).map(|m| m.as_str().map(str::to_owned));
    Some(arr.iter().map(|v| RawKey {
        kid: member(v, "kid"), kty: member(v, "kty"), key_use: member(v, "use"),
        alg: member(v, "alg"), n: member(v, "n"), e: member(v, "e"), crv: member(v, "crv"),
        x: member(v, "x"), y: member(v, "y"), k: member(v, "k"),
    }).collect())
}

/// The shape rule for a required string member: only a present string is
/// accepted; an absent or non-string member rejects the key set.
pub fn required_field(m: MemberText) -> (r: Result<String, FetchError>)
    ensures
        match m {
            Some(Some(s)) => r == Ok::<String, FetchError>(s),
            _ => r == Err::<String, FetchError>(FetchError::Malformed),
        },
{
    match m {
        Some(Some(s)) => Ok(s),
        _ => Err(FetchError::Malformed),
    }
}

/// The shape rule for an optional string member: absent is an empty result;
/// present but not a string rejects the key set.
pub fn optional_field(m: MemberText) -> (r: Result<Option<String>, FetchError>)
    ensures
        match m {
            Some(Some(s)) => r == Ok::<Option<String>, FetchError>(Some(s)),
            Some(None) => r == Err::<Option<String>, FetchError>(FetchError::Malformed),
            None => r == Ok::<Option<String>, FetchError>(None),
        },
{
    match m {
        Some(Some(s)) => Ok(Some(s)),
        Some(None) => Err(FetchError::Malformed),
        None => Ok(None),
    }
}

/// The shape rule for one key-material member: an absent member is skipped,
/// a string is appended verbatim under its name, and anything else rejects
/// the key set (leaving `params` untouched).
pub fn material_field(params: &mut Vec<KeyParam>, name: &str, m: MemberText) -> (r: Result<
    (),
    FetchError,
>)
    ensures
        match m {
            Some(Some(s)) => r is Ok && (exists|p: KeyParam|
                #![auto]
                final(params)@ == old(params)@.push(p) && p.name@ == name@ && p.value == s),
            Some(None) => r == Err::<(), FetchError>(FetchError::Malformed) && final(params)@
                == old(params)@,
            None => r is Ok && final(params)@ == old(params)@,
        },
{
    match m {
        Some(Some(s)) => {
            let p = KeyParam { name: name.to_owned(), value: s };
            params.push(p);
            Ok(())
        },
        Some(None) => Err(FetchError::Malformed),
        None => Ok(()),
    }
}

/// The model-level rule of [`material_field`]: the key-material pairs one
/// member contributes — one pair for a present string, none for an absent
/// member.
pub open spec fn spec_material(name: Seq<char>, m: Option<Option<Seq<char>>>) -> Seq<
    (Seq<char>, Seq<char>),
> {
    match m {
        Some(Some(s)) => seq![(name, s)],
        _ => Seq::empty(),
    }
}

/// Whether one raw key passes every shape rule: the required members are
/// present as strings; the optional and material members are absent or
/// strings.
pub open spec fn raw_key_well_formed(rk: RawKeyModel) -> bool {
    &&& rk.kid matches Some(Some(_))
    &&& rk.kty matches Some(Some(_))
    &&& !(rk.key_use matches Some(None))
    &&& !(rk.alg matches Some(None))
    &&& !(rk.n matches Some(None))
    &&& !(rk.e matches Some(None))
    &&& !(rk.crv matches Some(None))
    &&& !(rk.x matches Some(None))
    &&& !(rk.y matches Some(None))
    &&& !(rk.k matches Some(None))
}

/// The key a well-formed raw key parses to: the required and optional
/// members by value, the material pairs in the fixed member order.
pub open spec fn spec_key_of(rk: RawKeyModel) -> JwkModel {
    JwkModel {
        kid: match rk.kid {
            Some(Some(s)) => s,
            _ => Seq::empty(),
        },
        kty: match rk.kty {
            Some(Some(s)) => s,
            _ => Seq::empty(),
        },
        key_use: match rk.key_use {
            Some(Some(s)) => Some(s),
            _ => None,
        },
        alg: match rk.alg {
            Some(Some(s)) => Some(s),
            _ => None,
        },
        params: spec_material("n"@, rk.n) + spec_material("e"@, rk.e) + spec_material(
            "crv"@,
            rk.crv,
        ) + spec_material("x"@, rk.x) + spec_material("y"@, rk.y) + spec_material("k"@, rk.k),
    }
}

/// What the whole parse returns, as a function of the named shape:
/// `Malformed` when the body carries no `keys` array or any key breaks a
/// shape rule, else exactly the parsed keys, in arrival order.
pub open spec fn spec_parse_key_set(shape: Option<Seq<RawKeyModel>>) -> Result<
    Seq<JwkModel>,
    FetchError,
> {
    match shape {
        None => Err(FetchError::Malformed),
        Some(s) => if forall|i: int| 0 <= i < s.len() ==> raw_key_well_formed(#[trigger] s[i]) {
            Ok(Seq::new(s.len(), |i: int| spec_key_of(s[i])))
        } else {
            Err(FetchError::Malformed)
        },
    }
}

/// A copy of one member; `String::clone` keeps the value exactly.
fn clone_member(m: &MemberText) -> (r: MemberText)
    ensures
        r == *m,
{
    match m {
        Some(Some(s)) => Some(Some(s.clone())),
        Some(None) => Some(None),
        None => None,
    }
}

/// Applies every shape rule to one raw key: exactly the well-formed keys
/// parse, each to exactly the key its model gives.
pub fn extract_key(rk: &RawKey) -> (r: Result<JsonWebKey, FetchError>)
    ensures
        raw_key_well_formed(rk.deep_view()) ==> (r matches Ok(k) && k.deep_view() == spec_key_of(
            rk.deep_view(),
        )),
        !raw_key_well_formed(rk.deep_view()) ==> r == Err::<JsonWebKey, FetchError>(
            FetchError::Malformed,
        ),
{
    let ghost m = rk.deep_view();
    let kid = match required_field(clone_member(&rk.kid)) {
        Ok(s) => s,
        Err(e) => { return Err(e) },
    };
    let kty = match required_field(clone_member(&rk.kty)) {
        Ok(s) => s,
        Err(e) => { return Err(e) },
    };
    let key_use = match optional_field(clone_member(&rk.key_use)) {
        Ok(o) => o,
        Err(e) => { return Err(e) },
    };
    let alg = match optional_field(clone_member(&rk.alg)) {
        Ok(o) => o,
        Err(e) => { return Err(e) },
    };
    let mut params: Vec<KeyParam> = Vec::new();
    match material_field(&mut params, "n", clone_member(&rk.n)) {
        Ok(()) => (),
        Err(e) => { return Err(e) },
    }
    proof {
        assert(params.deep_view() =~= spec_material("n"@, m.n));
    }
    match material_field(&mut params, "e", clone_member(&rk.e)) {
        Ok(()) => (),
        Err(e) => { return Err(e) },
    }
    proof {
        assert(params.deep_view() =~= spec_material("n"@, m.n) + spec_material("e"@, m.e));
    }
    match material_field(&mut params, "crv", clone_member(&rk.crv)) {
        Ok(()) => (),
        Err(e) => { return Err(e) },
    }
    proof {
        assert(params.deep_view() =~= spec_material("n"@, m.n) + spec_material("e"@, m.e)
            + spec_material("crv"@, m.crv));
    }
    match material_field(&mut params, "x", clone_member(&rk.x)) {
        Ok(()) => (),
        Err(e) => { return Err(e) },
    }
    proof {
        assert(params.deep_view() =~= spec_material("n"@, m.n) + spec_material("e"@, m.e)
            + spec_material("crv"@, m.crv) + spec_material("x"@, m.x));
    }
    match material_field(&mut params, "y", clone_member(&rk.y)) {
        Ok(()) => (),
        Err(e) => { return Err(e) },
    }
    proof {
        assert(params.deep_view() =~= spec_material("n"@, m.n) + spec_material("e"@, m.e)
            + spec_material("crv"@, m.crv) + spec_material("x"@, m.x) + spec_material(
            "y"@,
            m.y,
        ));
    }
    match material_field(&mut params, "k", clone_member(&rk.k)) {
        Ok(()) => (),
        Err(e) => { return Err(e) },
    }
    proof {
        assert(params.deep_view() =~= spec_key_of(m).params);
    }
    let key = JsonWebKey { kid, kty, key_use, alg, params };
    proof {
        assert(key.deep_view() == spec_key_of(m));
    }
    Ok(key)
}

/// Parses the body of a JWKS document: exactly what the model-level rules
/// make of the named parse outcome. A body without a `keys` array, or with
/// any key that breaks a shape rule, is rejected wholesale with
/// [`FetchError::Malformed`]; otherwise the result holds exactly the parsed
/// keys, in arrival order.
pub fn parse_key_set(body: &str) -> (r: Result<KeySet, FetchError>)
    ensures
        match spec_parse_key_set(jwks_shape_of(body@)) {
            Ok(models) => r matches Ok(ks) && ks@ == models,
            Err(e) => r == Err::<KeySet, FetchError>(e),
        },
{
    let raw = match read_shape(body) {
        Some(v) => v,
        None => { return Err(FetchError::Malformed) },
    };
    let ghost s = raw.deep_view();
    proof {
        assert(s.len() == raw@.len());
    }
    let mut keys: Vec<JsonWebKey> = Vec::new();
    let mut i: usize = 0;
    while i < raw.len()
        invariant
            i <= raw@.len(),
            s == raw.deep_view(),
            s.len() == raw@.len(),
            jwks_shape_of(body@) == Some(s),
            forall|j: int| 0 <= j < i ==> raw_key_well_formed(#[trigger] s[j]),
            keys@.len() == i,
            keys.deep_view() =~= Seq::new(i as nat, |j: int| spec_key_of(s[j])),
        decreases raw@.len() - i,
    {
        match extract_key(&raw[i]) {
            Ok(k) => {
                let ghost prev_raw = keys@;
                let ghost prev = keys.deep_view();
                keys.push(k);
                proof {
                    assert(keys@ == prev_raw.push(k));
                    assert forall|j: int| 0 <= j < i + 1 implies keys.deep_view()[j]
                        == spec_key_of(s[j]) by {
                        assert(keys.deep_view()[j] == keys@[j].deep_view());
                        if j < i {
                            assert(keys@[j] == prev_raw[j]);
                            assert(prev[j] == prev_raw[j].deep_view());
                            assert(prev[j] == spec_key_of(s[j]));
                        } else {
                            assert(keys@[j] == k);
                        }
                    }
                    assert(keys.deep_view() =~= Seq::new(
                        (i + 1) as nat,
                        |j: int| spec_key_of(s[j]),
                    ));
                }
            },
            Err(e) => {
                proof {
                    assert(!(forall|j: int|
                        0 <= j < s.len() ==> raw_key_well_formed(#[trigger] s[j]))) by {
                        assert(!raw_key_well_formed(s[i as int]));
                    }
                }
                return Err(e);
            },
        }
        i = i + 1;
    }
    proof {
        match spec_parse_key_set(jwks_shape_of(body@)) {
            Ok(models) => {
                assert(keys.deep_view() =~= models);
            },
            Err(_) => {
                assert(false);
            },
        }
    }
    Ok(KeySet { keys })
}

} // verus!
