//! Resolution of a token's key identifier to symmetric key material.
//!
//! A key set is loaded once, at startup, from the JSON text of a JSON Web
//! Key Set.  Entries without a key id are skipped; on a duplicate key id the
//! first occurrence wins; only octet (symmetric, base64url-encoded) key
//! material is accepted — any other key type fails construction with a
//! server fault naming the key id.  Resolution then never fails on the
//! server side: a missing key id in the token header and an unknown key id
//! are client faults with their own status codes.

use vstd::prelude::*;

use base64ct::Encoding;

use crate::status::{BAD_REQUEST, NOT_FOUND};

verus! {

/// The declaration of [`jsonwebtoken::Algorithm`], the signing algorithm a
/// token's header names.  The library carries it through to signature
/// validation without inspecting it.
#[verifier::external_type_specification]
#[verifier::external_body]
pub struct ExAlgorithm(jsonwebtoken::Algorithm);

/// What the library reads from a token's header: the declared signing
/// algorithm and the identifier of the key that allegedly signed the token.
pub struct TokenHeader {
    /// The algorithm the verification routine is selected by.
    pub alg: jsonwebtoken::Algorithm,
    /// The key identifier, if the header carries one.
    pub kid: Option<String>,
}

/// Mathematical model of a [`TokenHeader`]: the key id it declares.  The
/// algorithm is carried through to signature validation opaquely and has
/// no model.
#[verifier::ext_equal]
pub struct TokenHeaderView {
    pub kid: Option<Seq<char>>,
}

impl View for TokenHeader {
    type V = TokenHeaderView;

    open spec fn view(&self) -> TokenHeaderView {
        TokenHeaderView {
            kid: match self.kid {
                Some(ref kid) => Some(kid@),
                None => None,
            },
        }
    }
}

/// Key-resolution failures that are the client's fault.
#[derive(Debug)]
pub enum ClientError {
    /// The token header carries no key id field.
    HeaderKidNotFound,
    /// The token header names a key id the store does not hold.
    UnknownKeyId { kid: String },
}

impl ClientError {
    /// The status code this fault maps to at the network boundary.
    pub open spec fn spec_status_code(&self) -> u16 {
        match self {
            ClientError::HeaderKidNotFound => BAD_REQUEST,
            ClientError::UnknownKeyId { .. } => NOT_FOUND,
        }
    }

    /// Returns the status code this fault maps to: a missing key id field is
    /// a malformed request, an unknown key id is a failed lookup.
    pub fn status_code(&self) -> (code: u16)
        ensures
            code == self.spec_status_code(),
    {
        match self {
            ClientError::HeaderKidNotFound => BAD_REQUEST,
            ClientError::UnknownKeyId { .. } => NOT_FOUND,
        }
    }
}

impl crate::authspec::ClientError for ClientError {
    fn status_code(&self) -> u16 {
        self.status_code()
    }
}

/// Key-store construction failures: all server faults, since the key set is
/// supplied by the operator, not the client.
#[derive(Debug)]
pub enum ServerError {
    /// The key set text was not a parsable JSON Web Key Set.
    SetParse,
    /// The named key's material was not valid base64url.
    KeyDecodeBase64 { kid: String },
    /// The named key is not octet key material, the only kind supported.
    KeyTypeUnsupported { kid: String },
}

/// One entry of a parsed key set, reduced to what construction reads: the
/// optional key id and the key material, when it is of the octet kind.
pub struct JwkEntry {
    /// The entry's key id, if it has one.
    pub kid: Option<String>,
    /// The entry's key material.
    pub params: JwkParams,
}

/// The key material of one key-set entry.
pub enum JwkParams {
    /// Octet (symmetric) key material, base64url-encoded.
    Octet { value: String },
    /// Any other key type; construction rejects it.
    Unsupported,
}

/// Mathematical model of a [`JwkEntry`].
#[verifier::ext_equal]
pub struct JwkEntryView {
    pub kid: Option<Seq<char>>,
    pub params: JwkParamsView,
}

/// Mathematical model of [`JwkParams`].
#[verifier::ext_equal]
pub enum JwkParamsView {
    Octet { value: Seq<char> },
    Unsupported,
}

impl View for JwkParams {
    type V = JwkParamsView;

    open spec fn view(&self) -> JwkParamsView {
        match self {
            JwkParams::Octet { value } => JwkParamsView::Octet { value: value@ },
            JwkParams::Unsupported => JwkParamsView::Unsupported,
        }
    }
}

impl View for JwkEntry {
    type V = JwkEntryView;

    open spec fn view(&self) -> JwkEntryView {
        JwkEntryView {
            kid: match self.kid {
                Some(ref kid) => Some(kid@),
                None => None,
            },
            params: self.params@,
        }
    }
}

/// The model of a sequence of key-set entries.
pub open spec fn jwk_entries_view(entries: Seq<JwkEntry>) -> Seq<JwkEntryView> {
    entries.map_values(|e: JwkEntry| e@)
}

/// What decoding a base64url-encoded octet key yields: the decoded bytes
/// zero-padded to the store's fixed 32-byte key buffer, or nothing when the
/// text is not valid base64url of at most 32 bytes.  The result depends on
/// the text alone.
pub uninterp spec fn b64url_key_bytes(value: Seq<char>) -> Option<Seq<u8>>;

/// Relies on base64ct's `Base64Url::decode`: decodes base64url text into a
/// fixed 32-byte buffer, failing on invalid encodings and on input that
/// decodes to more than 32 bytes.  The buffer keeps its zero padding beyond
/// the decoded length, as the key store expects.
#[verifier::external_body]
fn decode_octet_key(value: &str) -> (r: Option<Vec<u8>>)
    ensures
        match r {
            Some(key) => b64url_key_bytes(value@) == Some(key@) && key@.len() == 32,
            None => b64url_key_bytes(value@) is None,
        },
{
    let mut buf: [u8; 32] = [0; 32];
    match base64ct::Base64Url::decode(value, &mut buf) {
        Ok(_) => Some(buf.to_vec()),
        Err(_) => None,
    }
}

/// What parsing the JSON text of a key set yields: the entry list, each
/// entry reduced to its key id and its key material, in the order the set
/// lists them, or nothing when the text is not a parsable JSON Web Key
/// Set.  The result depends on the text alone.
pub uninterp spec fn jwk_set_of(text: Seq<char>) -> Option<Seq<JwkEntryView>>;

/// Relies on serde_json and jsonwebtoken's `jwk::JwkSet`: parses the JSON
/// text of a JSON Web Key Set and hands each entry back reduced to its key
/// id and its key material (octet material as its base64url text, any other
/// kind marked unsupported), in the order the set lists them.
#[verifier::external_body]
fn parse_jwk_set(text: &str) -> (r: Option<Vec<JwkEntry>>)
    ensures
        match r {
            Some(entries) => jwk_set_of(text@) == Some(jwk_entries_view(entries@)),
            None => jwk_set_of(text@) is None,
        },
{
    let set: jsonwebtoken::jwk::JwkSet = match serde_json::from_str(text) {
        Ok(set) => set,
        Err(_) => return None,
    };
    let mut entries = Vec::new();
    for key in set.keys {
        let params = match key.algorithm {
            jsonwebtoken::jwk::AlgorithmParameters::OctetKey(oct) => JwkParams::Octet { value: oct.value },
            _ => JwkParams::Unsupported,
        };
        entries.push(JwkEntry { kid: key.common.key_id, params });
    }
    Some(entries)
}

/// A construction failure, at the model level.
#[verifier::ext_equal]
pub enum KeyStoreFault {
    /// The named key's material was not valid base64url.
    BadEncoding { kid: Seq<char> },
    /// The named key is not octet key material.
    Unsupported { kid: Seq<char> },
}

/// Whether the store already holds a key under `kid`.
pub open spec fn has_kid(store: Seq<(Seq<char>, Seq<u8>)>, kid: Seq<char>) -> bool {
    exists|i: int| 0 <= i < store.len() && (#[trigger] store[i]).0 == kid
}

/// All key ids in the store are distinct.
pub open spec fn distinct_kids(store: Seq<(Seq<char>, Seq<u8>)>) -> bool {
    forall|i: int, j: int|
        0 <= i < j < store.len() ==> (#[trigger] store[i]).0 != (#[trigger] store[j]).0
}

/// The key stored under `kid`, if any: the value of the first pair whose id
/// matches.
pub open spec fn lookup(store: Seq<(Seq<char>, Seq<u8>)>, kid: Seq<char>) -> Option<Seq<u8>>
    decreases store.len(),
{
    if store.len() == 0 {
        None
    } else if store[0].0 == kid {
        Some(store[0].1)
    } else {
        lookup(store.drop_first(), kid)
    }
}

/// What key-store construction makes of the remaining entries, given the
/// store built so far: entries without a key id are skipped, a duplicate key
/// id keeps the first occurrence, invalid base64url and non-octet material
/// abort with a fault naming the key id.
pub open spec fn spec_build_store_from(
    entries: Seq<JwkEntryView>,
    acc: Seq<(Seq<char>, Seq<u8>)>,
) -> Result<Seq<(Seq<char>, Seq<u8>)>, KeyStoreFault>
    decreases entries.len(),
{
    if entries.len() == 0 {
        Ok(acc)
    } else {
        let e = entries[0];
        match e.kid {
            None => spec_build_store_from(entries.drop_first(), acc),
            Some(kid) => match e.params {
                JwkParamsView::Unsupported => Err(KeyStoreFault::Unsupported { kid }),
                JwkParamsView::Octet { value } => match b64url_key_bytes(value) {
                    None => Err(KeyStoreFault::BadEncoding { kid }),
                    Some(key) => if has_kid(acc, kid) {
                        spec_build_store_from(entries.drop_first(), acc)
                    } else {
                        spec_build_store_from(entries.drop_first(), acc.push((kid, key)))
                    },
                },
            },
        }
    }
}

/// What key-store construction makes of a parsed entry list.
pub open spec fn spec_build_store(
    entries: Seq<JwkEntryView>,
) -> Result<Seq<(Seq<char>, Seq<u8>)>, KeyStoreFault> {
    spec_build_store_from(entries, Seq::empty())
}

/// A capability that maps a token's header to the key that verifies the
/// token's signature, or to a classified client fault.  Intended for shared,
/// read-only use, so resolution takes `&self`.
pub trait KeyResolver: Sized {
    /// Whether the resolver's internal state is well formed.
    spec fn wf(&self) -> bool;

    /// The key the resolver holds under `kid`, if any.
    spec fn spec_key_for(&self, kid: Seq<char>) -> Option<Seq<u8>>;

    /// Resolves the header's key id to key material: no key id field is a
    /// client fault mapping to 400, an unknown key id one mapping to 404,
    /// and a held key id yields exactly the held key.
    fn resolve_key(&self, header: &TokenHeader) -> (r: Result<Vec<u8>, ClientError>)
        requires
            self.wf(),
        ensures
            match header.kid {
                None => r == Err::<Vec<u8>, ClientError>(ClientError::HeaderKidNotFound),
                Some(kid) => match self.spec_key_for(kid@) {
                    Some(key) => r matches Ok(k) && k@ == key,
                    None => r matches Err(ClientError::UnknownKeyId { kid: k }) && k@ == kid@,
                },
            };
}

/// The key-id-backed [`KeyResolver`]: an in-memory association from key id
/// to 32 bytes of symmetric key material, loaded once from a key-set file's
/// text.
#[derive(Debug)]
pub struct KidResolver {
    store: Vec<(String, Vec<u8>)>,
}

/// The model of the in-memory key store.
pub open spec fn store_view(store: Seq<(String, Vec<u8>)>) -> Seq<(Seq<char>, Seq<u8>)> {
    store.map_values(|p: (String, Vec<u8>)| (p.0@, p.1@))
}

impl View for KidResolver {
    type V = Seq<(Seq<char>, Seq<u8>)>;

    closed spec fn view(&self) -> Seq<(Seq<char>, Seq<u8>)> {
        store_view(self.store@)
    }
}

/// Whether the store already holds `kid`, executably.
fn contains_kid(store: &Vec<(String, Vec<u8>)>, kid: &String) -> (r: bool)
    ensures
        r == has_kid(store_view(store@), kid@),
{
    let n = store.len();
    for i in 0..n
        invariant
            n == store@.len(),
            forall|k: int| 0 <= k < i ==> (#[trigger] store_view(store@)[k]).0 != kid@,
    {
        if store[i].0 == *kid {
            proof {
                assert(store_view(store@)[i as int].0 == kid@);
            }
            return true;
        }
    }
    false
}

/// If the first `n` pairs of the store do not carry `kid`, the lookup is
/// decided at or after index `n`.
proof fn lemma_lookup_from(store: Seq<(Seq<char>, Seq<u8>)>, kid: Seq<char>, n: int)
    requires
        0 <= n <= store.len(),
        forall|k: int| 0 <= k < n ==> (#[trigger] store[k]).0 != kid,
    ensures
        n == store.len() ==> lookup(store, kid) is None,
        n < store.len() && store[n].0 == kid ==> lookup(store, kid) == Some(store[n].1),
    decreases n,
{
    if n > 0 {
        lemma_lookup_from(store.drop_first(), kid, n - 1);
    }
}

impl KidResolver {
    /// Builds the resolver from the JSON text of a JSON Web Key Set, as read
    /// from the key-store file at startup.  Unparsable text is the parse
    /// fault, exactly; a parsable set is handed to the construction rules
    /// of [`spec_build_store`] — entries without a key id skipped, the
    /// first of duplicate ids kept, non-octet or undecodable keys a fault
    /// naming the key id — and a well-formed store with exactly that
    /// content comes back whenever they succeed.
    pub fn new(text: &str) -> (r: Result<KidResolver, ServerError>)
        ensures
            jwk_set_of(text@) is None <==> r == Err::<KidResolver, _>(ServerError::SetParse),
            jwk_set_of(text@) matches Some(entries) ==> match spec_build_store(entries) {
                Ok(store) => r matches Ok(kr) && kr@ == store && kr.wf(),
                Err(fault) => match fault {
                    KeyStoreFault::BadEncoding { kid } => r matches Err(
                        ServerError::KeyDecodeBase64 { kid: k },
                    ) && k@ == kid,
                    KeyStoreFault::Unsupported { kid } => r matches Err(
                        ServerError::KeyTypeUnsupported { kid: k },
                    ) && k@ == kid,
                },
            },
    {
        match parse_jwk_set(text) {
            Some(entries) => Self::from_entries(&entries),
            None => Err(ServerError::SetParse),
        }
    }

    /// Builds the resolver from an already parsed entry list, exactly as
    /// [`spec_build_store`] prescribes: entries without a key id are skipped
    /// with nothing recorded, the first occurrence of a key id wins, and the
    /// first non-octet or undecodable keyed entry aborts construction with
    /// the fault naming its key id.
    pub fn from_entries(entries: &Vec<JwkEntry>) -> (r: Result<KidResolver, ServerError>)
        ensures
            r matches Ok(kr) ==> kr.wf()
                && Ok::<_, KeyStoreFault>(kr@) == spec_build_store(jwk_entries_view(entries@)),
            r matches Err(e) ==> match e {
                ServerError::KeyDecodeBase64 { kid } => spec_build_store(
                    jwk_entries_view(entries@),
                ) == Err::<Seq<(Seq<char>, Seq<u8>)>, _>(KeyStoreFault::BadEncoding { kid: kid@ }),
                ServerError::KeyTypeUnsupported { kid } => spec_build_store(
                    jwk_entries_view(entries@),
                ) == Err::<Seq<(Seq<char>, Seq<u8>)>, _>(KeyStoreFault::Unsupported { kid: kid@ }),
                ServerError::SetParse => false,
            },
    {
        let ghost ev = jwk_entries_view(entries@);
        let mut store: Vec<(String, Vec<u8>)> = Vec::new();
        let n = entries.len();
        proof {
            assert(ev.skip(0) =~~= ev);
            assert(store_view(store@) =~~= Seq::<(Seq<char>, Seq<u8>)>::empty());
        }
        for i in 0..n
            invariant
                n == entries@.len(),
                ev == jwk_entries_view(entries@),
                distinct_kids(store_view(store@)),
                spec_build_store_from(ev.skip(i as int), store_view(store@))
                    == spec_build_store(ev),
        {
            let ghost pre = store_view(store@);
            proof {
                assert(ev.skip(i as int)[0] =~~= ev[i as int]);
                assert(ev.skip(i as int).drop_first() =~~= ev.skip(i + 1));
            }
            let e = &entries[i];
            match &e.kid {
                None => {},
                Some(kid) => {
                    match &e.params {
                        JwkParams::Unsupported => {
                            return Err(ServerError::KeyTypeUnsupported { kid: kid.clone() });
                        },
                        JwkParams::Octet { value } => {
                            match decode_octet_key(value.as_str()) {
                                None => {
                                    return Err(ServerError::KeyDecodeBase64 { kid: kid.clone() });
                                },
                                Some(key) => {
                                    if !contains_kid(&store, kid) {
                                        let ghost keyv = key@;
                                        store.push((kid.clone(), key));
                                        proof {
                                            assert(store_view(store@)
                                                =~~= pre.push((kid@, keyv)));
                                        }
                                    }
                                },
                            }
                        },
                    }
                },
            }
        }
        proof {
            assert(ev.skip(n as int) =~~= Seq::<JwkEntryView>::empty());
        }
        let r = KidResolver { store };
        proof {
            assert(r@ == store_view(r.store@));
        }
        Ok(r)
    }
}

impl KeyResolver for KidResolver {
    /// The store never holds two keys under one id.
    open spec fn wf(&self) -> bool {
        distinct_kids(self@)
    }

    /// The key under `kid` is the first (and, well-formed, only) match.
    open spec fn spec_key_for(&self, kid: Seq<char>) -> Option<Seq<u8>> {
        lookup(self@, kid)
    }

    fn resolve_key(&self, header: &TokenHeader) -> (r: Result<Vec<u8>, ClientError>) {
        let kid = match &header.kid {
            Some(kid) => kid,
            None => {
                return Err(ClientError::HeaderKidNotFound);
            },
        };
        proof {
            assert(header.kid matches Some(k) && k@ == kid@);
        }
        let n = self.store.len();
        for i in 0..n
            invariant
                n == self.store@.len(),
                header.kid matches Some(k) && k@ == kid@,
                forall|k: int| 0 <= k < i ==> (#[trigger] self@[k]).0 != kid@,
        {
            if self.store[i].0 == *kid {
                let key = self.store[i].1.clone();
                proof {
                    assert(self@[i as int].0 == kid@);
                    lemma_lookup_from(self@, kid@, i as int);
                    assert(key@ =~= self@[i as int].1);
                }
                return Ok(key);
            }
        }
        proof {
            lemma_lookup_from(self@, kid@, n as int);
        }
        Err(ClientError::UnknownKeyId { kid: kid.clone() })
    }
}

} // verus!
