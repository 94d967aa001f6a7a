//! Resolution of a request's `Authorization` header to an identity.
//!
//! The pipeline extracts the bearer token from the header, reads the token's
//! own header for the declared algorithm and key id, resolves the key id to
//! key material, verifies the token's signature with that key and algorithm,
//! and reads the configured claim as the identity's id.  Every failure is
//! classified: the outer level of the result is a server fault (mapping to a
//! generic 500), the inner level a client fault carrying its own status
//! code.

use vstd::prelude::*;

use crate::keyresolver;
use crate::keyresolver::{KeyResolver, TokenHeader, TokenHeaderView};
use crate::metadata::{User, UserView, placeholder_name, placeholder_user_name};
use crate::status::{BAD_REQUEST, UNAUTHORIZED};

verus! {

/// Authentication failures that are the client's fault.  Each carries what
/// the boundary needs to report it; the status code comes from
/// [`ClientError::status_code`].
#[derive(Debug)]
pub enum ClientError {
    /// The `Authorization` header's value was not readable text.
    AuthHeaderNonUtf8,
    /// The request has no `Authorization` header.
    AuthHeaderNotFound,
    /// The extracted token was not a decodable JWT.
    IllegalJwt { raw: String },
    /// The identity claim is present but neither a string nor a number.
    JwtIllegalType { claim: String, value: String },
    /// The validated token does not carry the identity claim.
    JwtMissingInitiatorClaim { claim: String },
    /// The token's signature (or a standard claim) failed validation.
    JwtValidate,
    /// Key resolution failed on the client's side.
    KeyResolve { source: keyresolver::ClientError },
    /// The header's value does not start with the literal `"Bearer "`.
    MissingBearer { raw: String },
}

impl ClientError {
    /// The status code this fault maps to at the network boundary.
    pub open spec fn spec_status_code(&self) -> u16 {
        match self {
            ClientError::AuthHeaderNonUtf8 => BAD_REQUEST,
            ClientError::AuthHeaderNotFound => BAD_REQUEST,
            ClientError::IllegalJwt { .. } => BAD_REQUEST,
            ClientError::JwtIllegalType { .. } => BAD_REQUEST,
            ClientError::JwtMissingInitiatorClaim { .. } => BAD_REQUEST,
            ClientError::JwtValidate => UNAUTHORIZED,
            ClientError::KeyResolve { source } => source.spec_status_code(),
            ClientError::MissingBearer { .. } => BAD_REQUEST,
        }
    }

    /// Returns the status code this fault maps to: a malformed request is
    /// 400, a failed signature validation 401, and a key-resolution fault
    /// carries its own code.
    pub fn status_code(&self) -> (code: u16)
        ensures
            code == self.spec_status_code(),
    {
        match self {
            ClientError::AuthHeaderNonUtf8 => BAD_REQUEST,
            ClientError::AuthHeaderNotFound => BAD_REQUEST,
            ClientError::IllegalJwt { .. } => BAD_REQUEST,
            ClientError::JwtIllegalType { .. } => BAD_REQUEST,
            ClientError::JwtMissingInitiatorClaim { .. } => BAD_REQUEST,
            ClientError::JwtValidate => UNAUTHORIZED,
            ClientError::KeyResolve { source } => source.status_code(),
            ClientError::MissingBearer { .. } => BAD_REQUEST,
        }
    }
}

/// Authentication failures that are the server's fault; the boundary maps
/// every one of them to a generic 500 with no internal detail.
#[derive(Debug)]
pub enum ServerError {
    /// The embedded key resolver failed on the server's side.
    KeyResolve,
}

/// A claim value as the identity-claim reader sees it: a JSON string, a
/// JSON number (carried as its textual form), or anything else, carried as
/// its rendering for the error report.
#[derive(Debug)]
pub enum ClaimValue {
    /// A JSON string.
    Str(String),
    /// A JSON number, rendered as text.
    Num(String),
    /// Any other JSON value, rendered for the error report.
    Other(String),
}

/// Whether a byte may appear in a header value read as text: visible
/// ASCII, space and horizontal tab, as the HTTP header grammar allows.
pub open spec fn visible_ascii(b: u8) -> bool {
    32 <= b <= 126 || b == 9
}

/// Whether every byte of the header value is visible ASCII.
pub open spec fn all_visible_ascii(s: Seq<u8>) -> bool {
    forall|i: int| 0 <= i < s.len() ==> visible_ascii(#[trigger] s[i])
}

/// ASCII bytes read as the characters with their codes.
pub open spec fn ascii_chars(s: Seq<u8>) -> Seq<char> {
    s.map_values(|b: u8| b as char)
}

/// The bytes of the literal `"Bearer "`.
pub open spec fn bearer_prefix() -> Seq<u8> {
    seq![66u8, 101u8, 97u8, 114u8, 101u8, 114u8, 32u8]
}

/// Whether the header value starts with the literal `"Bearer "`.
pub open spec fn has_bearer_prefix(s: Seq<u8>) -> bool {
    s.len() >= 7 && s.subrange(0, 7) == bearer_prefix()
}

/// The token a header value carries: everything after the `"Bearer "`
/// prefix.
pub open spec fn bearer_token(s: Seq<u8>) -> Seq<char> {
    ascii_chars(s).skip(7)
}

/// Relies on `String::from_utf8`: ASCII bytes are one-byte UTF-8 sequences,
/// so each byte comes back as the character with its code.
#[verifier::external_body]
fn ascii_to_string(bytes: &Vec<u8>) -> (r: String)
    requires
        forall|i: int| 0 <= i < bytes@.len() ==> bytes@[i] < 128,
    ensures
        r@ == ascii_chars(bytes@),
{
    String::from_utf8(bytes.clone()).unwrap_or_default()
}

/// Extracts the bearer token from the (possibly absent) `Authorization`
/// header value: a missing header, a value that is not readable text, and a
/// value without the `"Bearer "` prefix are each their own client fault,
/// mapping to 400; otherwise the token is everything after the prefix.
pub fn extract_jwt(value: Option<&Vec<u8>>) -> (r: Result<String, ClientError>)
    ensures
        match value {
            None => r == Err::<String, ClientError>(ClientError::AuthHeaderNotFound),
            Some(v) => {
                &&& !all_visible_ascii(v@) ==> r == Err::<String, ClientError>(
                    ClientError::AuthHeaderNonUtf8,
                )
                &&& all_visible_ascii(v@) && !has_bearer_prefix(v@) ==> (r matches Err(e)
                    && e matches ClientError::MissingBearer { raw } && raw@ == ascii_chars(v@))
                &&& all_visible_ascii(v@) && has_bearer_prefix(v@) ==> (r matches Ok(t)
                    && t@ == bearer_token(v@))
            },
        },
{
    let v = match value {
        Some(v) => v,
        None => {
            return Err(ClientError::AuthHeaderNotFound);
        },
    };
    let n = v.len();
    for i in 0..n
        invariant
            value matches Some(vv) && vv@ == v@,
            n == v@.len(),
            forall|k: int| 0 <= k < i ==> visible_ascii(#[trigger] v@[k]),
    {
        if (v[i] < 32 || v[i] > 126) && v[i] != 9 {
            return Err(ClientError::AuthHeaderNonUtf8);
        }
    }
    let is_bearer = n >= 7 && v[0] == 66 && v[1] == 101 && v[2] == 97 && v[3] == 114
        && v[4] == 101 && v[5] == 114 && v[6] == 32;
    if !is_bearer {
        proof {
            if has_bearer_prefix(v@) {
                assert(v@.subrange(0, 7) == bearer_prefix());
                assert forall|k: int| 0 <= k < 7 implies v@[k] == bearer_prefix()[k] by {
                    assert(v@.subrange(0, 7)[k] == v@[k]);
                }
                assert(false);
            }
        }
        let raw = ascii_to_string(v);
        return Err(ClientError::MissingBearer { raw });
    }
    proof {
        assert(v@.subrange(0, 7) =~= bearer_prefix());
    }
    let mut token_bytes: Vec<u8> = Vec::new();
    for i in 7..n
        invariant
            value matches Some(vv) && vv@ == v@,
            7 <= i <= n,
            n == v@.len(),
            all_visible_ascii(v@),
            has_bearer_prefix(v@),
            token_bytes@ == v@.subrange(7, i as int),
    {
        token_bytes.push(v[i]);
        proof {
            assert(token_bytes@ =~= v@.subrange(7, i + 1));
        }
    }
    let token = ascii_to_string(&token_bytes);
    proof {
        assert(token@ =~= ascii_chars(v@).skip(7));
    }
    Ok(token)
}

/// The value of the first claim named `name`, if any.  Validated claim
/// lists carry each name at most once, so the first match is the only one.
pub open spec fn spec_find_claim(
    claims: Seq<(String, ClaimValue)>,
    name: Seq<char>,
) -> Option<ClaimValue>
    decreases claims.len(),
{
    if claims.len() == 0 {
        None
    } else if claims[0].0@ == name {
        Some(claims[0].1)
    } else {
        spec_find_claim(claims.drop_first(), name)
    }
}

/// If the first `n` claims are not named `name`, the search is decided at
/// or after index `n`.
proof fn lemma_find_claim_from(claims: Seq<(String, ClaimValue)>, name: Seq<char>, n: int)
    requires
        0 <= n <= claims.len(),
        forall|k: int| 0 <= k < n ==> (#[trigger] claims[k]).0@ != name,
    ensures
        n == claims.len() ==> spec_find_claim(claims, name) is None,
        n < claims.len() && claims[n].0@ == name ==> spec_find_claim(claims, name)
            == Some(claims[n].1),
    decreases n,
{
    if n > 0 {
        lemma_find_claim_from(claims.drop_first(), name, n - 1);
    }
}

/// What reading the identity claim owes for a given claim list: a string
/// claim is the id itself, a numeric claim its textual form, any other
/// type the illegal-type fault naming the offending value, and an absent
/// claim the missing-claim fault; the display name is always the fixed
/// placeholder.
pub open spec fn claims_classification(
    claims: Seq<(String, ClaimValue)>,
    claim: Seq<char>,
    r: Result<User, ClientError>,
) -> bool {
    match spec_find_claim(claims, claim) {
        None => r matches Err(e) && e matches ClientError::JwtMissingInitiatorClaim {
            claim: c,
        } && c@ == claim,
        Some(v) => match v {
            ClaimValue::Str(id) => r matches Ok(u) && u@ == (UserView {
                id: id@,
                name: placeholder_name(),
            }),
            ClaimValue::Num(id) => r matches Ok(u) && u@ == (UserView {
                id: id@,
                name: placeholder_name(),
            }),
            ClaimValue::Other(d) => r matches Err(e) && e matches ClientError::JwtIllegalType {
                claim: c,
                value: val,
            } && c@ == claim && val@ == d@,
        },
    }
}

/// Reads the identity out of a validated token's claims, exactly as
/// [`claims_classification`] prescribes; the faults map to 400.
pub fn user_from_claims(claims: &Vec<(String, ClaimValue)>, claim: &String) -> (r: Result<
    User,
    ClientError,
>)
    ensures
        claims_classification(claims@, claim@, r),
{
    let n = claims.len();
    for i in 0..n
        invariant
            n == claims@.len(),
            forall|k: int| 0 <= k < i ==> (#[trigger] claims@[k]).0@ != claim@,
    {
        if claims[i].0 == *claim {
            proof {
                lemma_find_claim_from(claims@, claim@, i as int);
            }
            match &claims[i].1 {
                ClaimValue::Str(id) => {
                    let u = User { id: id.clone(), name: placeholder_user_name() };
                    proof {
                        assert(u@ =~~= (UserView { id: id@, name: placeholder_name() }));
                    }
                    return Ok(u);
                },
                ClaimValue::Num(id) => {
                    let u = User { id: id.clone(), name: placeholder_user_name() };
                    proof {
                        assert(u@ =~~= (UserView { id: id@, name: placeholder_name() }));
                    }
                    return Ok(u);
                },
                ClaimValue::Other(d) => {
                    return Err(ClientError::JwtIllegalType {
                        claim: claim.clone(),
                        value: d.clone(),
                    });
                },
            }
        }
    }
    proof {
        lemma_find_claim_from(claims@, claim@, n as int);
    }
    Err(ClientError::JwtMissingInitiatorClaim { claim: claim.clone() })
}

/// What decoding a token's own header yields, at the model level: the key
/// id the header declares, or nothing when the text is not a decodable
/// JWT.  The result depends on the token text alone.
pub uninterp spec fn jwt_header_of(token: Seq<char>) -> Option<TokenHeaderView>;

/// Relies on jsonwebtoken's `decode_header`: reads the token's own header
/// without verifying anything, yielding the declared algorithm and key id,
/// or nothing when the text is not a decodable JWT.
#[verifier::external_body]
fn decode_token_header(token: &str) -> (r: Option<TokenHeader>)
    ensures
        match r {
            Some(h) => jwt_header_of(token@) == Some(h@),
            None => jwt_header_of(token@) is None,
        },
{
    match jsonwebtoken::decode_header(token) {
        Ok(h) => Some(TokenHeader { alg: h.alg, kid: h.kid }),
        Err(_) => None,
    }
}

/// Relies on jsonwebtoken's `decode`: verifies the token's signature with
/// the given symmetric key, using the algorithm the token's header declared
/// (the algorithm selects the verification routine; verification itself is
/// never skipped), and checks the `exp` claim against the current time.  On
/// success it yields the payload claims, each name once, as the payload is
/// a JSON object.
#[verifier::external_body]
fn validate_token(token: &str, key: &Vec<u8>, alg: &jsonwebtoken::Algorithm) -> (r: Option<
    Vec<(String, ClaimValue)>,
>)
    ensures
        r matches Some(claims) ==> forall|i: int, j: int|
            0 <= i < j < claims@.len() ==> (#[trigger] claims@[i]).0@ != (
            #[trigger] claims@[j]).0@,
{
    let validation = jsonwebtoken::Validation::new(*alg);
    let decoding_key = jsonwebtoken::DecodingKey::from_secret(key);
    let decoded = jsonwebtoken::decode::<std::collections::HashMap<String, serde_json::Value>>(
        token, &decoding_key, &validation);
    let data = match decoded {
        Ok(data) => data,
        Err(_) => return None,
    };
    Some(data.claims.into_iter().map(|(name, value)| match value {
        serde_json::Value::String(s) => (name, ClaimValue::Str(s)),
        serde_json::Value::Number(n) => (name, ClaimValue::Num(n.to_string())),
        other => (name, ClaimValue::Other(format!("{other:?}"))),
    }).collect())
}

/// Classifies the outcome of signature validation: no claims came back
/// means the token failed verification — the validation fault, a client
/// fault mapping to 401 — and a claims list is read for the identity claim
/// exactly as [`claims_classification`] prescribes.
pub fn classify_validation(outcome: Option<Vec<(String, ClaimValue)>>, claim: &String) -> (r:
    Result<User, ClientError>)
    ensures
        match outcome {
            None => r == Err::<User, ClientError>(ClientError::JwtValidate),
            Some(claims) => claims_classification(claims@, claim@, r),
        },
{
    match outcome {
        None => Err(ClientError::JwtValidate),
        Some(claims) => user_from_claims(&claims, claim),
    }
}

/// Authenticates requests by verifying the JWT in their `Authorization`
/// header against the keys a [`KeyResolver`] holds.
pub struct JwkResolver<K> {
    initiator_claim: String,
    resolver: K,
}

impl<K> JwkResolver<K> {
    /// The name of the claim read as the identity's id.
    pub closed spec fn spec_initiator_claim(&self) -> Seq<char> {
        self.initiator_claim@
    }

    /// The embedded key resolver.
    pub closed spec fn resolver(&self) -> K {
        self.resolver
    }

    /// Creates a resolver that reads the claim named `initiator_claim` as
    /// the identity's id and verifies tokens against the keys `resolver`
    /// holds.
    pub fn new(initiator_claim: String, resolver: K) -> (r: Self)
        ensures
            r.spec_initiator_claim() == initiator_claim@,
            r.resolver() == resolver,
    {
        JwkResolver { initiator_claim, resolver }
    }
}

impl<K: KeyResolver> JwkResolver<K> {
    /// Resolves the request's `Authorization` header value to an identity,
    /// or to a classified failure.
    ///
    /// The deterministic stages are pinned exactly: a missing header, a
    /// non-text value, and a value without the `"Bearer "` prefix each
    /// yield their 400 client fault; an undecodable token yields the
    /// illegal-JWT fault carrying it, if and only if the decode fails; a
    /// decoded header without a key id yields the missing-key-id fault,
    /// and one naming a key the resolver does not hold the unknown-key-id
    /// fault (404), each if and only if.  Past them the outcome turns on
    /// signature validation, which depends on the clock: whatever comes
    /// back, the outer level is never a server fault, the fault is one of
    /// the validation stage's own, and every identity carries the fixed
    /// placeholder display name.
    pub fn authorize(&self, authorization: Option<&Vec<u8>>) -> (r: Result<
        Result<User, ClientError>,
        ServerError,
    >)
        requires
            self.resolver().wf(),
        ensures
            r is Ok,
            authorization is None ==> r == Ok::<Result<User, ClientError>, ServerError>(
                Err(ClientError::AuthHeaderNotFound),
            ),
            authorization matches Some(v) && !all_visible_ascii(v@) ==> r == Ok::<
                Result<User, ClientError>,
                ServerError,
            >(Err(ClientError::AuthHeaderNonUtf8)),
            authorization matches Some(v) ==> all_visible_ascii(v@) ==> !has_bearer_prefix(v@)
                ==> (r matches Ok(inner) && inner matches Err(e)
                && e matches ClientError::MissingBearer { raw } && raw@ == ascii_chars(v@)),
            authorization matches Some(v) ==> all_visible_ascii(v@) ==> has_bearer_prefix(v@)
                ==> {
                &&& (jwt_header_of(bearer_token(v@)) is None <==> (r matches Ok(inner)
                    && inner matches Err(e) && e matches ClientError::IllegalJwt { raw }
                    && raw@ == bearer_token(v@)))
                &&& jwt_header_of(bearer_token(v@)) matches Some(h) ==> match h.kid {
                    None => r == Ok::<Result<User, ClientError>, ServerError>(Err(
                        ClientError::KeyResolve {
                            source: keyresolver::ClientError::HeaderKidNotFound,
                        },
                    )),
                    Some(kid) => {
                        &&& (self.resolver().spec_key_for(kid) is None <==> (r matches Ok(
                            inner,
                        ) && inner matches Err(e) && e matches ClientError::KeyResolve { source }
                            && source matches keyresolver::ClientError::UnknownKeyId { kid: k }
                            && k@ == kid))
                        &&& self.resolver().spec_key_for(kid) is Some ==> (r matches Ok(inner)
                            && (inner matches Ok(user) || (inner matches Err(e) && (
                            e matches ClientError::JwtValidate
                                || e matches ClientError::JwtIllegalType { .. }
                                || e matches ClientError::JwtMissingInitiatorClaim { .. }))))
                    },
                }
            },
            r matches Ok(inner) ==> inner matches Err(e)
                ==> e matches ClientError::KeyResolve { source }
                ==> source matches keyresolver::ClientError::UnknownKeyId { kid }
                ==> self.resolver().spec_key_for(kid@) is None,
            r matches Ok(inner) ==> inner matches Ok(user) ==> user@.name == placeholder_name(),
    {
        let token = match extract_jwt(authorization) {
            Ok(token) => token,
            Err(e) => {
                return Ok(Err(e));
            },
        };
        let header = match decode_token_header(token.as_str()) {
            Some(header) => header,
            None => {
                return Ok(Err(ClientError::IllegalJwt { raw: token }));
            },
        };
        let key = match self.resolver.resolve_key(&header) {
            Ok(key) => key,
            Err(e) => {
                return Ok(Err(ClientError::KeyResolve { source: e }));
            },
        };
        let outcome = validate_token(token.as_str(), &key, &header.alg);
        match classify_validation(outcome, &self.initiator_claim) {
            Ok(user) => Ok(Ok(user)),
            Err(e) => Ok(Err(e)),
        }
    }
}

impl crate::authspec::ClientError for ClientError {
    fn status_code(&self) -> u16 {
        self.status_code()
    }
}

impl<K: KeyResolver> crate::authspec::AuthResolver for JwkResolver<K> {
    type Context = User;

    type ClientError = ClientError;

    type ServerError = ServerError;

    open spec fn wf(&self) -> bool {
        self.resolver().wf()
    }

    fn authorize(&self, authorization: Option<&Vec<u8>>) -> Result<
        Result<User, ClientError>,
        ServerError,
    > {
        self.authorize(authorization)
    }
}

} // verus!
