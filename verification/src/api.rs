//! The request and response bodies of the service's endpoints, and the
//! status-code decisions the request pipeline applies to every outcome.
//!
//! The pipeline itself — routing, serialization, sockets — is an external
//! collaborator; what it must decide (which status each outcome maps to) is
//! here, verified.

use vstd::prelude::*;

use crate::authresolver::{ClientError, ServerError};
use crate::metadata::{AttachedMetadata, Metadata, User};
use crate::status::{INTERNAL_SERVER_ERROR, NOT_FOUND, OK};

verus! {

/// Body of a request submitting a new policy version.
#[derive(Debug)]
pub struct AddVersionRequest {
    /// The metadata to attach.
    pub metadata: AttachedMetadata,
    /// The serialized policy content.
    pub contents: String,
}

/// Body of the reply to a submission: the assigned version number.
#[derive(Clone, Copy, Debug)]
pub struct AddVersionResponse {
    /// The newly assigned version number.
    pub version: u64,
}

/// Body of a request activating an already submitted version.
#[derive(Clone, Copy, Debug)]
pub struct ActivateRequest {
    /// The version to activate.
    pub version: u64,
}

/// Body of the reply listing every version with its metadata.
#[derive(Debug)]
pub struct GetVersionsResponse {
    /// Every stored version, paired with its metadata.
    pub versions: Vec<(u64, Metadata)>,
}

/// Body of the reply naming the currently active version, if any.
#[derive(Clone, Copy, Debug)]
pub struct GetActiveVersionResponse {
    /// The active version, absent when nothing is active.
    pub version: Option<u64>,
}

/// Body of the reply naming who activated the active version, if any.
#[derive(Debug)]
pub struct GetActivatorResponse {
    /// The activating identity, absent when nothing is active.
    pub user: Option<User>,
}

/// Body of the reply carrying one version's metadata.
#[derive(Debug)]
pub struct GetVersionMetadataResponse {
    /// The version's metadata.
    pub metadata: Metadata,
}

/// Body of the reply carrying one version's content.
#[derive(Debug)]
pub struct GetVersionContentResponse<C> {
    /// The version's content.
    pub content: C,
}

/// An HTTP method, as far as the service's endpoints use them.
#[derive(Clone, Copy, Debug, PartialEq, Eq, Structural)]
pub enum Method {
    Delete,
    Get,
    Post,
    Put,
}

/// Where to find an endpoint in the API: its method and its path template.
/// A path segment of the form `{name}` is a parameter that
/// [`EndpointPath::instantiated_path`] fills in from its arguments.
pub struct EndpointPath {
    /// The method the endpoint answers to.
    pub method: Method,
    /// The path template, segments separated by `/`.
    pub path: &'static str,
}

/// Whether a path segment is a parameter: non-empty, braced on both sides.
pub open spec fn is_placeholder(segment: Seq<char>) -> bool {
    segment.len() > 0 && segment.first() == '{' && segment.last() == '}'
}

/// How many parameters the rest of a template holds, `segment` being the
/// part of the current segment read so far.
pub open spec fn template_params_from(s: Seq<char>, segment: Seq<char>) -> nat
    decreases s.len(),
{
    if s.len() == 0 {
        if is_placeholder(segment) {
            1
        } else {
            0
        }
    } else if s.first() == '/' {
        (if is_placeholder(segment) {
            1nat
        } else {
            0nat
        }) + template_params_from(s.drop_first(), Seq::empty())
    } else {
        template_params_from(s.drop_first(), segment.push(s.first()))
    }
}

/// How many parameters a path template holds.
pub open spec fn template_params(s: Seq<char>) -> nat {
    template_params_from(s, Seq::empty())
}

/// The rest of an instantiation: `s` is the unread part of the template,
/// `segment` the part of the current segment read so far, `args` the
/// arguments not yet used.  Each parameter segment is replaced by the next
/// argument; every other segment is kept; separators are kept.
pub open spec fn instantiate_from(
    s: Seq<char>,
    segment: Seq<char>,
    args: Seq<Seq<char>>,
) -> Seq<char>
    recommends
        template_params_from(s, segment) == args.len(),
    decreases s.len(),
{
    if s.len() == 0 {
        if is_placeholder(segment) {
            args.first()
        } else {
            segment
        }
    } else if s.first() == '/' {
        if is_placeholder(segment) {
            args.first() + seq!['/'] + instantiate_from(s.drop_first(), Seq::empty(), args.drop_first())
        } else {
            segment + seq!['/'] + instantiate_from(s.drop_first(), Seq::empty(), args)
        }
    } else {
        instantiate_from(s.drop_first(), segment.push(s.first()), args)
    }
}

/// A path template with each parameter segment replaced by the argument at
/// its position.
pub open spec fn spec_instantiated_path(s: Seq<char>, args: Seq<Seq<char>>) -> Seq<char> {
    instantiate_from(s, Seq::empty(), args)
}

impl EndpointPath {
    /// Fills the template's parameters with `args`, in order, and returns
    /// the resulting path.  A caller must supply exactly one argument per
    /// parameter: a mismatched count is a programming error with no
    /// meaningful result, so it is required away.
    pub fn instantiated_path(&self, args: &Vec<String>) -> (r: String)
        requires
            args@.len() == template_params(self.path@),
        ensures
            r@ == spec_instantiated_path(self.path@, args@.map_values(|a: String| a@)),
    {
        let path = self.path;
        let ghost argsv = args@.map_values(|a: String| a@);
        let n = path.unicode_len();
        let total_args = args.len();
        let mut out = String::new();
        let mut start: usize = 0;
        let mut arg_idx: usize = 0;
        let mut i: usize = 0;
        proof {
            assert(path@.skip(0) =~= path@);
            assert(path@.subrange(0, 0) =~= Seq::<char>::empty());
            assert(argsv.skip(0) =~= argsv);
        }
        while i < n
            invariant
                n == path@.len(),
                start <= i <= n,
                total_args == argsv.len(),
                arg_idx <= argsv.len(),
                argsv == args@.map_values(|a: String| a@),
                template_params_from(path@.skip(i as int), path@.subrange(start as int, i as int))
                    == argsv.len() - arg_idx,
                spec_instantiated_path(path@, argsv) == out@ + instantiate_from(
                    path@.skip(i as int),
                    path@.subrange(start as int, i as int),
                    argsv.skip(arg_idx as int),
                ),
            decreases n - i,
        {
            proof {
                assert(path@.skip(i as int).first() == path@[i as int]);
                assert(path@.skip(i as int).drop_first() =~= path@.skip(i + 1));
            }
            let c = path.get_char(i);
            if c == '/' {
                let ghost segment = path@.subrange(start as int, i as int);
                let braced = i > start && path.get_char(start) == '{'
                    && path.get_char(i - 1) == '}';
                proof {
                    assert(braced == is_placeholder(segment));
                }
                if braced {
                    proof {
                        assert(template_params_from(path@.skip(i as int), segment) >= 1);
                        assert(arg_idx < argsv.len());
                    }
                    out.append(args[arg_idx].as_str());
                    arg_idx = arg_idx + 1;
                } else {
                    out.append(path.substring_char(start, i));
                }
                out.append("/");
                proof {
                    reveal_strlit("/");
                    assert("/"@ =~= seq!['/']);
                    assert(path@.subrange(i + 1, i + 1) =~= Seq::<char>::empty());
                    if is_placeholder(segment) {
                        assert(argsv.skip(arg_idx - 1).first() == argsv[arg_idx - 1]);
                        assert(argsv.skip(arg_idx - 1).drop_first() =~= argsv.skip(
                            arg_idx as int,
                        ));
                    }
                }
                start = i + 1;
            } else {
                proof {
                    assert(path@.subrange(start as int, i + 1) =~= path@.subrange(
                        start as int,
                        i as int,
                    ).push(path@[i as int]));
                }
            }
            i = i + 1;
        }
        proof {
            assert(path@.skip(n as int) =~= Seq::<char>::empty());
        }
        let braced = n > start && path.get_char(start) == '{' && path.get_char(n - 1) == '}';
        proof {
            assert(braced == is_placeholder(path@.subrange(start as int, n as int)));
        }
        if braced {
            proof {
                assert(argsv.skip(arg_idx as int).first() == argsv[arg_idx as int]);
            }
            out.append(args[arg_idx].as_str());
        } else {
            out.append(path.substring_char(start, n));
        }
        out
    }
}

/// The endpoint that submits a new policy version.
pub fn add_version_path() -> (p: EndpointPath)
    ensures
        p.method == Method::Post,
        p.path@ == "/v2/policies"@,
{
    EndpointPath { method: Method::Post, path: "/v2/policies" }
}

/// The endpoint that activates an already submitted version.
pub fn activate_path() -> (p: EndpointPath)
    ensures
        p.method == Method::Put,
        p.path@ == "/v2/policies/active"@,
{
    EndpointPath { method: Method::Put, path: "/v2/policies/active" }
}

/// The endpoint that deactivates whatever version is active.
pub fn deactivate_path() -> (p: EndpointPath)
    ensures
        p.method == Method::Delete,
        p.path@ == "/v2/policies/active"@,
{
    EndpointPath { method: Method::Delete, path: "/v2/policies/active" }
}

/// The endpoint that lists every version with its metadata.
pub fn get_versions_path() -> (p: EndpointPath)
    ensures
        p.method == Method::Get,
        p.path@ == "/v2/policies"@,
{
    EndpointPath { method: Method::Get, path: "/v2/policies" }
}

/// The endpoint that names the active version.
pub fn get_active_version_path() -> (p: EndpointPath)
    ensures
        p.method == Method::Get,
        p.path@ == "/v2/policies/active"@,
{
    EndpointPath { method: Method::Get, path: "/v2/policies/active" }
}

/// The endpoint that names who activated the active version.
pub fn get_activator_path() -> (p: EndpointPath)
    ensures
        p.method == Method::Get,
        p.path@ == "/v2/policies/active/activator"@,
{
    EndpointPath { method: Method::Get, path: "/v2/policies/active/activator" }
}

/// The endpoint that returns one version's metadata.
pub fn get_version_metadata_path() -> (p: EndpointPath)
    ensures
        p.method == Method::Get,
        p.path@ == "/v2/policies/{version}"@,
{
    EndpointPath { method: Method::Get, path: "/v2/policies/{version}" }
}

/// The endpoint that returns one version's content.
pub fn get_version_content_path() -> (p: EndpointPath)
    ensures
        p.method == Method::Get,
        p.path@ == "/v2/policies/{version}/content"@,
{
    EndpointPath { method: Method::Get, path: "/v2/policies/{version}/content" }
}

/// The status code the gating middleware reports for an authorization
/// outcome: a server fault is a generic 500, a client fault carries its own
/// code, and a resolved identity lets the request proceed (200 here).
pub fn auth_outcome_status(outcome: &Result<Result<User, ClientError>, ServerError>) -> (code:
    u16)
    ensures
        match outcome {
            Err(_) => code == INTERNAL_SERVER_ERROR,
            Ok(inner) => match inner {
                Err(e) => code == e.spec_status_code(),
                Ok(_) => code == OK,
            },
        },
{
    match outcome {
        Err(_) => INTERNAL_SERVER_ERROR,
        Ok(inner) => match inner {
            Err(e) => e.status_code(),
            Ok(_) => OK,
        },
    }
}

/// The status code a lookup endpoint reports for an optional result: an
/// absent version is 404, never an error; a present one is 200.
pub fn lookup_status<T>(found: &Option<T>) -> (code: u16)
    ensures
        found is Some <==> code == OK,
        found is None <==> code == NOT_FOUND,
{
    match found {
        Some(_) => OK,
        None => NOT_FOUND,
    }
}

} // verus!
