use crate::model::{opt_view, GenError, Method};
use quote::ToTokens;
use vstd::prelude::*;

verus! {

/// The rendered tokens of `s` read as a Rust path, or `None` where it is none,
/// as proc-macro2's own lexer and printer give them (outside a procedural
/// macro, where this library runs).
pub uninterp spec fn path_text(s: Seq<char>) -> Option<Seq<char>>;

/// The rendered tokens of `s` read as a token stream, or `None` where it
/// does not lex, as proc-macro2's own lexer and printer give them (outside a
/// procedural macro, where this library runs).
pub uninterp spec fn token_text(s: Seq<char>) -> Option<Seq<char>>;

/// Relies on `syn::parse_str::<syn::Path>`, which parses `s` as a path, and
/// on the rendering of the parsed path by `quote::ToTokens` and
/// `proc_macro2::TokenStream`'s `Display`.
#[verifier::external_body]
pub(crate) fn parse_path(s: &str) -> (r: Option<String>)
    ensures
        opt_view(r) == path_text(s@),
{
    match syn::parse_str::<syn::Path>(s) {
        Ok(p) => Some(p.to_token_stream().to_string()),
        Err(_) => None,
    }
}

/// Relies on `proc_macro2::TokenStream`'s `FromStr`, which lexes `s`, and on
/// its `Display`, which renders the tokens.
#[verifier::external_body]
fn parse_tokens(s: &str) -> (r: Option<String>)
    ensures
        opt_view(r) == token_text(s@),
{
    match s.parse::<proc_macro2::TokenStream>() {
        Ok(t) => Some(t.to_string()),
        Err(_) => None,
    }
}

/// The namespace of the description language's standard types.
pub open spec fn well_known_prefix() -> Seq<char> {
    ".google.protobuf"@
}

pub open spec fn has_prefix(s: Seq<char>, p: Seq<char>) -> bool {
    p.len() <= s.len() && s.subrange(0, p.len() as int) == p
}

/// `path::name`.
pub open spec fn qualified(path: Seq<char>, name: Seq<char>) -> Seq<char> {
    path + "::"@ + name
}

/// The reference to a type in generated code: a standard type is used by
/// its local name; any other is qualified by the enclosing module path.
pub open spec fn resolved(path: Seq<char>, local: Seq<char>, wire: Seq<char>) -> Option<Seq<char>> {
    if has_prefix(wire, well_known_prefix()) {
        token_text(local)
    } else {
        path_text(qualified(path, local))
    }
}

/// Whether `s` starts with `p`.
pub fn starts_with(s: &str, p: &str) -> (r: bool)
    ensures
        r == has_prefix(s@, p@),
{
    let n = s.unicode_len();
    let m = p.unicode_len();
    if m > n {
        return false;
    }
    let mut i: usize = 0;
    while i < m
        invariant
            n == s@.len(),
            m == p@.len(),
            m <= n,
            i <= m,
            s@.subrange(0, i as int) == p@.subrange(0, i as int),
        decreases m - i,
    {
        if s.get_char(i) != p.get_char(i) {
            assert(s@.subrange(0, m as int)[i as int] != p@[i as int]);
            return false;
        }
        assert(s@.subrange(0, i + 1) =~= s@.subrange(0, i as int).push(s@[i as int]));
        assert(p@.subrange(0, i + 1) =~= p@.subrange(0, i as int).push(p@[i as int]));
        i = i + 1;
    }
    assert(p@.subrange(0, m as int) =~= p@);
    true
}

/// `path::name` as a string.
pub fn qualify(path: &str, name: &str) -> (r: String)
    ensures
        r@ == qualified(path@, name@),
{
    let mut s = String::from_str(path);
    s.append("::");
    s.append(name);
    s
}

/// Resolves one type reference; `None` where it does not parse.
pub fn resolve_type(proto_path: &str, local: &str, wire: &str) -> (r: Option<String>)
    ensures
        opt_view(r) == resolved(proto_path@, local@, wire@),
{
    if starts_with(wire, ".google.protobuf") {
        parse_tokens(local)
    } else {
        let q = qualify(proto_path, local);
        parse_path(q.as_str())
    }
}

/// Both type references of a method resolve.
pub open spec fn types_resolve(path: Seq<char>, m: Method) -> bool {
    resolved(path, m.input_type@, m.input_proto_type@) is Some
        && resolved(path, m.output_type@, m.output_proto_type@) is Some
}

/// Resolves the request and the response type of `method`.
pub fn replace_wellknown(proto_path: &str, method: &Method) -> (r: Result<(String, String), GenError>)
    ensures
        r is Ok <==> types_resolve(proto_path@, *method),
        r is Err ==> r == Err::<(String, String), GenError>(GenError::MalformedPath),
        r matches Ok((req, resp)) ==> {
            &&& Some(req@) == resolved(proto_path@, method.input_type@, method.input_proto_type@)
            &&& Some(resp@) == resolved(proto_path@, method.output_type@, method.output_proto_type@)
        },
{
    let request = resolve_type(proto_path, method.input_type.as_str(), method.input_proto_type.as_str());
    let response = resolve_type(proto_path, method.output_type.as_str(), method.output_proto_type.as_str());
    match (request, response) {
        (Some(req), Some(resp)) => Ok((req, resp)),
        _ => Err(GenError::MalformedPath),
    }
}

} // verus!
