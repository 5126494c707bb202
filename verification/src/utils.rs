//! Turning an address from the chain registry into a gRPC endpoint URI.
use vstd::prelude::*;

verus! {

/// What `http::Uri`'s `FromStr` makes of a text, read as plain values: whether
/// the URI has a port, whether it has a scheme, and its rendering; or the
/// error's text.
pub uninterp spec fn parsed_uri(input: Seq<char>) -> Result<(bool, bool, Seq<char>), Seq<char>>;

/// What `http::uri::Builder` builds from a scheme, an authority and a path and
/// query, rendered as text; or the error's text.
pub uninterp spec fn built_uri(scheme: Seq<char>, authority: Seq<char>, path_and_query: Seq<char>) -> Result<
    Seq<char>,
    Seq<char>,
>;

/// The parts of a parsed URI that the endpoint logic reads.
pub struct UriSummary {
    pub has_port: bool,
    pub has_scheme: bool,
    pub text: String,
}

/// Parses `input` with `http::Uri`'s `FromStr` and reads whether it has a port
/// and a scheme, and how it renders. The result is named (`parsed_uri`).
#[verifier::external_body]
fn parse_uri(input: &str) -> (r: Result<UriSummary, String>)
    ensures
        r is Ok ==> parsed_uri(input@) == Ok::<(bool, bool, Seq<char>), Seq<char>>(
            (r->Ok_0.has_port, r->Ok_0.has_scheme, r->Ok_0.text@),
        ),
        r is Err ==> parsed_uri(input@) == Err::<(bool, bool, Seq<char>), Seq<char>>(r->Err_0@),
{
    match input.parse::<http::Uri>() {
        Ok(uri) => Ok(UriSummary { has_port: uri.port().is_some(), has_scheme: uri.scheme().is_some(), text: uri.to_string() }),
        Err(e) => Err(e.to_string()),
    }
}

/// Builds a URI with `http::Uri::builder()` from a scheme, an authority and a
/// path and query, and renders it. The result is named (`built_uri`). Stated
/// beside the name, from the crate's source: a URI built with the scheme
/// `https` and the path `/` renders as `https://`, the authority as given, and
/// `/` (the builder keeps the authority's text, and `Display` writes scheme,
/// `://`, authority and path).
#[verifier::external_body]
fn build_uri(scheme: &str, authority: &str, path_and_query: &str) -> (r: Result<String, String>)
    ensures
        r is Ok ==> built_uri(scheme@, authority@, path_and_query@) == Ok::<Seq<char>, Seq<char>>(
            r->Ok_0@,
        ),
        r is Err ==> built_uri(scheme@, authority@, path_and_query@) == Err::<Seq<char>, Seq<char>>(
            r->Err_0@,
        ),
        r is Ok && scheme@ == "https"@ && path_and_query@ == "/"@ ==> r->Ok_0@ == "https://"@ + authority@
            + "/"@,
{
    match http::Uri::builder().scheme(scheme).authority(authority).path_and_query(path_and_query).build() {
        Ok(uri) => Ok(uri.to_string()),
        Err(e) => Err(e.to_string()),
    }
}

/// The endpoint made of `input` once it has been parsed: nothing (an empty
/// text) without a port, the parsed URI as it renders when it has a scheme,
/// and otherwise `input` as the authority of an `https` URI with the path `/`.
pub open spec fn endpoint_after_parse(input: Seq<char>, has_port: bool, has_scheme: bool, text: Seq<char>) -> Result<
    Seq<char>,
    Seq<char>,
> {
    if !has_port {
        Ok(Seq::empty())
    } else if has_scheme {
        Ok(text)
    } else {
        built_uri("https"@, input, "/"@)
    }
}

/// The endpoint made of `input`: its parse error, or the endpoint made of the
/// parsed URI.
pub open spec fn grpc_endpoint_of(input: Seq<char>) -> Result<Seq<char>, Seq<char>> {
    match parsed_uri(input) {
        Err(e) => Err(e),
        Ok((has_port, has_scheme, text)) => endpoint_after_parse(input, has_port, has_scheme, text),
    }
}

/// The view of a text result.
pub open spec fn text_result(r: Result<String, String>) -> Result<Seq<char>, Seq<char>> {
    match r {
        Ok(s) => Ok(s@),
        Err(e) => Err(e@),
    }
}

/// Finishes a gRPC endpoint from `input` and what parsing it gave: an address
/// without a port gives an empty text, one with a scheme is kept as it renders,
/// and one without a scheme is served over `https` with the path `/`.
pub fn endpoint_from_parsed(input: &str, parsed: &UriSummary) -> (r: Result<String, String>)
    ensures
        text_result(r) == endpoint_after_parse(input@, parsed.has_port, parsed.has_scheme, parsed.text@),
        !parsed.has_port ==> (r matches Ok(s) && s@.len() == 0),
        parsed.has_port && parsed.has_scheme ==> (r matches Ok(s) && s@ == parsed.text@),
        parsed.has_port && !parsed.has_scheme && r is Ok ==> r->Ok_0@ == "https://"@ + input@ + "/"@,
{
    if !parsed.has_port {
        return Ok(String::new());
    }
    if parsed.has_scheme {
        return Ok(parsed.text.clone());
    }
    build_uri("https", input, "/")
}

/// The gRPC endpoint that `input` stands for: the parse error of an address
/// that is no URI, an empty text for one without a port, the URI itself when
/// it has a scheme, and `https://` + `input` + `/` when it has none.
pub fn parse_or_build_grpc_endpoint(input: &str) -> (r: Result<String, String>)
    ensures
        text_result(r) == grpc_endpoint_of(input@),
{
    match parse_uri(input) {
        Err(e) => Err(e),
        Ok(parsed) => endpoint_from_parsed(input, &parsed),
    }
}

} // verus!
