use vstd::prelude::*;

verus! {

/// The error of http's URI parser, carried through unread.
#[verifier::external_type_specification]
#[verifier::external_body]
pub struct ExInvalidUri(http::uri::InvalidUri);

/// Whether http's URI parser accepts the text.
pub uninterp spec fn uri_accepts(s: Seq<char>) -> bool;

/// The scheme that http's URI parser finds in the text.
pub uninterp spec fn uri_scheme(s: Seq<char>) -> Option<Seq<char>>;

/// The authority (host and port) that http's URI parser finds in the text.
pub uninterp spec fn uri_authority(s: Seq<char>) -> Option<Seq<char>>;

/// The parts of a parsed URI that an endpoint needs.
#[derive(Clone, Debug)]
pub struct UriParts {
    pub scheme: Option<String>,
    pub authority: Option<String>,
}

pub open spec fn opt_text(o: Option<String>) -> Option<Seq<char>> {
    match o {
        Some(t) => Some(t@),
        None => None,
    }
}

/// Relies on `http::Uri`'s `FromStr` to parse the text, and on
/// `Uri::scheme_str` and `Uri::authority_part` to read back what it found.
#[verifier::external_body]
fn parse_uri(s: &str) -> (r: Result<UriParts, http::uri::InvalidUri>)
    ensures
        r is Ok <==> uri_accepts(s@),
        r matches Ok(p) ==> opt_text(p.scheme) == uri_scheme(s@) && opt_text(p.authority)
            == uri_authority(s@),
{
    match s.parse::<http::Uri>() {
        Ok(u) => Ok(UriParts {
            scheme: u.scheme_str().map(String::from),
            authority: u.authority_part().map(|a| a.as_str().to_string()),
        }),
        Err(e) => Err(e),
    }
}

/// Why a service URI was rejected.
#[derive(Debug)]
pub enum EndpointFault {
    /// The text is not a URI; the parser's error is kept.
    Syntax(http::uri::InvalidUri),
    /// The URI names no host to connect to.
    NoAuthority,
    /// The URI names no scheme.
    NoScheme,
}

/// A validated service URI: the text as given, with its scheme and authority.
#[derive(Clone, Debug)]
pub struct Endpoint {
    pub uri: String,
    pub scheme: String,
    pub authority: String,
}

/// Whether a service URI can be connected to: it parses, and it has an
/// authority and a scheme.
pub open spec fn endpoint_accepts(s: Seq<char>) -> bool {
    uri_accepts(s) && uri_authority(s) is Some && uri_scheme(s) is Some
}

/// Turns the parser's outcome on `text` into an endpoint. The authority is
/// checked before the scheme.
pub fn endpoint_from_parts(text: &str, parsed: Result<UriParts, http::uri::InvalidUri>) -> (r:
    Result<Endpoint, EndpointFault>)
    ensures
        r matches Err(EndpointFault::Syntax(_)) <==> parsed is Err,
        r matches Err(EndpointFault::NoAuthority) <==> (parsed matches Ok(p)
            && p.authority is None),
        r matches Err(EndpointFault::NoScheme) <==> (parsed matches Ok(p) && p.authority is Some
            && p.scheme is None),
        r is Ok <==> (parsed matches Ok(p) && p.authority is Some && p.scheme is Some),
        r matches Ok(e) ==> e.uri@ == text@ && (parsed matches Ok(p) && opt_text(p.scheme) == Some(
            e.scheme@) && opt_text(p.authority) == Some(e.authority@)),
{
    match parsed {
        Err(e) => Err(EndpointFault::Syntax(e)),
        Ok(p) => match p.authority {
            None => Err(EndpointFault::NoAuthority),
            Some(authority) => match p.scheme {
                None => Err(EndpointFault::NoScheme),
                Some(scheme) => Ok(Endpoint { uri: text.to_owned(), scheme, authority }),
            },
        },
    }
}

/// Validates a service URI before any network activity.
pub fn validate_endpoint(text: &str) -> (r: Result<Endpoint, EndpointFault>)
    ensures
        r is Ok <==> endpoint_accepts(text@),
        r matches Err(EndpointFault::Syntax(_)) <==> !uri_accepts(text@),
        r matches Err(EndpointFault::NoAuthority) <==> uri_accepts(text@) && uri_authority(
            text@,
        ) is None,
        r matches Err(EndpointFault::NoScheme) <==> uri_accepts(text@) && uri_authority(
            text@,
        ) is Some && uri_scheme(text@) is None,
        r matches Ok(e) ==> e.uri@ == text@ && uri_scheme(text@) == Some(e.scheme@) && uri_authority(
            text@,
        ) == Some(e.authority@),
{
    endpoint_from_parts(text, parse_uri(text))
}

} // verus!
