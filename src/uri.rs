use hyper::Url;
use vstd::prelude::*;
use vstd::string::*;

verus! {

/// A URI as the parser splits it: scheme, host if any, and path.
pub struct UriParts {
    pub scheme: String,
    pub host: Option<String>,
    pub path: String,
}

impl UriParts {
    pub open spec fn view_triple(&self) -> (Seq<char>, Option<Seq<char>>, Seq<char>) {
        (
            self.scheme@,
            match self.host {
                Some(h) => Some(h@),
                None => None,
            },
            self.path@,
        )
    }
}

/// What `Url::parse` makes of a string: its scheme, host and path, or nothing
/// when the string is not a URI.
pub uninterp spec fn parsed_uri(s: Seq<char>) -> Option<(Seq<char>, Option<Seq<char>>, Seq<char>)>;

/// Relies on `url::Url::parse` (re-exported by hyper) to parse an absolute URI,
/// read back through `scheme`, `host_str` and `path`.
#[verifier::external_body]
fn parse_uri(s: &str) -> (r: Option<UriParts>)
    ensures
        match r {
            Some(p) => parsed_uri(s@) == Some(p.view_triple()),
            None => parsed_uri(s@) is None,
        },
{
    Url::parse(s).ok().map(
        |u|
            UriParts {
                scheme: u.scheme().to_owned(),
                host: u.host_str().map(|h| h.to_owned()),
                path: u.path().to_owned(),
            },
    )
}

/// A URI of an asset on the file service: it has a host.
pub struct AssetUri {
    pub scheme: String,
    pub host: String,
    pub path: String,
}

/// Why a URI cannot name an asset.
#[derive(Debug, Clone, Copy, PartialEq, Eq, Structural)]
pub enum UriError {
    /// The string does not parse as a URI.
    InvalidUri,
    /// The URI parses but has no host.
    NoHost,
}

/// What a parsed URI decomposes to.
pub open spec fn decomposed(
    parsed: Option<(Seq<char>, Option<Seq<char>>, Seq<char>)>,
) -> Result<(Seq<char>, Seq<char>, Seq<char>), UriError> {
    match parsed {
        None => Err(UriError::InvalidUri),
        Some((_, None, _)) => Err(UriError::NoHost),
        Some((s, Some(h), p)) => Ok((s, h, p)),
    }
}

pub open spec fn asset_uri_view(r: Result<AssetUri, UriError>) -> Result<
    (Seq<char>, Seq<char>, Seq<char>),
    UriError,
> {
    match r {
        Ok(a) => Ok((a.scheme@, a.host@, a.path@)),
        Err(e) => Err(e),
    }
}

/// Keeps a parsed URI that has a host; rejects one that failed to parse or has
/// no host.
pub fn from_parts(parsed: Option<UriParts>) -> (r: Result<AssetUri, UriError>)
    ensures
        asset_uri_view(r) == decomposed(
            match parsed {
                Some(p) => Some(p.view_triple()),
                None => None,
            },
        ),
{
    match parsed {
        None => Err(UriError::InvalidUri),
        Some(p) => match p.host {
            None => Err(UriError::NoHost),
            Some(host) => Ok(AssetUri { scheme: p.scheme, host, path: p.path }),
        },
    }
}

/// Splits a URI string into scheme, host and path.
pub fn decompose(uri: &str) -> (r: Result<AssetUri, UriError>)
    ensures
        asset_uri_view(r) == decomposed(parsed_uri(uri@)),
{
    from_parts(parse_uri(uri))
}

/// The file-service address of an asset.
pub open spec fn file_url_spec(scheme: Seq<char>, host: Seq<char>, path: Seq<char>) -> Seq<char> {
    "http://localhost:8080/ace/file/"@ + scheme + "/"@ + host + "/"@ + path
}

/// The file-service address from which the asset is fetched.
pub fn file_url(a: &AssetUri) -> (r: String)
    ensures
        r@ == file_url_spec(a.scheme@, a.host@, a.path@),
{
    let mut r = String::from_str("http://localhost:8080/ace/file/");
    r.append(a.scheme.as_str());
    r.append("/");
    r.append(a.host.as_str());
    r.append("/");
    r.append(a.path.as_str());
    proof {
        assert(r@ =~= file_url_spec(a.scheme@, a.host@, a.path@));
    }
    r
}

} // verus!
