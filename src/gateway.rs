use crate::document::{file_uri_of, get_image_uri, Document};
use crate::params::ImageTransformation;
use crate::path::{info_view, resolve, segments_view, ContentImageInfo};
use crate::uri::{decompose, decomposed, file_url, file_url_spec, parsed_uri};
use urlencoded::UrlDecodingError;
use vstd::prelude::*;
use vstd::string::*;

verus! {

/// The HTTP status with which the gateway answers.
#[derive(Debug, Clone, Copy, PartialEq, Eq, Structural)]
pub enum Status {
    Success,
    BadRequest,
    NotFound,
    InternalServerError,
}

impl Status {
    pub open spec fn code_spec(self) -> u16 {
        match self {
            Status::Success => 200,
            Status::BadRequest => 400,
            Status::NotFound => 404,
            Status::InternalServerError => 500,
        }
    }

    /// The numeric HTTP status code.
    pub fn code(&self) -> (r: u16)
        ensures
            r == self.code_spec(),
    {
        match self {
            Status::Success => 200,
            Status::BadRequest => 400,
            Status::NotFound => 404,
            Status::InternalServerError => 500,
        }
    }
}

/// Whether an upstream status code reports success.
pub open spec fn is_success(status: u16) -> bool {
    200 <= status < 300
}

/// The metadata-service address of a content item.
pub open spec fn metadata_url_spec(content_id: Seq<char>) -> Seq<char> {
    "http://localhost:8080/ace/content/contentid/"@ + content_id
}

/// The metadata-service address from which a content item's document is
/// fetched.
pub fn metadata_url(content_id: &str) -> (r: String)
    ensures
        r@ == metadata_url_spec(content_id@),
{
    let mut r = String::from_str("http://localhost:8080/ace/content/contentid/");
    r.append(content_id);
    r
}

/// A request that passed its checks: the image it names, the transformation
/// it asks for, and where its metadata is fetched.
pub struct MetadataRequest {
    pub info: ContentImageInfo,
    pub transform: Option<ImageTransformation>,
    pub url: String,
}

/// Checks an incoming request, given the transformation read from its query.
/// A malformed query, or a path of fewer than two segments, is a bad request;
/// otherwise the metadata of the named content item is to be fetched.
pub fn begin(path: &[String], transform: Result<Option<ImageTransformation>, UrlDecodingError>) -> (r:
    Result<MetadataRequest, Status>)
    ensures
        transform is Err ==> r == Err::<MetadataRequest, Status>(Status::BadRequest),
        transform is Ok && path@.len() < 2 ==> r == Err::<MetadataRequest, Status>(
            Status::BadRequest,
        ),
        match transform {
            Ok(t) => path@.len() >= 2 ==> (r matches Ok(m) && Some(m.info.view_pair()) == resolve(
                segments_view(path@),
            ) && m.transform == t && m.url@ == metadata_url_spec(m.info.content_id@)),
            Err(_) => true,
        },
{
    let transform = match transform {
        Ok(t) => t,
        Err(_) => {
            return Err(Status::BadRequest);
        },
    };
    match ContentImageInfo::from_path(path) {
        None => Err(Status::BadRequest),
        Some(info) => {
            let url = metadata_url(info.content_id.as_str());
            Ok(MetadataRequest { info, transform, url })
        },
    }
}

/// What came back from the metadata service: nothing (the request failed on
/// the way), or a status and the body parsed as a document (`None` when the
/// body is not a document).
pub enum MetadataReply {
    Unreachable,
    Answered { status: u16, document: Option<Document> },
}

/// Where the metadata reply leads: the file-service address of the asset, or
/// the status to answer with.
pub open spec fn after_metadata_spec(reply: MetadataReply, asset_path: Seq<char>) -> Result<
    Seq<char>,
    Status,
> {
    match reply {
        MetadataReply::Unreachable => Err(Status::NotFound),
        MetadataReply::Answered { status, document } => if !is_success(status) {
            Err(Status::NotFound)
        } else {
            match document {
                None => Err(Status::InternalServerError),
                Some(doc) => match file_uri_of(doc, asset_path) {
                    None => Err(Status::NotFound),
                    Some(uri) => match decomposed(parsed_uri(uri)) {
                        Err(_) => Err(Status::InternalServerError),
                        Ok((s, h, p)) => Ok(file_url_spec(s, h, p)),
                    },
                },
            }
        },
    }
}

/// Decides what follows the metadata reply: a failed or unsuccessful fetch, or
/// a document without the asset, is not found; a body that is not a document,
/// or an asset URI that does not parse or has no host, is a server error.
pub fn after_metadata(reply: &MetadataReply, asset_path: &str) -> (r: Result<String, Status>)
    ensures
        match r {
            Ok(url) => after_metadata_spec(*reply, asset_path@) == Ok::<Seq<char>, Status>(url@),
            Err(s) => after_metadata_spec(*reply, asset_path@) == Err::<Seq<char>, Status>(s),
        },
{
    match reply {
        MetadataReply::Unreachable => Err(Status::NotFound),
        MetadataReply::Answered { status, document } => {
            if *status < 200 || *status >= 300 {
                return Err(Status::NotFound);
            }
            match document {
                None => Err(Status::InternalServerError),
                Some(doc) => match get_image_uri(doc, asset_path) {
                    None => Err(Status::NotFound),
                    Some(uri) => match decompose(uri.as_str()) {
                        Err(_) => Err(Status::InternalServerError),
                        Ok(a) => Ok(file_url(&a)),
                    },
                },
            }
        },
    }
}

/// What came back from the file service.
pub enum AssetReply {
    Unreachable,
    Answered { status: u16 },
}

pub open spec fn after_asset_spec(reply: AssetReply) -> Status {
    match reply {
        AssetReply::Answered { status } => if is_success(status) {
            Status::Success
        } else {
            Status::NotFound
        },
        AssetReply::Unreachable => Status::NotFound,
    }
}

/// The status of the answer once the asset was asked for: success streams
/// the asset's bytes, anything else is not found.
pub fn after_asset(reply: &AssetReply) -> (r: Status)
    ensures
        r == after_asset_spec(*reply),
{
    match reply {
        AssetReply::Answered { status } => if *status >= 200 && *status < 300 {
            Status::Success
        } else {
            Status::NotFound
        },
        AssetReply::Unreachable => Status::NotFound,
    }
}

} // verus!
