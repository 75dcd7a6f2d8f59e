use image_gateway::document::{find_path, get_image_uri, same_text, Document};
use image_gateway::gateway::{
    after_asset, after_metadata, begin, metadata_url, AssetReply, MetadataReply, Status,
};
use image_gateway::uri::{decompose, file_url, from_parts, UriError, UriParts};
use image_gateway::params::{from_query, ImageTransformation, Query};
use urlencoded::UrlDecodingError;

fn obj(entries: Vec<(&str, Document)>) -> Document {
    Document::Object(entries.into_iter().map(|(k, v)| (k.to_string(), v)).collect())
}

fn metadata(asset: &str, uri: Document) -> Document {
    obj(vec![(
        "aspects",
        obj(vec![(
            "atex.Files",
            obj(vec![(
                "data",
                obj(vec![("files", obj(vec![(asset, obj(vec![("fileUri", uri)]))]))]),
            )]),
        )]),
    )])
}

fn answered(doc: Option<Document>) -> MetadataReply {
    MetadataReply::Answered { status: 200, document: doc }
}

#[test]
fn end_to_end_happy_path() {
    let path = vec!["onecms:123".to_string(), "apa.jpg".to_string()];
    let m = begin(&path, from_query(Query::Missing)).ok().unwrap();
    assert!(m.transform.is_none());
    assert_eq!(m.info.path, "apa.jpg");
    let doc = metadata("apa.jpg", Document::Text("http://cdn.example/img1".to_string()));
    let url = after_metadata(&answered(Some(doc)), &m.info.path).unwrap();
    assert_eq!(url, "http://localhost:8080/ace/file/http/cdn.example//img1");
    let status = after_asset(&AssetReply::Answered { status: 200 });
    assert_eq!(status, Status::Success);
    assert_eq!(status.code(), 200);
}

#[test]
fn missing_asset_key_is_not_found() {
    let doc = metadata("other.jpg", Document::Text("http://cdn.example/img1".to_string()));
    let r = after_metadata(&answered(Some(doc)), "apa.jpg");
    assert_eq!(r, Err(Status::NotFound));
    assert_eq!(Status::NotFound.code(), 404);
}

#[test]
fn malformed_metadata_body_is_server_error() {
    let r = after_metadata(&answered(None), "apa.jpg");
    assert_eq!(r, Err(Status::InternalServerError));
    assert_eq!(Status::InternalServerError.code(), 500);
}

#[test]
fn unreachable_metadata_is_not_found() {
    assert_eq!(after_metadata(&MetadataReply::Unreachable, "a.jpg"), Err(Status::NotFound));
    let doc = metadata("a.jpg", Document::Text("http://h/p".to_string()));
    let reply = MetadataReply::Answered { status: 503, document: Some(doc) };
    assert_eq!(after_metadata(&reply, "a.jpg"), Err(Status::NotFound));
}

#[test]
fn non_string_uri_is_not_found() {
    let doc = metadata("a.jpg", Document::Number);
    assert_eq!(after_metadata(&answered(Some(doc)), "a.jpg"), Err(Status::NotFound));
}

#[test]
fn bad_uri_is_server_error() {
    let doc = metadata("a.jpg", Document::Text("not a uri".to_string()));
    assert_eq!(after_metadata(&answered(Some(doc)), "a.jpg"), Err(Status::InternalServerError));
    let doc = metadata("a.jpg", Document::Text("mailto:someone".to_string()));
    assert_eq!(after_metadata(&answered(Some(doc)), "a.jpg"), Err(Status::InternalServerError));
}

#[test]
fn asset_failure_is_not_found() {
    assert_eq!(after_asset(&AssetReply::Unreachable), Status::NotFound);
    assert_eq!(after_asset(&AssetReply::Answered { status: 404 }), Status::NotFound);
    assert_eq!(after_asset(&AssetReply::Answered { status: 299 }), Status::Success);
}

#[test]
fn begin_builds_metadata_request() {
    let path = vec!["onecms:123".to_string(), "apa.jpg".to_string()];
    let m = begin(&path, Ok(None)).ok().unwrap();
    assert_eq!(m.info.content_id, "onecms:123");
    assert_eq!(m.info.path, "apa.jpg");
    assert!(m.transform.is_none());
    assert_eq!(m.url, "http://localhost:8080/ace/content/contentid/onecms:123");
}

#[test]
fn begin_carries_transformation() {
    let path = vec!["c:1".to_string(), "a".to_string(), "b.png".to_string()];
    let t = ImageTransformation { width: 30, height: 40 };
    let m = begin(&path, Ok(Some(t))).ok().unwrap();
    assert_eq!(m.transform, Some(ImageTransformation { width: 30, height: 40 }));
    assert_eq!(m.info.path, "a/b.png");
}

#[test]
fn begin_rejects_bad_requests() {
    let short = vec!["onecms:123".to_string()];
    assert_eq!(begin(&short, Ok(None)).err(), Some(Status::BadRequest));
    let path = vec!["onecms:123".to_string(), "apa.jpg".to_string()];
    assert_eq!(begin(&path, Err(UrlDecodingError::EmptyQuery)).err(), Some(Status::BadRequest));
    assert_eq!(Status::BadRequest.code(), 400);
}

#[test]
fn metadata_url_is_templated() {
    assert_eq!(metadata_url("x:1"), "http://localhost:8080/ace/content/contentid/x:1");
}

#[test]
fn decompose_splits_uri() {
    let a = decompose("https://files.example:8443/a/b.png?x=1").ok().unwrap();
    assert_eq!(a.scheme, "https");
    assert_eq!(a.host, "files.example");
    assert_eq!(a.path, "/a/b.png");
    assert_eq!(file_url(&a), "http://localhost:8080/ace/file/https/files.example//a/b.png");
}

#[test]
fn decompose_errors() {
    assert_eq!(decompose("/relative/only").err(), Some(UriError::InvalidUri));
    assert_eq!(decompose("mailto:someone").err(), Some(UriError::NoHost));
    let parts = UriParts { scheme: "s".to_string(), host: None, path: "p".to_string() };
    assert_eq!(from_parts(Some(parts)).err(), Some(UriError::NoHost));
    assert_eq!(from_parts(None).err(), Some(UriError::InvalidUri));
}

#[test]
fn lookup_finds_member_and_checks_kinds() {
    let doc = obj(vec![
        ("j", Document::Text("one".to_string())),
        ("k", Document::Text("two".to_string())),
        ("list", Document::List(vec![Document::Null])),
    ]);
    match find_path(&doc, &["k"]) {
        Some(Document::Text(s)) => assert_eq!(s, "two"),
        _ => panic!("expected the member named k"),
    }
    assert!(find_path(&doc, &["list", "x"]).is_none());
    assert!(find_path(&Document::Boolean(true), &["k"]).is_none());
    assert!(get_image_uri(&doc, "a").is_none());
    assert!(same_text("ab", "ab"));
    assert!(!same_text("ab", "abc"));
    assert!(!same_text("ab", "ac"));
}
