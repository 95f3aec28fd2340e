//! The object-storage client: the request that creates an object, the request
//! that overwrites one, and what the service's answer means.

use vstd::prelude::*;
use vstd::string::StringExecFns;
use crate::media::{decode_media, media_of, DecodeError};
use crate::text::{lemma_without_all_removes_one, occurs_in, remove_all, without_all};

verus! {

/// The path under which the service takes writes for the bucket tree.
pub const OBJECT_PATH: &'static str = "/storage/v1/object/biz_touch/";

/// The path under which the service lets everyone read the bucket tree.
pub const PUBLIC_OBJECT_PATH: &'static str = "/storage/v1/object/public/biz_touch/";

/// The segment that tells a read URL from the write URL of the same object.
pub const PUBLIC_SEGMENT: &'static str = "public/";

pub const UPLOAD_FAILED: &'static str = "Failed to upload file: ";

pub const OVERWRITE_FAILED: &'static str = "Failed to overwrite file: ";

/// Where the storage service is, and the credential for it.
#[derive(Clone, Debug, PartialEq, Eq)]
pub struct StorageSettings {
    pub api_key: String,
    pub url: String,
}

/// How a request writes: `Post` creates an object, `Put` overwrites one.
#[derive(Clone, Copy, Debug, PartialEq, Eq, Structural)]
pub enum Method {
    Post,
    Put,
}

/// One write to the storage service, and the read URL of what it writes.
#[derive(Clone, Debug, PartialEq, Eq)]
pub struct StorageRequest {
    pub method: Method,
    /// Where the bytes are sent.
    pub url: String,
    /// The credential, sent as a bearer token.
    pub bearer: String,
    /// The MIME type of the bytes, sent as their content type.
    pub content_type: String,
    pub body: Vec<u8>,
    /// Where the object can be read once the write has succeeded.
    pub public_url: String,
}

pub struct StorageRequestView {
    pub method: Method,
    pub url: Seq<char>,
    pub bearer: Seq<char>,
    pub content_type: Seq<char>,
    pub body: Seq<u8>,
    pub public_url: Seq<char>,
}

impl View for StorageRequest {
    type V = StorageRequestView;

    open spec fn view(&self) -> StorageRequestView {
        StorageRequestView {
            method: self.method,
            url: self.url@,
            bearer: self.bearer@,
            content_type: self.content_type@,
            body: self.body@,
            public_url: self.public_url@,
        }
    }
}

/// A request, or the reason why its payload gave none, with the request
/// taken by its view.
pub open spec fn planned_view(r: Result<StorageRequest, DecodeError>) -> Result<
    StorageRequestView,
    DecodeError,
> {
    match r {
        Ok(request) => Ok(request@),
        Err(e) => Err(e),
    }
}

/// The read URL of the object `name` in `bucket`.
pub open spec fn public_url_of(base: Seq<char>, bucket: Seq<char>, name: Seq<char>) -> Seq<char> {
    base + PUBLIC_OBJECT_PATH@ + bucket + "/"@ + name
}

/// The write URL of the object `name` in `bucket`.
pub open spec fn write_url_of(base: Seq<char>, bucket: Seq<char>, name: Seq<char>) -> Seq<char> {
    base + OBJECT_PATH@ + bucket + "/"@ + name
}

/// The write URL that belongs to a read URL: the read URL without its
/// `public/` segments.
pub open spec fn overwrite_url_of(public_url: Seq<char>) -> Seq<char> {
    without_all(public_url, PUBLIC_SEGMENT@)
}

fn join_url(base: &str, path: &str, bucket: &str, name: &str) -> (url: String)
    ensures
        url@ == base@ + path@ + bucket@ + "/"@ + name@,
{
    let mut url = String::from_str(base);
    url.append(path);
    url.append(bucket);
    url.append("/");
    url.append(name);
    url
}

/// The request that creates the object `name` in `bucket` from a payload,
/// or the reason why the payload is not base64 text.
pub open spec fn upload_plan(
    key: Seq<char>,
    base: Seq<char>,
    bucket: Seq<char>,
    name: Seq<char>,
    payload: Seq<char>,
) -> Result<StorageRequestView, DecodeError> {
    match media_of(payload) {
        Ok((bytes, mime)) => Ok(
            StorageRequestView {
                method: Method::Post,
                url: write_url_of(base, bucket, name),
                bearer: key,
                content_type: mime,
                body: bytes,
                public_url: public_url_of(base, bucket, name),
            },
        ),
        Err(e) => Err(e),
    }
}

/// Builds the request that creates the object `name` in `bucket`.
pub fn upload_request(
    supabase_api_key: &str,
    supabase_url: &str,
    upload_bucket: &str,
    name: &str,
    base64_data: &str,
) -> (r: Result<StorageRequest, DecodeError>)
    ensures
        planned_view(r) == upload_plan(
            supabase_api_key@,
            supabase_url@,
            upload_bucket@,
            name@,
            base64_data@,
        ),
{
    match decode_media(base64_data) {
        Ok(media) => Ok(
            StorageRequest {
                method: Method::Post,
                url: join_url(supabase_url, OBJECT_PATH, upload_bucket, name),
                bearer: String::from_str(supabase_api_key),
                content_type: media.mime_type,
                body: media.bytes,
                public_url: join_url(supabase_url, PUBLIC_OBJECT_PATH, upload_bucket, name),
            },
        ),
        Err(e) => Err(e),
    }
}

/// Whether `c` is a decimal digit or one of the letters `a` to `f`.
pub open spec fn is_lower_hex(c: char) -> bool {
    ('0' <= c && c <= '9') || ('a' <= c && c <= 'f')
}

/// Whether `name` has the shape of a generated object name: 36 characters,
/// hyphens at the places 8, 13, 18 and 23, lower-case hexadecimal digits at
/// the others.
pub open spec fn is_object_name(name: Seq<char>) -> bool {
    &&& name.len() == 36
    &&& forall|i: int|
        0 <= i < 36 ==> if i == 8 || i == 13 || i == 18 || i == 23 {
            #[trigger] name[i] == '-'
        } else {
            is_lower_hex(name[i])
        }
}

/// `uuid::Uuid::new_v4`, written out by `to_string`: a random identifier in
/// its hyphenated lower-case form. The value differs from call to call; only
/// its shape is stated.
#[verifier::external_body]
fn fresh_object_name() -> (name: String)
    ensures
        is_object_name(name@),
{
    uuid::Uuid::new_v4().to_string()
}

/// Whether `r` is what an upload of the payload into `bucket` may give: the
/// upload request under some generated object name, or the decoding error.
pub open spec fn is_upload_of(
    r: Result<StorageRequest, DecodeError>,
    key: Seq<char>,
    base: Seq<char>,
    bucket: Seq<char>,
    payload: Seq<char>,
) -> bool {
    exists|name: Seq<char>|
        is_object_name(name) && planned_view(r) == #[trigger] upload_plan(
            key,
            base,
            bucket,
            name,
            payload,
        )
}

/// Builds the request that creates a new object, under a fresh name, from a
/// payload. The payload is decoded first: where it is not base64 text, the
/// error is the answer and no request is made.
pub fn upload_to_supabase(
    supabase_api_key: &str,
    supabase_url: &str,
    upload_bucket: &str,
    base64_data: &str,
) -> (r: Result<StorageRequest, DecodeError>)
    ensures
        is_upload_of(r, supabase_api_key@, supabase_url@, upload_bucket@, base64_data@),
        r is Ok <==> media_of(base64_data@) is Ok,
{
    let name = fresh_object_name();
    upload_request(supabase_api_key, supabase_url, upload_bucket, name.as_str(), base64_data)
}

/// The request that overwrites the object behind the read URL `file_link`
/// with a payload, or the reason why the payload is not base64 text.
pub open spec fn overwrite_plan(key: Seq<char>, file_link: Seq<char>, payload: Seq<char>) -> Result<
    StorageRequestView,
    DecodeError,
> {
    match media_of(payload) {
        Ok((bytes, mime)) => Ok(
            StorageRequestView {
                method: Method::Put,
                url: overwrite_url_of(file_link),
                bearer: key,
                content_type: mime,
                body: bytes,
                public_url: file_link,
            },
        ),
        Err(e) => Err(e),
    }
}

/// Builds the request that overwrites the object behind `file_link`. The
/// read URL stays as it is; the MIME type is that of the new bytes.
pub fn overwrite_in_supabase(supabase_api_key: &str, file_link: &str, base64_data: &str) -> (r:
    Result<StorageRequest, DecodeError>)
    ensures
        planned_view(r) == overwrite_plan(supabase_api_key@, file_link@, base64_data@),
{
    match decode_media(base64_data) {
        Ok(media) => Ok(
            StorageRequest {
                method: Method::Put,
                url: remove_all(file_link, PUBLIC_SEGMENT),
                bearer: String::from_str(supabase_api_key),
                content_type: media.mime_type,
                body: media.bytes,
                public_url: String::from_str(file_link),
            },
        ),
        Err(e) => Err(e),
    }
}

/// The write URL that an overwrite derives from the read URL of an uploaded
/// object is the URL that the upload wrote to, as long as `public/` stands
/// nowhere in the read URL but in the service's own path: neither in the
/// base before it, nor in the bucket and the object name behind it. Where
/// it stands elsewhere too, the overwrite removes it there as well and
/// writes to another place.
pub proof fn lemma_overwrite_writes_where_upload_wrote(
    base: Seq<char>,
    bucket: Seq<char>,
    name: Seq<char>,
)
    requires
        !occurs_in(PUBLIC_SEGMENT@, base + "/storage/v1/object/public"@),
        !occurs_in(PUBLIC_SEGMENT@, "biz_touch/"@ + bucket + "/"@ + name),
    ensures
        overwrite_url_of(public_url_of(base, bucket, name)) == write_url_of(base, bucket, name),
{
    reveal_strlit("/storage/v1/object/public");
    reveal_strlit("/storage/v1/object/");
    reveal_strlit("/storage/v1/object/biz_touch/");
    reveal_strlit("/storage/v1/object/public/biz_touch/");
    reveal_strlit("biz_touch/");
    reveal_strlit("public/");
    let a = base + "/storage/v1/object/"@;
    let p = PUBLIC_SEGMENT@;
    let b = "biz_touch/"@ + bucket + "/"@ + name;
    let led = base + "/storage/v1/object/public"@;
    let s = a + p + b;
    assert(PUBLIC_OBJECT_PATH@ =~= "/storage/v1/object/"@ + p + "biz_touch/"@);
    assert(OBJECT_PATH@ =~= "/storage/v1/object/"@ + "biz_touch/"@);
    assert(public_url_of(base, bucket, name) =~= s);
    assert(write_url_of(base, bucket, name) =~= a + b);
    assert(led =~= s.take(a.len() as int + 6));
    assert forall|i: int| 0 <= i < a.len() implies !p.is_prefix_of(#[trigger] s.skip(i)) by {
        if p.is_prefix_of(s.skip(i)) {
            assert(s.skip(i).subrange(0, 7) =~= led.skip(i).subrange(0, 7));
            assert(p.is_prefix_of(led.skip(i)));
        }
    }
    lemma_without_all_removes_one(a, p, b);
}

/// How the service answered a write.
#[derive(Clone, Debug, PartialEq, Eq)]
pub enum StorageResponse {
    /// The service answered with a success status.
    Success,
    /// The service answered with another status; the text is its answer.
    Rejected(String),
    /// The service answered with another status and its answer could not
    /// be read; the text says why.
    Unreadable(String),
    /// The request did not reach the service; the text says why.
    Unsent(String),
}

pub enum StorageResponseView {
    Success,
    Rejected(Seq<char>),
    Unreadable(Seq<char>),
    Unsent(Seq<char>),
}

impl View for StorageResponse {
    type V = StorageResponseView;

    open spec fn view(&self) -> StorageResponseView {
        match self {
            StorageResponse::Success => StorageResponseView::Success,
            StorageResponse::Rejected(text) => StorageResponseView::Rejected(text@),
            StorageResponse::Unreadable(text) => StorageResponseView::Unreadable(text@),
            StorageResponse::Unsent(text) => StorageResponseView::Unsent(text@),
        }
    }
}

/// A write that did not succeed, in the words that the caller is given.
#[derive(Clone, Debug, PartialEq, Eq)]
pub enum StorageError {
    /// An object could not be created.
    Upload(String),
    /// An object could not be overwritten.
    Overwrite(String),
}

pub enum StorageErrorView {
    Upload(Seq<char>),
    Overwrite(Seq<char>),
}

impl View for StorageError {
    type V = StorageErrorView;

    open spec fn view(&self) -> StorageErrorView {
        match self {
            StorageError::Upload(text) => StorageErrorView::Upload(text@),
            StorageError::Overwrite(text) => StorageErrorView::Overwrite(text@),
        }
    }
}

impl StorageErrorView {
    /// The words of the error.
    pub open spec fn text(self) -> Seq<char> {
        match self {
            StorageErrorView::Upload(text) => text,
            StorageErrorView::Overwrite(text) => text,
        }
    }
}

impl StorageError {
    /// The words of the error.
    pub open spec fn message_text(self) -> Seq<char> {
        self@.text()
    }

    /// The words of the error.
    pub fn message(self) -> (text: String)
        ensures
            text@ == self.message_text(),
    {
        match self {
            StorageError::Upload(text) => text,
            StorageError::Overwrite(text) => text,
        }
    }
}

/// The error of a write of the given method, in the given words.
pub open spec fn failure_of(method: Method, text: Seq<char>) -> StorageErrorView {
    match method {
        Method::Post => StorageErrorView::Upload(text),
        Method::Put => StorageErrorView::Overwrite(text),
    }
}

/// The words that lead the service's answer in the error of a write.
pub open spec fn failure_lead(method: Method) -> Seq<char> {
    match method {
        Method::Post => UPLOAD_FAILED@,
        Method::Put => OVERWRITE_FAILED@,
    }
}

/// What the answer to a write means. A success gives the read URL and the
/// MIME type of the request. Any other answer is an error of the request's
/// method: a refusal is reported with the method's lead and the service's
/// text; an upload that was not sent likewise, with the reason; the other
/// failures are reported by their reason alone.
pub open spec fn settlement(
    method: Method,
    public_url: Seq<char>,
    mime_type: Seq<char>,
    response: StorageResponseView,
) -> Result<(Seq<char>, Seq<char>), StorageErrorView> {
    match response {
        StorageResponseView::Success => Ok((public_url, mime_type)),
        StorageResponseView::Rejected(text) => Err(
            failure_of(method, failure_lead(method) + text),
        ),
        StorageResponseView::Unreadable(reason) => Err(failure_of(method, reason)),
        StorageResponseView::Unsent(reason) => match method {
            Method::Post => Err(StorageErrorView::Upload(UPLOAD_FAILED@ + reason)),
            Method::Put => Err(StorageErrorView::Overwrite(reason)),
        },
    }
}

/// The result of a write with its texts taken as sequences.
pub open spec fn settled_view(r: Result<(String, String), StorageError>) -> Result<
    (Seq<char>, Seq<char>),
    StorageErrorView,
> {
    match r {
        Ok((url, mime_type)) => Ok((url@, mime_type@)),
        Err(e) => Err(e@),
    }
}

fn failure(method: Method, text: String) -> (e: StorageError)
    ensures
        e@ == failure_of(method, text@),
{
    match method {
        Method::Post => StorageError::Upload(text),
        Method::Put => StorageError::Overwrite(text),
    }
}

/// Reads the service's answer to a write of the given method: the read URL
/// and the MIME type on success, the error otherwise.
pub fn settle(method: Method, public_url: String, mime_type: String, response: StorageResponse) -> (r:
    Result<(String, String), StorageError>)
    ensures
        settled_view(r) == settlement(method, public_url@, mime_type@, response@),
{
    match response {
        StorageResponse::Success => Ok((public_url, mime_type)),
        StorageResponse::Rejected(text) => {
            let lead = match method {
                Method::Post => UPLOAD_FAILED,
                Method::Put => OVERWRITE_FAILED,
            };
            Err(failure(method, String::from_str(lead).concat(text.as_str())))
        },
        StorageResponse::Unreadable(reason) => Err(failure(method, reason)),
        StorageResponse::Unsent(reason) => match method {
            Method::Post => Err(
                StorageError::Upload(String::from_str(UPLOAD_FAILED).concat(reason.as_str())),
            ),
            Method::Put => Err(StorageError::Overwrite(reason)),
        },
    }
}

} // verus!
