//! The GitHub Contents API upload flow: the request a caller must send,
//! and the Markdown link derived once the response confirms success.

use vstd::prelude::*;
use crate::settings::Settings;
use crate::encode::base64_of;
use crate::encode::file_base64;
use crate::encode::is_base64_char;

verus! {

/// Law: base64 output never needs JSON escaping; none of its characters
/// is a quote, a backslash or a control character. This is why `json`
/// below may splice the encoded content into the document verbatim.
pub proof fn lemma_base64_chars_json_safe(c: char)
    requires
        is_base64_char(c),
    ensures
        c != '"',
        c != '\\',
        c as u32 >= 32,
{
}

/// The JSON document sent as the body of the Contents API PUT, over the
/// four fields it carries.
pub open spec fn spec_request_json(
    message: Seq<char>,
    name: Seq<char>,
    email: Seq<char>,
    content: Seq<char>,
) -> Seq<char> {
    "{\"message\":\""@ + message + "\",\"committer\":{\"name\":\""@ + name + "\",\"email\":\""@
        + email + "\"},\"content\":\""@ + content + "\"}"@
}

/// The Contents API endpoint a file is PUT to.
pub open spec fn spec_api_url(s: Settings, filename: Seq<char>) -> Seq<char> {
    "https://api.github.com/repos/"@ + s.user@ + "/"@ + s.repo@ + "/contents/"@ + s.path@ + "/"@
        + filename
}

/// The CDN URL the uploaded file becomes reachable under.
pub open spec fn spec_cdn_url(s: Settings, filename: Seq<char>) -> Seq<char> {
    "https://cdn.jsdelivr.net/gh/"@ + s.user@ + "/"@ + s.repo@ + "/"@ + s.path@ + "/"@ + filename
}

/// The Markdown image link placed on the clipboard after an upload.
pub open spec fn spec_markdown_link(s: Settings, filename: Seq<char>) -> Seq<char> {
    "!["@ + filename + "]("@ + spec_cdn_url(s, filename) + ")"@
}

/// The body of one Contents API PUT: a fixed commit message and committer,
/// and the base64 content of the file being uploaded.
pub struct UploadRequest {
    pub message: String,
    pub committer_name: String,
    pub committer_email: String,
    pub content: String,
}

impl UploadRequest {
    /// A fresh request around an already base64-encoded payload; message
    /// and committer are the constants every upload commits with.
    pub fn new(content: String) -> (r: Self)
        ensures
            r.message@ == "upload file"@,
            r.committer_name@ == "uploader"@,
            r.committer_email@ == "uploader@example.com"@,
            r.content == content,
    {
        UploadRequest {
            message: String::from_str("upload file"),
            committer_name: String::from_str("uploader"),
            committer_email: String::from_str("uploader@example.com"),
            content,
        }
    }

    /// Renders the request as the JSON document the API expects. The
    /// fields are never escaped: the message and committer are fixed
    /// plain texts and the content is base64, so none of them can hold
    /// a quote, a backslash or a control character.
    pub fn json(&self) -> (r: String)
        ensures
            r@ == spec_request_json(
                self.message@,
                self.committer_name@,
                self.committer_email@,
                self.content@,
            ),
    {
        let r = String::from_str("{\"message\":\"");
        let r = r.concat(self.message.as_str());
        let r = r.concat("\",\"committer\":{\"name\":\"");
        let r = r.concat(self.committer_name.as_str());
        let r = r.concat("\",\"email\":\"");
        let r = r.concat(self.committer_email.as_str());
        let r = r.concat("\"},\"content\":\"");
        let r = r.concat(self.content.as_str());
        let r = r.concat("\"}");
        r
    }
}

/// Builds the Contents API URL for one upload.
pub fn api_url(s: &Settings, filename: &str) -> (r: String)
    ensures
        r@ == spec_api_url(*s, filename@),
{
    let r = String::from_str("https://api.github.com/repos/");
    let r = r.concat(s.user.as_str());
    let r = r.concat("/");
    let r = r.concat(s.repo.as_str());
    let r = r.concat("/contents/");
    let r = r.concat(s.path.as_str());
    let r = r.concat("/");
    let r = r.concat(filename);
    r
}

/// Builds the value of the `Authorization` header.
pub fn auth_header(s: &Settings) -> (r: String)
    ensures
        r@ == "token "@ + s.token@,
{
    String::from_str("token ").concat(s.token.as_str())
}

/// Derives the Markdown image link for an uploaded file.
pub fn markdown_link(s: &Settings, filename: &str) -> (r: String)
    ensures
        r@ == spec_markdown_link(*s, filename@),
{
    let r = String::from_str("![");
    let r = r.concat(filename);
    let r = r.concat("](");
    let r = r.concat("https://cdn.jsdelivr.net/gh/");
    let r = r.concat(s.user.as_str());
    let r = r.concat("/");
    let r = r.concat(s.repo.as_str());
    let r = r.concat("/");
    let r = r.concat(s.path.as_str());
    let r = r.concat("/");
    let r = r.concat(filename);
    let r = r.concat(")");
    r
}

/// Everything a caller needs to perform one upload: the endpoint, the
/// `Authorization` header value, the JSON body, and the filename the
/// upload was built for.
pub struct UploadJob {
    pub url: String,
    pub auth: String,
    pub body: String,
    pub filename: String,
}

/// Assembles one upload: encodes the file's bytes as base64 and fixes the
/// endpoint, the authorization header and the JSON body the caller must
/// PUT. The caller sends it and hands the parsed response to
/// `upload_outcome`.
pub fn build_upload(s: &Settings, filename: &str, bytes: &Vec<u8>) -> (r: UploadJob)
    requires
        4 * bytes@.len() <= usize::MAX - 16,
    ensures
        r.url@ == spec_api_url(*s, filename@),
        r.auth@ == "token "@ + s.token@,
        r.body@ == spec_request_json(
            "upload file"@,
            "uploader"@,
            "uploader@example.com"@,
            base64_of(bytes@),
        ),
        r.filename@ == filename@,
{
    let content = file_base64(bytes);
    let request = UploadRequest::new(content);
    UploadJob {
        url: api_url(s, filename),
        auth: auth_header(s),
        body: request.json(),
        filename: filename.to_owned(),
    }
}

/// What went wrong with one upload or digest run, each with the plain text
/// the collaborating call reported.
#[derive(Debug)]
pub enum UploadError {
    /// The source file could not be opened or read.
    FileRead(String),
    /// The HTTP call itself failed.
    Network(String),
    /// The response body did not deserialize into the success shape, as
    /// after an authentication failure or a rate limit.
    BadResponse(String),
}

impl UploadError {
    /// The plain text shown to the user for this error.
    pub fn message(&self) -> (r: String)
        ensures
            self matches UploadError::FileRead(d) ==> r@ == "read file failed: "@ + d@,
            self matches UploadError::Network(d) ==> r@ == "request failed: "@ + d@,
            self matches UploadError::BadResponse(d) ==> r@ == "unexpected response: "@ + d@,
    {
        match self {
            UploadError::FileRead(d) => String::from_str("read file failed: ").concat(d.as_str()),
            UploadError::Network(d) => String::from_str("request failed: ").concat(d.as_str()),
            UploadError::BadResponse(d) => String::from_str("unexpected response: ").concat(
                d.as_str(),
            ),
        }
    }
}

/// The content half of a Contents API success response: metadata of the
/// file that now exists in the repository.
pub struct GithubContent {
    pub name: String,
    pub path: String,
    pub sha: String,
    pub download_url: String,
}

/// The commit half of a Contents API success response.
pub struct GithubCommit {
    pub sha: String,
    pub message: String,
}

/// A Contents API response that deserialized into the success shape. It
/// only confirms success: the Markdown link is derived from the settings
/// and the filename, not from the response body.
pub struct GithubResponse {
    pub content: GithubContent,
    pub commit: GithubCommit,
}

/// Decides what one finished upload reports. A response that parsed into
/// the success shape yields the Markdown link to place on the clipboard; a
/// body of any other shape yields the deserialization error and no link,
/// so nothing reaches the clipboard.
pub fn upload_outcome(
    s: &Settings,
    filename: &str,
    parsed: &Option<GithubResponse>,
    detail: &str,
) -> (r: Result<String, UploadError>)
    ensures
        parsed is Some ==> r is Ok && r->Ok_0@ == spec_markdown_link(*s, filename@),
        parsed is None ==> r is Err && (r->Err_0 matches UploadError::BadResponse(d) && d@
            == detail@),
{
    match parsed {
        Some(_) => Ok(markdown_link(s, filename)),
        None => Err(UploadError::BadResponse(detail.to_owned())),
    }
}

} // verus!
