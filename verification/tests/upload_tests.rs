use imgup::settings::Settings;
use imgup::upload::{
    api_url, auth_header, build_upload, markdown_link, upload_outcome, GithubCommit,
    GithubContent, GithubResponse, UploadError, UploadRequest,
};

fn acme_settings() -> Settings {
    Settings::new(
        "testtoken".to_string(),
        "acme".to_string(),
        "imgs".to_string(),
        "cli".to_string(),
    )
}

fn some_response() -> GithubResponse {
    GithubResponse {
        content: GithubContent {
            name: "20240108195024_79177.png".to_string(),
            path: "cli/20240108195024_79177.png".to_string(),
            sha: "0123abcd".to_string(),
            download_url: "https://example.invalid/x.png".to_string(),
        },
        commit: GithubCommit { sha: "feedbeef".to_string(), message: "upload file".to_string() },
    }
}

#[test]
fn derives_the_markdown_link() {
    let link = markdown_link(&acme_settings(), "20240108195024_79177.png");
    assert_eq!(
        link,
        "![20240108195024_79177.png](https://cdn.jsdelivr.net/gh/acme/imgs/cli/20240108195024_79177.png)"
    );
}

#[test]
fn builds_the_contents_api_url() {
    assert_eq!(
        api_url(&acme_settings(), "x.png"),
        "https://api.github.com/repos/acme/imgs/contents/cli/x.png"
    );
}

#[test]
fn authorization_header_uses_the_token_scheme() {
    assert_eq!(auth_header(&acme_settings()), "token testtoken");
}

#[test]
fn request_json_has_the_fixed_committer_and_the_content() {
    let req = UploadRequest::new("aGVsbG8=".to_string());
    assert_eq!(
        req.json(),
        "{\"message\":\"upload file\",\"committer\":{\"name\":\"uploader\",\
         \"email\":\"uploader@example.com\"},\"content\":\"aGVsbG8=\"}"
    );
}

#[test]
fn build_upload_encodes_the_bytes() {
    let job = build_upload(&acme_settings(), "x.png", &b"hello".to_vec());
    assert_eq!(job.url, "https://api.github.com/repos/acme/imgs/contents/cli/x.png");
    assert_eq!(job.auth, "token testtoken");
    assert_eq!(job.filename, "x.png");
    assert!(job.body.contains("\"content\":\"aGVsbG8=\""));
}

#[test]
fn successful_response_yields_the_link() {
    let out = upload_outcome(&acme_settings(), "20240108195024_79177.png", &Some(some_response()), "");
    assert_eq!(
        out.unwrap(),
        "![20240108195024_79177.png](https://cdn.jsdelivr.net/gh/acme/imgs/cli/20240108195024_79177.png)"
    );
}

#[test]
fn unauthorized_body_yields_an_error_and_no_link() {
    let out = upload_outcome(
        &acme_settings(),
        "20240108195024_79177.png",
        &None,
        "missing field `content` at line 1 column 63",
    );
    let err = out.err().unwrap();
    assert_eq!(
        err.message(),
        "unexpected response: missing field `content` at line 1 column 63"
    );
    assert!(matches!(err, UploadError::BadResponse(_)));
}

#[test]
fn error_messages_name_each_failure() {
    assert_eq!(
        UploadError::FileRead("no such file".to_string()).message(),
        "read file failed: no such file"
    );
    assert_eq!(
        UploadError::Network("connection refused".to_string()).message(),
        "request failed: connection refused"
    );
}
