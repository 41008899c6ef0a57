use job_hub::routes::{download_zip_file_prepare, DownloadZipFileErrorResponse};
use job_hub::utils::{
    convert_google_share_or_view_url_to_download_url, GoogleConvertLinkError, UrlParts,
};

fn convert(link: &str) -> Result<String, GoogleConvertLinkError> {
    match download_zip_file_prepare(link) {
        Ok(bytes) => Ok(String::from_utf8(bytes).unwrap()),
        Err(DownloadZipFileErrorResponse::Convert(e)) => Err(e),
        Err(other) => panic!("the link should parse as a URL: {other:?}"),
    }
}

#[test]
fn share_link_converts_to_direct_download() {
    assert_eq!(
        convert("https://drive.google.com/file/d/ABC123/view?usp=sharing"),
        Ok("https://drive.google.com/uc?export=download&id=ABC123".to_string())
    );
}

#[test]
fn plain_http_is_an_invalid_scheme() {
    assert_eq!(
        convert("http://drive.google.com/file/d/ABC/view"),
        Err(GoogleConvertLinkError::InvalidScheme)
    );
}

#[test]
fn another_host_is_invalid() {
    assert_eq!(
        convert("https://example.com/x/y/z"),
        Err(GoogleConvertLinkError::InvalidHost)
    );
}

#[test]
fn too_few_segments_is_no_id() {
    assert_eq!(
        convert("https://drive.google.com/file/d"),
        Err(GoogleConvertLinkError::NoIdInPath)
    );
}

#[test]
fn a_hostless_url_reports_no_host() {
    // No https URL lacks a host, so this case is reached through the parts
    // directly, as an adapter with another URL source might.
    let parts = UrlParts {
        scheme: "https".to_string(),
        host: None,
        segments: Some(vec![]),
    };
    assert_eq!(
        convert_google_share_or_view_url_to_download_url(&parts),
        Err(GoogleConvertLinkError::NoHost)
    );
    let no_path = UrlParts {
        scheme: "https".to_string(),
        host: Some("drive.google.com".to_string()),
        segments: None,
    };
    assert_eq!(
        convert_google_share_or_view_url_to_download_url(&no_path),
        Err(GoogleConvertLinkError::NoSegments)
    );
}

#[test]
fn the_file_id_is_form_encoded() {
    let parts = UrlParts {
        scheme: "https".to_string(),
        host: Some("drive.google.com".to_string()),
        segments: Some(vec![
            "file".to_string(),
            "d".to_string(),
            "a b/c".to_string(),
        ]),
    };
    let url = convert_google_share_or_view_url_to_download_url(&parts).unwrap();
    assert_eq!(
        String::from_utf8(url).unwrap(),
        "https://drive.google.com/uc?export=download&id=a+b%2Fc"
    );
}

#[test]
fn an_unparseable_link_is_invalid_url() {
    assert_eq!(
        download_zip_file_prepare("not a url"),
        Err(DownloadZipFileErrorResponse::InvalidUrl)
    );
    assert_eq!(
        download_zip_file_prepare(""),
        Err(DownloadZipFileErrorResponse::InvalidUrl)
    );
}
