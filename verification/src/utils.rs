//! The share-link helper: turn a Google Drive share or view URL into its
//! direct-download URL.
//!
//! Parsing a URL is the `url` crate's work, behind one trusted wrapper that
//! hands back the three things the rule reads: the scheme, the host and the
//! path segments. The rule itself is verified: the scheme must be `https`,
//! the host `drive.google.com`, and the third path segment is the file id,
//! which is appended form-urlencoded to the fixed download prefix.
use crate::codec::{form_encoded, push_form_encoded, push_str_bytes};
use vstd::prelude::*;
use vstd::string::StringSliceAdditionalSpecFns;
use vstd::utf8::encode_utf8;

verus! {

/// Why a share link cannot be converted: a closed set, one variant per rule.
#[derive(Debug, Clone, Copy, PartialEq, Eq, Structural)]
pub enum GoogleConvertLinkError {
    /// The scheme is not `https`.
    InvalidScheme,
    /// The host is not `drive.google.com`.
    InvalidHost,
    /// The URL has no host.
    NoHost,
    /// The path has no third segment to take the file id from.
    NoIdInPath,
    /// The URL has no path segments at all.
    NoSegments,
}

/// What the converter reads of a parsed URL: the scheme, the host when the
/// URL has one, and the path segments when it has a path.
pub struct UrlParts {
    pub scheme: String,
    pub host: Option<String>,
    pub segments: Option<Vec<String>>,
}

/// The spec-level shape of `UrlParts`.
pub struct UrlPartsView {
    pub scheme: Seq<char>,
    pub host: Option<Seq<char>>,
    pub segments: Option<Seq<Seq<char>>>,
}

impl View for UrlParts {
    type V = UrlPartsView;

    open spec fn view(&self) -> UrlPartsView {
        UrlPartsView {
            scheme: self.scheme@,
            host: match self.host {
                Some(h) => Some(h@),
                None => None,
            },
            segments: match self.segments {
                Some(v) => Some(v@.map(|i: int, s: String| s@)),
                None => None,
            },
        }
    }
}

/// What `url::Url::parse` makes of a string: `Some` exactly when it parses,
/// and then the scheme, host and path segments the parsed URL reports.
/// Parsing is a function of the string alone.
pub uninterp spec fn parsed_url_of(s: Seq<char>) -> Option<UrlPartsView>;

/// Relies on `url::Url::parse` and its accessors `scheme`, `host_str` and
/// `path_segments`: returns their results exactly when the string parses as
/// a URL, `None` otherwise.
#[verifier::external_body]
pub(crate) fn parse_share_url(s: &str) -> (r: Option<UrlParts>)
    ensures
        r is Some <==> parsed_url_of(s@) is Some,
        r matches Some(p) ==> parsed_url_of(s@) == Some(p@),
{
    match url::Url::parse(s) {
        Ok(u) => Some(
            UrlParts {
                scheme: u.scheme().to_string(),
                host: u.host_str().map(|h| h.to_string()),
                segments: u.path_segments().map(|it| it.map(|seg| seg.to_string()).collect()),
            },
        ),
        Err(_) => None,
    }
}

/// The fixed prefix of every direct-download URL; the file id follows it.
pub open spec fn spec_download_url_prefix() -> Seq<u8> {
    "https://drive.google.com/uc?export=download&id=".spec_bytes()
}

/// The conversion rule, byte for byte: `https` scheme, `drive.google.com`
/// host, at least three path segments; the third segment is the file id,
/// appended form-urlencoded to the download prefix. Each rule that fails
/// names its own error.
pub open spec fn spec_convert(p: UrlPartsView) -> Result<Seq<u8>, GoogleConvertLinkError> {
    if p.scheme != "https"@ {
        Err(GoogleConvertLinkError::InvalidScheme)
    } else {
        match p.host {
            None => Err(GoogleConvertLinkError::NoHost),
            Some(host) => if host != "drive.google.com"@ {
                Err(GoogleConvertLinkError::InvalidHost)
            } else {
                match p.segments {
                    None => Err(GoogleConvertLinkError::NoSegments),
                    Some(segments) => if segments.len() < 3 {
                        Err(GoogleConvertLinkError::NoIdInPath)
                    } else {
                        Ok(spec_download_url_prefix() + form_encoded(encode_utf8(segments[2])))
                    },
                }
            },
        }
    }
}

/// Convert a parsed share or view URL to the direct-download URL, as UTF-8
/// bytes. Succeeds exactly on the inputs `spec_convert` accepts and returns
/// exactly its bytes; every rejected input gets the error of the first rule
/// it breaks.
pub fn convert_google_share_or_view_url_to_download_url(share_url: &UrlParts) -> (r: Result<
    Vec<u8>,
    GoogleConvertLinkError,
>)
    ensures
        match spec_convert(share_url@) {
            Ok(bytes) => r matches Ok(v) && v@ == bytes,
            Err(e) => r == Err::<Vec<u8>, GoogleConvertLinkError>(e),
        },
{
    if !crate::codec::str_eq(share_url.scheme.as_str(), "https") {
        return Err(GoogleConvertLinkError::InvalidScheme);
    }
    match &share_url.host {
        None => Err(GoogleConvertLinkError::NoHost),
        Some(host) => {
            if !crate::codec::str_eq(host.as_str(), "drive.google.com") {
                return Err(GoogleConvertLinkError::InvalidHost);
            }
            match &share_url.segments {
                None => Err(GoogleConvertLinkError::NoSegments),
                Some(segments) => {
                    if segments.len() < 3 {
                        return Err(GoogleConvertLinkError::NoIdInPath);
                    }
                    let mut out: Vec<u8> = Vec::new();
                    push_str_bytes(&mut out, "https://drive.google.com/uc?export=download&id=");
                    push_form_encoded(&mut out, segments[2].as_str().as_bytes());
                    proof {
                        assert(share_url@.segments.unwrap()[2] == segments@[2]@);
                        assert(out@ =~= spec_download_url_prefix() + form_encoded(
                            encode_utf8(share_url@.segments.unwrap()[2]),
                        ));
                    }
                    Ok(out)
                },
            }
        },
    }
}

/// The converter is total on well-formed share URLs: whenever the scheme is
/// `https`, the host is `drive.google.com` and the path has at least three
/// segments, conversion succeeds, and the result is the download prefix
/// followed by the form-urlencoded third segment.
pub proof fn lemma_convert_total_on_valid(p: UrlPartsView)
    requires
        p.scheme == "https"@,
        p.host == Some("drive.google.com"@),
        p.segments matches Some(segments) && segments.len() >= 3,
    ensures
        spec_convert(p) == Ok::<Seq<u8>, GoogleConvertLinkError>(
            spec_download_url_prefix() + form_encoded(encode_utf8(p.segments.unwrap()[2])),
        ),
{
}

} // verus!
