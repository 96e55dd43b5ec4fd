//! What the library reads of a URL, and percent-decoding.

use vstd::prelude::*;

verus! {

/// Model of [`UrlParts`].
pub struct UrlPartsV {
    pub scheme: Seq<char>,
    pub host: Option<Seq<char>>,
    pub path: Seq<char>,
}

/// The parts of a parsed URL that the library reads: its scheme, its host
/// if it has one, and its path.
#[derive(Debug)]
pub struct UrlParts {
    pub scheme: String,
    pub host: Option<String>,
    pub path: String,
}

impl View for UrlParts {
    type V = UrlPartsV;

    open spec fn view(&self) -> UrlPartsV {
        UrlPartsV {
            scheme: self.scheme@,
            host: crate::llm::provider::opt_text(self.host),
            path: self.path@,
        }
    }
}

/// What parsing a text as a URL yields: its parts, or the parser's message.
pub uninterp spec fn parsed_url(text: Seq<char>) -> Result<UrlPartsV, Seq<char>>;

/// The percent-decoded form of a text, where that is valid UTF-8.
pub uninterp spec fn percent_decoded(text: Seq<char>) -> Option<Seq<char>>;

/// `url::Url::parse`, with `scheme`, `host_str` and `path` of the parsed
/// URL, or the parser's message. All are functions of the text alone,
/// which this library only names.
#[verifier::external_body]
pub(crate) fn parse_url(text: &str) -> (r: Result<UrlParts, String>)
    ensures
        match r {
            Ok(parts) => parsed_url(text@) == Ok::<UrlPartsV, Seq<char>>(parts@),
            Err(e) => parsed_url(text@) == Err::<UrlPartsV, Seq<char>>(e@),
        },
{
    match url::Url::parse(text) {
        Ok(u) => Ok(
            UrlParts {
                scheme: u.scheme().to_string(),
                host: u.host_str().map(|h| h.to_string()),
                path: u.path().to_string(),
            },
        ),
        Err(e) => Err(e.to_string()),
    }
}

/// `percent_encoding::percent_decode_str` followed by `decode_utf8`: the
/// decoded text, or nothing where the decoded bytes are no UTF-8. A
/// function of the text alone, which this library only names.
#[verifier::external_body]
pub(crate) fn percent_decode(text: &str) -> (r: Option<String>)
    ensures
        crate::llm::provider::opt_text(r) == percent_decoded(text@),
{
    percent_encoding::percent_decode_str(text).decode_utf8().ok().map(|s| s.into_owned())
}

/// `url::Url::to_file_path` of the parsed text: the file path a `file` URL
/// names on this platform, where it names one that is valid UTF-8. What it
/// is depends on the platform, so nothing is claimed of it.
#[verifier::external_body]
pub(crate) fn file_url_path(text: &str) -> Option<String> {
    url::Url::parse(text).ok().and_then(|u| u.to_file_path().ok()).and_then(
        |p| p.to_str().map(|s| s.to_string()),
    )
}

} // verus!
