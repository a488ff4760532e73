//! The package-registry lookup: parse the registry's metadata document,
//! choose a repository URL from its `info.project_urls` object with a
//! fixed key fallback, and mirror it by a naive textual substitution.
//!
//! What the document holds under a key path is named (`json_string_at`)
//! rather than spelled out, and one trusted reader ties the name to the
//! text; the key fallback and the mirroring are verified against those
//! names, so the lookup's result is pinned for every document text.

use vstd::prelude::*;
use vstd::string::*;
use crate::error::CommandError;
use crate::fetch::{
    FetchResult, decode_response_body, fetch_error_text, format_fetch_error, lossy_decode,
};
use crate::output::{OutputDocument, is_plain_document, plain_document};
use crate::registry::pypi_label;
use crate::text::{replace, replace_all};

verus! {

/// The parse error a JSON document text produces, `None` when the text
/// is well-formed.
pub uninterp spec fn json_parse_error_of(text: Seq<char>) -> Option<Seq<char>>;

/// Whether a text is a well-formed JSON document.
pub open spec fn json_parses(text: Seq<char>) -> bool {
    json_parse_error_of(text) is None
}

/// Relies on serde_json::from_str: whether a text parses, and the error's
/// description when it does not, are functions of the text alone.
#[verifier::external_body]
fn json_parse_error(text: &str) -> (r: Option<String>)
    ensures
        r matches Some(m) ==> (json_parse_error_of(text@) matches Some(d) && m@ == d),
        r is None <==> json_parses(text@),
{
    match serde_json::from_str::<serde_json::Value>(text) {
        Ok(_) => None,
        Err(e) => Some(format!("{}", e)),
    }
}

/// The string value under a three-key path of a JSON document text:
/// `None` for a text that does not parse, a missing key, or a value that
/// is not a string.
pub uninterp spec fn json_string_at(
    text: Seq<char>,
    key1: Seq<char>,
    key2: Seq<char>,
    key3: Seq<char>,
) -> Option<Seq<char>>;

/// Relies on serde_json (from_str, Value::get, Value::as_str): the string
/// under a key path of a document is a function of the text and the keys
/// alone.
#[verifier::external_body]
fn json_string_at_keys(text: &str, key1: &str, key2: &str, key3: &str) -> (r: Option<String>)
    ensures
        r matches Some(s) ==> (json_string_at(text@, key1@, key2@, key3@) matches Some(v) && s@
            == v),
        r is None ==> json_string_at(text@, key1@, key2@, key3@) is None,
{
    match serde_json::from_str::<serde_json::Value>(text) {
        Ok(doc) => match doc.get(key1)
            .and_then(|v| v.get(key2))
            .and_then(|v| v.get(key3))
            .and_then(|v| v.as_str()) {
            Some(s) => Some(s.to_string()),
            None => None,
        },
        Err(_) => None,
    }
}

/// The string under `info.project_urls.Source`, if the document holds one.
pub open spec fn source_url_of(text: Seq<char>) -> Option<Seq<char>> {
    json_string_at(text, "info"@, "project_urls"@, "Source"@)
}

/// The string under `info.project_urls.Repository`, if the document holds
/// one.
pub open spec fn repository_url_of(text: Seq<char>) -> Option<Seq<char>> {
    json_string_at(text, "info"@, "project_urls"@, "Repository"@)
}

/// The string under `info.project_urls."Source Code"`, if the document
/// holds one.
pub open spec fn source_code_url_of(text: Seq<char>) -> Option<Seq<char>> {
    json_string_at(text, "info"@, "project_urls"@, "Source Code"@)
}

/// The repository URL the lookup chooses from a metadata text: the
/// `Source` key, else `Repository`, else `"Source Code"`; `None` when no
/// key holds a string.
pub open spec fn chosen_repository_url(text: Seq<char>) -> Option<Seq<char>> {
    if source_url_of(text) is Some {
        source_url_of(text)
    } else if repository_url_of(text) is Some {
        repository_url_of(text)
    } else {
        source_code_url_of(text)
    }
}

/// What the lookup reads from the registry metadata: the string values,
/// if any, of the three repository keys of `info.project_urls`.
pub struct ProjectUrls {
    pub source: Option<String>,
    pub repository: Option<String>,
    pub source_code: Option<String>,
}

/// Reads the three repository keys of `info.project_urls` out of the
/// metadata text.
pub fn extract_project_urls(text: &str) -> (r: ProjectUrls)
    ensures
        r.source matches Some(s) ==> (source_url_of(text@) matches Some(v) && s@ == v),
        r.source is None ==> source_url_of(text@) is None,
        r.repository matches Some(s) ==> (repository_url_of(text@) matches Some(v) && s@ == v),
        r.repository is None ==> repository_url_of(text@) is None,
        r.source_code matches Some(s) ==> (source_code_url_of(text@) matches Some(v) && s@ == v),
        r.source_code is None ==> source_code_url_of(text@) is None,
{
    ProjectUrls {
        source: json_string_at_keys(text, "info", "project_urls", "Source"),
        repository: json_string_at_keys(text, "info", "project_urls", "Repository"),
        source_code: json_string_at_keys(text, "info", "project_urls", "Source Code"),
    }
}

/// Chooses the repository URL: the `Source` key, else `Repository`, else
/// `Source Code`; when none of the three held a string, the lookup fails.
pub fn resolve_repository_url(urls: &ProjectUrls) -> (r: Result<String, CommandError>)
    ensures
        urls.source matches Some(s) ==> (r matches Ok(u) && u@ == s@),
        urls.source is None ==> (urls.repository matches Some(s) ==> (r matches Ok(u) && u@
            == s@)),
        urls.source is None && urls.repository is None ==> (urls.source_code matches Some(s) ==> (
        r matches Ok(u) && u@ == s@)),
        urls.source is None && urls.repository is None && urls.source_code is None ==> (r matches
            Err(e) && e is RepositoryUrlNotFound),
{
    match &urls.source {
        Some(s) => Ok(s.clone()),
        None => match &urls.repository {
            Some(s) => Ok(s.clone()),
            None => match &urls.source_code {
                Some(s) => Ok(s.clone()),
                None => Err(CommandError::RepositoryUrlNotFound),
            },
        },
    }
}

/// The mirror of a repository URL: every occurrence of `github` replaced
/// by `uithub` — a naive textual substitution, not a host-aware rewrite,
/// so the substring is replaced wherever it occurs.
pub fn mirror_repository_url(url: &str) -> (r: String)
    ensures
        r@ == replace_all(url@, "github"@, "uithub"@),
{
    proof {
        reveal_strlit("github");
    }
    replace(url, "github", "uithub")
}

/// Exactly what the lookup returns for a metadata text: the parse error's
/// message, the mirrored URL of the first string-valued repository key,
/// or the missing-URL error.
pub open spec fn lookup_matches(text: Seq<char>, r: Result<String, CommandError>) -> bool {
    match json_parse_error_of(text) {
        Some(d) => r matches Err(e) && (e matches CommandError::JsonParse(m) && m@
            == "Failed to parse JSON: "@ + d),
        None => (match chosen_repository_url(text) {
            Some(u) => r matches Ok(m) && m@ == replace_all(u, "github"@, "uithub"@),
            None => r matches Err(e) && e is RepositoryUrlNotFound,
        }),
    }
}

/// Parses a registry metadata text and resolves the mirrored repository
/// URL. A malformed document or a document without a repository key is a
/// hard error, never recovered as content.
pub fn lookup_repository_url(text: &str) -> (r: Result<String, CommandError>)
    ensures
        lookup_matches(text@, r),
{
    if let Some(raw) = json_parse_error(text) {
        let msg = String::from_str("Failed to parse JSON: ").concat(raw.as_str());
        return Err(CommandError::JsonParse(msg));
    }
    let urls = extract_project_urls(text);
    let repo = match resolve_repository_url(&urls) {
        Ok(u) => u,
        Err(e) => {
            return Err(e);
        },
    };
    Ok(mirror_repository_url(repo.as_str()))
}

/// What the package-registry command needs after its metadata fetch: a
/// finished document, or the second fetch of the mirrored source.
#[derive(Debug)]
pub enum RegistryStep {
    Done(OutputDocument),
    NeedsFetch { url: String, label: String },
}

/// Applies the metadata fetch outcome for the package-registry command.
/// A transport failure is recovered as document content; a parse failure
/// or a missing repository URL is a hard error; otherwise the mirrored
/// repository URL is to be fetched next, labeled with the package name.
pub fn registry_fetch_step(package: &str, result: FetchResult) -> (r: Result<
    RegistryStep,
    CommandError,
>)
    ensures
        result matches FetchResult::Failure(d) ==> (r matches Ok(s) && (s
            matches RegistryStep::Done(doc) && is_plain_document(doc, fetch_error_text(d@)))),
        result matches FetchResult::Success(bytes) ==> (match json_parse_error_of(
            lossy_decode(bytes@),
        ) {
            Some(d) => r matches Err(e) && (e matches CommandError::JsonParse(m) && m@
                == "Failed to parse JSON: "@ + d),
            None => (match chosen_repository_url(lossy_decode(bytes@)) {
                Some(u) => r matches Ok(s) && (s matches RegistryStep::NeedsFetch { url, label }
                    && url@ == replace_all(u, "github"@, "uithub"@) && label@ == pypi_label(
                    package@,
                )),
                None => r matches Err(e) && e is RepositoryUrlNotFound,
            }),
        }),
{
    match result {
        FetchResult::Failure(d) => Ok(
            RegistryStep::Done(plain_document(format_fetch_error(d.as_str()))),
        ),
        FetchResult::Success(bytes) => {
            let content = decode_response_body(&bytes);
            match lookup_repository_url(content.as_str()) {
                Ok(url) => Ok(
                    RegistryStep::NeedsFetch {
                        url,
                        label: String::from_str("PyPI: ").concat(package),
                    },
                ),
                Err(e) => Err(e),
            }
        },
    }
}

} // verus!
