use slash_commands::error::CommandError;
use slash_commands::fetch::FetchResult;
use slash_commands::pypi::{
    ProjectUrls, RegistryStep, extract_project_urls, lookup_repository_url,
    mirror_repository_url, registry_fetch_step, resolve_repository_url,
};

#[test]
fn extraction_reads_all_three_keys() {
    let text = "{\"info\":{\"project_urls\":{\
        \"Source\":\"s\",\"Repository\":\"r\",\"Source Code\":\"c\",\"Homepage\":\"h\"}}}";
    let urls = extract_project_urls(text);
    assert_eq!(urls.source.as_deref(), Some("s"));
    assert_eq!(urls.repository.as_deref(), Some("r"));
    assert_eq!(urls.source_code.as_deref(), Some("c"));
    let partial = extract_project_urls("{\"info\":{\"project_urls\":{\"Repository\":\"r\"}}}");
    assert!(partial.source.is_none());
    assert_eq!(partial.repository.as_deref(), Some("r"));
    assert!(partial.source_code.is_none());
    let unparsed = extract_project_urls("no json");
    assert!(unparsed.source.is_none() && unparsed.repository.is_none());
}

#[test]
fn repository_key_resolves_to_mirror() {
    let text = "{\"info\":{\"project_urls\":{\"Repository\":\"https://github.com/x/y\"}}}";
    let r = lookup_repository_url(text);
    assert_eq!(r.unwrap(), "https://uithub.com/x/y");
}

#[test]
fn source_key_preferred_over_repository() {
    let text = "{\"info\":{\"project_urls\":{\
        \"Repository\":\"https://example.com/repo\",\
        \"Source\":\"https://github.com/a/b\"}}}";
    let r = lookup_repository_url(text);
    assert_eq!(r.unwrap(), "https://uithub.com/a/b");
}

#[test]
fn source_code_key_is_last_fallback() {
    let text = "{\"info\":{\"project_urls\":{\"Source Code\":\"https://github.com/c/d\"}}}";
    let r = lookup_repository_url(text);
    assert_eq!(r.unwrap(), "https://uithub.com/c/d");
}

#[test]
fn missing_keys_fail_lookup() {
    let r = lookup_repository_url("{\"info\":{\"project_urls\":{}}}");
    match r {
        Err(CommandError::RepositoryUrlNotFound) => {
            assert_eq!(
                CommandError::RepositoryUrlNotFound.message(),
                "GitHub URL not found"
            );
        }
        other => panic!("unexpected result: {other:?}"),
    }
    assert!(matches!(
        lookup_repository_url("{}"),
        Err(CommandError::RepositoryUrlNotFound)
    ));
}

#[test]
fn non_string_repository_value_fails_lookup() {
    let r = lookup_repository_url("{\"info\":{\"project_urls\":{\"Repository\":42}}}");
    assert!(matches!(r, Err(CommandError::RepositoryUrlNotFound)));
}

#[test]
fn malformed_document_is_a_parse_error() {
    let r = lookup_repository_url("not json at all");
    match r {
        Err(CommandError::JsonParse(m)) => {
            assert!(m.starts_with("Failed to parse JSON: "), "message was: {m}");
        }
        other => panic!("unexpected result: {other:?}"),
    }
}

#[test]
fn fallback_order_on_plain_values() {
    let urls = ProjectUrls {
        source: None,
        repository: Some("https://github.com/x/y".to_string()),
        source_code: Some("https://example.com/ignored".to_string()),
    };
    assert_eq!(resolve_repository_url(&urls).unwrap(), "https://github.com/x/y");
    let none = ProjectUrls { source: None, repository: None, source_code: None };
    assert!(matches!(
        resolve_repository_url(&none),
        Err(CommandError::RepositoryUrlNotFound)
    ));
}

#[test]
fn mirror_substitution_is_textual() {
    assert_eq!(
        mirror_repository_url("https://github.com/github-user/x"),
        "https://uithub.com/uithub-user/x"
    );
    assert_eq!(mirror_repository_url("https://example.com/a"), "https://example.com/a");
    assert_eq!(mirror_repository_url(""), "");
}

#[test]
fn metadata_fetch_failure_recovered_as_content() {
    let r = registry_fetch_step("pkg", FetchResult::Failure("no route".to_string()));
    match r {
        Ok(RegistryStep::Done(doc)) => {
            assert_eq!(doc.text, "API request failed. Error: no route.");
            assert!(doc.sections.is_empty());
        }
        other => panic!("unexpected result: {other:?}"),
    }
}

#[test]
fn metadata_fetch_success_needs_second_fetch() {
    let body = "{\"info\":{\"project_urls\":{\"Repository\":\"https://github.com/x/y\"}}}";
    let r = registry_fetch_step("pkg", FetchResult::Success(body.as_bytes().to_vec()));
    match r {
        Ok(RegistryStep::NeedsFetch { url, label }) => {
            assert_eq!(url, "https://uithub.com/x/y");
            assert_eq!(label, "PyPI: pkg");
        }
        other => panic!("unexpected result: {other:?}"),
    }
}

#[test]
fn metadata_parse_failure_is_hard_error() {
    let r = registry_fetch_step("pkg", FetchResult::Success(b"<html>".to_vec()));
    match r {
        Err(CommandError::JsonParse(m)) => {
            assert!(m.starts_with("Failed to parse JSON: "), "message was: {m}");
        }
        other => panic!("unexpected result: {other:?}"),
    }
}
