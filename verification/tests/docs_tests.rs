use crates_mcp::docs::{
    build_documentation, classify_docs_status, classify_structure_status, docs_page_url,
    extract_items_from_html, extract_modules_from_html, extract_version_from_path, readme_urls,
    search_documentation,
};
use crates_mcp::errors::ClientError;

#[test]
fn page_url_layout() {
    assert_eq!(docs_page_url("serde", None), "https://docs.rs/serde/");
    assert_eq!(
        docs_page_url("serde", Some("1.0.0")),
        "https://docs.rs/serde/1.0.0/serde/"
    );
}

#[test]
fn readme_candidates_in_order() {
    let urls = readme_urls("serde", "1.0.0");
    let views: Vec<&str> = urls.iter().map(|u| u.as_str()).collect();
    assert_eq!(
        views,
        vec![
            "https://docs.rs/serde/1.0.0/src/serde/README.md",
            "https://docs.rs/serde/1.0.0/src/serde/readme.md",
            "https://docs.rs/serde/1.0.0/src/serde/Readme.md",
        ]
    );
}

#[test]
fn docs_status_classification() {
    assert!(classify_docs_status(200, "serde").is_none());
    match classify_docs_status(404, "serde") {
        Some(ClientError::NotFound(m)) => {
            assert_eq!(m, "Documentation for crate 'serde' not found on docs.rs")
        }
        _ => panic!("expected NotFound"),
    }
    match classify_docs_status(503, "serde") {
        Some(ClientError::Upstream(m)) => assert_eq!(m, "Failed to access docs.rs: 503"),
        _ => panic!("expected Upstream"),
    }
}

#[test]
fn structure_status_is_unavailable_on_failure() {
    assert!(classify_structure_status(204).is_none());
    match classify_structure_status(500) {
        Some(ClientError::Unavailable(m)) => {
            assert_eq!(m, "Failed to access documentation page: 500")
        }
        _ => panic!("expected Unavailable"),
    }
}

#[test]
fn version_extraction_reads_segment_after_name() {
    let v = extract_version_from_path("/serde/1.0.219/serde/", "serde").unwrap();
    assert_eq!(v, "1.0.219");
}

#[test]
fn version_extraction_takes_first_occurrence() {
    let v = extract_version_from_path("/serde/serde/2.0.0/serde", "serde").unwrap();
    assert_eq!(v, "serde");
}

#[test]
fn version_extraction_fails_without_following_segment() {
    match extract_version_from_path("/other/1.0.0/serde", "serde") {
        Err(ClientError::Parse(m)) => {
            assert_eq!(m, "Could not extract version from URL: /other/1.0.0/serde")
        }
        _ => panic!("expected Parse"),
    }
}

#[test]
fn module_and_item_extraction_are_shallow() {
    let modules = extract_modules_from_html("<html>whatever</html>");
    let views: Vec<&str> = modules.iter().map(|m| m.as_str()).collect();
    assert_eq!(views, vec!["lib", "prelude"]);

    let items = extract_items_from_html("<html>whatever</html>", "serde");
    assert_eq!(items.len(), 1);
    assert_eq!(items[0].name, "lib");
    assert_eq!(items[0].kind, "module");
    assert_eq!(items[0].path, "serde/lib");
    assert_eq!(items[0].description.as_deref(), Some("Main library module"));
}

#[test]
fn documentation_search_is_empty() {
    assert!(search_documentation("serde").is_empty());
}

#[test]
fn documentation_assembly() {
    let modules = extract_modules_from_html("");
    let items = extract_items_from_html("", "serde");
    let doc = build_documentation(
        "serde",
        "1.0.0".to_string(),
        Some("# serde".to_string()),
        modules,
        items,
    );
    assert_eq!(doc.name, "serde");
    assert_eq!(doc.version, "1.0.0");
    assert!(doc.description.is_none());
    assert_eq!(doc.readme.as_deref(), Some("# serde"));
    assert_eq!(doc.modules.len(), 2);
    assert_eq!(doc.items.len(), 1);
}
