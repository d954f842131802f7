use crates_mcp::errors::ClientError;
use crates_mcp::facade::{
    build_crate_info, build_version_list, classify_registry_status, crate_url,
    filter_min_downloads, require_crate_name, search_plan, search_results, sort_by_downloads,
    sort_mode_of, RegistryCrateData, RegistryCrateReply, RegistryVersion, SortMode,
};
use crates_mcp::types::CrateSearchResult;

fn hit(name: &str, downloads: u64) -> CrateSearchResult {
    CrateSearchResult {
        name: name.to_string(),
        max_version: "1.0.0".to_string(),
        description: None,
        downloads,
    }
}

fn version(num: &str, yanked: bool) -> RegistryVersion {
    RegistryVersion {
        num: num.to_string(),
        created_at: "2020-01-01T00:00:00Z".to_string(),
        downloads: 3,
        features: Vec::new(),
        yanked,
        license: Some("MIT".to_string()),
    }
}

fn reply(versions: Vec<RegistryVersion>) -> RegistryCrateReply {
    RegistryCrateReply {
        data: RegistryCrateData {
            name: "serde".to_string(),
            description: Some("A serialization framework".to_string()),
            documentation: None,
            homepage: None,
            repository: None,
            downloads: 9000,
            created_at: "2015-01-01T00:00:00Z".to_string(),
            updated_at: "2024-01-01T00:00:00Z".to_string(),
        },
        versions,
    }
}

#[test]
fn sort_mode_keywords() {
    assert!(matches!(sort_mode_of("downloads"), SortMode::Downloads));
    assert!(matches!(sort_mode_of("relevance"), SortMode::Relevance));
    assert!(matches!(sort_mode_of("anything"), SortMode::Relevance));
}

#[test]
fn plan_rejects_blank_query() {
    let r = search_plan("   ", Some(5), SortMode::Relevance, 0);
    match r {
        Err(ClientError::InvalidArgument(m)) => assert_eq!(m, "Search query cannot be empty"),
        _ => panic!("expected InvalidArgument"),
    }
}

#[test]
fn plan_rejects_exotic_whitespace_query() {
    // Vertical tab, form feed, next line, no-break space: all removed by
    // trimming, so the query is empty after it.
    let r = search_plan("\u{b}\u{c}\u{85}\u{a0}", Some(5), SortMode::Relevance, 0);
    match r {
        Err(ClientError::InvalidArgument(m)) => assert_eq!(m, "Search query cannot be empty"),
        _ => panic!("expected InvalidArgument"),
    }
}

#[test]
fn plan_url_relevance() {
    let p = search_plan("serde", Some(5), SortMode::Relevance, 0).unwrap();
    assert_eq!(p.limit, 5);
    assert_eq!(p.url, "https://crates.io/api/v1/crates?q=serde&per_page=5");
}

#[test]
fn plan_url_downloads_overfetches() {
    let p = search_plan("http", Some(3), SortMode::Downloads, 100000).unwrap();
    assert_eq!(p.limit, 3);
    assert_eq!(
        p.url,
        "https://crates.io/api/v1/crates?q=http&sort=downloads&per_page=9"
    );
}

#[test]
fn plan_url_defaults_and_caps() {
    let p = search_plan("x", None, SortMode::Relevance, 1).unwrap();
    assert_eq!(p.limit, 10);
    assert_eq!(p.url, "https://crates.io/api/v1/crates?q=x&per_page=30");

    let p = search_plan("x", Some(200), SortMode::Downloads, 0).unwrap();
    assert_eq!(p.limit, 100);
    assert_eq!(
        p.url,
        "https://crates.io/api/v1/crates?q=x&sort=downloads&per_page=100"
    );
}

#[test]
fn plan_url_percent_encodes_query() {
    let p = search_plan("hello world", Some(1), SortMode::Relevance, 0).unwrap();
    assert_eq!(
        p.url,
        "https://crates.io/api/v1/crates?q=hello%20world&per_page=1"
    );
}

#[test]
fn filter_keeps_order() {
    let v = vec![hit("a", 5), hit("b", 500), hit("c", 50)];
    let out = filter_min_downloads(v, 10);
    let names: Vec<&str> = out.iter().map(|c| c.name.as_str()).collect();
    assert_eq!(names, vec!["b", "c"]);
}

#[test]
fn sort_is_descending_and_stable() {
    let v = vec![hit("a", 5), hit("b", 500), hit("c", 50), hit("d", 500)];
    let out = sort_by_downloads(v);
    let names: Vec<&str> = out.iter().map(|c| c.name.as_str()).collect();
    // b and d tie on downloads; b came first and stays first.
    assert_eq!(names, vec!["b", "d", "c", "a"]);
    let downloads: Vec<u64> = out.iter().map(|c| c.downloads).collect();
    assert_eq!(downloads, vec![500, 500, 50, 5]);
}

#[test]
fn search_respects_floor_and_limit() {
    let fetched = vec![hit("a", 5), hit("b", 500), hit("c", 50), hit("d", 700)];
    let out = search_results(fetched, 2, SortMode::Relevance, 10);
    assert_eq!(out.len(), 2);
    assert!(out.iter().all(|c| c.downloads >= 10));
    let names: Vec<&str> = out.iter().map(|c| c.name.as_str()).collect();
    assert_eq!(names, vec!["b", "c"]);
}

#[test]
fn search_downloads_order_is_non_increasing() {
    let fetched = vec![hit("a", 5), hit("b", 500), hit("c", 50), hit("d", 700)];
    let out = search_results(fetched, 3, SortMode::Downloads, 10);
    let names: Vec<&str> = out.iter().map(|c| c.name.as_str()).collect();
    assert_eq!(names, vec!["d", "b", "c"]);
    let downloads: Vec<u64> = out.iter().map(|c| c.downloads).collect();
    assert!(downloads.windows(2).all(|w| w[0] >= w[1]));
}

#[test]
fn search_shorter_than_limit_when_few_pass() {
    let fetched = vec![hit("a", 5), hit("b", 500)];
    let out = search_results(fetched, 10, SortMode::Downloads, 100);
    assert_eq!(out.len(), 1);
    assert_eq!(out[0].name, "b");
}

#[test]
fn crate_name_validation() {
    assert!(require_crate_name("serde").is_ok());
    match require_crate_name(" \t") {
        Err(ClientError::InvalidArgument(m)) => assert_eq!(m, "Crate name cannot be empty"),
        _ => panic!("expected InvalidArgument"),
    }
    match require_crate_name("\u{a0}\u{2028}\u{3000}") {
        Err(ClientError::InvalidArgument(m)) => assert_eq!(m, "Crate name cannot be empty"),
        _ => panic!("expected InvalidArgument"),
    }
}

#[test]
fn crate_url_layout() {
    assert_eq!(crate_url("serde"), "https://crates.io/api/v1/crates/serde");
}

#[test]
fn status_classification() {
    assert!(classify_registry_status(200, "u").is_none());
    assert!(classify_registry_status(299, "u").is_none());
    match classify_registry_status(404, "https://crates.io/api/v1/crates/nope") {
        Some(ClientError::NotFound(m)) => {
            assert_eq!(m, "Resource not found at https://crates.io/api/v1/crates/nope")
        }
        _ => panic!("expected NotFound"),
    }
    match classify_registry_status(500, "u") {
        Some(ClientError::Upstream(m)) => assert_eq!(m, "Request failed: 500"),
        _ => panic!("expected Upstream"),
    }
}

#[test]
fn detail_skips_yanked_versions() {
    let r = reply(vec![version("2.0.0", true), version("1.9.0", false), version("1.8.0", false)]);
    let info = build_crate_info(r).unwrap();
    assert_eq!(info.version, "1.9.0");
    assert_eq!(info.name, "serde");
    assert_eq!(info.downloads, 9000);
    assert_eq!(info.license.as_deref(), Some("MIT"));
    assert!(info.authors.is_empty());
    assert!(info.keywords.is_empty());
    assert!(info.categories.is_empty());
}

#[test]
fn detail_falls_back_to_first_when_all_yanked() {
    let r = reply(vec![version("2.0.0", true), version("1.9.0", true)]);
    let info = build_crate_info(r).unwrap();
    assert_eq!(info.version, "2.0.0");
}

#[test]
fn detail_fails_without_versions() {
    match build_crate_info(reply(Vec::new())) {
        Err(ClientError::NotFound(m)) => assert_eq!(m, "No versions found for crate"),
        _ => panic!("expected NotFound"),
    }
}

#[test]
fn version_list_keeps_upstream_order_and_truncates() {
    let vs = vec![version("3.0.0", false), version("2.0.0", true), version("1.0.0", false)];
    let out = build_version_list(vs, Some(2));
    assert_eq!(out.len(), 2);
    assert_eq!(out[0].num, "3.0.0");
    assert_eq!(out[1].num, "2.0.0");
    assert!(out[1].yanked);

    let vs = vec![version("3.0.0", false), version("2.0.0", false)];
    let out = build_version_list(vs, Some(50));
    assert_eq!(out.len(), 2);

    let vs = vec![version("3.0.0", false), version("2.0.0", false)];
    let out = build_version_list(vs, None);
    assert_eq!(out.len(), 2);
    assert_eq!(out[0].num, "3.0.0");
}
