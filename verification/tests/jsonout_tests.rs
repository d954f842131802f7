use crates_mcp::jsonout::{
    render_crate_info, render_dependencies, render_documentation, render_search_results,
    render_versions,
};
use crates_mcp::types::{
    CrateDependency, CrateDocumentation, CrateInfo, CrateSearchResult, CrateVersion,
    DocumentationItem, FeatureEntry,
};

#[test]
fn search_results_rendering() {
    let v = vec![
        CrateSearchResult {
            name: "serde".to_string(),
            max_version: "1.0.219".to_string(),
            description: Some("A framework".to_string()),
            downloads: 42,
        },
        CrateSearchResult {
            name: "syn".to_string(),
            max_version: "2.0.0".to_string(),
            description: None,
            downloads: 0,
        },
    ];
    assert_eq!(
        render_search_results(&v),
        "[{\"name\":\"serde\",\"max_version\":\"1.0.219\",\"description\":\"A framework\",\"downloads\":42},{\"name\":\"syn\",\"max_version\":\"2.0.0\",\"description\":null,\"downloads\":0}]"
    );
    assert_eq!(render_search_results(&Vec::new()), "[]");
}

#[test]
fn string_escaping_in_rendering() {
    let v = vec![CrateSearchResult {
        name: "a\"b\\c".to_string(),
        max_version: "1\n2\t3\r4".to_string(),
        description: Some("ctl:\u{1}".to_string()),
        downloads: 1,
    }];
    assert_eq!(
        render_search_results(&v),
        "[{\"name\":\"a\\\"b\\\\c\",\"max_version\":\"1\\n2\\t3\\r4\",\"description\":\"ctl:\\u0001\",\"downloads\":1}]"
    );
}

#[test]
fn version_rendering_with_features() {
    let v = vec![CrateVersion {
        num: "1.0.0".to_string(),
        created_at: "2020-01-01".to_string(),
        downloads: 7,
        features: vec![
            FeatureEntry { name: "default".to_string(), enables: vec!["std".to_string()] },
            FeatureEntry { name: "std".to_string(), enables: Vec::new() },
        ],
        yanked: true,
    }];
    assert_eq!(
        render_versions(&v),
        "[{\"num\":\"1.0.0\",\"created_at\":\"2020-01-01\",\"downloads\":7,\"features\":{\"default\":[\"std\"],\"std\":[]},\"yanked\":true}]"
    );
}

#[test]
fn dependency_rendering() {
    let v = vec![CrateDependency {
        name: "syn".to_string(),
        version_req: "^2".to_string(),
        optional: true,
        default_features: false,
        features: vec!["full".to_string()],
        target: Some("cfg(windows)".to_string()),
        kind: "normal".to_string(),
    }];
    assert_eq!(
        render_dependencies(&v),
        "[{\"name\":\"syn\",\"version_req\":\"^2\",\"optional\":true,\"default_features\":false,\"features\":[\"full\"],\"target\":\"cfg(windows)\",\"kind\":\"normal\"}]"
    );
}

#[test]
fn crate_info_rendering() {
    let c = CrateInfo {
        name: "serde".to_string(),
        version: "1.0.219".to_string(),
        description: None,
        documentation: Some("https://docs.rs/serde".to_string()),
        homepage: None,
        repository: None,
        license: Some("MIT OR Apache-2.0".to_string()),
        authors: Vec::new(),
        keywords: vec!["serde".to_string(), "no_std".to_string()],
        categories: Vec::new(),
        downloads: 500000000,
        created_at: "2015-01-01".to_string(),
        updated_at: "2024-01-01".to_string(),
    };
    assert_eq!(
        render_crate_info(&c),
        "{\"name\":\"serde\",\"version\":\"1.0.219\",\"description\":null,\"documentation\":\"https://docs.rs/serde\",\"homepage\":null,\"repository\":null,\"license\":\"MIT OR Apache-2.0\",\"authors\":[],\"keywords\":[\"serde\",\"no_std\"],\"categories\":[],\"downloads\":500000000,\"created_at\":\"2015-01-01\",\"updated_at\":\"2024-01-01\"}"
    );
}

#[test]
fn documentation_rendering() {
    let d = CrateDocumentation {
        name: "serde".to_string(),
        version: "1.0.0".to_string(),
        description: None,
        readme: Some("# serde".to_string()),
        modules: vec!["lib".to_string(), "prelude".to_string()],
        items: vec![DocumentationItem {
            name: "lib".to_string(),
            kind: "module".to_string(),
            path: "serde/lib".to_string(),
            description: Some("Main library module".to_string()),
        }],
    };
    assert_eq!(
        render_documentation(&d),
        "{\"name\":\"serde\",\"version\":\"1.0.0\",\"description\":null,\"readme\":\"# serde\",\"modules\":[\"lib\",\"prelude\"],\"items\":[{\"name\":\"lib\",\"kind\":\"module\",\"path\":\"serde/lib\",\"description\":\"Main library module\"}]}"
    );
}
