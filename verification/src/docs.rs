//! The documentation-client logic: URL layout for the hosting service,
//! version extraction from a redirect path, best-effort readme locations,
//! and the (deliberately shallow) structure extraction.
//!
//! Structure extraction from a rendered page is heuristic and allowed to
//! be incomplete; given a fetched page it never fails. Page fetching
//! itself can fail, and those failures are classified here.

use vstd::prelude::*;

use crate::errors::ClientError;
use crate::text::{dec_digits, lemma_split_on_len, push_dec, split_on, split_str, str_eq};
use crate::types::{CrateDocumentation, DocumentationItem};

verus! {

/// The page a documentation lookup fetches: the "latest" redirect when no
/// version is given, the versioned root page otherwise.
pub fn docs_page_url(name: &str, version: Option<&str>) -> (r: String)
    ensures
        match version {
            Option::None => r@ == "https://docs.rs/"@ + name@ + "/"@,
            Option::Some(v) => r@ == "https://docs.rs/"@ + name@ + "/"@ + v@ + "/"@ + name@ + "/"@,
        },
{
    let mut url = "https://docs.rs/".to_owned();
    url.append(name);
    url.append("/");
    match version {
        Option::Some(v) => {
            url.append(v);
            url.append("/");
            url.append(name);
            url.append("/");
        },
        Option::None => {},
    }
    url
}

/// One candidate readme location at the conventional source-browsing path.
pub open spec fn spec_readme_url(name: Seq<char>, version: Seq<char>, file: Seq<char>) -> Seq<
    char,
> {
    "https://docs.rs/"@ + name + "/"@ + version + "/src/"@ + name + "/"@ + file
}

fn readme_url(name: &str, version: &str, file: &str) -> (r: String)
    ensures
        r@ == spec_readme_url(name@, version@, file@),
{
    let mut url = "https://docs.rs/".to_owned();
    url.append(name);
    url.append("/");
    url.append(version);
    url.append("/src/");
    url.append(name);
    url.append("/");
    url.append(file);
    url
}

/// The readme locations to try, in order; the first fetch that succeeds
/// wins, and when none succeeds the readme is simply absent — the lookup
/// as a whole does not fail over it.
pub fn readme_urls(name: &str, version: &str) -> (out: Vec<String>)
    ensures
        out@.len() == 3,
        out@[0]@ == spec_readme_url(name@, version@, "README.md"@),
        out@[1]@ == spec_readme_url(name@, version@, "readme.md"@),
        out@[2]@ == spec_readme_url(name@, version@, "Readme.md"@),
{
    let mut out: Vec<String> = Vec::new();
    out.push(readme_url(name, version, "README.md"));
    out.push(readme_url(name, version, "readme.md"));
    out.push(readme_url(name, version, "Readme.md"));
    out
}

/// Classify the status of the first documentation-page fetch: a missing
/// page is `NotFound` with the package named, any other failure is an
/// upstream fault.
pub fn classify_docs_status(status: u16, name: &str) -> (r: Option<ClientError>)
    ensures
        r is None <==> 200 <= status < 300,
        status == 404 ==> (r matches Option::Some(e) && e matches ClientError::NotFound(m) && m@
            == "Documentation for crate '"@ + name@ + "' not found on docs.rs"@),
        !(200 <= status < 300) && status != 404 ==> (r matches Option::Some(e) && e matches
            ClientError::Upstream(m) && m@ == "Failed to access docs.rs: "@ + dec_digits(
            status as nat,
        )),
{
    if 200 <= status && status < 300 {
        None
    } else if status == 404 {
        let mut m = "Documentation for crate '".to_owned();
        m.append(name);
        m.append("' not found on docs.rs");
        Some(ClientError::NotFound(m))
    } else {
        let mut m = "Failed to access docs.rs: ".to_owned();
        push_dec(&mut m, status as u64);
        Some(ClientError::Upstream(m))
    }
}

/// Classify the status of the structure-extraction page fetch: any
/// failure there fails the whole lookup as `Unavailable`.
pub fn classify_structure_status(status: u16) -> (r: Option<ClientError>)
    ensures
        r is None <==> 200 <= status < 300,
        !(200 <= status < 300) ==> (r matches Option::Some(e) && e matches ClientError::Unavailable(
            m,
        ) && m@ == "Failed to access documentation page: "@ + dec_digits(status as nat)),
{
    if 200 <= status && status < 300 {
        None
    } else {
        let mut m = "Failed to access documentation page: ".to_owned();
        push_dec(&mut m, status as u64);
        Some(ClientError::Unavailable(m))
    }
}

/// Read the resolved version out of a redirect's URL path: the segment
/// immediately following the first segment that equals the package name.
/// When no such segment exists the lookup fails with a parse error.
pub fn extract_version_from_path(path: &str, name: &str) -> (r: Result<String, ClientError>)
    ensures
        ({
            let ps = split_on(path@, '/');
            &&& (r is Err <==> forall|i: int|
                0 <= i < ps.len() - 1 ==> #[trigger] ps[i] != name@)
            &&& (r matches Err(e) ==> (e matches ClientError::Parse(m) && m@
                == "Could not extract version from URL: "@ + path@))
            &&& (r matches Ok(v) ==> exists|i: int|
                0 <= i < ps.len() - 1 && #[trigger] ps[i] == name@ && v@ == ps[i + 1]
                    && forall|k: int| 0 <= k < i ==> #[trigger] ps[k] != name@)
        }),
{
    let ghost ps = split_on(path@, '/');
    let parts = split_str(path, '/');
    proof {
        lemma_split_on_len(path@, '/');
        assert(parts@.map_values(|p: String| p@) == ps);
        assert(parts@.len() == ps.len());
    }
    let n = parts.len();
    let mut i: usize = 0;
    while n >= 1 && i < n - 1
        invariant
            ps == split_on(path@, '/'),
            parts@.map_values(|p: String| p@) == ps,
            parts@.len() == ps.len(),
            n == parts@.len(),
            n >= 1,
            i <= n - 1,
            forall|k: int| 0 <= k < i ==> #[trigger] ps[k] != name@,
        decreases n - i,
    {
        if str_eq(parts[i].as_str(), name) {
            proof {
                assert(ps[i as int] == parts@[i as int]@);
                assert(ps[i + 1] == parts@[i + 1]@);
                assert((i as int) < ps.len() - 1 && ps[i as int] == name@);
            }
            return Ok(parts[i + 1].clone());
        }
        proof {
            assert(ps[i as int] == parts@[i as int]@);
        }
        i += 1;
    }
    let mut m = "Could not extract version from URL: ".to_owned();
    m.append(path);
    Err(ClientError::Parse(m))
}

/// Module extraction from a rendered page. The heuristic is deliberately
/// shallow — it reports the conventional root modules and nothing the page
/// text would add — and it never fails.
pub fn extract_modules_from_html(_html: &str) -> (out: Vec<String>)
    ensures
        out@.len() == 2,
        out@[0]@ == "lib"@,
        out@[1]@ == "prelude"@,
{
    let mut out: Vec<String> = Vec::new();
    out.push("lib".to_owned());
    out.push("prelude".to_owned());
    out
}

/// Item extraction from a rendered page: the same shallow heuristic, one
/// root-module item with its path under the package.
pub fn extract_items_from_html(_html: &str, crate_name: &str) -> (out: Vec<DocumentationItem>)
    ensures
        out@.len() == 1,
        out@[0].name@ == "lib"@,
        out@[0].kind@ == "module"@,
        out@[0].path@ == crate_name@ + "/lib"@,
        out@[0].description matches Option::Some(d) && d@ == "Main library module"@,
{
    let mut path = crate_name.to_owned();
    path.append("/lib");
    let mut out: Vec<DocumentationItem> = Vec::new();
    out.push(
        DocumentationItem {
            name: "lib".to_owned(),
            kind: "module".to_owned(),
            path,
            description: Some("Main library module".to_owned()),
        },
    );
    out
}

/// Documentation search. The hosting service offers no search API, so the
/// result is always empty; callers search the registry and look each hit's
/// documentation up instead.
pub fn search_documentation(_query: &str) -> (out: Vec<CrateDocumentation>)
    ensures
        out@.len() == 0,
{
    Vec::new()
}

/// Example-listing extraction from a source-browsing page: the same
/// shallow heuristic, which recovers nothing from the page text yet.
pub fn extract_examples_from_html(_html: &str) -> (out: Vec<String>)
    ensures
        out@.len() == 0,
{
    Vec::new()
}

/// Assemble the documentation record from the fetched pieces. The
/// description is left absent; extraction does not recover one.
pub fn build_documentation(
    name: &str,
    version: String,
    readme: Option<String>,
    modules: Vec<String>,
    items: Vec<DocumentationItem>,
) -> (r: CrateDocumentation)
    ensures
        r.name@ == name@,
        r.version == version,
        r.description is None,
        r.readme == readme,
        r.modules == modules,
        r.items == items,
{
    CrateDocumentation { name: name.to_owned(), version, description: None, readme, modules, items }
}

} // verus!
