//! The backing-client facade: the pure half of search, single-package
//! detail and version-history lookup against the registry's HTTP API.
//!
//! The transport fetches pages; everything decided about them — argument
//! validation, the request URL, the fetch-then-filter-then-truncate search
//! pipeline, version resolution — is stated and proved here.

use vstd::multiset::Multiset;
use vstd::prelude::*;

use crate::errors::ClientError;
use crate::text::{dec_digits, is_blank, push_dec, str_eq, str_is_blank};
use crate::types::{CrateInfo, CrateSearchResult, CrateVersion, FeatureEntry};

verus! {

/// What the registry's search result text names of a crate after
/// percent-encoding; the encoding is a function of the characters alone.
pub uninterp spec fn url_encoded(s: Seq<char>) -> Seq<char>;

/// Relies on urlencoding::encode: percent-encodes every byte except
/// alphanumerics and `-`, `_`, `.`, `~`; the result depends on the input
/// characters alone, and an empty input gives an empty result.
#[verifier::external_body]
fn url_encode(s: &str) -> (r: String)
    ensures
        r@ == url_encoded(s@),
        s@.len() == 0 ==> r@.len() == 0,
{
    urlencoding::encode(s).into_owned()
}

/// How search hits are ordered before truncation.
#[derive(PartialEq, Eq, Structural, Clone, Copy)]
pub enum SortMode {
    Relevance,
    Downloads,
}

/// Read a sort-mode keyword: `downloads` selects the download ordering,
/// anything else the upstream relevance ordering.
pub fn sort_mode_of(s: &str) -> (m: SortMode)
    ensures
        m == (if s@ == "downloads"@ {
            SortMode::Downloads
        } else {
            SortMode::Relevance
        }),
{
    if str_eq(s, "downloads") {
        SortMode::Downloads
    } else {
        SortMode::Relevance
    }
}

/// The smaller of two integers.
pub open spec fn spec_min(a: int, b: int) -> int {
    if a < b {
        a
    } else {
        b
    }
}

/// The count of hits a search call is asked for: the caller's limit capped
/// at the upstream page-size ceiling, ten when no limit is given.
pub open spec fn spec_effective_limit(limit: Option<u64>) -> int {
    match limit {
        Option::Some(l) => spec_min(l as int, 100),
        Option::None => 10,
    }
}

/// The count of hits fetched from upstream. When results will be filtered
/// by a downloads floor or re-sorted by downloads, three times the asked
/// count is fetched (the upstream ranking does not guarantee the
/// post-filter count is met), still capped at the page-size ceiling.
pub open spec fn spec_api_limit(limit: int, sort: SortMode, min_downloads: u64) -> int {
    if min_downloads > 0 || sort == SortMode::Downloads {
        spec_min(3 * limit, 100)
    } else {
        limit
    }
}

/// The exact search request URL.
pub open spec fn spec_search_url(q: Seq<char>, sort: SortMode, api_limit: int) -> Seq<char> {
    "https://crates.io/api/v1/crates?q="@ + url_encoded(q) + (if sort == SortMode::Downloads {
        "&sort=downloads"@
    } else {
        Seq::<char>::empty()
    }) + "&per_page="@ + dec_digits(api_limit as nat)
}

/// A validated search call: the URL to fetch and the count to keep.
pub struct SearchPlan {
    pub url: String,
    pub limit: u64,
}

/// Validate a search call and lay out its upstream request. A query that
/// trims to nothing is refused; nothing else is.
pub fn search_plan(query: &str, limit: Option<u64>, sort: SortMode, min_downloads: u64) -> (r:
    Result<SearchPlan, ClientError>)
    ensures
        r is Err <==> is_blank(query@),
        r matches Err(e) ==> (e matches ClientError::InvalidArgument(m) && m@
            == "Search query cannot be empty"@),
        r matches Ok(p) ==> p.limit as int == spec_effective_limit(limit) && p.url@
            == spec_search_url(
            query@,
            sort,
            spec_api_limit(spec_effective_limit(limit), sort, min_downloads),
        ),
{
    if str_is_blank(query) {
        return Err(ClientError::InvalidArgument("Search query cannot be empty".to_owned()));
    }
    let l: u64 = match limit {
        Option::Some(l) => if l < 100 {
            l
        } else {
            100
        },
        Option::None => 10,
    };
    let api: u64 = if min_downloads > 0 || sort == SortMode::Downloads {
        if 3 * l < 100 {
            3 * l
        } else {
            100
        }
    } else {
        l
    };
    let mut url = "https://crates.io/api/v1/crates?q=".to_owned();
    url.append(url_encode(query).as_str());
    if sort == SortMode::Downloads {
        url.append("&sort=downloads");
    }
    url.append("&per_page=");
    push_dec(&mut url, api);
    proof {
        assert(url@ =~= spec_search_url(
            query@,
            sort,
            spec_api_limit(spec_effective_limit(limit), sort, min_downloads),
        ));
    }
    Ok(SearchPlan { url, limit: l })
}

/// The hits at or above the downloads floor, in upstream order.
pub fn filter_min_downloads(v: Vec<CrateSearchResult>, min_downloads: u64) -> (out: Vec<
    CrateSearchResult,
>)
    ensures
        out@ == v@.filter(|c: CrateSearchResult| c.downloads >= min_downloads),
{
    let ghost orig = v@;
    let ghost pred = |c: CrateSearchResult| c.downloads >= min_downloads;
    let total = v.len();
    let mut v = v;
    let mut out: Vec<CrateSearchResult> = Vec::new();
    let mut i: usize = 0;
    while v.len() > 0
        invariant
            i <= orig.len(),
            orig.len() == total,
            pred == (|c: CrateSearchResult| c.downloads >= min_downloads),
            v@ == orig.skip(i as int),
            out@ == orig.take(i as int).filter(pred),
        decreases v.len(),
    {
        let ghost out_before = out@;
        let x = v.remove(0);
        proof {
            assert(x == orig[i as int]);
            assert(orig.skip(i as int).remove(0) =~= orig.skip(i + 1));
        }
        if x.downloads >= min_downloads {
            out.push(x);
        }
        i += 1;
        proof {
            reveal(Seq::filter);
            let pre = orig.take(i as int);
            assert(pre.drop_last() =~= orig.take(i - 1));
            assert(pre.last() == orig[i - 1]);
            assert(pre.filter(pred) == if pred(pre.last()) {
                pre.drop_last().filter(pred).push(pre.last())
            } else {
                pre.drop_last().filter(pred)
            });
            assert(out@ == pre.filter(pred));
        }
    }
    proof {
        assert(orig.take(i as int) =~= orig);
        assert(out@ == orig.filter(|c: CrateSearchResult| c.downloads >= min_downloads));
    }
    out
}

/// Downloads never increase along the sequence.
pub open spec fn sorted_desc(s: Seq<CrateSearchResult>) -> bool {
    forall|i: int, j: int|
        0 <= i < j < s.len() ==> #[trigger] s[i].downloads >= #[trigger] s[j].downloads
}

/// One hit placed into an already-ordered sequence, after every hit it
/// does not outrank: the insertion step of a stable descending sort.
pub open spec fn insert_desc(t: Seq<CrateSearchResult>, x: CrateSearchResult) -> Seq<
    CrateSearchResult,
>
    decreases t.len(),
{
    if t.len() == 0 {
        seq![x]
    } else if t.last().downloads >= x.downloads {
        t.push(x)
    } else {
        insert_desc(t.drop_last(), x).push(t.last())
    }
}

/// The stable descending sort by downloads: the unique reordering that is
/// non-increasing by downloads and keeps hits with equal downloads in
/// their input order.
pub open spec fn stable_sort_desc(s: Seq<CrateSearchResult>) -> Seq<CrateSearchResult>
    decreases s.len(),
{
    if s.len() == 0 {
        s
    } else {
        insert_desc(stable_sort_desc(s.drop_last()), s.last())
    }
}

proof fn lemma_insert_desc_props(t: Seq<CrateSearchResult>, x: CrateSearchResult)
    requires
        sorted_desc(t),
    ensures
        sorted_desc(insert_desc(t, x)),
        insert_desc(t, x).to_multiset() == t.to_multiset().insert(x),
        insert_desc(t, x).len() == t.len() + 1,
    decreases t.len(),
{
    broadcast use vstd::seq_lib::group_to_multiset_ensures;
    broadcast use vstd::multiset::group_multiset_axioms;

    let ins = insert_desc(t, x);
    if t.len() == 0 {
        assert(ins =~= Seq::<CrateSearchResult>::empty().push(x));
        assert(ins.to_multiset() =~= t.to_multiset().insert(x));
    } else if t.last().downloads >= x.downloads {
        assert(ins == t.push(x));
        assert(sorted_desc(ins)) by {
            assert forall|i: int, j: int|
                0 <= i < j < ins.len() implies #[trigger] ins[i].downloads
                >= #[trigger] ins[j].downloads by {
                if j < t.len() {
                    assert(ins[i] == t[i] && ins[j] == t[j]);
                } else {
                    assert(ins[j] == x);
                    assert(ins[i] == t[i]);
                    assert(t[i].downloads >= t[t.len() - 1].downloads);
                }
            }
        }
    } else {
        let u = insert_desc(t.drop_last(), x);
        assert(sorted_desc(t.drop_last())) by {
            assert forall|i: int, j: int|
                0 <= i < j < t.drop_last().len() implies #[trigger] t.drop_last()[i].downloads
                >= #[trigger] t.drop_last()[j].downloads by {
                assert(t.drop_last()[i] == t[i] && t.drop_last()[j] == t[j]);
            }
        }
        lemma_insert_desc_props(t.drop_last(), x);
        assert(ins == u.push(t.last()));
        assert(sorted_desc(ins)) by {
            assert forall|i: int, j: int|
                0 <= i < j < ins.len() implies #[trigger] ins[i].downloads
                >= #[trigger] ins[j].downloads by {
                if j < u.len() {
                    assert(ins[i] == u[i] && ins[j] == u[j]);
                } else {
                    assert(ins[j] == t.last());
                    assert(ins[i] == u[i]);
                    assert(u.contains(u[i])) by {
                        assert(u[i] == u[i]);
                    }
                    assert(u.to_multiset().count(u[i]) > 0);
                    if u[i] == x {
                        assert(u[i].downloads >= t.last().downloads);
                    } else {
                        assert(t.drop_last().to_multiset().count(u[i]) > 0);
                        assert(t.drop_last().contains(u[i]));
                        let k = choose|k: int|
                            0 <= k < t.drop_last().len() && t.drop_last()[k] == u[i];
                        assert(t[k] == u[i]);
                        assert(t[k].downloads >= t[t.len() - 1].downloads);
                    }
                }
            }
        }
        assert(t =~= t.drop_last().push(t.last()));
        assert(t.to_multiset() == t.drop_last().to_multiset().insert(t.last()));
        assert(ins.to_multiset() =~= t.to_multiset().insert(x));
    }
}

/// The stable sort is a reordering: same records, non-increasing by
/// downloads, same length.
pub proof fn lemma_stable_sort_props(s: Seq<CrateSearchResult>)
    ensures
        sorted_desc(stable_sort_desc(s)),
        stable_sort_desc(s).to_multiset() == s.to_multiset(),
        stable_sort_desc(s).len() == s.len(),
    decreases s.len(),
{
    broadcast use vstd::seq_lib::group_to_multiset_ensures;

    if s.len() > 0 {
        lemma_stable_sort_props(s.drop_last());
        lemma_insert_desc_props(stable_sort_desc(s.drop_last()), s.last());
        assert(s =~= s.drop_last().push(s.last()));
        assert(s.to_multiset() == s.drop_last().to_multiset().insert(s.last()));
    }
}

proof fn lemma_insert_desc_at(t: Seq<CrateSearchResult>, x: CrateSearchResult, j: int)
    requires
        0 <= j <= t.len(),
        forall|k: int| j <= k < t.len() ==> (#[trigger] t[k]).downloads < x.downloads,
        j > 0 ==> t[j - 1].downloads >= x.downloads,
    ensures
        insert_desc(t, x) == t.insert(j, x),
    decreases t.len(),
{
    if t.len() == 0 {
        assert(insert_desc(t, x) =~= t.insert(0, x));
    } else if t.last().downloads >= x.downloads {
        assert(j == t.len()) by {
            if j < t.len() {
                assert(t[t.len() - 1].downloads < x.downloads);
            }
        }
        assert(t.push(x) =~= t.insert(t.len() as int, x));
    } else {
        assert(j < t.len()) by {
            if j == t.len() {
                assert(t[j - 1] == t.last());
            }
        }
        assert(forall|k: int|
            j <= k < t.drop_last().len() ==> (#[trigger] t.drop_last()[k]).downloads
                < x.downloads);
        assert(j > 0 ==> t.drop_last()[j - 1].downloads >= x.downloads);
        lemma_insert_desc_at(t.drop_last(), x, j);
        assert(insert_desc(t, x) == t.drop_last().insert(j, x).push(t.last()));
        assert(t.drop_last().insert(j, x).push(t.last()) =~= t.insert(j, x));
    }
}

fn insert_by_downloads(t: &mut Vec<CrateSearchResult>, x: CrateSearchResult)
    ensures
        final(t)@ == insert_desc(old(t)@, x),
{
    let mut j: usize = t.len();
    while j > 0 && t[j - 1].downloads < x.downloads
        invariant
            j <= t@.len(),
            t@ == old(t)@,
            forall|k: int| j <= k < t@.len() ==> (#[trigger] t@[k]).downloads < x.downloads,
        decreases j,
    {
        j -= 1;
    }
    proof {
        lemma_insert_desc_at(t@, x, j as int);
    }
    t.insert(j, x);
}

/// Sort the hits by downloads, highest first, keeping hits with equal
/// downloads in their input order: the stable descending sort, exactly.
pub fn sort_by_downloads(v: Vec<CrateSearchResult>) -> (out: Vec<CrateSearchResult>)
    ensures
        out@ == stable_sort_desc(v@),
        out@.to_multiset() == v@.to_multiset(),
        out@.len() == v@.len(),
        sorted_desc(out@),
{
    proof {
        lemma_stable_sort_props(v@);
    }
    let ghost orig = v@;
    let total = v.len();
    let mut v = v;
    let mut out: Vec<CrateSearchResult> = Vec::new();
    let mut i: usize = 0;
    while v.len() > 0
        invariant
            i <= orig.len(),
            orig.len() == total,
            v@ == orig.skip(i as int),
            out@ == stable_sort_desc(orig.take(i as int)),
        decreases v.len(),
    {
        let x = v.remove(0);
        proof {
            assert(x == orig[i as int]);
            assert(orig.skip(i as int).remove(0) =~= orig.skip(i + 1));
        }
        insert_by_downloads(&mut out, x);
        i += 1;
        proof {
            let pre = orig.take(i as int);
            assert(pre.drop_last() =~= orig.take(i - 1));
            assert(pre.last() == orig[i - 1]);
            assert(out@ == stable_sort_desc(pre));
        }
    }
    proof {
        assert(orig.take(i as int) =~= orig);
    }
    out
}

/// Keep only the first `limit` hits, in place.
pub fn truncate_results(v: &mut Vec<CrateSearchResult>, limit: u64)
    ensures
        final(v)@ == old(v)@.take(spec_min(limit as int, old(v)@.len() as int)),
{
    if (v.len() as u64) > limit {
        let l = limit as usize;
        v.truncate(l);
        proof {
            assert(v@ =~= old(v)@.take(spec_min(limit as int, old(v)@.len() as int)));
        }
    } else {
        proof {
            assert(v@ =~= old(v)@.take(spec_min(limit as int, old(v)@.len() as int)));
        }
    }
}

/// The search pipeline after the page is fetched: filter by the downloads
/// floor, re-sort when the download ordering is asked for, then truncate to
/// the asked count. Filtering before truncating is what makes the result a
/// correct top-N under a downloads floor.
pub fn search_results(
    fetched: Vec<CrateSearchResult>,
    limit: u64,
    sort: SortMode,
    min_downloads: u64,
) -> (out: Vec<CrateSearchResult>)
    ensures
        ({
            let kept = fetched@.filter(|c: CrateSearchResult| c.downloads >= min_downloads);
            &&& out@.len() == spec_min(limit as int, kept.len() as int)
            &&& out@.len() <= limit as int
            &&& (sort == SortMode::Relevance ==> out@ == kept.take(
                spec_min(limit as int, kept.len() as int),
            ))
            &&& (sort == SortMode::Downloads ==> out@ == stable_sort_desc(kept).take(
                spec_min(limit as int, kept.len() as int),
            ))
            &&& (sort == SortMode::Downloads ==> sorted_desc(out@))
            &&& forall|i: int| 0 <= i < out@.len() ==> #[trigger] out@[i].downloads >= min_downloads
        }),
{
    broadcast use vstd::seq_lib::group_to_multiset_ensures;

    let ghost pred = |c: CrateSearchResult| c.downloads >= min_downloads;
    let ghost kept = fetched@.filter(pred);
    let mut v = filter_min_downloads(fetched, min_downloads);
    proof {
        assert forall|i: int| 0 <= i < v@.len() implies #[trigger] v@[i].downloads
            >= min_downloads by {
            fetched@.lemma_filter_pred(pred, i);
            assert(pred(kept[i]));
        }
    }
    if sort == SortMode::Downloads {
        v = sort_by_downloads(v);
        proof {
            lemma_stable_sort_props(kept);
            assert forall|i: int| 0 <= i < v@.len() implies #[trigger] v@[i].downloads
                >= min_downloads by {
                assert(v@.to_multiset().contains(v@[i]));
                assert(kept.to_multiset().contains(v@[i]));
                assert(kept.contains(v@[i]));
                let j = choose|j: int| 0 <= j < kept.len() && kept[j] == v@[i];
                fetched@.lemma_filter_pred(pred, j);
            }
        }
    }
    let ghost full = v@;
    truncate_results(&mut v, limit);
    proof {
        assert(v@ == full.take(spec_min(limit as int, full.len() as int)));
        assert forall|i: int| 0 <= i < v@.len() implies #[trigger] v@[i].downloads
            >= min_downloads by {
            assert(v@[i] == full[i]);
        }
        if sort == SortMode::Downloads {
            assert(sorted_desc(v@)) by {
                assert forall|i: int, j: int|
                    0 <= i < j < v@.len() implies #[trigger] v@[i].downloads
                    >= #[trigger] v@[j].downloads by {
                    assert(v@[i] == full[i] && v@[j] == full[j]);
                }
            }
        }
    }
    v
}

/// One version record as the registry's per-package reply carries it.
pub struct RegistryVersion {
    pub num: String,
    pub created_at: String,
    pub downloads: u64,
    pub features: Vec<FeatureEntry>,
    pub yanked: bool,
    pub license: Option<String>,
}

/// The per-package header of the registry's reply.
pub struct RegistryCrateData {
    pub name: String,
    pub description: Option<String>,
    pub documentation: Option<String>,
    pub homepage: Option<String>,
    pub repository: Option<String>,
    pub downloads: u64,
    pub created_at: String,
    pub updated_at: String,
}

/// A parsed per-package reply: the header and the version list, in the
/// registry's own (descending) order.
pub struct RegistryCrateReply {
    pub data: RegistryCrateData,
    pub versions: Vec<RegistryVersion>,
}

/// A crate name must not trim to nothing.
pub fn require_crate_name(name: &str) -> (r: Result<(), ClientError>)
    ensures
        r is Err <==> is_blank(name@),
        r matches Err(e) ==> (e matches ClientError::InvalidArgument(m) && m@
            == "Crate name cannot be empty"@),
{
    if str_is_blank(name) {
        Err(ClientError::InvalidArgument("Crate name cannot be empty".to_owned()))
    } else {
        Ok(())
    }
}

/// The exact per-package request URL.
pub open spec fn spec_crate_url(name: Seq<char>) -> Seq<char> {
    "https://crates.io/api/v1/crates/"@ + name
}

/// Build the per-package request URL.
pub fn crate_url(name: &str) -> (r: String)
    ensures
        r@ == spec_crate_url(name@),
{
    let mut url = "https://crates.io/api/v1/crates/".to_owned();
    url.append(name);
    url
}

/// Sort a fetched status into the failure taxonomy: success passes, a
/// missing resource is `NotFound`, anything else is an upstream failure.
pub fn classify_registry_status(status: u16, url: &str) -> (r: Option<ClientError>)
    ensures
        r is None <==> 200 <= status < 300,
        status == 404 ==> (r matches Option::Some(e) && e matches ClientError::NotFound(m) && m@
            == "Resource not found at "@ + url@),
        !(200 <= status < 300) && status != 404 ==> (r matches Option::Some(e) && e matches
            ClientError::Upstream(m) && m@ == "Request failed: "@ + dec_digits(status as nat)),
{
    if 200 <= status && status < 300 {
        None
    } else if status == 404 {
        let mut m = "Resource not found at ".to_owned();
        m.append(url);
        Some(ClientError::NotFound(m))
    } else {
        let mut m = "Request failed: ".to_owned();
        push_dec(&mut m, status as u64);
        Some(ClientError::Upstream(m))
    }
}

/// The position of the first version not marked withdrawn, or minus one
/// when every version is.
pub open spec fn first_not_yanked(vs: Seq<RegistryVersion>) -> int
    decreases vs.len(),
{
    if vs.len() == 0 {
        -1
    } else if !vs[0].yanked {
        0
    } else {
        let r = first_not_yanked(vs.drop_first());
        if r == -1 {
            -1
        } else {
            r + 1
        }
    }
}

/// The version a detail lookup reports: the first version not withdrawn,
/// in the reply's own order, and the first version outright when every one
/// is withdrawn.
pub open spec fn display_version_index(vs: Seq<RegistryVersion>) -> int {
    if first_not_yanked(vs) >= 0 {
        first_not_yanked(vs)
    } else {
        0
    }
}

/// What `first_not_yanked` means, spelled out.
proof fn lemma_first_not_yanked(vs: Seq<RegistryVersion>)
    ensures
        first_not_yanked(vs) >= -1,
        first_not_yanked(vs) == -1 ==> forall|i: int| 0 <= i < vs.len() ==> (#[trigger] vs[i]).yanked,
        first_not_yanked(vs) >= 0 ==> first_not_yanked(vs) < vs.len() && !vs[first_not_yanked(
            vs,
        )].yanked && forall|k: int| 0 <= k < first_not_yanked(vs) ==> (#[trigger] vs[k]).yanked,
    decreases vs.len(),
{
    if vs.len() > 0 && vs[0].yanked {
        lemma_first_not_yanked(vs.drop_first());
        let r = first_not_yanked(vs.drop_first());
        if r == -1 {
            assert forall|i: int| 0 <= i < vs.len() implies (#[trigger] vs[i]).yanked by {
                if i > 0 {
                    assert(vs.drop_first()[i - 1].yanked);
                }
            }
        } else {
            assert(0 <= r < vs.drop_first().len());
            assert(vs[r + 1] == vs.drop_first()[r]);
            assert forall|k: int| 0 <= k < r + 1 implies (#[trigger] vs[k]).yanked by {
                if k > 0 {
                    assert(vs.drop_first()[k - 1].yanked);
                }
            }
        }
    }
}

proof fn lemma_first_not_yanked_found(vs: Seq<RegistryVersion>, i: int)
    requires
        0 <= i < vs.len(),
        !vs[i].yanked,
        forall|k: int| 0 <= k < i ==> (#[trigger] vs[k]).yanked,
    ensures
        first_not_yanked(vs) == i,
    decreases i,
{
    if i > 0 {
        lemma_first_not_yanked_found(vs.drop_first(), i - 1);
    }
}

proof fn lemma_first_not_yanked_none(vs: Seq<RegistryVersion>)
    requires
        forall|k: int| 0 <= k < vs.len() ==> (#[trigger] vs[k]).yanked,
    ensures
        first_not_yanked(vs) == -1,
    decreases vs.len(),
{
    if vs.len() > 0 {
        lemma_first_not_yanked_none(vs.drop_first());
    }
}

/// Resolve a detail lookup from the registry's reply. An empty version
/// list is the one failure; otherwise the reported version is the first
/// non-withdrawn one, falling back to the first listed. The author,
/// keyword and category lists are empty in every reply the facade builds.
pub fn build_crate_info(reply: RegistryCrateReply) -> (r: Result<CrateInfo, ClientError>)
    ensures
        r is Err <==> reply.versions@.len() == 0,
        r matches Err(e) ==> (e matches ClientError::NotFound(m) && m@
            == "No versions found for crate"@),
        r matches Ok(info) ==> ({
            let vs = reply.versions@;
            let idx = display_version_index(vs);
            &&& info.name == reply.data.name
            &&& info.version == vs[idx].num
            &&& info.description == reply.data.description
            &&& info.documentation == reply.data.documentation
            &&& info.homepage == reply.data.homepage
            &&& info.repository == reply.data.repository
            &&& info.license == vs[idx].license
            &&& info.authors@.len() == 0
            &&& info.keywords@.len() == 0
            &&& info.categories@.len() == 0
            &&& info.downloads == reply.data.downloads
            &&& info.created_at == reply.data.created_at
            &&& info.updated_at == reply.data.updated_at
        }),
        (exists|i: int| 0 <= i < reply.versions@.len() && !(#[trigger] reply.versions@[i]).yanked)
            ==> !reply.versions@[display_version_index(reply.versions@)].yanked,
        (reply.versions@.len() > 0 && forall|i: int|
            0 <= i < reply.versions@.len() ==> (#[trigger] reply.versions@[i]).yanked)
            ==> display_version_index(reply.versions@) == 0,
{
    proof {
        lemma_first_not_yanked(reply.versions@);
        if exists|i: int|
            0 <= i < reply.versions@.len() && !(#[trigger] reply.versions@[i]).yanked {
            let w = choose|i: int|
                0 <= i < reply.versions@.len() && !(#[trigger] reply.versions@[i]).yanked;
            if first_not_yanked(reply.versions@) == -1 {
                assert(reply.versions@[w].yanked);
            }
        }
        if reply.versions@.len() > 0 && forall|i: int|
            0 <= i < reply.versions@.len() ==> (#[trigger] reply.versions@[i]).yanked {
            lemma_first_not_yanked_none(reply.versions@);
        }
    }
    let mut versions = reply.versions;
    if versions.is_empty() {
        return Err(ClientError::NotFound("No versions found for crate".to_owned()));
    }
    let ghost vs = versions@;
    let mut idx: usize = 0;
    let mut found = false;
    let mut k: usize = 0;
    while k < versions.len()
        invariant
            k <= vs.len(),
            versions@ == vs,
            !found ==> idx == 0,
            !found ==> forall|t: int| 0 <= t < k ==> (#[trigger] vs[t]).yanked,
            found ==> 0 <= idx < vs.len() && !vs[idx as int].yanked && forall|t: int|
                0 <= t < idx ==> (#[trigger] vs[t]).yanked,
        decreases versions.len() - k,
    {
        if !found && !versions[k].yanked {
            idx = k;
            found = true;
        }
        k += 1;
    }
    proof {
        if found {
            lemma_first_not_yanked_found(vs, idx as int);
        } else {
            lemma_first_not_yanked_none(vs);
        }
        assert(idx as int == display_version_index(vs));
    }
    let chosen = versions.remove(idx);
    let data = reply.data;
    Ok(
        CrateInfo {
            name: data.name,
            version: chosen.num,
            description: data.description,
            documentation: data.documentation,
            homepage: data.homepage,
            repository: data.repository,
            license: chosen.license,
            authors: Vec::new(),
            keywords: Vec::new(),
            categories: Vec::new(),
            downloads: data.downloads,
            created_at: data.created_at,
            updated_at: data.updated_at,
        },
    )
}

/// The caller-facing version record built from one reply record.
pub open spec fn spec_crate_version(rv: RegistryVersion) -> CrateVersion {
    CrateVersion {
        num: rv.num,
        created_at: rv.created_at,
        downloads: rv.downloads,
        features: rv.features,
        yanked: rv.yanked,
    }
}

/// The version history in the reply's own order, truncated — never
/// filtered or re-sorted — to the asked count.
pub fn build_version_list(versions: Vec<RegistryVersion>, limit: Option<u64>) -> (out: Vec<
    CrateVersion,
>)
    ensures
        ({
            let mapped = versions@.map_values(|rv: RegistryVersion| spec_crate_version(rv));
            match limit {
                Option::None => out@ == mapped,
                Option::Some(l) => out@ == mapped.take(spec_min(l as int, mapped.len() as int)),
            }
        }),
{
    let ghost orig = versions@;
    let ghost f = |rv: RegistryVersion| spec_crate_version(rv);
    let total = versions.len();
    let mut versions = versions;
    let mut out: Vec<CrateVersion> = Vec::new();
    let mut i: usize = 0;
    while versions.len() > 0
        invariant
            i <= orig.len(),
            orig.len() == total,
            f == (|rv: RegistryVersion| spec_crate_version(rv)),
            versions@ == orig.skip(i as int),
            out@ == orig.take(i as int).map_values(f),
        decreases versions.len(),
    {
        let x = versions.remove(0);
        proof {
            assert(x == orig[i as int]);
            assert(orig.skip(i as int).remove(0) =~= orig.skip(i + 1));
        }
        out.push(
            CrateVersion {
                num: x.num,
                created_at: x.created_at,
                downloads: x.downloads,
                features: x.features,
                yanked: x.yanked,
            },
        );
        i += 1;
        proof {
            assert(out@ =~= orig.take(i as int).map_values(f));
        }
    }
    proof {
        assert(orig.take(i as int) =~= orig);
    }
    match limit {
        Option::Some(l) => {
            if (out.len() as u64) > l {
                let lu = l as usize;
                out.truncate(lu);
            }
            proof {
                let mapped = orig.map_values(f);
                assert(out@ =~= mapped.take(spec_min(l as int, mapped.len() as int)));
            }
        },
        Option::None => {},
    }
    out
}

} // verus!
