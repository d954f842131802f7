//! Rendering of the library's value records to their wire text.
//!
//! Every response the service writes is framed here, character by
//! character, against spec functions that state the exact output. Strings
//! are escaped; objects and arrays are emitted with a fixed key order, the
//! declaration order of the record.

use vstd::prelude::*;

use crate::text::{dec_digits, push_char, push_dec};
use crate::types::{
    CrateDependency, CrateDocumentation, CrateInfo, CrateSearchResult, CrateVersion,
    DocumentationItem, FeatureEntry,
};

verus! {

/// The character for one hexadecimal digit below sixteen.
pub open spec fn hex_char(d: nat) -> char {
    if d == 0 {
        '0'
    } else if d == 1 {
        '1'
    } else if d == 2 {
        '2'
    } else if d == 3 {
        '3'
    } else if d == 4 {
        '4'
    } else if d == 5 {
        '5'
    } else if d == 6 {
        '6'
    } else if d == 7 {
        '7'
    } else if d == 8 {
        '8'
    } else if d == 9 {
        '9'
    } else if d == 10 {
        'a'
    } else if d == 11 {
        'b'
    } else if d == 12 {
        'c'
    } else if d == 13 {
        'd'
    } else if d == 14 {
        'e'
    } else {
        'f'
    }
}

/// How one character appears inside a string literal: quote, backslash and
/// the named control characters get a two-character escape, the remaining
/// control characters a four-digit one, and everything else stands as is.
pub open spec fn esc_char(c: char) -> Seq<char> {
    if c == '"' {
        seq!['\\', '"']
    } else if c == '\\' {
        seq!['\\', '\\']
    } else if c == '\n' {
        seq!['\\', 'n']
    } else if c == '\r' {
        seq!['\\', 'r']
    } else if c == '\t' {
        seq!['\\', 't']
    } else if (c as u32) < 32 {
        seq!['\\', 'u', '0', '0', hex_char((c as u32 / 16) as nat), hex_char((c as u32 % 16) as nat)]
    } else {
        seq![c]
    }
}

/// A whole string escaped, defined by recursion on its tail.
pub open spec fn esc_str(s: Seq<char>) -> Seq<char>
    decreases s.len(),
{
    if s.len() == 0 {
        Seq::<char>::empty()
    } else {
        esc_str(s.drop_last()) + esc_char(s.last())
    }
}

/// A quoted, escaped string literal.
pub open spec fn json_str(s: Seq<char>) -> Seq<char> {
    seq!['"'] + esc_str(s) + seq!['"']
}

/// An optional string: `null` when absent, a literal otherwise.
pub open spec fn json_opt_str(o: Option<String>) -> Seq<char> {
    match o {
        Option::Some(s) => json_str(s@),
        Option::None => "null"@,
    }
}

/// A boolean.
pub open spec fn json_bool(b: bool) -> Seq<char> {
    if b {
        "true"@
    } else {
        "false"@
    }
}

/// Pre-rendered elements joined by commas.
pub open spec fn join_comma(elems: Seq<Seq<char>>) -> Seq<char>
    decreases elems.len(),
{
    if elems.len() == 0 {
        Seq::<char>::empty()
    } else if elems.len() == 1 {
        elems[0]
    } else {
        join_comma(elems.drop_last()) + ","@ + elems.last()
    }
}

/// A bracketed array of pre-rendered elements.
pub open spec fn json_list(elems: Seq<Seq<char>>) -> Seq<char> {
    "["@ + join_comma(elems) + "]"@
}

/// An optional decimal member: the given prefix and the number when
/// present, nothing otherwise.
pub open spec fn dec_opt(prefix: Seq<char>, o: Option<u64>) -> Seq<char> {
    match o {
        Option::Some(v) => prefix + dec_digits(v as nat),
        Option::None => Seq::<char>::empty(),
    }
}

/// A braced object of pre-rendered members.
pub open spec fn json_object(members: Seq<Seq<char>>) -> Seq<char> {
    "{"@ + join_comma(members) + "}"@
}

fn hex_of(d: u32) -> (c: char)
    requires
        d < 16,
    ensures
        c == hex_char(d as nat),
{
    if d == 0 {
        '0'
    } else if d == 1 {
        '1'
    } else if d == 2 {
        '2'
    } else if d == 3 {
        '3'
    } else if d == 4 {
        '4'
    } else if d == 5 {
        '5'
    } else if d == 6 {
        '6'
    } else if d == 7 {
        '7'
    } else if d == 8 {
        '8'
    } else if d == 9 {
        '9'
    } else if d == 10 {
        'a'
    } else if d == 11 {
        'b'
    } else if d == 12 {
        'c'
    } else if d == 13 {
        'd'
    } else if d == 14 {
        'e'
    } else {
        'f'
    }
}

/// Append one escaped character.
fn push_escaped_char(out: &mut String, c: char)
    ensures
        final(out)@ == old(out)@ + esc_char(c),
{
    if c == '"' {
        push_char(out, '\\');
        push_char(out, '"');
    } else if c == '\\' {
        push_char(out, '\\');
        push_char(out, '\\');
    } else if c == '\n' {
        push_char(out, '\\');
        push_char(out, 'n');
    } else if c == '\r' {
        push_char(out, '\\');
        push_char(out, 'r');
    } else if c == '\t' {
        push_char(out, '\\');
        push_char(out, 't');
    } else if (c as u32) < 32 {
        let v = c as u32;
        push_char(out, '\\');
        push_char(out, 'u');
        push_char(out, '0');
        push_char(out, '0');
        push_char(out, hex_of(v / 16));
        push_char(out, hex_of(v % 16));
        proof {
            assert(out@ =~= old(out)@ + esc_char(c));
        }
    } else {
        push_char(out, c);
    }
    proof {
        assert(out@ =~= old(out)@ + esc_char(c));
    }
}

/// Append the whole string, escaped.
pub fn push_escaped(out: &mut String, s: &str)
    ensures
        final(out)@ == old(out)@ + esc_str(s@),
{
    let n = s.unicode_len();
    let mut i: usize = 0;
    while i < n
        invariant
            i <= n,
            n == s@.len(),
            out@ == old(out)@ + esc_str(s@.take(i as int)),
        decreases n - i,
    {
        let ghost before = out@;
        let c = s.get_char(i);
        push_escaped_char(out, c);
        i += 1;
        proof {
            let t = s@.take(i as int);
            assert(t.drop_last() =~= s@.take(i - 1));
            assert(t.last() == c);
            assert(out@ =~= old(out)@ + esc_str(t));
        }
    }
    proof {
        assert(s@.take(n as int) =~= s@);
    }
}

/// Append a quoted, escaped string literal.
pub fn push_json_str(out: &mut String, s: &str)
    ensures
        final(out)@ == old(out)@ + json_str(s@),
{
    push_char(out, '"');
    push_escaped(out, s);
    push_char(out, '"');
    proof {
        assert(out@ =~= old(out)@ + json_str(s@));
    }
}

/// Append an optional string, `null` when absent.
pub fn push_json_opt_str(out: &mut String, o: &Option<String>)
    ensures
        final(out)@ == old(out)@ + json_opt_str(*o),
{
    match o {
        Option::Some(s) => {
            push_json_str(out, s.as_str());
        },
        Option::None => {
            out.append("null");
        },
    }
}

/// Append a boolean.
pub fn push_json_bool(out: &mut String, b: bool)
    ensures
        final(out)@ == old(out)@ + json_bool(b),
{
    if b {
        out.append("true");
    } else {
        out.append("false");
    }
}

/// Append an array of string literals.
pub fn push_str_list(out: &mut String, v: &Vec<String>)
    ensures
        final(out)@ == old(out)@ + json_list(v@.map_values(|s: String| json_str(s@))),
{
    let ghost m = v@.map_values(|s: String| json_str(s@));
    out.append("[");
    let mut i: usize = 0;
    while i < v.len()
        invariant
            i <= v.len(),
            m == v@.map_values(|s: String| json_str(s@)),
            m.len() == v@.len(),
            out@ == old(out)@ + "["@ + join_comma(m.take(i as int)),
        decreases v.len() - i,
    {
        if i > 0 {
            out.append(",");
        }
        push_json_str(out, v[i].as_str());
        i += 1;
        proof {
            let t = m.take(i as int);
            assert(t.last() == m[i - 1]);
            if i > 1 {
                assert(t.drop_last() =~= m.take(i - 1));
                assert(out@ =~= old(out)@ + "["@ + join_comma(t));
            } else {
                assert(out@ =~= old(out)@ + "["@ + join_comma(t));
            }
        }
    }
    out.append("]");
    proof {
        assert(m.take(v@.len() as int) =~= m);
        assert(out@ =~= old(out)@ + json_list(m));
    }
}

/// The rendering of one search hit.
pub open spec fn json_search_result(c: CrateSearchResult) -> Seq<char> {
    "{\"name\":"@ + json_str(c.name@) + ",\"max_version\":"@ + json_str(c.max_version@)
        + ",\"description\":"@ + json_opt_str(c.description) + ",\"downloads\":"@ + dec_digits(
        c.downloads as nat,
    ) + "}"@
}

/// Append one search hit.
pub fn push_search_result(out: &mut String, c: &CrateSearchResult)
    ensures
        final(out)@ == old(out)@ + json_search_result(*c),
{
    out.append("{\"name\":");
    push_json_str(out, c.name.as_str());
    out.append(",\"max_version\":");
    push_json_str(out, c.max_version.as_str());
    out.append(",\"description\":");
    push_json_opt_str(out, &c.description);
    out.append(",\"downloads\":");
    push_dec(out, c.downloads);
    out.append("}");
    proof {
        assert(out@ =~= old(out)@ + json_search_result(*c));
    }
}

/// The rendering of a sequence of search hits.
pub open spec fn json_search_results(v: Seq<CrateSearchResult>) -> Seq<char> {
    json_list(v.map_values(|c: CrateSearchResult| json_search_result(c)))
}

/// Render a search result list to its wire text.
pub fn render_search_results(v: &Vec<CrateSearchResult>) -> (r: String)
    ensures
        r@ == json_search_results(v@),
{
    let ghost m = v@.map_values(|c: CrateSearchResult| json_search_result(c));
    let mut out = String::new();
    out.append("[");
    let mut i: usize = 0;
    while i < v.len()
        invariant
            i <= v.len(),
            m == v@.map_values(|c: CrateSearchResult| json_search_result(c)),
            m.len() == v@.len(),
            out@ == "["@ + join_comma(m.take(i as int)),
        decreases v.len() - i,
    {
        if i > 0 {
            out.append(",");
        }
        push_search_result(&mut out, &v[i]);
        i += 1;
        proof {
            let t = m.take(i as int);
            assert(t.last() == m[i - 1]);
            if i > 1 {
                assert(t.drop_last() =~= m.take(i - 1));
            }
            assert(out@ =~= "["@ + join_comma(t));
        }
    }
    out.append("]");
    proof {
        assert(m.take(v@.len() as int) =~= m);
        assert(out@ =~= json_search_results(v@));
    }
    out
}

/// The rendering of one feature-table entry, as an object member.
pub open spec fn json_feature_entry(f: FeatureEntry) -> Seq<char> {
    json_str(f.name@) + ":"@ + json_list(f.enables@.map_values(|s: String| json_str(s@)))
}

/// Append one feature-table entry.
pub fn push_feature_entry(out: &mut String, f: &FeatureEntry)
    ensures
        final(out)@ == old(out)@ + json_feature_entry(*f),
{
    push_json_str(out, f.name.as_str());
    out.append(":");
    push_str_list(out, &f.enables);
    proof {
        assert(out@ =~= old(out)@ + json_feature_entry(*f));
    }
}

/// The rendering of a whole feature table.
pub open spec fn json_features(v: Seq<FeatureEntry>) -> Seq<char> {
    json_object(v.map_values(|f: FeatureEntry| json_feature_entry(f)))
}

/// Append a feature table.
pub fn push_features(out: &mut String, v: &Vec<FeatureEntry>)
    ensures
        final(out)@ == old(out)@ + json_features(v@),
{
    let ghost m = v@.map_values(|f: FeatureEntry| json_feature_entry(f));
    out.append("{");
    let mut i: usize = 0;
    while i < v.len()
        invariant
            i <= v.len(),
            m == v@.map_values(|f: FeatureEntry| json_feature_entry(f)),
            m.len() == v@.len(),
            out@ == old(out)@ + "{"@ + join_comma(m.take(i as int)),
        decreases v.len() - i,
    {
        if i > 0 {
            out.append(",");
        }
        push_feature_entry(out, &v[i]);
        i += 1;
        proof {
            let t = m.take(i as int);
            assert(t.last() == m[i - 1]);
            if i > 1 {
                assert(t.drop_last() =~= m.take(i - 1));
            }
            assert(out@ =~= old(out)@ + "{"@ + join_comma(t));
        }
    }
    out.append("}");
    proof {
        assert(m.take(v@.len() as int) =~= m);
        assert(out@ =~= old(out)@ + json_features(v@));
    }
}

/// The rendering of one version record.
pub open spec fn json_version(v: CrateVersion) -> Seq<char> {
    "{\"num\":"@ + json_str(v.num@) + ",\"created_at\":"@ + json_str(v.created_at@)
        + ",\"downloads\":"@ + dec_digits(v.downloads as nat) + ",\"features\":"@ + json_features(
        v.features@,
    ) + ",\"yanked\":"@ + json_bool(v.yanked) + "}"@
}

/// Append one version record.
pub fn push_version(out: &mut String, v: &CrateVersion)
    ensures
        final(out)@ == old(out)@ + json_version(*v),
{
    out.append("{\"num\":");
    push_json_str(out, v.num.as_str());
    out.append(",\"created_at\":");
    push_json_str(out, v.created_at.as_str());
    out.append(",\"downloads\":");
    push_dec(out, v.downloads);
    out.append(",\"features\":");
    push_features(out, &v.features);
    out.append(",\"yanked\":");
    push_json_bool(out, v.yanked);
    out.append("}");
    proof {
        assert(out@ =~= old(out)@ + json_version(*v));
    }
}

/// The rendering of a version list.
pub open spec fn json_versions(v: Seq<CrateVersion>) -> Seq<char> {
    json_list(v.map_values(|x: CrateVersion| json_version(x)))
}

/// Render a version list to its wire text.
pub fn render_versions(v: &Vec<CrateVersion>) -> (r: String)
    ensures
        r@ == json_versions(v@),
{
    let ghost m = v@.map_values(|x: CrateVersion| json_version(x));
    let mut out = String::new();
    out.append("[");
    let mut i: usize = 0;
    while i < v.len()
        invariant
            i <= v.len(),
            m == v@.map_values(|x: CrateVersion| json_version(x)),
            m.len() == v@.len(),
            out@ == "["@ + join_comma(m.take(i as int)),
        decreases v.len() - i,
    {
        if i > 0 {
            out.append(",");
        }
        push_version(&mut out, &v[i]);
        i += 1;
        proof {
            let t = m.take(i as int);
            assert(t.last() == m[i - 1]);
            if i > 1 {
                assert(t.drop_last() =~= m.take(i - 1));
            }
            assert(out@ =~= "["@ + join_comma(t));
        }
    }
    out.append("]");
    proof {
        assert(m.take(v@.len() as int) =~= m);
        assert(out@ =~= json_versions(v@));
    }
    out
}

/// The rendering of one dependency edge.
pub open spec fn json_dependency(d: CrateDependency) -> Seq<char> {
    "{\"name\":"@ + json_str(d.name@) + ",\"version_req\":"@ + json_str(d.version_req@)
        + ",\"optional\":"@ + json_bool(d.optional) + ",\"default_features\":"@ + json_bool(
        d.default_features,
    ) + ",\"features\":"@ + json_list(d.features@.map_values(|s: String| json_str(s@)))
        + ",\"target\":"@ + json_opt_str(d.target) + ",\"kind\":"@ + json_str(d.kind@) + "}"@
}

/// Append one dependency edge.
pub fn push_dependency(out: &mut String, d: &CrateDependency)
    ensures
        final(out)@ == old(out)@ + json_dependency(*d),
{
    out.append("{\"name\":");
    push_json_str(out, d.name.as_str());
    out.append(",\"version_req\":");
    push_json_str(out, d.version_req.as_str());
    out.append(",\"optional\":");
    push_json_bool(out, d.optional);
    out.append(",\"default_features\":");
    push_json_bool(out, d.default_features);
    out.append(",\"features\":");
    push_str_list(out, &d.features);
    out.append(",\"target\":");
    push_json_opt_str(out, &d.target);
    out.append(",\"kind\":");
    push_json_str(out, d.kind.as_str());
    out.append("}");
    proof {
        assert(out@ =~= old(out)@ + json_dependency(*d));
    }
}

/// The rendering of a dependency list.
pub open spec fn json_dependencies(v: Seq<CrateDependency>) -> Seq<char> {
    json_list(v.map_values(|d: CrateDependency| json_dependency(d)))
}

/// Render a dependency list to its wire text.
pub fn render_dependencies(v: &Vec<CrateDependency>) -> (r: String)
    ensures
        r@ == json_dependencies(v@),
{
    let ghost m = v@.map_values(|d: CrateDependency| json_dependency(d));
    let mut out = String::new();
    out.append("[");
    let mut i: usize = 0;
    while i < v.len()
        invariant
            i <= v.len(),
            m == v@.map_values(|d: CrateDependency| json_dependency(d)),
            m.len() == v@.len(),
            out@ == "["@ + join_comma(m.take(i as int)),
        decreases v.len() - i,
    {
        if i > 0 {
            out.append(",");
        }
        push_dependency(&mut out, &v[i]);
        i += 1;
        proof {
            let t = m.take(i as int);
            assert(t.last() == m[i - 1]);
            if i > 1 {
                assert(t.drop_last() =~= m.take(i - 1));
            }
            assert(out@ =~= "["@ + join_comma(t));
        }
    }
    out.append("]");
    proof {
        assert(m.take(v@.len() as int) =~= m);
        assert(out@ =~= json_dependencies(v@));
    }
    out
}

/// The rendering of the full package detail record.
pub open spec fn json_crate_info(c: CrateInfo) -> Seq<char> {
    "{\"name\":"@ + json_str(c.name@) + ",\"version\":"@ + json_str(c.version@)
        + ",\"description\":"@ + json_opt_str(c.description) + ",\"documentation\":"@
        + json_opt_str(c.documentation) + ",\"homepage\":"@ + json_opt_str(c.homepage)
        + ",\"repository\":"@ + json_opt_str(c.repository) + ",\"license\":"@ + json_opt_str(
        c.license,
    ) + ",\"authors\":"@ + json_list(c.authors@.map_values(|s: String| json_str(s@)))
        + ",\"keywords\":"@ + json_list(c.keywords@.map_values(|s: String| json_str(s@)))
        + ",\"categories\":"@ + json_list(c.categories@.map_values(|s: String| json_str(s@)))
        + ",\"downloads\":"@ + dec_digits(c.downloads as nat) + ",\"created_at\":"@ + json_str(
        c.created_at@,
    ) + ",\"updated_at\":"@ + json_str(c.updated_at@) + "}"@
}

/// Render the package detail record to its wire text.
pub fn render_crate_info(c: &CrateInfo) -> (r: String)
    ensures
        r@ == json_crate_info(*c),
{
    let mut out = String::new();
    out.append("{\"name\":");
    push_json_str(&mut out, c.name.as_str());
    out.append(",\"version\":");
    push_json_str(&mut out, c.version.as_str());
    out.append(",\"description\":");
    push_json_opt_str(&mut out, &c.description);
    out.append(",\"documentation\":");
    push_json_opt_str(&mut out, &c.documentation);
    out.append(",\"homepage\":");
    push_json_opt_str(&mut out, &c.homepage);
    out.append(",\"repository\":");
    push_json_opt_str(&mut out, &c.repository);
    out.append(",\"license\":");
    push_json_opt_str(&mut out, &c.license);
    out.append(",\"authors\":");
    push_str_list(&mut out, &c.authors);
    out.append(",\"keywords\":");
    push_str_list(&mut out, &c.keywords);
    out.append(",\"categories\":");
    push_str_list(&mut out, &c.categories);
    out.append(",\"downloads\":");
    push_dec(&mut out, c.downloads);
    out.append(",\"created_at\":");
    push_json_str(&mut out, c.created_at.as_str());
    out.append(",\"updated_at\":");
    push_json_str(&mut out, c.updated_at.as_str());
    out.append("}");
    proof {
        assert(out@ =~= json_crate_info(*c));
    }
    out
}

/// The rendering of one documentation item.
pub open spec fn json_doc_item(d: DocumentationItem) -> Seq<char> {
    "{\"name\":"@ + json_str(d.name@) + ",\"kind\":"@ + json_str(d.kind@) + ",\"path\":"@
        + json_str(d.path@) + ",\"description\":"@ + json_opt_str(d.description) + "}"@
}

/// Append one documentation item.
pub fn push_doc_item(out: &mut String, d: &DocumentationItem)
    ensures
        final(out)@ == old(out)@ + json_doc_item(*d),
{
    out.append("{\"name\":");
    push_json_str(out, d.name.as_str());
    out.append(",\"kind\":");
    push_json_str(out, d.kind.as_str());
    out.append(",\"path\":");
    push_json_str(out, d.path.as_str());
    out.append(",\"description\":");
    push_json_opt_str(out, &d.description);
    out.append("}");
    proof {
        assert(out@ =~= old(out)@ + json_doc_item(*d));
    }
}

/// The rendering of the documentation record.
pub open spec fn json_documentation(c: CrateDocumentation) -> Seq<char> {
    "{\"name\":"@ + json_str(c.name@) + ",\"version\":"@ + json_str(c.version@)
        + ",\"description\":"@ + json_opt_str(c.description) + ",\"readme\":"@ + json_opt_str(
        c.readme,
    ) + ",\"modules\":"@ + json_list(c.modules@.map_values(|s: String| json_str(s@)))
        + ",\"items\":"@ + json_list(c.items@.map_values(|d: DocumentationItem| json_doc_item(d)))
        + "}"@
}

/// Render the documentation record to its wire text.
pub fn render_documentation(c: &CrateDocumentation) -> (r: String)
    ensures
        r@ == json_documentation(*c),
{
    let ghost m = c.items@.map_values(|d: DocumentationItem| json_doc_item(d));
    let mut out = String::new();
    out.append("{\"name\":");
    push_json_str(&mut out, c.name.as_str());
    out.append(",\"version\":");
    push_json_str(&mut out, c.version.as_str());
    out.append(",\"description\":");
    push_json_opt_str(&mut out, &c.description);
    out.append(",\"readme\":");
    push_json_opt_str(&mut out, &c.readme);
    out.append(",\"modules\":");
    push_str_list(&mut out, &c.modules);
    out.append(",\"items\":");
    out.append("[");
    let ghost head = out@;
    let mut i: usize = 0;
    while i < c.items.len()
        invariant
            i <= c.items.len(),
            m == c.items@.map_values(|d: DocumentationItem| json_doc_item(d)),
            m.len() == c.items@.len(),
            out@ == head + join_comma(m.take(i as int)),
        decreases c.items.len() - i,
    {
        if i > 0 {
            out.append(",");
        }
        push_doc_item(&mut out, &c.items[i]);
        i += 1;
        proof {
            let t = m.take(i as int);
            assert(t.last() == m[i - 1]);
            if i > 1 {
                assert(t.drop_last() =~= m.take(i - 1));
            }
            assert(out@ =~= head + join_comma(t));
        }
    }
    out.append("]");
    out.append("}");
    proof {
        assert(m.take(c.items@.len() as int) =~= m);
        assert(out@ =~= json_documentation(*c));
    }
    out
}

} // verus!
