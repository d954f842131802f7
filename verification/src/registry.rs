//! The tool registry: a fixed, ordered catalog of the operations a caller
//! may invoke, each with a name, a one-line description, and a declarative
//! argument schema. The catalog is immutable after startup and is returned
//! verbatim to a capability-discovery request.

use vstd::prelude::*;

use crate::jsonout::{dec_opt, join_comma, json_list, json_object, json_str, push_json_str};
use crate::text::dec_digits;

verus! {

/// The wire type of one tool argument.
pub enum ArgKind {
    Text,
    Integer,
}

/// The schema of one tool argument.
pub struct ToolArg {
    pub name: String,
    pub description: String,
    pub kind: ArgKind,
    pub required: bool,
    pub minimum: Option<u64>,
    pub maximum: Option<u64>,
}

/// One catalog entry: an invocable operation.
pub struct ToolSpec {
    pub name: String,
    pub description: String,
    pub args: Vec<ToolArg>,
}

/// One argument schema has exactly the given fields.
pub open spec fn arg_is(
    a: ToolArg,
    name: Seq<char>,
    description: Seq<char>,
    kind: ArgKind,
    required: bool,
    minimum: Option<u64>,
    maximum: Option<u64>,
) -> bool {
    a.name@ == name && a.description@ == description && a.kind == kind && a.required == required
        && a.minimum == minimum && a.maximum == maximum
}

/// The exact contents of the catalog: five tools, in this order, with
/// these argument schemas.
pub open spec fn catalog_ok(ts: Seq<ToolSpec>) -> bool {
    &&& ts.len() == 5
    &&& ts[0].name@ == "search_crates"@
    &&& ts[0].description@ == "Search for Rust crates on crates.io"@
    &&& ts[0].args@.len() == 2
    &&& arg_is(
        ts[0].args@[0],
        "query"@,
        "Search query for crates"@,
        ArgKind::Text,
        true,
        Option::None,
        Option::None,
    )
    &&& arg_is(
        ts[0].args@[1],
        "limit"@,
        "Maximum number of results to return (default: 10, max: 100)"@,
        ArgKind::Integer,
        false,
        Option::Some(1u64),
        Option::Some(100u64),
    )
    &&& ts[1].name@ == "get_crate_info"@
    &&& ts[1].description@ == "Get detailed information about a specific Rust crate"@
    &&& ts[1].args@.len() == 1
    &&& arg_is(
        ts[1].args@[0],
        "name"@,
        "Name of the crate to get information about"@,
        ArgKind::Text,
        true,
        Option::None,
        Option::None,
    )
    &&& ts[2].name@ == "get_crate_versions"@
    &&& ts[2].description@ == "Get version history for a Rust crate"@
    &&& ts[2].args@.len() == 2
    &&& arg_is(
        ts[2].args@[0],
        "name"@,
        "Name of the crate"@,
        ArgKind::Text,
        true,
        Option::None,
        Option::None,
    )
    &&& arg_is(
        ts[2].args@[1],
        "limit"@,
        "Maximum number of versions to return"@,
        ArgKind::Integer,
        false,
        Option::Some(1u64),
        Option::Some(50u64),
    )
    &&& ts[3].name@ == "get_crate_dependencies"@
    &&& ts[3].description@ == "Get dependencies for a specific version of a Rust crate"@
    &&& ts[3].args@.len() == 2
    &&& arg_is(
        ts[3].args@[0],
        "name"@,
        "Name of the crate"@,
        ArgKind::Text,
        true,
        Option::None,
        Option::None,
    )
    &&& arg_is(
        ts[3].args@[1],
        "version"@,
        "Specific version (defaults to latest)"@,
        ArgKind::Text,
        false,
        Option::None,
        Option::None,
    )
    &&& ts[4].name@ == "get_crate_documentation"@
    &&& ts[4].description@ == "Get documentation information for a Rust crate from docs.rs"@
    &&& ts[4].args@.len() == 2
    &&& arg_is(
        ts[4].args@[0],
        "name"@,
        "Name of the crate"@,
        ArgKind::Text,
        true,
        Option::None,
        Option::None,
    )
    &&& arg_is(
        ts[4].args@[1],
        "version"@,
        "Specific version (defaults to latest)"@,
        ArgKind::Text,
        false,
        Option::None,
        Option::None,
    )
}

fn text_arg(name: &str, description: &str, required: bool) -> (a: ToolArg)
    ensures
        arg_is(a, name@, description@, ArgKind::Text, required, Option::None, Option::None),
{
    ToolArg {
        name: name.to_owned(),
        description: description.to_owned(),
        kind: ArgKind::Text,
        required,
        minimum: None,
        maximum: None,
    }
}

fn int_arg(name: &str, description: &str, minimum: u64, maximum: u64) -> (a: ToolArg)
    ensures
        arg_is(
            a,
            name@,
            description@,
            ArgKind::Integer,
            false,
            Option::Some(minimum),
            Option::Some(maximum),
        ),
{
    ToolArg {
        name: name.to_owned(),
        description: description.to_owned(),
        kind: ArgKind::Integer,
        required: false,
        minimum: Some(minimum),
        maximum: Some(maximum),
    }
}

/// Build the catalog. The result is the single source of truth for
/// capability discovery; it never changes after startup.
pub fn tool_catalog() -> (ts: Vec<ToolSpec>)
    ensures
        catalog_ok(ts@),
{
    let mut ts: Vec<ToolSpec> = Vec::new();

    let mut args: Vec<ToolArg> = Vec::new();
    args.push(text_arg("query", "Search query for crates", true));
    args.push(int_arg("limit", "Maximum number of results to return (default: 10, max: 100)", 1, 100));
    ts.push(ToolSpec {
        name: "search_crates".to_owned(),
        description: "Search for Rust crates on crates.io".to_owned(),
        args,
    });

    let mut args: Vec<ToolArg> = Vec::new();
    args.push(text_arg("name", "Name of the crate to get information about", true));
    ts.push(ToolSpec {
        name: "get_crate_info".to_owned(),
        description: "Get detailed information about a specific Rust crate".to_owned(),
        args,
    });

    let mut args: Vec<ToolArg> = Vec::new();
    args.push(text_arg("name", "Name of the crate", true));
    args.push(int_arg("limit", "Maximum number of versions to return", 1, 50));
    ts.push(ToolSpec {
        name: "get_crate_versions".to_owned(),
        description: "Get version history for a Rust crate".to_owned(),
        args,
    });

    let mut args: Vec<ToolArg> = Vec::new();
    args.push(text_arg("name", "Name of the crate", true));
    args.push(text_arg("version", "Specific version (defaults to latest)", false));
    ts.push(ToolSpec {
        name: "get_crate_dependencies".to_owned(),
        description: "Get dependencies for a specific version of a Rust crate".to_owned(),
        args,
    });

    let mut args: Vec<ToolArg> = Vec::new();
    args.push(text_arg("name", "Name of the crate", true));
    args.push(text_arg("version", "Specific version (defaults to latest)", false));
    ts.push(ToolSpec {
        name: "get_crate_documentation".to_owned(),
        description: "Get documentation information for a Rust crate from docs.rs".to_owned(),
        args,
    });

    ts
}

/// The set of names a catalog-discovery reply carries is exactly the five
/// tool names, whatever order or duplication a reader assumes.
pub proof fn lemma_catalog_names(ts: Seq<ToolSpec>)
    requires
        catalog_ok(ts),
    ensures
        ts.map_values(|t: ToolSpec| t.name@).to_set() =~= set![
            "search_crates"@,
            "get_crate_info"@,
            "get_crate_versions"@,
            "get_crate_dependencies"@,
            "get_crate_documentation"@,
        ],
{
    let names = ts.map_values(|t: ToolSpec| t.name@);
    assert(names.len() == 5);
    assert(names[0] == "search_crates"@);
    assert(names[1] == "get_crate_info"@);
    assert(names[2] == "get_crate_versions"@);
    assert(names[3] == "get_crate_dependencies"@);
    assert(names[4] == "get_crate_documentation"@);
    assert forall|x: Seq<char>| names.to_set().contains(x) implies set![
        "search_crates"@,
        "get_crate_info"@,
        "get_crate_versions"@,
        "get_crate_dependencies"@,
        "get_crate_documentation"@,
    ].contains(x) by {
        let i = choose|i: int| 0 <= i < names.len() && names[i] == x;
        assert(names[i] == x);
    }
    assert(names.to_set().contains(names[0]));
    assert(names.to_set().contains(names[1]));
    assert(names.to_set().contains(names[2]));
    assert(names.to_set().contains(names[3]));
    assert(names.to_set().contains(names[4]));
}

/// The kind keyword of one argument, as it appears in the schema.
pub open spec fn json_arg_kind(k: ArgKind) -> Seq<char> {
    match k {
        ArgKind::Text => "\"string\""@,
        ArgKind::Integer => "\"integer\""@,
    }
}

/// The schema object member for one argument.
pub open spec fn json_tool_arg(a: ToolArg) -> Seq<char> {
    json_str(a.name@) + ":"@ + "{\"type\":"@ + json_arg_kind(a.kind) + ",\"description\":"@
        + json_str(a.description@) + dec_opt(",\"minimum\":"@, a.minimum) + dec_opt(
        ",\"maximum\":"@,
        a.maximum,
    ) + "}"@
}

/// The rendering of one catalog entry.
pub open spec fn json_tool(t: ToolSpec) -> Seq<char> {
    "{\"name\":"@ + json_str(t.name@) + ",\"description\":"@ + json_str(t.description@)
        + ",\"inputSchema\":{\"type\":\"object\",\"properties\":"@ + json_object(
        t.args@.map_values(|a: ToolArg| json_tool_arg(a)),
    ) + ",\"required\":"@ + json_list(
        t.args@.filter(|a: ToolArg| a.required).map_values(|a: ToolArg| json_str(a.name@)),
    ) + "}}"@
}

fn push_tool_arg(out: &mut String, a: &ToolArg)
    ensures
        final(out)@ == old(out)@ + json_tool_arg(*a),
{
    push_json_str(out, a.name.as_str());
    out.append(":");
    out.append("{\"type\":");
    match a.kind {
        ArgKind::Text => out.append("\"string\""),
        ArgKind::Integer => out.append("\"integer\""),
    }
    out.append(",\"description\":");
    push_json_str(out, a.description.as_str());
    match a.minimum {
        Option::Some(v) => {
            out.append(",\"minimum\":");
            crate::text::push_dec(out, v);
        },
        Option::None => {},
    }
    match a.maximum {
        Option::Some(v) => {
            out.append(",\"maximum\":");
            crate::text::push_dec(out, v);
        },
        Option::None => {},
    }
    out.append("}");
    proof {
        assert(out@ =~= old(out)@ + json_tool_arg(*a));
    }
}

/// Append one catalog entry.
pub fn push_tool(out: &mut String, t: &ToolSpec)
    ensures
        final(out)@ == old(out)@ + json_tool(*t),
{
    let ghost m = t.args@.map_values(|a: ToolArg| json_tool_arg(a));
    out.append("{\"name\":");
    push_json_str(out, t.name.as_str());
    out.append(",\"description\":");
    push_json_str(out, t.description.as_str());
    out.append(",\"inputSchema\":{\"type\":\"object\",\"properties\":");
    out.append("{");
    let ghost head = out@;
    let mut i: usize = 0;
    while i < t.args.len()
        invariant
            i <= t.args.len(),
            m == t.args@.map_values(|a: ToolArg| json_tool_arg(a)),
            m.len() == t.args@.len(),
            out@ == head + join_comma(m.take(i as int)),
        decreases t.args.len() - i,
    {
        if i > 0 {
            out.append(",");
        }
        push_tool_arg(out, &t.args[i]);
        i += 1;
        proof {
            let x = m.take(i as int);
            assert(x.last() == m[i - 1]);
            if i > 1 {
                assert(x.drop_last() =~= m.take(i - 1));
            }
            assert(out@ =~= head + join_comma(x));
        }
    }
    out.append("}");
    proof {
        assert(m.take(t.args@.len() as int) =~= m);
        assert(out@ =~= old(out)@ + "{\"name\":"@ + json_str(t.name@) + ",\"description\":"@
            + json_str(t.description@) + ",\"inputSchema\":{\"type\":\"object\",\"properties\":"@
            + json_object(m));
    }
    out.append(",\"required\":");
    let mut req: Vec<String> = Vec::new();
    let mut j: usize = 0;
    while j < t.args.len()
        invariant
            j <= t.args.len(),
            req@.map_values(|s: String| s@) == t.args@.take(j as int).filter(
                |a: ToolArg| a.required,
            ).map_values(|a: ToolArg| a.name@),
        decreases t.args.len() - j,
    {
        let ghost before = req@.map_values(|s: String| s@);
        if t.args[j].required {
            req.push(t.args[j].name.clone());
            proof {
                assert(req@.map_values(|s: String| s@) =~= before.push(t.args@[j as int].name@));
            }
        }
        j += 1;
        proof {
            reveal(Seq::filter);
            let pred = |a: ToolArg| a.required;
            let nm = |a: ToolArg| a.name@;
            let pre = t.args@.take(j as int);
            let prev = t.args@.take(j - 1);
            assert(pre.drop_last() =~= prev);
            assert(pre.last() == t.args@[j - 1]);
            if t.args@[j - 1].required {
                assert(pre.filter(pred) == prev.filter(pred).push(t.args@[j - 1]));
                assert(pre.filter(pred).map_values(nm) =~= prev.filter(pred).map_values(nm).push(
                    t.args@[j - 1].name@,
                ));
            } else {
                assert(pre.filter(pred) == prev.filter(pred));
            }
            assert(req@.map_values(|s: String| s@) =~= pre.filter(pred).map_values(nm));
        }
    }
    proof {
        assert(t.args@.take(t.args@.len() as int) =~= t.args@);
    }
    let mut k: usize = 0;
    let ghost rm = t.args@.filter(|a: ToolArg| a.required).map_values(
        |a: ToolArg| json_str(a.name@),
    );
    proof {
        let fl = t.args@.filter(|a: ToolArg| a.required);
        assert forall|x: int| 0 <= x < req@.len() implies rm[x] == json_str(
            #[trigger] req@[x]@,
        ) by {
            assert(req@.map_values(|s: String| s@)[x] == req@[x]@);
            assert(req@.map_values(|s: String| s@)[x] == fl.map_values(|a: ToolArg| a.name@)[x]);
            assert(fl.map_values(|a: ToolArg| a.name@)[x] == fl[x].name@);
            assert(rm[x] == json_str(fl[x].name@));
        }
    }
    out.append("[");
    let ghost head2 = out@;
    while k < req.len()
        invariant
            k <= req.len(),
            req@.map_values(|s: String| s@) == t.args@.filter(|a: ToolArg| a.required).map_values(
                |a: ToolArg| a.name@,
            ),
            rm == t.args@.filter(|a: ToolArg| a.required).map_values(
                |a: ToolArg| json_str(a.name@),
            ),
            rm.len() == req@.len(),
            forall|x: int| 0 <= x < req@.len() ==> rm[x] == json_str(#[trigger] req@[x]@),
            out@ == head2 + join_comma(rm.take(k as int)),
        decreases req.len() - k,
    {
        if k > 0 {
            out.append(",");
        }
        push_json_str(out, req[k].as_str());
        k += 1;
        proof {
            let x = rm.take(k as int);
            assert(x.last() == rm[k - 1]);
            if k > 1 {
                assert(x.drop_last() =~= rm.take(k - 1));
            }
            assert(out@ =~= head2 + join_comma(x));
        }
    }
    out.append("]");
    out.append("}}");
    proof {
        assert(rm.take(req@.len() as int) =~= rm);
        assert(out@ =~= old(out)@ + "{\"name\":"@ + json_str(t.name@) + ",\"description\":"@
            + json_str(t.description@) + ",\"inputSchema\":{\"type\":\"object\",\"properties\":"@
            + json_object(m) + ",\"required\":"@ + json_list(rm) + "}}"@);
        assert(out@ =~= old(out)@ + json_tool(*t));
    }
}

} // verus!
