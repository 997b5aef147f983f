//! The HTTP interface of the self-build service: its routes, the rules its
//! handlers apply, and the tool definitions that point agents at the routes.

use vstd::prelude::*;
use crate::status::{status_name, BuildStatus};
use crate::text::{lemma_pieces_join, pieces, Sep};

verus! {

/// An HTTP method the service answers.
#[derive(Debug, Clone, Copy, PartialEq, Eq, Structural)]
pub enum HttpMethod {
    Get,
    Post,
}

pub open spec fn method_name(m: HttpMethod) -> Seq<char> {
    match m {
        HttpMethod::Get => "GET"@,
        HttpMethod::Post => "POST"@,
    }
}

impl HttpMethod {
    pub fn as_str(&self) -> (s: &'static str)
        ensures
            s@ == method_name(*self),
    {
        match self {
            HttpMethod::Get => "GET",
            HttpMethod::Post => "POST",
        }
    }
}

/// What a route does.
#[derive(Debug, Clone, Copy, PartialEq, Eq, Structural)]
pub enum Endpoint {
    /// Start a new build of the daemon.
    TriggerBuild,
    /// Report one build.
    BuildStatus,
    /// List recent builds.
    BuildHistory,
    /// Deploy a build that succeeded.
    DeployBuild,
    /// Put the previous binary back.
    Rollback,
}

/// A route: method, path pattern (`:name` marks a path parameter) and what
/// it does.
pub struct Route {
    pub method: HttpMethod,
    pub path: &'static str,
    pub endpoint: Endpoint,
}

/// The routes of the service, as plain values.
pub open spec fn route_table() -> Seq<(HttpMethod, Seq<char>, Endpoint)> {
    seq![
        (HttpMethod::Post, "/api/build/self"@, Endpoint::TriggerBuild),
        (HttpMethod::Get, "/api/build/status/:id"@, Endpoint::BuildStatus),
        (HttpMethod::Get, "/api/build/history"@, Endpoint::BuildHistory),
        (HttpMethod::Post, "/api/build/deploy/:id"@, Endpoint::DeployBuild),
        (HttpMethod::Post, "/api/build/rollback"@, Endpoint::Rollback),
    ]
}

pub open spec fn route_view(r: Route) -> (HttpMethod, Seq<char>, Endpoint) {
    (r.method, r.path@, r.endpoint)
}

/// The routes the service serves.
pub fn routes() -> (rs: Vec<Route>)
    ensures
        rs@.map_values(|r: Route| route_view(r)) == route_table(),
{
    let rs = vec![
        Route { method: HttpMethod::Post, path: "/api/build/self", endpoint: Endpoint::TriggerBuild },
        Route {
            method: HttpMethod::Get,
            path: "/api/build/status/:id",
            endpoint: Endpoint::BuildStatus,
        },
        Route {
            method: HttpMethod::Get,
            path: "/api/build/history",
            endpoint: Endpoint::BuildHistory,
        },
        Route {
            method: HttpMethod::Post,
            path: "/api/build/deploy/:id",
            endpoint: Endpoint::DeployBuild,
        },
        Route { method: HttpMethod::Post, path: "/api/build/rollback", endpoint: Endpoint::Rollback },
    ];
    assert(rs@.map_values(|r: Route| route_view(r)) =~= route_table());
    rs
}

/// The number of builds the history lists when the query names none.
pub fn default_limit() -> (n: i64)
    ensures
        n == 20,
{
    20
}

/// The number of builds the history lists: the requested number, or 20
/// where none is requested, held within `1..=100`.
pub open spec fn history_limit_spec(requested: Option<i64>) -> i64 {
    let n = match requested {
        Some(n) => n,
        None => 20,
    };
    if n < 1 {
        1
    } else if n > 100 {
        100
    } else {
        n
    }
}

/// The number of builds the history lists for the query's `limit`.
pub fn history_limit(requested: Option<i64>) -> (n: i64)
    ensures
        n == history_limit_spec(requested),
        1 <= n <= 100,
{
    let n = match requested {
        Some(n) => n,
        None => default_limit(),
    };
    if n < 1 {
        1
    } else if n > 100 {
        100
    } else {
        n
    }
}

/// The message by which a deploy of a build in status `s` is refused.
pub open spec fn not_deployable_message(s: BuildStatus) -> Seq<char> {
    "build status is '"@ + status_name(s) + "', must be 'succeeded'"@
}

/// Whether a build in status `status` may be deployed: only a build that
/// succeeded may; any other is refused with a message that names its status.
pub fn check_deployable(status: BuildStatus) -> (r: Result<(), String>)
    ensures
        r is Ok <==> status == BuildStatus::Succeeded,
        r matches Err(m) ==> m@ == not_deployable_message(status),
{
    if status == BuildStatus::Succeeded {
        Ok(())
    } else {
        Err("build status is '".to_owned().concat(status.as_str()).concat("', must be 'succeeded'"))
    }
}

/// A property of a tool's input schema.
pub struct SchemaProperty {
    pub name: &'static str,
    pub kind: &'static str,
    pub description: Option<&'static str>,
}

/// The input schema of a tool: an object with these properties, of which
/// `required` must be given.
pub struct InputSchema {
    pub properties: Vec<SchemaProperty>,
    pub required: Vec<&'static str>,
}

/// A tool that agents call: it names a route and says what it takes.
pub struct McpToolDef {
    pub name: &'static str,
    pub description: &'static str,
    pub method: HttpMethod,
    pub path: &'static str,
    pub input_schema: InputSchema,
    pub min_ring: &'static str,
    pub path_params: Vec<&'static str>,
}

pub struct PropertyView {
    pub name: Seq<char>,
    pub kind: Seq<char>,
    pub description: Option<Seq<char>>,
}

pub struct ToolView {
    pub name: Seq<char>,
    pub description: Seq<char>,
    pub method: HttpMethod,
    pub path: Seq<char>,
    pub properties: Seq<PropertyView>,
    pub required: Seq<Seq<char>>,
    pub min_ring: Seq<char>,
    pub path_params: Seq<Seq<char>>,
}

pub open spec fn property_view(p: SchemaProperty) -> PropertyView {
    PropertyView {
        name: p.name@,
        kind: p.kind@,
        description: match p.description {
            Some(d) => Some(d@),
            None => None,
        },
    }
}

pub open spec fn tool_view(t: McpToolDef) -> ToolView {
    ToolView {
        name: t.name@,
        description: t.description@,
        method: t.method,
        path: t.path@,
        properties: t.input_schema.properties@.map_values(|p: SchemaProperty| property_view(p)),
        required: t.input_schema.required@.map_values(|s: &str| s@),
        min_ring: t.min_ring@,
        path_params: t.path_params@.map_values(|s: &str| s@),
    }
}

pub open spec fn id_property() -> PropertyView {
    PropertyView { name: "id"@, kind: "string"@, description: None }
}

/// The tools of the self-build service, as plain values.
pub open spec fn tool_table() -> Seq<ToolView> {
    seq![
        ToolView {
            name: "cvg_build_self"@,
            description: "Trigger a self-build of the daemon."@,
            method: HttpMethod::Post,
            path: "/api/build/self"@,
            properties: seq![],
            required: seq![],
            min_ring: "core"@,
            path_params: seq![],
        },
        ToolView {
            name: "cvg_build_status"@,
            description: "Get status of a build."@,
            method: HttpMethod::Get,
            path: "/api/build/status/:id"@,
            properties: seq![id_property()],
            required: seq!["id"@],
            min_ring: "community"@,
            path_params: seq!["id"@],
        },
        ToolView {
            name: "cvg_build_history"@,
            description: "Get build history."@,
            method: HttpMethod::Get,
            path: "/api/build/history"@,
            properties: seq![],
            required: seq![],
            min_ring: "community"@,
            path_params: seq![],
        },
        ToolView {
            name: "cvg_build_deploy"@,
            description: "Deploy a specific build."@,
            method: HttpMethod::Post,
            path: "/api/build/deploy/:id"@,
            properties: seq![id_property()],
            required: seq!["id"@],
            min_ring: "core"@,
            path_params: seq!["id"@],
        },
        ToolView {
            name: "cvg_build_rollback"@,
            description: "Rollback to a previous build."@,
            method: HttpMethod::Post,
            path: "/api/build/rollback"@,
            properties: seq![
                PropertyView {
                    name: "build_id"@,
                    kind: "string"@,
                    description: Some("Build ID to rollback to"@),
                },
            ],
            required: seq![],
            min_ring: "core"@,
            path_params: seq![],
        },
    ]
}

fn no_properties() -> (s: InputSchema)
    ensures
        s.properties@.len() == 0,
        s.required@.len() == 0,
{
    InputSchema { properties: Vec::new(), required: Vec::new() }
}

fn id_schema() -> (s: InputSchema)
    ensures
        s.properties@.map_values(|p: SchemaProperty| property_view(p)) == seq![id_property()],
        s.required@.map_values(|x: &str| x@) == seq!["id"@],
{
    let s = InputSchema {
        properties: vec![SchemaProperty { name: "id", kind: "string", description: None }],
        required: vec!["id"],
    };
    assert(s.properties@.map_values(|p: SchemaProperty| property_view(p)) =~= seq![id_property()]);
    assert(s.required@.map_values(|x: &str| x@) =~= seq!["id"@]);
    s
}

/// The tool definitions of the self-build service.
pub fn build_tools() -> (ts: Vec<McpToolDef>)
    ensures
        ts@.map_values(|t: McpToolDef| tool_view(t)) == tool_table(),
{
    let rollback_schema = InputSchema {
        properties: vec![
            SchemaProperty {
                name: "build_id",
                kind: "string",
                description: Some("Build ID to rollback to"),
            },
        ],
        required: Vec::new(),
    };
    let ts = vec![
        McpToolDef {
            name: "cvg_build_self",
            description: "Trigger a self-build of the daemon.",
            method: HttpMethod::Post,
            path: "/api/build/self",
            input_schema: no_properties(),
            min_ring: "core",
            path_params: Vec::new(),
        },
        McpToolDef {
            name: "cvg_build_status",
            description: "Get status of a build.",
            method: HttpMethod::Get,
            path: "/api/build/status/:id",
            input_schema: id_schema(),
            min_ring: "community",
            path_params: vec!["id"],
        },
        McpToolDef {
            name: "cvg_build_history",
            description: "Get build history.",
            method: HttpMethod::Get,
            path: "/api/build/history",
            input_schema: no_properties(),
            min_ring: "community",
            path_params: Vec::new(),
        },
        McpToolDef {
            name: "cvg_build_deploy",
            description: "Deploy a specific build.",
            method: HttpMethod::Post,
            path: "/api/build/deploy/:id",
            input_schema: id_schema(),
            min_ring: "core",
            path_params: vec!["id"],
        },
        McpToolDef {
            name: "cvg_build_rollback",
            description: "Rollback to a previous build.",
            method: HttpMethod::Post,
            path: "/api/build/rollback",
            input_schema: rollback_schema,
            min_ring: "core",
            path_params: Vec::new(),
        },
    ];
    proof {
        let v = ts@.map_values(|t: McpToolDef| tool_view(t));
        let w = tool_table();
        assert(v.len() == w.len());
        assert(v[0].properties =~= w[0].properties);
        assert(v[0].required =~= w[0].required);
        assert(v[0].path_params =~= w[0].path_params);
        assert(v[1].path_params =~= w[1].path_params);
        assert(v[2].properties =~= w[2].properties);
        assert(v[2].required =~= w[2].required);
        assert(v[2].path_params =~= w[2].path_params);
        assert(v[3].path_params =~= w[3].path_params);
        assert(v[4].properties =~= w[4].properties);
        assert(v[4].required =~= w[4].required);
        assert(v[4].path_params =~= w[4].path_params);
        assert(v =~= w);
    }
    ts
}

/// Every tool points at a route the service serves, with the route's method
/// and path, and every route has its tool: the two tables match entry by
/// entry.
pub proof fn lemma_tools_match_routes()
    ensures
        tool_table().len() == route_table().len(),
        forall|i: int|
            0 <= i < tool_table().len() ==> (#[trigger] tool_table()[i]).method
                == route_table()[i].0 && tool_table()[i].path == route_table()[i].1,
{
}

pub open spec fn param_is_required_string(t: ToolView, p: Seq<char>) -> bool {
    &&& t.required.contains(p)
    &&& exists|k: int|
        0 <= k < t.properties.len() && t.properties[k].name == p && t.properties[k].kind
            == "string"@
}

/// Every path parameter of a tool is a string property of its input schema
/// that must be given.
pub proof fn lemma_path_params_required()
    ensures
        forall|i: int, j: int|
            0 <= i < tool_table().len() && 0 <= j < tool_table()[i].path_params.len()
                ==> param_is_required_string(tool_table()[i], #[trigger] tool_table()[i].path_params[j]),
{
    assert forall|i: int, j: int|
        0 <= i < tool_table().len() && 0 <= j < tool_table()[i].path_params.len()
            implies param_is_required_string(tool_table()[i], #[trigger] tool_table()[i].path_params[j]) by {
        let t = tool_table()[i];
        assert(t.required[0] == t.path_params[j]);
        assert(t.properties[0].name == t.path_params[j]);
    }
}

/// The names of the path parameters among `segs`: the segments that start
/// with `:`, without it, in order.
pub open spec fn param_names(segs: Seq<Seq<char>>) -> Seq<Seq<char>>
    decreases segs.len(),
{
    if segs.len() == 0 {
        Seq::<Seq<char>>::empty()
    } else {
        let last = segs.last();
        param_names(segs.drop_last()) + if last.len() > 0 && last[0] == ':' {
            seq![last.drop_first()]
        } else {
            Seq::<Seq<char>>::empty()
        }
    }
}

/// The path parameters that a route pattern declares: its `/`-separated
/// segments that start with `:`, without the `:`.
pub open spec fn path_params_of(path: Seq<char>) -> Seq<Seq<char>> {
    param_names(pieces(path, Sep::Char('/')))
}

/// `segs` joined with `/` between them.
pub open spec fn join_segments(segs: Seq<Seq<char>>) -> Seq<char>
    decreases segs.len(),
{
    if segs.len() == 0 {
        Seq::<char>::empty()
    } else if segs.len() == 1 {
        segs[0]
    } else {
        join_segments(segs.drop_last()) + seq!['/'] + segs.last()
    }
}

proof fn lemma_pieces_single(w: Seq<char>)
    requires
        !w.contains('/'),
    ensures
        pieces(w, Sep::Char('/')) == seq![w],
    decreases w.len(),
{
    if w.len() == 0 {
        assert(w =~= Seq::<char>::empty());
        assert(pieces(w, Sep::Char('/')) =~= seq![w]);
    } else {
        assert(!w.drop_last().contains('/')) by {
            assert forall|i: int| 0 <= i < w.drop_last().len() implies w.drop_last()[i] != '/' by {
                assert(w.drop_last()[i] == w[i]);
            }
        }
        lemma_pieces_single(w.drop_last());
        assert(w[w.len() - 1] != '/');
        assert(w.drop_last().push(w.last()) =~= w);
        assert(pieces(w, Sep::Char('/')) =~= seq![w]);
    }
}

proof fn lemma_pieces_of_join(segs: Seq<Seq<char>>)
    requires
        segs.len() >= 1,
        forall|i: int| 0 <= i < segs.len() ==> !(#[trigger] segs[i]).contains('/'),
    ensures
        pieces(join_segments(segs), Sep::Char('/')) == segs,
    decreases segs.len(),
{
    if segs.len() == 1 {
        lemma_pieces_single(segs[0]);
        assert(seq![segs[0]] =~= segs);
    } else {
        let dl = segs.drop_last();
        assert forall|i: int| 0 <= i < dl.len() implies !(#[trigger] dl[i]).contains('/') by {
            assert(dl[i] == segs[i]);
        }
        lemma_pieces_of_join(dl);
        lemma_pieces_join(join_segments(dl), segs.last(), '/');
        assert(!segs[segs.len() - 1].contains('/'));
        lemma_pieces_single(segs.last());
        assert(dl + seq![segs.last()] =~= segs);
    }
}

proof fn lemma_params_of_segments(path: Seq<char>, segs: Seq<Seq<char>>)
    requires
        segs.len() >= 1,
        forall|i: int| 0 <= i < segs.len() ==> !(#[trigger] segs[i]).contains('/'),
        path == join_segments(segs),
    ensures
        path_params_of(path) == param_names(segs),
{
    lemma_pieces_of_join(segs);
}

pub open spec fn api_seg() -> Seq<char> {
    seq!['a', 'p', 'i']
}

pub open spec fn build_seg() -> Seq<char> {
    seq!['b', 'u', 'i', 'l', 'd']
}

pub open spec fn id_seg() -> Seq<char> {
    seq![':', 'i', 'd']
}

proof fn lemma_route_params(path: Seq<char>, segs: Seq<Seq<char>>, params: Seq<Seq<char>>)
    requires
        segs.len() >= 1,
        forall|i: int, k: int|
            0 <= i < segs.len() && 0 <= k < segs[i].len() ==> #[trigger] segs[i][k] != '/',
        path =~= join_segments(segs),
        param_names(segs) =~= params,
    ensures
        path_params_of(path) == params,
{
    assert forall|i: int| 0 <= i < segs.len() implies !(#[trigger] segs[i]).contains('/') by {
        if segs[i].contains('/') {
            let k = choose|k: int| 0 <= k < segs[i].len() && segs[i][k] == '/';
            assert(segs[i][k] != '/');
        }
    }
    lemma_params_of_segments(path, segs);
}

/// The path parameters of every tool are the `:`-prefixed segments of its
/// path, without the `:`.
pub proof fn lemma_path_params_from_path()
    ensures
        forall|i: int|
            0 <= i < tool_table().len() ==> (#[trigger] tool_table()[i]).path_params
                == path_params_of(tool_table()[i].path),
{
    reveal_strlit("/api/build/self");
    reveal_strlit("/api/build/status/:id");
    reveal_strlit("/api/build/history");
    reveal_strlit("/api/build/deploy/:id");
    reveal_strlit("/api/build/rollback");
    reveal_strlit("id");
    reveal_with_fuel(join_segments, 6);
    reveal_with_fuel(param_names, 6);
    let e = Seq::<char>::empty();
    let none = Seq::<Seq<char>>::empty();
    let id = seq![seq!['i', 'd']];
    assert("id"@ =~= seq!['i', 'd']);
    assert(id_seg().drop_first() =~= seq!['i', 'd']);
    assert(none + id =~= id);
    let segs0 = seq![e, api_seg(), build_seg(), seq!['s', 'e', 'l', 'f']];
    lemma_route_params("/api/build/self"@, segs0, none);
    let segs1 = seq![e, api_seg(), build_seg(), seq!['s', 't', 'a', 't', 'u', 's'], id_seg()];
    lemma_route_params("/api/build/status/:id"@, segs1, id);
    let segs2 = seq![e, api_seg(), build_seg(), seq!['h', 'i', 's', 't', 'o', 'r', 'y']];
    lemma_route_params("/api/build/history"@, segs2, none);
    let segs3 = seq![e, api_seg(), build_seg(), seq!['d', 'e', 'p', 'l', 'o', 'y'], id_seg()];
    lemma_route_params("/api/build/deploy/:id"@, segs3, id);
    let segs4 = seq![e, api_seg(), build_seg(), seq!['r', 'o', 'l', 'l', 'b', 'a', 'c', 'k']];
    lemma_route_params("/api/build/rollback"@, segs4, none);
    assert(tool_table()[1].path_params =~= id);
    assert(tool_table()[3].path_params =~= id);
    assert(tool_table()[0].path_params =~= none);
    assert(tool_table()[2].path_params =~= none);
    assert(tool_table()[4].path_params =~= none);
}

/// No two tools share a name.
pub proof fn lemma_tool_names_distinct()
    ensures
        forall|i: int, j: int|
            0 <= i < j < tool_table().len() ==> (#[trigger] tool_table()[i]).name != (
            #[trigger] tool_table()[j]).name,
{
    reveal_strlit("cvg_build_self");
    reveal_strlit("cvg_build_status");
    reveal_strlit("cvg_build_history");
    reveal_strlit("cvg_build_deploy");
    reveal_strlit("cvg_build_rollback");
    assert("cvg_build_self"@.len() == 14);
    assert("cvg_build_status"@.len() == 16);
    assert("cvg_build_history"@.len() == 17);
    assert("cvg_build_deploy"@.len() == 16);
    assert("cvg_build_rollback"@.len() == 18);
    assert("cvg_build_status"@[10] != "cvg_build_deploy"@[10]);
}

/// A tool needs the `core` ring exactly when it changes something (its
/// method is `POST`); the others need `community`.
pub proof fn lemma_ring_follows_method()
    ensures
        forall|i: int|
            0 <= i < tool_table().len() ==> ((#[trigger] tool_table()[i]).min_ring == "core"@
                <==> tool_table()[i].method == HttpMethod::Post) && (tool_table()[i].method
                == HttpMethod::Get ==> tool_table()[i].min_ring == "community"@),
{
    reveal_strlit("core");
    reveal_strlit("community");
    assert("core"@.len() == 4 && "community"@.len() == 9);
}

} // verus!
