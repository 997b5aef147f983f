use convergio_build::api::{
    build_tools, check_deployable, default_limit, history_limit, routes, HttpMethod,
};
use convergio_build::status::BuildStatus;

#[test]
fn tools_match_routes() {
    let tools = build_tools();
    let rs = routes();
    assert_eq!(tools.len(), 5);
    assert_eq!(tools.len(), rs.len());
    for (t, r) in tools.iter().zip(rs.iter()) {
        assert_eq!(t.method, r.method);
        assert_eq!(t.path, r.path);
    }
    assert_eq!(tools[1].name, "cvg_build_status");
    assert_eq!(tools[1].path_params, vec!["id"]);
    assert_eq!(tools[1].input_schema.required, vec!["id"]);
    assert_eq!(tools[4].input_schema.properties[0].name, "build_id");
    assert_eq!(tools[4].input_schema.properties[0].description, Some("Build ID to rollback to"));
    assert_eq!(HttpMethod::Post.as_str(), "POST");
    assert_eq!(rs[0].path, "/api/build/self");
}

#[test]
fn history_limit_is_clamped() {
    assert_eq!(default_limit(), 20);
    assert_eq!(history_limit(None), 20);
    assert_eq!(history_limit(Some(2)), 2);
    assert_eq!(history_limit(Some(0)), 1);
    assert_eq!(history_limit(Some(-5)), 1);
    assert_eq!(history_limit(Some(999_999_999)), 100);
    assert_eq!(history_limit(Some(100)), 100);
}

#[test]
fn deploy_rejects_non_succeeded() {
    assert!(check_deployable(BuildStatus::Succeeded).is_ok());
    let e = check_deployable(BuildStatus::Queued).unwrap_err();
    assert_eq!(e, "build status is 'queued', must be 'succeeded'");
    assert!(e.contains("must be 'succeeded'"));
    assert!(check_deployable(BuildStatus::Deployed).is_err());
    assert!(check_deployable(BuildStatus::Failed).is_err());
}

#[test]
fn tool_params_come_from_paths_and_rings_from_methods() {
    for t in build_tools() {
        let from_path: Vec<&str> = t
            .path
            .split('/')
            .filter_map(|seg| seg.strip_prefix(':'))
            .collect();
        assert_eq!(t.path_params, from_path);
        assert_eq!(t.min_ring == "core", t.method == HttpMethod::Post);
    }
    let tools = build_tools();
    for i in 0..tools.len() {
        for j in (i + 1)..tools.len() {
            assert_ne!(tools[i].name, tools[j].name);
        }
    }
}
