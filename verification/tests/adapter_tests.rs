use plugin_adapter::adapter::{FilterPlan, JsAdapterPlugin, LoadPlan, TransformPlan};
use plugin_adapter::filter::FilterIdResult;
use plugin_adapter::hooks::{
    BuildPhase, CallbackRef, HookKind, HookResolveIdArgs, PluginOptions, ResolveIdOptions,
    ResolveIdResult, SourceResult,
};

fn opts(
    build_start: Option<u64>,
    resolve_id: Option<u64>,
    filter_id: Option<u64>,
    load: Option<u64>,
    transform: Option<u64>,
    build_end: Option<u64>,
) -> PluginOptions {
    let r = |t: Option<u64>| t.map(|token| CallbackRef { token });
    PluginOptions {
        name: "demo-plugin".to_string(),
        build_start: r(build_start),
        resolve_id: r(resolve_id),
        filter_id: r(filter_id),
        load: r(load),
        transform: r(transform),
        build_end: r(build_end),
    }
}

fn filter_of(allowed: &[&str], denied: &[&str]) -> FilterIdResult {
    FilterIdResult {
        allowed: allowed.iter().map(|s| s.to_string()).collect(),
        denied: denied.iter().map(|s| s.to_string()).collect(),
    }
}

#[test]
fn absence_is_safe() {
    let mut p = JsAdapterPlugin::new(opts(None, None, None, None, None, None)).unwrap();
    assert!(!p.build_start());
    let args = HookResolveIdArgs {
        source: "a.js".to_string(),
        importer: None,
        options: ResolveIdOptions { is_entry: true },
    };
    assert!(p.resolve_id(&args).is_none());
    assert!(matches!(p.load("a.js"), LoadPlan::Defer));
    assert!(matches!(p.transform("code", "a.js"), TransformPlan::Defer));
    assert!(p.build_end(None).is_none());
    // the runtime boundary was never contacted
    assert!(p.trace().is_empty());
}

#[test]
fn filter_memoization() {
    let mut p = JsAdapterPlugin::new(opts(None, None, Some(3), Some(4), Some(5), None)).unwrap();
    p.build_start();
    // the driver's stand-in for the plugin's filter_id callback,
    // counting its own invocations
    let mut filter_calls: u32 = 0;
    let ids = ["a.js", "b.js", "c.js", "d.js", "e.js"];
    let mut results = Vec::new();
    for id in ids {
        match p.load(id) {
            LoadPlan::AwaitFilters => {
                filter_calls += 1;
                p.commit_filters(filter_of(&[], &[]));
                // after committing, the same call is repeated
                results.push(matches!(p.load(id), LoadPlan::Invoke(_)));
            }
            LoadPlan::Invoke(_) => results.push(true),
            LoadPlan::Defer => results.push(false),
        }
        match p.transform("code", id) {
            TransformPlan::AwaitFilters => panic!("filters were already computed"),
            TransformPlan::Invoke(_) => {}
            TransformPlan::Defer => panic!("unfiltered result must match"),
        }
    }
    assert_eq!(filter_calls, 1);
    assert!(results.iter().all(|&b| b));
    let filter_events = p
        .trace()
        .iter()
        .filter(|e| e.hook == HookKind::FilterId)
        .count();
    assert_eq!(filter_events, 1);
}

#[test]
fn filter_gating_correctness() {
    let mut p = JsAdapterPlugin::new(opts(None, None, Some(3), Some(4), Some(5), None)).unwrap();
    p.build_start();
    assert!(matches!(p.load("a.js"), LoadPlan::AwaitFilters));
    p.commit_filters(filter_of(&["a.js"], &[]));
    match p.load("a.js") {
        LoadPlan::Invoke(inp) => assert_eq!(inp.id, "a.js"),
        _ => panic!("matching id must reach the load callback"),
    }
    assert!(matches!(p.load("b.js"), LoadPlan::Defer));
    match p.transform("let x;", "a.js") {
        TransformPlan::Invoke(inp) => {
            assert_eq!(inp.id, "a.js");
            assert_eq!(inp.code, "let x;");
        }
        _ => panic!("matching id must reach the transform callback"),
    }
    assert!(matches!(p.transform("let x;", "b.js"), TransformPlan::Defer));
    // only the matching ids were recorded at the boundary
    for e in p.trace().iter() {
        if e.hook == HookKind::Load || e.hook == HookKind::Transform {
            assert_eq!(e.id.as_deref(), Some("a.js"));
        }
    }
}

#[test]
fn denied_id_is_not_observed() {
    let mut p = JsAdapterPlugin::new(opts(None, None, Some(3), Some(4), None, None)).unwrap();
    p.build_start();
    assert!(matches!(p.load("a.js"), LoadPlan::AwaitFilters));
    // a denied id loses even when the allow list is empty
    p.commit_filters(filter_of(&[], &["skip.js"]));
    assert!(matches!(p.load("skip.js"), LoadPlan::Defer));
    assert!(matches!(p.load("keep.js"), LoadPlan::Invoke(_)));
}

#[test]
fn no_filter_always_runs() {
    let mut p = JsAdapterPlugin::new(opts(None, None, None, Some(4), Some(5), None)).unwrap();
    p.build_start();
    for id in ["a.js", "b.js", "weird id", ""] {
        assert!(matches!(p.load(id), LoadPlan::Invoke(_)));
        assert!(matches!(p.transform("x", id), TransformPlan::Invoke(_)));
    }
}

#[test]
fn filter_failure_does_not_poison_the_cache() {
    let mut p = JsAdapterPlugin::new(opts(None, None, Some(3), Some(4), None, None)).unwrap();
    p.build_start();
    assert!(matches!(p.load("a.js"), LoadPlan::AwaitFilters));
    // the filter_id callback failed: nothing is committed, and the
    // failure is translated for the pipeline
    let e = p.filter_failure("boundary dropped".to_string());
    assert_eq!(e.hook, HookKind::FilterId);
    assert_eq!(e.message, "boundary dropped");
    // a later call simply asks again
    assert!(matches!(p.load("a.js"), LoadPlan::AwaitFilters));
    assert!(matches!(p.load_filters(), FilterPlan::AwaitFilterId));
    p.commit_filters(filter_of(&[], &[]));
    assert!(matches!(p.load("a.js"), LoadPlan::Invoke(_)));
}

#[test]
fn is_id_filtered_applies_the_committed_filter() {
    let mut p = JsAdapterPlugin::new(opts(None, None, Some(3), None, None, None)).unwrap();
    p.build_start();
    assert!(matches!(p.load_filters(), FilterPlan::AwaitFilterId));
    p.commit_filters(filter_of(&["a.js"], &[]));
    assert!(p.is_id_filtered("a.js"));
    assert!(!p.is_id_filtered("b.js"));
    assert_eq!(p.filters().allowed, vec!["a.js".to_string()]);
}

#[test]
fn absent_filter_hook_commits_the_default_without_the_boundary() {
    let mut p = JsAdapterPlugin::new(opts(None, None, None, None, None, None)).unwrap();
    p.build_start();
    assert!(matches!(p.load_filters(), FilterPlan::Ready));
    assert!(p.filters().allowed.is_empty());
    assert!(p.filters().denied.is_empty());
    assert!(p.is_id_filtered("anything"));
    assert!(p.trace().is_empty());
}

#[test]
fn ordering() {
    let mut p =
        JsAdapterPlugin::new(opts(Some(1), Some(2), None, Some(4), Some(5), Some(6))).unwrap();
    assert_eq!(p.current_phase(), BuildPhase::Configured);
    assert!(p.build_start());
    assert_eq!(p.current_phase(), BuildPhase::Started);
    let args = HookResolveIdArgs {
        source: "a.js".to_string(),
        importer: Some("main.js".to_string()),
        options: ResolveIdOptions { is_entry: false },
    };
    assert!(p.resolve_id(&args).is_some());
    assert!(matches!(p.load("a.js"), LoadPlan::Invoke(_)));
    assert!(matches!(p.transform("x", "a.js"), TransformPlan::Invoke(_)));
    assert!(p.build_end(None).is_some());
    assert_eq!(p.current_phase(), BuildPhase::Ended);
    let trace = p.trace();
    assert_eq!(trace.len(), 5);
    assert_eq!(trace[0].hook, HookKind::BuildStart);
    assert_eq!(trace[trace.len() - 1].hook, HookKind::BuildEnd);
    for e in &trace[1..trace.len() - 1] {
        assert!(matches!(
            e.hook,
            HookKind::ResolveId | HookKind::Load | HookKind::Transform
        ));
    }
}

#[test]
fn error_translation() {
    let p = JsAdapterPlugin::new(opts(None, None, None, None, Some(5), None)).unwrap();
    let r = p.complete_transform("x.ts", Err("syntax error".to_string()));
    let e = r.err().expect("a failed callback must surface as an error");
    assert_eq!(e.hook, HookKind::Transform);
    assert_eq!(e.hook_name(), "transform");
    assert_eq!(e.id.as_deref(), Some("x.ts"));
    assert_eq!(e.message, "syntax error");
    assert_eq!(e.plugin, "demo-plugin");
}

#[test]
fn every_hook_failure_is_translated() {
    let p = JsAdapterPlugin::new(opts(Some(1), Some(2), None, Some(4), None, Some(6))).unwrap();
    let e = p
        .complete_build_start(Err("boom".to_string()))
        .err()
        .unwrap();
    assert_eq!((e.hook, e.id.clone()), (HookKind::BuildStart, None));
    let e = p
        .complete_resolve_id(Err("boom".to_string()))
        .err()
        .unwrap();
    assert_eq!((e.hook, e.id.clone()), (HookKind::ResolveId, None));
    let e = p
        .complete_load("m.js", Err("boom".to_string()))
        .err()
        .unwrap();
    assert_eq!(e.hook, HookKind::Load);
    assert_eq!(e.id.as_deref(), Some("m.js"));
    let e = p.complete_build_end(Err("boom".to_string())).err().unwrap();
    assert_eq!((e.hook, e.id), (HookKind::BuildEnd, None));
}

#[test]
fn successful_outcomes_pass_through() {
    let p = JsAdapterPlugin::new(opts(Some(1), Some(2), None, Some(4), Some(5), Some(6))).unwrap();
    assert!(p.complete_build_start(Ok(())).is_ok());
    let resolved = p
        .complete_resolve_id(Ok(Some(ResolveIdResult {
            id: "/abs/a.js".to_string(),
            external: false,
        })))
        .unwrap()
        .unwrap();
    assert_eq!(resolved.id, "/abs/a.js");
    assert!(!resolved.external);
    let loaded = p
        .complete_load("a.js", Ok(Some(SourceResult { code: "x".to_string() })))
        .unwrap()
        .unwrap();
    assert_eq!(loaded.code, "x");
    let t = p.complete_transform("a.js", Ok(None)).unwrap();
    assert!(t.is_none());
    assert!(p.complete_build_end(Ok(())).is_ok());
}

#[test]
fn construction_fails_fast_on_unbindable_reference() {
    let e = JsAdapterPlugin::new(opts(Some(1), Some(0), None, Some(0), None, None))
        .err()
        .expect("a null callable reference must be rejected");
    // the first unbindable hook, in registry order, is reported
    assert_eq!(e.hook, HookKind::ResolveId);
    assert_eq!(e.plugin, "demo-plugin");
    let e = JsAdapterPlugin::new(opts(None, None, None, None, None, Some(0)))
        .err()
        .unwrap();
    assert_eq!(e.hook, HookKind::BuildEnd);
}

#[test]
fn construction_invokes_no_hook() {
    let p = JsAdapterPlugin::new(opts(Some(1), Some(2), Some(3), Some(4), Some(5), Some(6)))
        .unwrap();
    assert!(p.trace().is_empty());
    assert_eq!(p.current_phase(), BuildPhase::Configured);
}

#[test]
fn new_boxed_builds_the_same_plugin() {
    let p = JsAdapterPlugin::new_boxed(opts(Some(1), None, None, None, None, None)).unwrap();
    assert_eq!(p.name(), "demo-plugin");
    let e = JsAdapterPlugin::new_boxed(opts(Some(0), None, None, None, None, None))
        .err()
        .unwrap();
    assert_eq!(e.hook, HookKind::BuildStart);
}

#[test]
fn resolve_id_marshals_the_arguments() {
    let mut p = JsAdapterPlugin::new(opts(None, Some(2), None, None, None, None)).unwrap();
    p.build_start();
    let args = HookResolveIdArgs {
        source: "./dep".to_string(),
        importer: Some("entry.js".to_string()),
        options: ResolveIdOptions { is_entry: true },
    };
    let inp = p.resolve_id(&args).unwrap();
    assert_eq!(inp.specifier, "./dep");
    assert_eq!(inp.importer.as_deref(), Some("entry.js"));
    assert!(inp.options.is_entry);
}

#[test]
fn build_end_marshals_the_failure_description() {
    let mut p = JsAdapterPlugin::new(opts(None, None, None, None, None, Some(6))).unwrap();
    p.build_start();
    let inp = p.build_end(Some("resolution failed")).unwrap();
    assert_eq!(inp.error.as_deref(), Some("resolution failed"));

    let mut q = JsAdapterPlugin::new(opts(None, None, None, None, None, Some(6))).unwrap();
    q.build_start();
    let inp = q.build_end(None).unwrap();
    assert!(inp.error.is_none());
}
