use dynkube::accessor::ScopedAccessor;
use dynkube::catalog::{
    ApiGroup, Catalog, ResourceCapability, ResourceDescriptor, ResourceEntry, Scope,
};
use dynkube::dispatch::{
    dispatch_verb, fetch_outcome, plan_invocation, render_watch_event, CliError, Invocation,
    RequestAction, Verb, WatchEvent,
};
use dynkube::object::DynObject;
use dynkube::render::OutputMode;

fn pod_catalog() -> Catalog {
    Catalog {
        groups: vec![ApiGroup {
            name: String::from("core"),
            entries: vec![ResourceEntry {
                descriptor: ResourceDescriptor {
                    kind: String::from("Pod"),
                    plural: String::from("pods"),
                    group: String::from("core"),
                    version: String::from("v1"),
                },
                capability: ResourceCapability { scope: Scope::Namespaced },
            }],
        }],
    }
}

fn invocation(verb: Verb, resource: Option<&str>, name: Option<&str>) -> Invocation {
    Invocation {
        output: OutputMode::Pretty,
        namespace: None,
        selector: None,
        all: false,
        verb,
        resource: resource.map(String::from),
        name: name.map(String::from),
    }
}

fn named_object(name: &str) -> DynObject {
    DynObject {
        name: String::from(name),
        namespace: Some(String::from("demo")),
        phase: None,
        condition: None,
        created: None,
        managed_fields: Vec::new(),
    }
}

#[test]
fn get_with_a_name_fetches_exactly_that_object() {
    match dispatch_verb(Verb::Get, Some(String::from("web")), None) {
        Ok(RequestAction::FetchByName(n)) => assert_eq!(n, "web"),
        _ => panic!("get with a name must fetch by name"),
    }
}

#[test]
fn get_without_a_name_lists_under_the_selector() {
    match dispatch_verb(Verb::Get, None, Some(String::from("app=web"))) {
        Ok(RequestAction::ListMatching(Some(s))) => assert_eq!(s, "app=web"),
        _ => panic!("get without a name must list"),
    }
}

#[test]
fn watch_streams_under_the_selector() {
    match dispatch_verb(Verb::Watch, None, Some(String::from("app=web"))) {
        Ok(RequestAction::WatchMatching(Some(s))) => assert_eq!(s, "app=web"),
        _ => panic!("watch must stream"),
    }
}

#[test]
fn mutating_verbs_fail_loudly() {
    for verb in [Verb::Delete, Verb::Edit, Verb::Apply] {
        match dispatch_verb(verb, Some(String::from("web")), None) {
            Err(CliError::UnimplementedVerb(v)) => assert_eq!(v, verb),
            _ => panic!("an unimplemented verb must never pass for a completed operation"),
        }
    }
}

#[test]
fn fetch_of_a_present_object_is_a_singleton_result() {
    let v = fetch_outcome(Some(named_object("web")), "web").expect("present object");
    assert_eq!(v.len(), 1);
    assert_eq!(v[0].name, "web");
}

#[test]
fn fetch_of_an_absent_object_is_not_found() {
    match fetch_outcome(None, "web") {
        Err(CliError::NotFound(n)) => assert_eq!(n, "web"),
        _ => panic!("an absent named object must surface NotFound, never an empty list"),
    }
}

#[test]
fn watch_events_render_one_line_each_in_arrival_order() {
    let events = vec![
        WatchEvent::Added(named_object("x")),
        WatchEvent::Modified(named_object("x")),
        WatchEvent::Deleted(named_object("x")),
    ];
    let mut lines = Vec::new();
    for ev in events {
        lines.push(render_watch_event(ev, None, 0).expect("data events render"));
    }
    assert_eq!(lines.len(), 3);
    let expected = format!(
        "{:<30} {:<30} {:<30} {:<30} {:<30} {:<30}",
        "demo", "x", "None", "None", "None", "None"
    );
    assert_eq!(lines[0], expected);
    assert_eq!(lines[1], expected);
    assert_eq!(lines[2], expected);
}

#[test]
fn a_stream_error_event_ends_the_watch() {
    match render_watch_event(WatchEvent::StreamFailed(String::from("expired")), None, 0) {
        Err(CliError::StreamFailure(m)) => assert_eq!(m, "expired"),
        _ => panic!("an error event must surface as a stream failure"),
    }
}

#[test]
fn planning_without_a_resource_is_a_no_op() {
    let plan = plan_invocation(&pod_catalog(), invocation(Verb::Get, None, None));
    assert!(matches!(plan, Ok(None)));
}

#[test]
fn planning_an_unknown_resource_is_fatal() {
    let plan = plan_invocation(&pod_catalog(), invocation(Verb::Get, Some("frobnicator"), None));
    match plan {
        Err(CliError::UnknownResource(n)) => assert_eq!(n, "frobnicator"),
        _ => panic!("an unknown resource must be a fatal resolution failure"),
    }
}

#[test]
fn planning_get_pods_in_a_namespace() {
    let mut inv = invocation(Verb::Get, Some("pods"), None);
    inv.namespace = Some(String::from("demo"));
    let plan = plan_invocation(&pod_catalog(), inv)
        .expect("known resource plans")
        .expect("a resource was given");
    assert_eq!(plan.descriptor.kind, "Pod");
    assert_eq!(plan.capability.scope, Scope::Namespaced);
    match plan.accessor {
        ScopedAccessor::Namespaced(ns) => assert_eq!(ns, "demo"),
        _ => panic!("expected a namespace-pinned accessor"),
    }
    assert!(matches!(plan.action, RequestAction::ListMatching(None)));
    assert_eq!(plan.output, OutputMode::Pretty);
}

#[test]
fn planning_a_mutating_verb_fails_after_resolution() {
    let plan = plan_invocation(&pod_catalog(), invocation(Verb::Delete, Some("pods"), None));
    assert!(matches!(plan, Err(CliError::UnimplementedVerb(Verb::Delete))));
}
