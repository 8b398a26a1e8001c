use dynkube::age::{calculate_age, time_to_age};
use dynkube::object::{prepare_objects, strip_managed_fields, DynObject};
use dynkube::render::{normalize_and_render, pretty_print, render, terminal_cell_width, OutputMode, RenderOutput};
use dynkube::text::{eq_ignore_case, pad_right, str_lt, u64_to_dec};

fn plain(name: &str, namespace: Option<&str>) -> DynObject {
    DynObject {
        name: String::from(name),
        namespace: namespace.map(String::from),
        phase: None,
        condition: None,
        created: None,
        managed_fields: Vec::new(),
    }
}

#[test]
fn decimal_rendering_is_exact() {
    assert_eq!(u64_to_dec(0), "0");
    assert_eq!(u64_to_dec(7), "7");
    assert_eq!(u64_to_dec(10), "10");
    assert_eq!(u64_to_dec(12345), "12345");
    assert_eq!(u64_to_dec(18446744073709551615), "18446744073709551615");
}

#[test]
fn case_insensitive_equality() {
    assert!(eq_ignore_case("Pod", "pod"));
    assert!(eq_ignore_case("PODS", "pods"));
    assert!(!eq_ignore_case("pod", "pods"));
    assert!(eq_ignore_case("", ""));
}

#[test]
fn lexicographic_order_of_names() {
    assert!(str_lt("alpha", "beta"));
    assert!(!str_lt("beta", "alpha"));
    assert!(!str_lt("alpha", "alpha"));
    assert!(str_lt("app", "apps"));
}

#[test]
fn padding_reaches_width_and_never_truncates() {
    assert_eq!(pad_right("ab", 5), "ab   ");
    assert_eq!(pad_right("abcdef", 3), "abcdef");
    assert_eq!(pad_right("", 2), "  ");
}

#[test]
fn age_uses_the_largest_fitting_unit() {
    assert_eq!(time_to_age(0, 259200), "3d");
    assert_eq!(time_to_age(100, 100 + 12 * 3600), "12h");
    assert_eq!(time_to_age(0, 90), "1m");
    assert_eq!(time_to_age(0, 59), "59s");
    assert_eq!(time_to_age(0, 1), "1s");
}

#[test]
fn age_in_the_future_renders_as_zero_seconds() {
    assert_eq!(time_to_age(100, 50), "0s");
}

#[test]
fn age_of_a_missing_timestamp_is_the_sentinel() {
    assert_eq!(calculate_age(None, 12345), "None");
    assert_eq!(calculate_age(Some(0), 259200), "3d");
}

#[test]
fn terminal_width_is_a_sixth_of_the_columns() {
    assert_eq!(terminal_cell_width(Some((24, 120))), 20);
    assert_eq!(terminal_cell_width(Some((50, 7))), 1);
    assert_eq!(terminal_cell_width(None), 30);
}

#[test]
fn stripping_managed_fields_is_idempotent() {
    let mut obj = plain("a", Some("demo"));
    obj.managed_fields = vec![String::from("manager-entry")];
    strip_managed_fields(&mut obj);
    assert!(obj.managed_fields.is_empty());
    let once_name = obj.name.clone();
    strip_managed_fields(&mut obj);
    assert!(obj.managed_fields.is_empty());
    assert_eq!(obj.name, once_name);
    assert_eq!(obj.namespace.as_deref(), Some("demo"));
}

#[test]
fn prepared_objects_are_stripped_in_order() {
    let mut a = plain("a", Some("demo"));
    a.managed_fields = vec![String::from("x")];
    let mut b = plain("bb", Some("demo"));
    b.managed_fields = vec![String::from("y"), String::from("z")];
    let out = prepare_objects(vec![a, b]);
    assert_eq!(out.len(), 2);
    assert_eq!(out[0].name, "a");
    assert_eq!(out[1].name, "bb");
    assert!(out[0].managed_fields.is_empty());
    assert!(out[1].managed_fields.is_empty());
}

#[test]
fn table_scenario_two_pods_in_demo_namespace() {
    let objects = vec![plain("a", Some("demo")), plain("bb", Some("demo"))];
    let lines = pretty_print(&objects, None, 0);
    assert_eq!(lines.len(), 3);
    let expected_header = format!(
        "{:<30} {:<30} {:<30} {:<30} {:<30} {:<30}",
        "NAMESPACE", "NAME", "READY", "STATUS", "RESTARTS", "AGE"
    );
    assert_eq!(lines[0], expected_header);
    let expected_row_a = format!(
        "{:<30} {:<30} {:<30} {:<30} {:<30} {:<30}",
        "demo", "a", "None", "None", "None", "None"
    );
    let expected_row_bb = format!(
        "{:<30} {:<30} {:<30} {:<30} {:<30} {:<30}",
        "demo", "bb", "None", "None", "None", "None"
    );
    assert_eq!(lines[1], expected_row_a);
    assert_eq!(lines[2], expected_row_bb);
    assert!(lines[1].starts_with("demo"));
    assert!(lines[2].starts_with("demo"));
}

#[test]
fn long_names_widen_the_column_instead_of_truncating() {
    let long = "a-name-well-beyond-any-terminal-sixth-of-width-limit";
    let objects = vec![plain(long, Some("demo")), plain("b", Some("demo"))];
    let lines = pretty_print(&objects, Some((10, 30)), 0);
    assert!(lines[1].contains(long));
    let expected = format!(
        "{:<5} {:<52} {:<5} {:<5} {:<5} {:<5}",
        "demo", long, "None", "None", "None", "None"
    );
    assert_eq!(lines[1], expected);
}

#[test]
fn status_phase_and_age_reach_their_columns() {
    let mut obj = plain("web", Some("prod"));
    obj.phase = Some(String::from("Running"));
    obj.created = Some(0);
    let lines = pretty_print(&vec![obj], None, 2 * 86400);
    let expected = format!(
        "{:<30} {:<30} {:<30} {:<30} {:<30} {:<30}",
        "prod", "web", "None", "Running", "None", "2d"
    );
    assert_eq!(lines[1], expected);
}

#[test]
fn cluster_scoped_objects_render_an_empty_namespace_cell() {
    let obj = plain("node-1", None);
    let lines = pretty_print(&vec![obj], None, 0);
    assert!(lines[1].starts_with(' '));
    assert!(lines[1].contains("node-1"));
}

#[test]
fn structured_mode_passes_objects_through() {
    let objects = vec![plain("a", Some("demo"))];
    match render(objects, OutputMode::Yaml, None, 0) {
        RenderOutput::Raw(v) => {
            assert_eq!(v.len(), 1);
            assert_eq!(v[0].name, "a");
        }
        RenderOutput::Lines(_) => panic!("structured mode must not lay out a table"),
    }
}

#[test]
fn tabular_mode_renders_lines() {
    let objects = vec![plain("a", Some("demo"))];
    match render(objects, OutputMode::Pretty, None, 0) {
        RenderOutput::Lines(lines) => assert_eq!(lines.len(), 2),
        RenderOutput::Raw(_) => panic!("tabular mode must lay out a table"),
    }
}

#[test]
fn output_mode_labels() {
    assert_eq!(OutputMode::Pretty.label(), "pretty");
    assert_eq!(OutputMode::Yaml.label(), "yaml");
}

#[test]
fn normalized_output_never_carries_managed_fields() {
    let mut a = plain("a", Some("demo"));
    a.managed_fields = vec![String::from("kubelet")];
    let mut b = plain("bb", Some("demo"));
    b.managed_fields = vec![String::from("controller")];
    match normalize_and_render(vec![a, b], OutputMode::Yaml, None, 0) {
        RenderOutput::Raw(v) => {
            assert_eq!(v.len(), 2);
            assert!(v.iter().all(|o| o.managed_fields.is_empty()));
        }
        RenderOutput::Lines(_) => panic!("structured mode must not lay out a table"),
    }
    let mut c = plain("a", Some("demo"));
    c.managed_fields = vec![String::from("kubelet")];
    match normalize_and_render(vec![c], OutputMode::Pretty, None, 0) {
        RenderOutput::Lines(lines) => {
            assert_eq!(lines.len(), 2);
            assert!(!lines[1].contains("kubelet"));
        }
        RenderOutput::Raw(_) => panic!("tabular mode must lay out a table"),
    }
}
