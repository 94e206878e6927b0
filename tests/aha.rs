use aha::{
    decode_response, Aha, CustomFieldGithub, CustomNotes, FeatureCreate, FeatureUpdate,
    FeatureUpdateCreate, Method, WorkflowStatusUpdate,
};

fn client() -> Aha {
    Aha::new("acme".to_string(), "tok".to_string(), "dev@example.com".to_string())
}

fn labels(ls: &[&str]) -> Vec<String> {
    ls.iter().map(|l| l.to_string()).collect()
}

fn json(text: &str) -> serde_json::Value {
    serde_json::from_str(text).unwrap()
}

#[test]
fn it_works() {
    assert_eq!(2 + 2, 4);
}

#[test]
fn new_sets_defaults_and_bearer_header() {
    let a = client();
    assert_eq!(a.domain, "acme");
    assert_eq!(a.user_email, "dev@example.com");
    assert_eq!(a.authorization, "Bearer tok");
    assert!(!a.verbose);
    assert!(!a.dry_run);
}

#[test]
fn type_from_name_requirement() {
    let a = client();
    assert_eq!(
        a.type_from_name("REQ-1-2"),
        Some(("requirement".to_string(), "REQ-1-2".to_string()))
    );
}

#[test]
fn type_from_name_feature() {
    let a = client();
    assert_eq!(
        a.type_from_name("FEAT-42"),
        Some(("feature".to_string(), "FEAT-42".to_string()))
    );
}

#[test]
fn type_from_name_lowercase_is_none() {
    let a = client();
    assert_eq!(a.type_from_name("lowercase-1"), None);
}

#[test]
fn type_from_name_trims_and_ignores_trailing_text() {
    let a = client();
    assert_eq!(
        a.type_from_name("  APP-12 fix the login page  "),
        Some(("feature".to_string(), "APP-12".to_string()))
    );
    assert_eq!(
        a.type_from_name("\tAPP-12-3: subtask"),
        Some(("requirement".to_string(), "APP-12-3".to_string()))
    );
}

#[test]
fn type_from_name_needs_key_at_start() {
    let a = client();
    assert_eq!(a.type_from_name("see APP-12"), None);
    assert_eq!(a.type_from_name(""), None);
    assert_eq!(a.type_from_name("APP-"), None);
}

#[test]
fn status_single_match_is_none() {
    let a = client();
    assert_eq!(a.status_for_labels(labels(&["Ready"]), None), None);
}

#[test]
fn status_second_match_in_input_order() {
    let a = client();
    assert_eq!(
        a.status_for_labels(labels(&["Ready", "Needs PM review"]), None),
        Some("In PM review".to_string())
    );
    assert_eq!(
        a.status_for_labels(labels(&["Needs PM review", "Ready"]), None),
        Some("Ready to ship".to_string())
    );
}

#[test]
fn status_from_config_labels() {
    let a = client();
    let config = vec![("Custom".to_string(), "X".to_string())];
    assert_eq!(
        a.status_for_labels(labels(&["Ready", "Custom"]), Some(config)),
        Some("X".to_string())
    );
}

#[test]
fn status_config_overrides_default() {
    let a = client();
    let config = vec![("Ready".to_string(), "Done".to_string())];
    assert_eq!(
        a.status_for_labels(labels(&["In development", "Ready"]), Some(config)),
        Some("Done".to_string())
    );
}

#[test]
fn status_skips_unknown_labels() {
    let a = client();
    assert_eq!(
        a.status_for_labels(
            labels(&["bug", "Needs code review", "wontfix", "In development", "Ready"]),
            None
        ),
        Some("In development".to_string())
    );
}

#[test]
fn status_fewer_than_two_resolutions_is_none() {
    let a = client();
    assert_eq!(a.status_for_labels(Vec::new(), None), None);
    assert_eq!(a.status_for_labels(labels(&["bug", "Custom"]), None), None);
    assert_eq!(
        a.status_for_labels(labels(&["bug", "Needs code review", "other"]), Some(Vec::new())),
        None
    );
}

#[test]
fn update_unassigned_ready_to_develop() {
    let a = client();
    let current = json(r#"{"assigned_to_user": null, "workflow_status": {"name": "Ready to develop"}}"#);
    let u = a.generate_update_function(&current, None);
    assert_eq!(u.assigned_to_user, Some("dev@example.com".to_string()));
    assert_eq!(u.workflow_status.unwrap().name, "In code review");
    assert!(u.custom_fields.is_none());
}

#[test]
fn update_assigned_with_explicit_status() {
    let a = client();
    let current = json(r#"{"assigned_to_user": {"id": "1"}, "workflow_status": {"name": "Ready to develop"}}"#);
    let u = a.generate_update_function(&current, Some("Shipped".to_string()));
    assert_eq!(u.assigned_to_user, None);
    assert_eq!(u.workflow_status.unwrap().name, "Shipped");
    assert!(u.custom_fields.is_none());
}

#[test]
fn update_under_consideration_and_missing_fields() {
    let a = client();
    let current = json(r#"{"workflow_status": {"name": "Under consideration"}}"#);
    let u = a.generate_update_function(&current, None);
    assert_eq!(u.assigned_to_user, Some("dev@example.com".to_string()));
    assert_eq!(u.workflow_status.unwrap().name, "In code review");
}

#[test]
fn update_other_status_left_alone() {
    let a = client();
    let current = json(r#"{"assigned_to_user": "x", "workflow_status": {"name": "Shipped"}}"#);
    let u = a.generate_update_function(&current, None);
    assert_eq!(u.assigned_to_user, None);
    assert!(u.workflow_status.is_none());
}

#[test]
fn update_for_state_direct() {
    let a = client();
    let u = a.update_for_state(true, Some("Ready to develop".to_string()), None);
    assert_eq!(u.assigned_to_user, Some("dev@example.com".to_string()));
    assert_eq!(u.workflow_status.unwrap().name, "In code review");
    let u = a.update_for_state(false, None, None);
    assert_eq!(u, FeatureUpdate { assigned_to_user: None, custom_fields: None, workflow_status: None });
}

#[test]
fn dry_run_suppresses_writes_only() {
    let mut a = client();
    assert!(a.sends_request(Method::Get));
    assert!(a.sends_request(Method::Post));
    assert!(a.sends_request(Method::Put));
    a.dry_run = true;
    assert!(a.sends_request(Method::Get));
    assert!(!a.sends_request(Method::Post));
    assert!(!a.sends_request(Method::Put));
}

#[test]
fn decode_response_results() {
    let v = decode_response(Some(r#"{"feature": {"id": "7"}}"#.to_string())).unwrap();
    assert_eq!(v["feature"]["id"], "7");
    assert!(decode_response(Some("not json".to_string())).is_err());
    assert!(decode_response(Some(String::new())).is_err());
    assert!(decode_response(None).is_err());
}

#[test]
fn base_url_for_domain() {
    let a = client();
    assert_eq!(a.base_url_text(), "https://acme.aha.io/api/v1/");
    assert_eq!(a.base_url().as_str(), "https://acme.aha.io/api/v1/");
    assert_eq!(a.url_builder().as_str(), "https://acme.aha.io/api/v1/");
    assert_eq!(a.try_base_url().unwrap().as_str(), "https://acme.aha.io/api/v1/");
}

#[test]
fn base_url_rejects_bad_domain() {
    let a = Aha::new("bad domain".to_string(), "t".to_string(), "e".to_string());
    assert!(a.try_base_url().is_none());
}

#[test]
fn empty_update_serialises_without_keys() {
    let u = FeatureUpdate { assigned_to_user: None, custom_fields: None, workflow_status: None };
    let m = u.to_json_object();
    assert!(m.is_empty());
    assert_eq!(serde_json::Value::Object(m).to_string(), "{}");
}

#[test]
fn full_update_serialises_all_keys() {
    let u = FeatureUpdate {
        assigned_to_user: Some("dev@example.com".to_string()),
        custom_fields: Some(CustomFieldGithub { github_url: "https://git/pr/1".to_string() }),
        workflow_status: Some(WorkflowStatusUpdate { name: "Shipped".to_string() }),
    };
    let v = serde_json::Value::Object(u.to_json_object());
    assert_eq!(
        v,
        json(r#"{"assigned_to_user": "dev@example.com", "custom_fields": {"pull_request": "https://git/pr/1"}, "workflow_status": {"name": "Shipped"}}"#)
    );
}

#[test]
fn partial_update_create_omits_unset() {
    let u = FeatureUpdateCreate {
        description: Some("text".to_string()),
        assigned_to_user: None,
        custom_fields: None,
        workflow_status: Some(WorkflowStatusUpdate { name: "Ready".to_string() }),
    };
    let v = serde_json::Value::Object(u.to_json_object());
    assert_eq!(v, json(r#"{"description": "text", "workflow_status": {"name": "Ready"}}"#));
}

#[test]
fn feature_create_serialises() {
    let c = FeatureCreate {
        name: "New".to_string(),
        release_id: "R-1".to_string(),
        custom_fields: None,
    };
    assert_eq!(
        serde_json::Value::Object(c.to_json_object()),
        json(r#"{"name": "New", "release_id": "R-1"}"#)
    );
    let c = FeatureCreate {
        name: "New".to_string(),
        release_id: "R-1".to_string(),
        custom_fields: Some(CustomNotes { notes: "notes".to_string() }),
    };
    assert_eq!(
        serde_json::Value::Object(c.to_json_object()),
        json(r#"{"name": "New", "release_id": "R-1", "custom_fields": {"release_notes1": "notes"}}"#)
    );
}

#[test]
fn type_from_name_trims_unicode_white_space() {
    let a = client();
    assert_eq!(
        a.type_from_name("\u{3000}\u{a0}OPS-3-4\u{2028}"),
        Some(("requirement".to_string(), "OPS-3-4".to_string()))
    );
}

#[test]
fn to_json_object_carries_values() {
    let w = WorkflowStatusUpdate { name: "In code review".to_string() };
    assert_eq!(
        serde_json::Value::Object(w.to_json_object()),
        json(r#"{"name": "In code review"}"#)
    );
    let n = CustomNotes { notes: "n".to_string() };
    assert_eq!(serde_json::Value::Object(n.to_json_object()), json(r#"{"release_notes1": "n"}"#));
    let g = CustomFieldGithub { github_url: "u".to_string() };
    assert_eq!(serde_json::Value::Object(g.to_json_object()), json(r#"{"pull_request": "u"}"#));
}
