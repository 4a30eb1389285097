use sidecar_supervisor::apps::{
    find_app, get_app_list, has_identifier, identifier, list_entry, AppMetadata, RunningApp,
    REGULAR_ACTIVATION_POLICY,
};

fn app(name: &str, bundle_id: Option<&str>, pid: i32) -> RunningApp {
    RunningApp {
        hidden: false,
        activation_policy: REGULAR_ACTIVATION_POLICY,
        name: Some(name.to_string()),
        bundle_id: bundle_id.map(|id| id.to_string()),
        pid,
        path: Some(format!("/Applications/{}.app", name)),
    }
}

#[test]
fn identifier_prefers_the_bundle_identifier() {
    assert_eq!(identifier(&Some("com.example.editor".to_string()), 12), "com.example.editor");
    assert_eq!(identifier(&Some(String::new()), 12), "");
}

#[test]
fn identifier_falls_back_to_the_process_number() {
    assert_eq!(identifier(&None, 12), "pid_12");
    assert_eq!(identifier(&None, 0), "pid_0");
    assert_eq!(identifier(&None, -1), "pid_-1");
    assert_eq!(identifier(&None, i32::MAX), "pid_2147483647");
}

#[test]
fn regular_visible_app_is_listed() {
    let entry = list_entry(&app("Editor", Some("com.example.editor"), 40));
    assert_eq!(
        entry,
        Some(AppMetadata {
            name: "Editor".to_string(),
            bundle_id: "com.example.editor".to_string(),
            path: "/Applications/Editor.app".to_string(),
        })
    );
}

#[test]
fn entry_fills_in_what_is_missing() {
    let mut bare = app("Tool", None, 77);
    bare.path = None;
    assert_eq!(
        list_entry(&bare),
        Some(AppMetadata {
            name: "Tool".to_string(),
            bundle_id: "pid_77".to_string(),
            path: String::new(),
        })
    );
}

#[test]
fn hidden_background_and_nameless_apps_are_left_out() {
    let mut hidden = app("Hidden", Some("a"), 1);
    hidden.hidden = true;
    assert_eq!(list_entry(&hidden), None);

    let mut accessory = app("Accessory", Some("b"), 2);
    accessory.activation_policy = 1;
    assert_eq!(list_entry(&accessory), None);

    let mut prohibited = app("Daemon", Some("c"), 3);
    prohibited.activation_policy = 2;
    assert_eq!(list_entry(&prohibited), None);

    let mut odd = app("Odd", Some("d"), 4);
    odd.activation_policy = -1;
    assert_eq!(list_entry(&odd), None);

    let mut nameless = app("x", Some("e"), 5);
    nameless.name = None;
    assert_eq!(list_entry(&nameless), None);

    let mut empty = app("x", Some("f"), 6);
    empty.name = Some(String::new());
    assert_eq!(list_entry(&empty), None);
}

#[test]
fn list_keeps_the_reported_order() {
    let mut hidden = app("Hidden", Some("com.example.hidden"), 2);
    hidden.hidden = true;
    let reported = vec![
        app("Zeta", Some("com.example.zeta"), 1),
        hidden,
        app("Alpha", None, 3),
        app("Alpha", Some("com.example.alpha"), 4),
    ];
    let list = get_app_list(&reported);
    let ids: Vec<&str> = list.iter().map(|entry| entry.bundle_id.as_str()).collect();
    assert_eq!(ids, vec!["com.example.zeta", "pid_3", "com.example.alpha"]);
    let names: Vec<&str> = list.iter().map(|entry| entry.name.as_str()).collect();
    assert_eq!(names, vec!["Zeta", "Alpha", "Alpha"]);
}

#[test]
fn list_of_nothing_is_empty() {
    assert_eq!(get_app_list(&Vec::new()), Vec::new());
    let mut hidden = app("Hidden", None, 2);
    hidden.hidden = true;
    assert_eq!(get_app_list(&vec![hidden]), Vec::new());
}

#[test]
fn find_app_takes_the_first_match() {
    let mut hidden = app("Hidden", Some("com.example.twice"), 2);
    hidden.hidden = true;
    let reported = vec![
        app("One", Some("com.example.one"), 1),
        hidden,
        app("Twice", Some("com.example.twice"), 3),
        app("NoBundle", None, 44),
    ];
    assert_eq!(find_app(&reported, "com.example.one"), Some(0));
    assert_eq!(find_app(&reported, "com.example.twice"), Some(1));
    assert_eq!(find_app(&reported, "pid_44"), Some(3));
    assert_eq!(find_app(&reported, "pid_3"), None);
    assert_eq!(find_app(&reported, "com.example"), None);
    assert_eq!(find_app(&Vec::new(), "com.example.one"), None);
}

#[test]
fn has_identifier_compares_whole_identifiers() {
    let editor = app("Editor", Some("com.example.editor"), 40);
    assert!(has_identifier(&editor, "com.example.editor"));
    assert!(!has_identifier(&editor, "com.example.edit"));
    assert!(!has_identifier(&editor, "pid_40"));
    let bare = app("Bare", None, 40);
    assert!(has_identifier(&bare, "pid_40"));
    assert!(!has_identifier(&bare, "pid_4"));
}
