use openconnect_core::form::{
    match_choice_label, AuthForm, FormField, FormManager, FormOptKind, FormOption, FormResult,
};

fn form(fields: Vec<(FormOptKind, &str)>) -> AuthForm {
    AuthForm {
        auth_id: "main".to_string(),
        opts: fields
            .into_iter()
            .map(|(kind, name)| FormOption { kind, name: name.to_string() })
            .collect(),
    }
}

#[test]
fn three_empty_rounds_abort_on_the_third() {
    let mut manager = FormManager::new();
    let empty = form(vec![(FormOptKind::Text, "serial")]);
    let none: Option<String> = None;

    let (_, first) = manager.process_form(&none, &none, &empty);
    assert!(matches!(first, FormResult::Submit));
    let (_, second) = manager.process_form(&none, &none, &empty);
    assert!(matches!(second, FormResult::Submit));
    let (_, third) = manager.process_form(&none, &none, &empty);
    assert!(matches!(third, FormResult::Cancelled));
}

#[test]
fn an_answered_field_resets_the_count() {
    let mut manager = FormManager::new();
    let empty = form(vec![(FormOptKind::Text, "serial")]);
    let answerable = form(vec![(FormOptKind::Text, "username")]);
    let username = Some("alice".to_string());
    let none: Option<String> = None;

    manager.process_form(&none, &none, &empty);
    manager.process_form(&none, &none, &empty);
    // An answered round in between defers the abort.
    let (answers, r) = manager.process_form(&username, &none, &answerable);
    assert!(matches!(r, FormResult::Submit));
    assert_eq!(answers.len(), 1);
    let (_, r) = manager.process_form(&none, &none, &empty);
    assert!(matches!(r, FormResult::Submit));
    let (_, r) = manager.process_form(&none, &none, &empty);
    assert!(matches!(r, FormResult::Submit));
    let (_, r) = manager.process_form(&none, &none, &empty);
    assert!(matches!(r, FormResult::Cancelled));
}

#[test]
fn fields_are_answered_from_credentials_and_saved_answers() {
    let mut manager = FormManager::new();
    manager.saved_form_fields.push(FormField {
        form_id: "main".to_string(),
        opt_id: "group".to_string(),
        value: Some("Engineering".to_string()),
    });
    let form = form(vec![
        (FormOptKind::Text, "username"),
        (FormOptKind::Password, "password"),
        (FormOptKind::Hidden, "group"),
        (FormOptKind::Hidden, "unseen"),
        (FormOptKind::Token, "totp"),
        (FormOptKind::Ignore, "banner"),
        (FormOptKind::Text, "domain"),
    ]);
    let username = Some("alice".to_string());
    let password = Some("hunter2".to_string());
    let (answers, r) = manager.process_form(&username, &password, &form);
    assert!(matches!(r, FormResult::Submit));
    let pairs: Vec<(String, String)> = answers
        .into_iter()
        .map(|a| (a.opt_id, a.value))
        .collect();
    assert_eq!(
        pairs,
        vec![
            ("username".to_string(), "alice".to_string()),
            ("password".to_string(), "hunter2".to_string()),
            ("group".to_string(), "Engineering".to_string()),
        ]
    );
    // The round had answers, so the empty-round count is reset.
    assert_eq!(manager.empty_form_rounds, 0);
}

#[test]
fn reset_clears_state() {
    let mut manager = FormManager::new();
    let empty = form(vec![(FormOptKind::Text, "serial")]);
    let none: Option<String> = None;
    manager.process_form(&none, &none, &empty);
    manager.saved_form_fields.push(FormField {
        form_id: "main".to_string(),
        opt_id: "group".to_string(),
        value: None,
    });
    manager.reset();
    assert_eq!(manager.empty_form_rounds, 0);
    assert!(manager.saved_form_fields.is_empty());
}

#[test]
fn saved_form_field_takes_the_first_match() {
    let mut manager = FormManager::new();
    manager.saved_form_fields.push(FormField {
        form_id: "main".to_string(),
        opt_id: "group".to_string(),
        value: Some("First".to_string()),
    });
    manager.saved_form_fields.push(FormField {
        form_id: "main".to_string(),
        opt_id: "group".to_string(),
        value: Some("Second".to_string()),
    });
    assert_eq!(
        manager.saved_form_field("main", "group").as_deref(),
        Some("First")
    );
    assert!(manager.saved_form_field("other", "group").is_none());
    assert!(manager.saved_form_field("main", "missing").is_none());
}

#[test]
fn choice_labels_match_exactly_or_by_unique_prefix() {
    let choices = vec![
        "Engineering".to_string(),
        "Sales".to_string(),
        "Engineering-Test".to_string(),
    ];
    // Exact match, ignoring case.
    assert_eq!(match_choice_label(&choices, "engineering"), Some(0));
    // Unique prefix.
    assert_eq!(match_choice_label(&choices, "sal"), Some(1));
    // Ambiguous prefix: both engineering entries start with this.
    assert_eq!(match_choice_label(&choices, "engi"), None);
    // No match at all.
    assert_eq!(match_choice_label(&choices, "marketing"), None);
    // An empty label selects nothing.
    assert_eq!(match_choice_label(&choices, ""), None);
}

#[test]
fn select_options_resolve_through_saved_answers() {
    let mut manager = FormManager::new();
    let choices = vec!["Engineering".to_string(), "Sales".to_string()];
    // No saved answer: nothing is selected.
    assert_eq!(manager.resolve_select_choice("main", "group", &choices), None);
    manager.saved_form_fields.push(FormField {
        form_id: "main".to_string(),
        opt_id: "group".to_string(),
        value: Some("engineering".to_string()),
    });
    assert_eq!(
        manager.resolve_select_choice("main", "group", &choices),
        Some(0)
    );
}

#[test]
fn exact_match_beats_prefix_ambiguity() {
    let choices = vec!["Engineering".to_string(), "Engineering-Test".to_string()];
    assert_eq!(match_choice_label(&choices, "ENGINEERING"), Some(0));
}
