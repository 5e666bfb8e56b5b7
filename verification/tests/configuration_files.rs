use std::path::PathBuf;

use manycore_visualiser::configuration_file::{
    check_document, configuration_export, configuration_loaded, configuration_stored,
    diagram_present, export_configuration, load_configuration, missing_field,
    store_configuration, validate_configuration,
};
use manycore_visualiser::export::{export_render, RenderMode};
use manycore_visualiser::diagram::{Diagram, Viewport};
use manycore_visualiser::error::ErrorKind;
use manycore_visualiser::notify::{Notification, Payload};
use manycore_visualiser::state::State;

fn text_of(notification: &Notification) -> String {
    match &notification.payload {
        Payload::Text(text) => text.clone(),
        Payload::Signal => panic!("expected a text"),
    }
}

fn accept(_content: &String) -> Result<(), String> {
    Ok(())
}

const WHOLE: &str = "{\n  \"baseConfiguration\": {\"attributeFontSize\": 12},\n  \"configuration\": {\"coreConfig\": {}}\n}";

#[test]
fn whole_configuration_is_accepted() {
    assert!(validate_configuration(WHOLE).is_ok());
    assert!(validate_configuration("{\"configuration\":1,\"baseConfiguration\":null,\"extra\":[]}").is_ok());
}

#[test]
fn missing_fields_are_named() {
    let error = validate_configuration("{\"configuration\": {}}").unwrap_err();
    assert_eq!(error.kind, ErrorKind::ValidationError);
    assert_eq!(error.message, "missing field `baseConfiguration`");
    let error = validate_configuration("{\"baseConfiguration\": {}}").unwrap_err();
    assert_eq!(error.message, "missing field `configuration`");
    let error = validate_configuration("{}").unwrap_err();
    assert_eq!(error.message, "missing field `baseConfiguration`");
}

#[test]
fn field_names_are_case_sensitive() {
    let error = validate_configuration("{\"base_configuration\": {}, \"configuration\": {}}").unwrap_err();
    assert_eq!(error.message, "missing field `baseConfiguration`");
    assert!(validate_configuration("{\"baseConfiguration\": {}, \"Configuration\": {}}").is_err());
}

#[test]
fn documents_that_are_no_object_have_no_fields() {
    for text in ["[1, 2]", "\"baseConfiguration\"", "12", "null", "true"] {
        let error = validate_configuration(text).unwrap_err();
        assert_eq!(error.kind, ErrorKind::ValidationError);
        assert_eq!(error.message, "missing field `baseConfiguration`");
    }
}

#[test]
fn texts_that_are_no_json_are_rejected_with_the_parsers_words() {
    for text in ["", "{", "{\"baseConfiguration\": }", "not json", "{} trailing"] {
        let error = validate_configuration(text).unwrap_err();
        assert_eq!(error.kind, ErrorKind::ValidationError);
        assert!(!error.message.is_empty());
        assert!(!error.message.starts_with("missing field"));
    }
}

#[test]
fn parsed_documents_are_checked_by_their_members() {
    let whole: serde_json::Value = serde_json::from_str(WHOLE).unwrap();
    assert!(check_document(&whole).is_ok());
    let partial: serde_json::Value = serde_json::from_str("{\"baseConfiguration\": 1}").unwrap();
    assert_eq!(check_document(&partial).unwrap_err().message, "missing field `configuration`");
    let array: serde_json::Value = serde_json::from_str("[\"baseConfiguration\", \"configuration\"]").unwrap();
    assert!(check_document(&array).is_err());
}

#[test]
fn first_missing_field() {
    assert_eq!(missing_field(false, false), Some("baseConfiguration"));
    assert_eq!(missing_field(false, true), Some("baseConfiguration"));
    assert_eq!(missing_field(true, false), Some("configuration"));
    assert_eq!(missing_field(true, true), None);
}

#[test]
fn store_keeps_the_configuration_and_sets_the_extension() {
    assert!(store_configuration(String::from(WHOLE), None).is_none());
    let request = store_configuration(String::from(WHOLE), Some(PathBuf::from("dir/mine.txt"))).unwrap();
    assert_eq!(request.path, PathBuf::from("dir/mine.json"));
    assert_eq!(request.contents, WHOLE);
    let request = store_configuration(String::from("anything"), Some(PathBuf::from("mine"))).unwrap();
    assert_eq!(request.path, PathBuf::from("mine.json"));
    assert_eq!(request.contents, "anything");
}

#[test]
fn store_then_load_returns_identical_bytes() {
    let request = store_configuration(String::from(WHOLE), Some(PathBuf::from("mine.json"))).unwrap();
    let notification = configuration_loaded(Ok(request.contents), accept);
    assert_eq!(notification.event, "load_config");
    assert_eq!(text_of(&notification).as_bytes(), WHOLE.as_bytes());
}

#[test]
fn load_reports_unreadable_and_rejected_files() {
    let unreadable = configuration_loaded(Err(String::from("No such file")), accept);
    assert_eq!(unreadable.event, "error_message");
    assert_eq!(text_of(&unreadable), "Could not open configuration file: No such file");
    let rejected = configuration_loaded(Ok(String::from("{\"configuration\": {}}")), accept);
    assert_eq!(rejected.event, "error_message");
    assert_eq!(
        text_of(&rejected),
        "Could not process provided configuration: missing field `baseConfiguration`"
    );
    let garbage = configuration_loaded(Ok(String::from("{")), accept);
    assert_eq!(garbage.event, "error_message");
    assert!(text_of(&garbage).starts_with("Could not process provided configuration: "));
    assert!(text_of(&garbage).len() > "Could not process provided configuration: ".len());
}

#[test]
fn stored_reports() {
    let done = configuration_stored(Ok(()));
    assert_eq!(done.event, "ok_message");
    assert_eq!(text_of(&done), "Successfully exported configuration.");
    let failed = configuration_stored(Err(String::from("denied")));
    assert_eq!(failed.event, "error_message");
    assert_eq!(text_of(&failed), "Could not store configuration: denied");
}

#[test]
fn menu_operations_need_a_diagram() {
    let none: Option<Diagram<u8>> = None;
    let absent = diagram_present(&none).unwrap();
    assert_eq!(absent.event, "error_message");
    assert_eq!(text_of(&absent), "You must load a system first.");
    assert!(diagram_present(&Some(Diagram::new(1u8, Viewport::new(0, 0, 1, 1)))).is_none());
}

#[test]
fn export_and_load_configuration_through_the_store() {
    let state: State<String, u8, u8> = State::new(0);
    let refused = export_configuration(&state);
    assert_eq!(refused.event, "error_message");
    assert_eq!(text_of(&refused), "You must load a system first.");
    assert_eq!(text_of(&load_configuration(&state).unwrap()), "You must load a system first.");

    state.replace_diagram(Some(Diagram::new(1u8, Viewport::new(0, 0, 1, 1)))).unwrap();
    let go = export_configuration(&state);
    assert_eq!(go.event, "export_config");
    assert!(matches!(go.payload, Payload::Signal));
    assert!(load_configuration(&state).is_none());
}

#[test]
fn busy_diagram_degrades_to_an_immediate_error() {
    let state: State<String, u8, u8> = State::new(0);
    state.replace_diagram(Some(Diagram::new(1u8, Viewport::new(0, 0, 1, 1)))).unwrap();
    let during = std::cell::RefCell::new(Vec::new());
    let job = export_render(&state, None, RenderMode::SVG, 0, |_diagram: &Diagram<u8>| {
        let busy = export_configuration(&state);
        during.borrow_mut().push((busy.event, text_of(&busy)));
        let busy = load_configuration(&state).unwrap();
        during.borrow_mut().push((busy.event, text_of(&busy)));
        Ok(String::new())
    });
    assert!(job.is_ok());
    let general = String::from("Something went wrong, please try again.");
    assert_eq!(*during.borrow(), vec![("error_message", general.clone()), ("error_message", general)]);
    assert!(load_configuration(&state).is_none());
    assert_eq!(export_configuration(&state).event, "export_config");
}

#[test]
fn export_of_the_configuration_is_decided_by_the_diagram_slot() {
    let stored = Some(Diagram::new(1u8, Viewport::new(0, 0, 1, 1)));
    let go = configuration_export(&stored);
    assert_eq!(go.event, "export_config");
    assert!(matches!(go.payload, Payload::Signal));
    let none: Option<Diagram<u8>> = None;
    let refused = configuration_export(&none);
    assert_eq!(refused.event, "error_message");
    assert_eq!(text_of(&refused), "You must load a system first.");
}

#[test]
fn load_consults_the_schema_check_after_the_shape_check() {
    let strict = |content: &String| -> Result<(), String> {
        if content.contains("coreConfig") {
            Ok(())
        } else {
            Err(String::from("missing field `coreConfig`"))
        }
    };
    let accepted = configuration_loaded(Ok(String::from(WHOLE)), strict);
    assert_eq!(accepted.event, "load_config");
    assert_eq!(text_of(&accepted), WHOLE);
    let rejected = configuration_loaded(
        Ok(String::from("{\"baseConfiguration\": {}, \"configuration\": {}}")),
        strict,
    );
    assert_eq!(rejected.event, "error_message");
    assert_eq!(text_of(&rejected), "Could not process provided configuration: missing field `coreConfig`");
    let shapeless = configuration_loaded(Ok(String::from("{\"coreConfig\": {}}")), strict);
    assert_eq!(
        text_of(&shapeless),
        "Could not process provided configuration: missing field `baseConfiguration`"
    );
}
