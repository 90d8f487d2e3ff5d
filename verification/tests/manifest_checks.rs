use wow_launcher::integrity::Channel;
use wow_launcher::json::JsonValue;
use wow_launcher::resources::{
    json_check_array, json_is_sanitized, ResourceCheck, ResourceEvent, ResourceOp, ResourceStage,
};

fn s(t: &str) -> JsonValue {
    JsonValue::String(t.to_string())
}

fn arr(n: usize) -> JsonValue {
    JsonValue::Array((0..n).map(|i| s(&format!("v{}", i))).collect())
}

fn obj(entries: Vec<(&str, JsonValue)>) -> JsonValue {
    JsonValue::Object(entries.into_iter().map(|(k, v)| (k.to_string(), v)).collect())
}

#[test]
fn check_array_passes_missing_and_well_shaped_sections() {
    let doc = obj(vec![("core_files", obj(vec![("a", arr(2)), ("b", arr(2))]))]);
    assert_eq!(json_check_array(&doc, "core_files", 2), None);
    assert_eq!(json_check_array(&doc, "mod_files", 3), None);
    let not_object = obj(vec![("core_files", arr(5))]);
    assert_eq!(json_check_array(&not_object, "core_files", 2), None);
    assert_eq!(json_check_array(&JsonValue::Null, "core_files", 2), None);
}

#[test]
fn check_array_reports_the_first_bad_entry() {
    let doc = obj(vec![("mod_files", obj(vec![("ok", arr(3)), ("bad", arr(2)), ("worse", s("x"))]))]);
    assert_eq!(
        json_check_array(&doc, "mod_files", 3).unwrap(),
        "Error in JSON file, in `mod_files` index, element `bad` is not an array of size of 3"
    );
    let doc = obj(vec![("add_ons", obj(vec![("x", s("y")), ("bad", arr(1))]))]);
    assert_eq!(
        json_check_array(&doc, "add_ons", 2).unwrap(),
        "Error in JSON file, in `add_ons` index, element `x` is not an array"
    );
}

#[test]
fn sanitize_checks_sections_in_order() {
    let good = obj(vec![
        ("core_files", obj(vec![("a", arr(2))])),
        ("mod_files", obj(vec![("m", arr(3))])),
        ("add_ons", obj(vec![("o", arr(2))])),
    ]);
    assert_eq!(json_is_sanitized(&good), None);
    let bad = obj(vec![
        ("add_ons", obj(vec![("o", arr(3))])),
        ("mod_files", obj(vec![("m", arr(2))])),
    ]);
    assert_eq!(
        json_is_sanitized(&bad).unwrap(),
        "Error in JSON file, in `mod_files` index, element `m` is not an array of size of 3"
    );
    let only_add_ons = obj(vec![("add_ons", obj(vec![("o", s("u"))]))]);
    assert_eq!(
        json_is_sanitized(&only_add_ons).unwrap(),
        "Error in JSON file, in `add_ons` index, element `o` is not an array"
    );
}

#[test]
fn resource_check_passes_a_null_manifest() {
    let (check, step) = ResourceCheck::start(JsonValue::Null);
    assert!(step.messages.is_empty());
    assert!(matches!(step.op, ResourceOp::Finish { failed: false }));
    assert_eq!(check.stage, ResourceStage::Finished);
}

#[test]
fn resource_check_fails_a_badly_shaped_manifest() {
    let doc = obj(vec![("core_files", obj(vec![("a", arr(3))]))]);
    let (_check, step) = ResourceCheck::start(doc);
    assert!(matches!(step.op, ResourceOp::Finish { failed: true }));
    assert_eq!(step.messages.len(), 1);
    assert_eq!(step.messages[0].channel, Channel::Stderr);
    assert_eq!(
        step.messages[0].text,
        "Error in JSON file, in `core_files` index, element `a` is not an array of size of 2"
    );
}

#[test]
fn resource_check_downloads_missing_resources_in_order() {
    let doc = obj(vec![(
        "resources",
        obj(vec![("font.ttf", s("http://x/font")), ("logo.png", s("http://x/logo"))]),
    )]);
    let (mut check, step) = ResourceCheck::start(doc);
    match &step.op {
        ResourceOp::FileExists(p) => assert_eq!(p, "resources/font.ttf"),
        _ => panic!("expected an existence check"),
    }
    let step = check.on_event(ResourceEvent::Exists(true));
    match &step.op {
        ResourceOp::FileExists(p) => assert_eq!(p, "resources/logo.png"),
        _ => panic!("expected an existence check"),
    }
    let step = check.on_event(ResourceEvent::Exists(false));
    match &step.op {
        ResourceOp::Download { path, index } => {
            assert_eq!(path, "resources/logo.png");
            assert_eq!(*index, 1);
        }
        _ => panic!("expected a download"),
    }
    let step = check.on_event(ResourceEvent::Downloaded(Ok(())));
    assert!(matches!(step.op, ResourceOp::Finish { failed: false }));
    assert!(step.messages.is_empty());
}

#[test]
fn resource_check_stops_at_a_failed_download() {
    let doc = obj(vec![("resources", obj(vec![("a", s("u")), ("b", s("v"))]))]);
    let (mut check, _) = ResourceCheck::start(doc);
    check.on_event(ResourceEvent::Exists(false));
    let step = check.on_event(ResourceEvent::Downloaded(Err("Failed to create file".to_string())));
    assert!(matches!(step.op, ResourceOp::Finish { failed: true }));
    assert_eq!(step.messages.len(), 1);
    assert_eq!(step.messages[0].channel, Channel::Stderr);
    assert_eq!(step.messages[0].text, "Download failed: Failed to create file");
    assert_eq!(check.stage, ResourceStage::Finished);
}

#[test]
fn resource_check_without_resources_passes() {
    let doc = obj(vec![("core_files", obj(vec![]))]);
    let (_check, step) = ResourceCheck::start(doc);
    assert!(matches!(step.op, ResourceOp::Finish { failed: false }));
}

fn run_check(doc: JsonValue, exists: &[bool], oks: &[bool]) -> (bool, usize) {
    let (mut check, mut step) = ResourceCheck::start(doc);
    let mut downloads = 0;
    loop {
        let event = match &step.op {
            ResourceOp::FileExists(_) => ResourceEvent::Exists(exists[check.index]),
            ResourceOp::Download { index, .. } => {
                downloads += 1;
                if oks[*index] {
                    ResourceEvent::Downloaded(Ok(()))
                } else {
                    ResourceEvent::Downloaded(Err("reqwest get failed, check url".to_string()))
                }
            }
            ResourceOp::Finish { failed } => {
                assert_eq!(*failed, check.failed);
                return (*failed, downloads);
            }
        };
        step = check.on_event(event);
    }
}

#[test]
fn whole_resource_check_outcomes() {
    let doc = || obj(vec![("resources", obj(vec![("a", s("u")), ("b", s("v")), ("c", s("w"))]))]);
    assert_eq!(run_check(doc(), &[true, true, true], &[false, false, false]), (false, 0));
    assert_eq!(run_check(doc(), &[true, false, true], &[false, true, false]), (false, 1));
    assert_eq!(run_check(doc(), &[false, false, false], &[true, false, true]), (true, 2));
    assert_eq!(run_check(JsonValue::Null, &[], &[]), (false, 0));
    let bad = obj(vec![("add_ons", obj(vec![("o", arr(1))])), ("resources", obj(vec![("a", s("u"))]))]);
    assert_eq!(run_check(bad, &[false], &[true]), (true, 0));
}

#[test]
fn the_download_fetches_the_recorded_value() {
    let doc = obj(vec![("resources", obj(vec![("a", s("u")), ("b", JsonValue::Number("7".to_string()))]))]);
    let (mut check, _) = ResourceCheck::start(doc);
    check.on_event(ResourceEvent::Exists(true));
    let step = check.on_event(ResourceEvent::Exists(false));
    match step.op {
        ResourceOp::Download { index, .. } => match check.url_value(index) {
            JsonValue::Number(t) => assert_eq!(t, "7"),
            _ => panic!("expected the second entry's value"),
        },
        _ => panic!("expected a download"),
    }
    match check.url_value(0) {
        JsonValue::String(t) => assert_eq!(t, "u"),
        _ => panic!("expected the first entry's value"),
    }
}
