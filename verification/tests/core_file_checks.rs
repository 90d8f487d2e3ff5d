use wow_launcher::digest::file_hash_hex;
use wow_launcher::file_integrity::{CheckFile, CheckStep, FileIntegrity};
use wow_launcher::integrity::{Channel, CheckEvent, CheckOp, Stage};
use wow_launcher::json::JsonValue;

fn s(t: &str) -> JsonValue {
    JsonValue::String(t.to_string())
}

fn obj(entries: Vec<(&str, JsonValue)>) -> JsonValue {
    JsonValue::Object(entries.into_iter().map(|(k, v)| (k.to_string(), v)).collect())
}

fn pair(hash: &str, url: &str) -> JsonValue {
    JsonValue::Array(vec![s(hash), s(url)])
}

fn texts(step: &CheckStep) -> Vec<String> {
    step.messages
        .iter()
        .map(|m| {
            assert_eq!(m.channel, Channel::Display);
            m.text.clone()
        })
        .collect()
}

fn started(doc: JsonValue) -> (CheckFile, CheckStep) {
    let window = FileIntegrity::default();
    let (mut check, step) = window.check_file("/game".to_string());
    assert_eq!(texts(&step), vec!["Begin check_file."]);
    assert!(matches!(step.op, CheckOp::ReadManifest));
    let step = check.step(CheckEvent::Manifest(Some(doc)));
    (check, step)
}

#[test]
fn missing_manifest_is_reported() {
    let (mut check, _) = CheckFile::begin("/game".to_string());
    let step = check.step(CheckEvent::Manifest(None));
    assert_eq!(texts(&step), vec!["Resource file is missing."]);
    assert!(matches!(step.op, CheckOp::Done));
}

#[test]
fn manifest_without_core_files_is_invalid() {
    let (check, step) = started(obj(vec![("resources", obj(vec![]))]));
    assert_eq!(texts(&step), vec!["JSON isn't valid"]);
    assert_eq!(check.stage, Stage::Finished);
}

#[test]
fn empty_core_files_ends_quietly() {
    let (check, step) = started(obj(vec![("core_files", obj(vec![]))]));
    assert!(texts(&step).is_empty());
    assert!(matches!(step.op, CheckOp::Done));
    assert_eq!(check.stage, Stage::Finished);
}

#[test]
fn correct_file_then_next_one() {
    let good = file_hash_hex(b"good data");
    let doc = obj(vec![(
        "core_files",
        obj(vec![("Data/a.mpq", pair(&good, "http://h/a")), ("Data/b.mpq", pair("00", "http://h/b"))]),
    )]);
    let (mut check, step) = started(doc);
    assert_eq!(texts(&step), vec!["Current file: 0 on 2"]);
    match &step.op {
        CheckOp::FileExists(p) => assert_eq!(p, "/game/Data/a.mpq"),
        _ => panic!("expected an existence check"),
    }
    let step = check.step(CheckEvent::Exists(true));
    match &step.op {
        CheckOp::ReadFile(p) => assert_eq!(p, "/game/Data/a.mpq"),
        _ => panic!("expected a read"),
    }
    let step = check.step(CheckEvent::Content(Some(b"good data".to_vec())));
    assert_eq!(texts(&step), vec!["File Data/a.mpq is correct.", "Current file: 1 on 2"]);
    match &step.op {
        CheckOp::FileExists(p) => assert_eq!(p, "/game/Data/b.mpq"),
        _ => panic!("expected an existence check"),
    }
}

#[test]
fn wrong_file_is_deleted_and_downloaded_again() {
    let doc = obj(vec![("core_files", obj(vec![("Wow.exe", pair("abc", "http://h/wow"))]))]);
    let (mut check, _) = started(doc);
    check.step(CheckEvent::Exists(true));
    let step = check.step(CheckEvent::Content(Some(b"tampered".to_vec())));
    assert!(texts(&step).is_empty());
    match &step.op {
        CheckOp::RemoveFile(p) => assert_eq!(p, "/game/Wow.exe"),
        _ => panic!("expected a removal"),
    }
    let step = check.step(CheckEvent::Removed { ok: true });
    match &step.op {
        CheckOp::Download { url, path } => {
            assert_eq!(url, "http://h/wow");
            assert_eq!(path, "/game/Wow.exe");
        }
        _ => panic!("expected a download"),
    }
    let step = check.step(CheckEvent::Downloaded { failed: false });
    let digest = file_hash_hex(b"tampered");
    assert_eq!(
        texts(&step),
        vec![format!("File Wow.exe isn't correct ({}), download from http://h/wow.", digest)]
    );
    assert!(matches!(step.op, CheckOp::Done));
}

#[test]
fn digest_decides_alone() {
    let doc = obj(vec![("core_files", obj(vec![("f", pair("cafe", "u"))]))]);
    let (mut check, _) = started(doc);
    check.step(CheckEvent::Exists(true));
    let step = check.on_digest("cafe".to_string());
    assert_eq!(texts(&step), vec!["File f is correct."]);
    assert!(matches!(step.op, CheckOp::Done));

    let doc = obj(vec![("core_files", obj(vec![("f", pair("cafe", "u"))]))]);
    let (mut check, _) = started(doc);
    check.step(CheckEvent::Exists(true));
    let step = check.on_digest("CAFE".to_string());
    assert!(matches!(step.op, CheckOp::RemoveFile(_)));
    assert_eq!(check.digest, "CAFE");
}

#[test]
fn missing_file_is_downloaded_then_checked() {
    let doc = obj(vec![("core_files", obj(vec![("f", pair("", "http://u"))]))]);
    let (mut check, _) = started(doc);
    let step = check.step(CheckEvent::Exists(false));
    assert!(matches!(step.op, CheckOp::Download { .. }));
    let step = check.step(CheckEvent::Downloaded { failed: false });
    assert_eq!(texts(&step), vec!["File f didn't exist, downloaded from http://u."]);
    assert!(matches!(step.op, CheckOp::ReadFile(_)));
    let step = check.step(CheckEvent::Content(None));
    assert_eq!(texts(&step), vec!["File f couldn't be opened."]);
    assert!(matches!(step.op, CheckOp::Done));
}

#[test]
fn failed_download_stops_the_check() {
    let doc = obj(vec![("core_files", obj(vec![("f", pair("", "http://u")), ("g", pair("", "v"))]))]);
    let (mut check, _) = started(doc);
    check.step(CheckEvent::Exists(false));
    let step = check.step(CheckEvent::Downloaded { failed: true });
    assert_eq!(texts(&step), vec!["Unable to download f from http://u."]);
    assert!(matches!(step.op, CheckOp::Done));
}

#[test]
fn failed_delete_stops_the_check() {
    let doc = obj(vec![("core_files", obj(vec![("f", pair("x", "u"))]))]);
    let (mut check, _) = started(doc);
    check.step(CheckEvent::Exists(true));
    check.step(CheckEvent::Content(Some(vec![1, 2, 3])));
    let step = check.step(CheckEvent::Removed { ok: false });
    assert_eq!(texts(&step), vec!["Unable to delete f."]);
}

#[test]
fn entries_that_are_not_arrays_are_passed_over() {
    let doc = obj(vec![(
        "core_files",
        obj(vec![("a", s("oops")), ("b", JsonValue::Null), ("c", pair("h", "u"))]),
    )]);
    let (check, step) = started(doc);
    assert_eq!(
        texts(&step),
        vec![
            "Current file: 0 on 3",
            "File a data in JSON are corrupted (not an array)",
            "Current file: 1 on 3",
            "File b data in JSON are corrupted (not an array)",
            "Current file: 2 on 3",
        ]
    );
    assert_eq!(check.index, 2);
    assert_eq!(check.stage, Stage::Exists);
}

#[test]
fn wrong_array_size_stops_the_check() {
    let doc = obj(vec![(
        "core_files",
        obj(vec![("a", JsonValue::Array(vec![s("h")])), ("b", pair("h", "u"))]),
    )]);
    let (check, step) = started(doc);
    assert_eq!(
        texts(&step),
        vec!["Current file: 0 on 2", "File a data in JSON are corrupted (wrong array size)"]
    );
    assert!(matches!(step.op, CheckOp::Done));
    assert_eq!(check.stage, Stage::Finished);
}

#[test]
fn non_string_hash_and_url_read_as_empty() {
    let doc = obj(vec![(
        "core_files",
        obj(vec![("f", JsonValue::Array(vec![JsonValue::Number("1".to_string()), JsonValue::Bool(true)]))]),
    )]);
    let (mut check, _) = started(doc);
    assert_eq!(check.target.hash, "");
    assert_eq!(check.target.url, "");
    let step = check.step(CheckEvent::Exists(false));
    match &step.op {
        CheckOp::Download { url, .. } => assert_eq!(url, ""),
        _ => panic!("expected a download"),
    }
}
