use wow_launcher::cxxqt_object::{self, FirstFileCheck};
use wow_launcher::digest::file_hash_hex;
use wow_launcher::file_integrity::{FileIntegrity, FileIntegrityRust, LaunchPlan, Rgba};
use wow_launcher::integrity::{Channel, CheckEvent, CheckOp, Stage};
use wow_launcher::json::JsonValue;

fn s(t: &str) -> JsonValue {
    JsonValue::String(t.to_string())
}

fn obj(entries: Vec<(&str, JsonValue)>) -> JsonValue {
    JsonValue::Object(entries.into_iter().map(|(k, v)| (k.to_string(), v)).collect())
}

fn pair(hash: &str, url: &str) -> JsonValue {
    JsonValue::Array(vec![s(hash), s(url)])
}

#[test]
fn window_texts() {
    let w = FileIntegrityRust::default();
    assert_eq!(w.title, "WoW Private Server Launcher");
    assert_eq!(w.play, "Play");
    assert_eq!(w.verify, "Verify game");
    assert_eq!(w.language, "Language settings");
    assert_eq!(w.result, "");
    assert_eq!(w.button_color, Rgba { red: 155, green: 0, blue: 0, alpha: 255 });
    assert_eq!(FileIntegrity::load_gui_button_color(), Rgba { red: 155, green: 0, blue: 0, alpha: 255 });
    let mut o = FileIntegrity::default();
    o.set_result("File x is correct.".to_string());
    assert_eq!(o.rust.result, "File x is correct.");
    assert_eq!(o.rust.title, "WoW Private Server Launcher");
}

#[test]
fn game_start_by_system() {
    let w = FileIntegrity::default();
    for os in ["linux", "macos"] {
        let g = w.start_game(os);
        assert_eq!(g.reply, "Game launching");
        match g.plan {
            LaunchPlan::Run { cmd, args } => {
                assert_eq!(cmd, "wine");
                assert_eq!(args, "Wow.exe");
            }
            _ => panic!("expected a run"),
        }
    }
    match w.start_game("windows").plan {
        LaunchPlan::Run { cmd, args } => {
            assert_eq!(cmd, "Wow.exe");
            assert_eq!(args, "");
        }
        _ => panic!("expected a run"),
    }
    match w.start_game("freebsd").plan {
        LaunchPlan::Unsupported(t) => assert_eq!(t, "Unsupported OS: freebsd."),
        _ => panic!("expected no run"),
    }
}

#[test]
fn launch_outcomes() {
    assert_eq!(FileIntegrity::launch_outcome(Ok(())), "Game started");
    assert_eq!(
        FileIntegrity::launch_outcome(Err("GameFailure".to_string())),
        "Unable to launch game: GameFailure"
    );
    assert!(FileIntegrity::run_game_report(&String::new()).is_none());
    let m = FileIntegrity::run_game_report(&"err: no display".to_string()).unwrap();
    assert_eq!(m.channel, Channel::Display);
    assert_eq!(m.text, "Error from wine: err: no display");
}

#[test]
fn first_form_defaults() {
    let w = cxxqt_object::FileIntegrity::default();
    assert_eq!(w.file, "");
    assert_eq!(w.result, "");
}

fn first_started(doc: JsonValue) -> (FirstFileCheck, Option<String>) {
    let w = cxxqt_object::FileIntegrity::default();
    let (mut check, step) = w.check_file("/g".to_string());
    assert!(matches!(step.op, CheckOp::ReadManifest));
    let step = check.step(CheckEvent::Manifest(Some(doc)));
    (check, step.reply)
}

#[test]
fn first_form_looks_at_the_first_entry_only() {
    let doc = obj(vec![("core_files", obj(vec![("a", s("x")), ("b", pair("h", "u"))]))]);
    let (_c, reply) = first_started(doc);
    assert_eq!(reply.unwrap(), "File a data in JSON are corrupted (not an array)");
    let doc = obj(vec![("core_files", obj(vec![("a", JsonValue::Array(vec![])), ("b", pair("h", "u"))]))]);
    let (_c, reply) = first_started(doc);
    assert_eq!(reply.unwrap(), "File a data in JSON are corrupted (wrong array size)");
    let (_c, reply) = first_started(obj(vec![("core_files", obj(vec![]))]));
    assert_eq!(reply.unwrap(), "JSON isn't valid");
    let (_c, reply) = first_started(obj(vec![]));
    assert_eq!(reply.unwrap(), "JSON isn't valid");
}

#[test]
fn first_form_missing_file_is_only_downloaded() {
    let doc = obj(vec![("core_files", obj(vec![("a", pair("h", "http://u"))]))]);
    let (mut c, reply) = first_started(doc);
    assert!(reply.is_none());
    let step = c.step(CheckEvent::Exists(false));
    assert!(matches!(step.op, CheckOp::Download { .. }));
    let step = c.step(CheckEvent::Downloaded { failed: false });
    assert_eq!(step.reply.unwrap(), "File a didn't exist, downloaded from http://u.");
    assert_eq!(c.stage, Stage::Finished);
}

#[test]
fn first_form_hash_paths() {
    let good = file_hash_hex(b"content");
    let doc = obj(vec![("core_files", obj(vec![("a", pair(&good, "http://u"))]))]);
    let (mut c, _) = first_started(doc);
    c.step(CheckEvent::Exists(true));
    let step = c.step(CheckEvent::Content(Some(b"content".to_vec())));
    assert_eq!(step.reply.unwrap(), "File a is correct.");

    let doc = obj(vec![("core_files", obj(vec![("a", pair(&good, "http://u"))]))]);
    let (mut c, _) = first_started(doc);
    c.step(CheckEvent::Exists(true));
    let step = c.step(CheckEvent::Content(Some(b"other".to_vec())));
    assert!(step.reply.is_none());
    match &step.op {
        CheckOp::RemoveFile(p) => assert_eq!(p, "/g/a"),
        _ => panic!("expected a removal"),
    }
    c.step(CheckEvent::Removed { ok: true });
    let step = c.step(CheckEvent::Downloaded { failed: false });
    assert_eq!(step.reply.unwrap(), "File a isn't correct, download from http://u.");

    let (mut c, _) = first_started(obj(vec![("core_files", obj(vec![("a", pair("h", "u"))]))]));
    c.step(CheckEvent::Exists(true));
    let step = c.on_digest("h".to_string());
    assert_eq!(step.reply.unwrap(), "File a is correct.");
}

#[test]
fn first_form_missing_manifest() {
    let (mut c, _) = FirstFileCheck::begin("/g".to_string());
    let step = c.step(CheckEvent::Manifest(None));
    assert_eq!(step.reply.unwrap(), "Resource file is missing.");
}
