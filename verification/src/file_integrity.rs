//! The launcher window's object: its texts, the check of the game's core files,
//! and the start of the game.
use vstd::prelude::*;
use crate::digest::{file_hash_hex, hash_matches, hex_lower, sha512_digest};
use crate::integrity::{
    Channel, CheckEvent, CheckOp, CoreEntry, Message, Stage, Target, cannot_delete, cannot_open,
    classify_core_entry, core_entries, correct, display, download_failed, downloaded_missing, event_fits,
    json_invalid, lemma_notes_push, make_target, msg_cannot_delete, msg_cannot_open, msg_correct,
    msg_download_failed, msg_downloaded_missing, msg_json_invalid, msg_not_array,
    msg_resource_missing, msg_wrong_size, not_array, notes, op_for, op_matches, resource_missing,
    target_matches, wrong_size,
};
use crate::json::JsonValue;
use crate::resources::{entry_fits, law_sanitized_iff_shapes, sanitize_report};
use crate::text::{decimal, decimal_string, concat2, concat3, concat5};

verus! {

pub open spec fn msg_current(i: nat, n: nat) -> Seq<char> {
    "Current file: "@ + decimal(i) + " on "@ + decimal(n)
}

pub open spec fn msg_incorrect(file: Seq<char>, digest: Seq<char>, url: Seq<char>) -> Seq<char> {
    "File "@ + file + " isn't correct ("@ + digest + "), download from "@ + url + "."@
}

pub open spec fn msg_begin() -> Seq<char> {
    "Begin check_file."@
}

/// The messages shown while the entries of `core_files` are walked from
/// `i` on, up to the first that is an array: each entry is announced, and
/// one that is not an array is reported and passed over.
pub open spec fn scan_notes(entries: Seq<(String, JsonValue)>, i: nat) -> Seq<(Channel, Seq<char>)>
    decreases entries.len() - i,
{
    if i >= entries.len() {
        Seq::empty()
    } else {
        let head = (Channel::Display, msg_current(i, entries.len()));
        if !(entries[i as int].1 is Array) {
            seq![head, (Channel::Display, msg_not_array(entries[i as int].0@))] + scan_notes(entries, i + 1)
        } else if entries[i as int].1->Array_0@.len() != 2 {
            seq![head, (Channel::Display, msg_wrong_size(entries[i as int].0@))]
        } else {
            seq![head]
        }
    }
}

/// Where that walk stops: the first entry from `i` on that is an array, or the end.
pub open spec fn scan_stop(entries: Seq<(String, JsonValue)>, i: nat) -> nat
    decreases entries.len() - i,
{
    if i >= entries.len() {
        entries.len()
    } else if !(entries[i as int].1 is Array) {
        scan_stop(entries, i + 1)
    } else {
        i
    }
}

/// The check of the core files in progress.
pub struct CheckFile {
    /// The directory that the files' names are taken from.
    pub current_path: String,
    /// The manifest, once read.
    pub doc: JsonValue,
    /// The entry of `core_files` at hand.
    pub index: usize,
    /// The file at hand.
    pub target: Target,
    /// The digest of the file at hand, once computed and found wrong.
    pub digest: String,
    pub stage: Stage,
}

pub struct CheckStep {
    pub messages: Vec<Message>,
    pub op: CheckOp,
}

impl CheckFile {
    /// The target at hand is the pair at `index` of `core_files`.
    pub open spec fn wf(self) -> bool {
        match self.stage {
            Stage::Manifest | Stage::Finished => true,
            _ => {
                &&& self.doc.section("core_files"@) is Some
                &&& self.index < core_entries(self.doc).len()
                &&& target_matches(self.target, core_entries(self.doc)[self.index as int], self.current_path@)
            },
        }
    }

    /// After the walk from entry `from`, with `prefix` shown before it: the
    /// check stands at the first pair, or is over where the walk reached the
    /// end or an array of the wrong size.
    pub open spec fn scanned(self, shown: Seq<(Channel, Seq<char>)>, prefix: Seq<(Channel, Seq<char>)>, from: nat) -> bool {
        let entries = core_entries(self.doc);
        let stop = scan_stop(entries, from);
        &&& shown == prefix + scan_notes(entries, from)
        &&& if stop == entries.len() || entries[stop as int].1->Array_0@.len() != 2 {
            self.stage == Stage::Finished
        } else {
            self.stage == Stage::Exists && self.index == stop
        }
    }

    proof fn lemma_scan_step(entries: Seq<(String, JsonValue)>, i: nat)
        requires
            i < entries.len(),
            !(entries[i as int].1 is Array),
        ensures
            scan_stop(entries, i) == scan_stop(entries, i + 1),
    {
    }

    proof fn lemma_scan_stop_bounds(entries: Seq<(String, JsonValue)>, i: nat)
        requires
            i <= entries.len(),
        ensures
            i <= scan_stop(entries, i) <= entries.len(),
            scan_stop(entries, i) < entries.len() ==> entries[scan_stop(entries, i) as int].1 is Array,
        decreases entries.len() - i,
    {
        if i < entries.len() && !(entries[i as int].1 is Array) {
            Self::lemma_scan_stop_bounds(entries, i + 1);
        }
    }

    /// Walks the entries of `core_files` from `from` on, as `scanned` says.
    fn scan(&mut self, messages: &mut Vec<Message>, from: usize)
        requires
            old(self).doc.section("core_files"@) is Some,
            from <= core_entries(old(self).doc).len(),
        ensures
            final(self).doc == old(self).doc,
            final(self).current_path == old(self).current_path,
            final(self).wf(),
            final(self).scanned(notes(final(messages)@), notes(old(messages)@), from as nat),
    {
        let ghost entries = core_entries(self.doc);
        let ghost prefix = notes(messages@);
        let mut i = from;
        let n = match self.doc.get_section("core_files") {
            Some(e) => e.len(),
            None => 0,
        };
        loop
            invariant_except_break
                self.doc == old(self).doc,
                self.current_path == old(self).current_path,
                entries == core_entries(self.doc),
                self.doc.section("core_files"@) is Some,
                from <= i <= entries.len(),
                n == entries.len(),
                scan_stop(entries, from as nat) == scan_stop(entries, i as nat),
                prefix + scan_notes(entries, from as nat)
                    == notes(messages@) + scan_notes(entries, i as nat),
            ensures
                self.doc == old(self).doc,
                self.current_path == old(self).current_path,
                self.wf(),
                self.scanned(notes(messages@), prefix, from as nat),
            decreases entries.len() - i,
        {
            proof { Self::lemma_scan_stop_bounds(entries, i as nat); }
            if i == n {
                self.stage = Stage::Finished;
                assert(scan_notes(entries, i as nat) =~= Seq::empty());
                assert(notes(messages@) + Seq::empty() =~= notes(messages@));
                break;
            }
            let entries_ref = match self.doc.get_section("core_files") {
                Some(e) => e,
                None => { break; },
            };
            let number = decimal_string(i as u64);
            let total = decimal_string(n as u64);
            let head = concat3("Current file: ", number.as_str(), " on ");
            let head = concat2(head.as_str(), total.as_str());
            let ghost before = notes(messages@);
            messages.push(display(head));
            proof { lemma_notes_push(messages@.drop_last(), messages@.last()); }
            let file = &entries_ref[i].0;
            match classify_core_entry(&entries_ref[i].1) {
                CoreEntry::NotArray => {
                    let text = not_array(file);
                    messages.push(display(text));
                    proof {
                        lemma_notes_push(messages@.drop_last(), messages@.last());
                        Self::lemma_scan_step(entries, i as nat);
                        assert(scan_notes(entries, i as nat) == seq![
                            (Channel::Display, msg_current(i as nat, entries.len())),
                            (Channel::Display, msg_not_array(entries[i as int].0@)),
                        ] + scan_notes(entries, (i + 1) as nat));
                        assert(notes(messages@) =~= before + seq![
                            (Channel::Display, msg_current(i as nat, entries.len())),
                            (Channel::Display, msg_not_array(entries[i as int].0@)),
                        ]);
                    }
                    i = i + 1;
                },
                CoreEntry::WrongSize => {
                    let text = wrong_size(file);
                    messages.push(display(text));
                    proof {
                        lemma_notes_push(messages@.drop_last(), messages@.last());
                        assert(scan_notes(entries, i as nat) =~= seq![
                            (Channel::Display, msg_current(i as nat, entries.len())),
                            (Channel::Display, msg_wrong_size(entries[i as int].0@)),
                        ]);
                        assert(notes(messages@) =~= before + scan_notes(entries, i as nat));
                        assert(notes(messages@) =~= prefix + scan_notes(entries, from as nat));
                    }
                    self.stage = Stage::Finished;
                    break;
                },
                CoreEntry::Pair { hash, url } => {
                    let target = make_target(file, hash, url, &self.current_path);
                    proof {
                        assert(scan_notes(entries, i as nat) =~= seq![
                            (Channel::Display, msg_current(i as nat, entries.len())),
                        ]);
                        assert(notes(messages@) =~= before + scan_notes(entries, i as nat));
                        assert(notes(messages@) =~= prefix + scan_notes(entries, from as nat));
                    }
                    self.target = target;
                    self.index = i;
                    self.stage = Stage::Exists;
                    break;
                },
            }
        }
    }
}

/// What follows once the file at hand has digest `d`: a file whose digest is
/// the recorded hash is reported correct and the walk goes on with the next
/// entry; any other is to be deleted.
pub open spec fn after_digest(old: CheckFile, new: CheckFile, shown: Seq<(Channel, Seq<char>)>, d: Seq<char>) -> bool {
    &&& new.doc == old.doc
    &&& new.current_path == old.current_path
    &&& if d == old.target.hash@ {
        new.scanned(shown, seq![(Channel::Display, msg_correct(old.target.file@))], (old.index + 1) as nat)
    } else {
        &&& shown.len() == 0
        &&& new.stage == Stage::Remove
        &&& new.digest@ == d
        &&& new.index == old.index
        &&& new.target == old.target
    }
}

/// The digest text of what the launcher reads of a file.
pub open spec fn content_digest(content: Seq<u8>) -> Seq<char> {
    hex_lower(sha512_digest(content))
}

impl CheckFile {
    fn blank_target() -> (t: Target)
        ensures
            t.file@ == Seq::<char>::empty(),
            t.hash@ == Seq::<char>::empty(),
            t.url@ == Seq::<char>::empty(),
            t.path@ == Seq::<char>::empty(),
    {
        Target { file: String::new(), hash: String::new(), url: String::new(), path: String::new() }
    }

    /// A new check: it shows that it begins and asks for the manifest.
    pub fn begin(current_path: String) -> (res: (CheckFile, CheckStep))
        ensures
            res.0.current_path == current_path,
            res.0.stage == Stage::Manifest,
            res.0.wf(),
            notes(res.1.messages@) == seq![(Channel::Display, msg_begin())],
            res.1.op is ReadManifest,
    {
        let check = CheckFile {
            current_path,
            doc: JsonValue::Null,
            index: 0,
            target: Self::blank_target(),
            digest: String::new(),
            stage: Stage::Manifest,
        };
        let mut messages: Vec<Message> = Vec::new();
        messages.push(display(String::from_str("Begin check_file.")));
        assert(notes(messages@) =~= seq![(Channel::Display, msg_begin())]);
        (check, CheckStep { messages, op: CheckOp::ReadManifest })
    }

    fn core_len(&self) -> (n: usize)
        ensures
            n == core_entries(self.doc).len(),
    {
        match self.doc.get_section("core_files") {
            Some(e) => e.len(),
            None => 0,
        }
    }

    fn finish_with(&mut self, text: String) -> (step: CheckStep)
        ensures
            final(self).stage == Stage::Finished,
            final(self).doc == old(self).doc,
            final(self).current_path == old(self).current_path,
            final(self).target == old(self).target,
            notes(step.messages@) == seq![(Channel::Display, text@)],
            step.op is Done,
    {
        let mut messages: Vec<Message> = Vec::new();
        let ghost t = text@;
        messages.push(display(text));
        assert(notes(messages@) =~= seq![(Channel::Display, t)]);
        self.stage = Stage::Finished;
        CheckStep { messages, op: CheckOp::Done }
    }

    fn wait_for(&mut self, stage: Stage, messages: Vec<Message>) -> (step: CheckStep)
        ensures
            final(self).stage == stage,
            final(self).doc == old(self).doc,
            final(self).current_path == old(self).current_path,
            final(self).index == old(self).index,
            final(self).target == old(self).target,
            final(self).digest == old(self).digest,
            step.messages == messages,
            op_matches(step.op, stage, final(self).target),
    {
        self.stage = stage;
        let op = op_for(stage, &self.target);
        CheckStep { messages, op }
    }

    /// Takes the digest text of the file at hand: it decides, from the
    /// digest alone, whether the file is correct.
    pub fn on_digest(&mut self, digest: String) -> (step: CheckStep)
        requires
            old(self).wf(),
            old(self).stage == Stage::Content,
        ensures
            final(self).wf(),
            op_matches(step.op, final(self).stage, final(self).target),
            after_digest(*old(self), *final(self), notes(step.messages@), digest@),
    {
        if hash_matches(&digest, &self.target.hash) {
            let n = self.core_len();
            assert(self.index < n);
            let mut messages: Vec<Message> = Vec::new();
            messages.push(display(correct(&self.target)));
            assert(notes(messages@) =~= seq![(Channel::Display, msg_correct(self.target.file@))]);
            self.scan(&mut messages, self.index + 1);
            let op = op_for(self.stage, &self.target);
            CheckStep { messages, op }
        } else {
            self.digest = digest;
            let messages: Vec<Message> = Vec::new();
            self.wait_for(Stage::Remove, messages)
        }
    }

    /// Takes what came of the outside work asked for last, and says what to
    /// show and what to do next.
    pub fn step(&mut self, event: CheckEvent) -> (step: CheckStep)
        requires
            old(self).wf(),
            event_fits(old(self).stage, event),
        ensures
            final(self).wf(),
            final(self).current_path == old(self).current_path,
            op_matches(step.op, final(self).stage, final(self).target),
            match event {
                CheckEvent::Manifest(None) => {
                    &&& notes(step.messages@) == seq![(Channel::Display, msg_resource_missing())]
                    &&& final(self).stage == Stage::Finished
                },
                CheckEvent::Manifest(Some(doc)) => {
                    &&& final(self).doc == doc
                    &&& if doc.section("core_files"@) is None {
                        &&& notes(step.messages@) == seq![(Channel::Display, msg_json_invalid())]
                        &&& final(self).stage == Stage::Finished
                    } else {
                        final(self).scanned(notes(step.messages@), Seq::empty(), 0)
                    }
                },
                CheckEvent::Exists(exists) => {
                    &&& step.messages@.len() == 0
                    &&& final(self).doc == old(self).doc
                    &&& final(self).index == old(self).index
                    &&& final(self).target == old(self).target
                    &&& final(self).stage == if exists { Stage::Content } else { Stage::FirstDownload }
                },
                CheckEvent::Downloaded { failed } => {
                    let t = old(self).target;
                    if failed {
                        &&& notes(step.messages@) == seq![(Channel::Display, msg_download_failed(t.file@, t.url@))]
                        &&& final(self).stage == Stage::Finished
                    } else if old(self).stage == Stage::FirstDownload {
                        &&& notes(step.messages@) == seq![(Channel::Display, msg_downloaded_missing(t.file@, t.url@))]
                        &&& final(self).stage == Stage::Content
                        &&& final(self).doc == old(self).doc
                        &&& final(self).index == old(self).index
                        &&& final(self).target == old(self).target
                    } else {
                        &&& final(self).doc == old(self).doc
                        &&& final(self).scanned(
                            notes(step.messages@),
                            seq![(Channel::Display, msg_incorrect(t.file@, old(self).digest@, t.url@))],
                            (old(self).index + 1) as nat,
                        )
                    }
                },
                CheckEvent::Content(None) => {
                    &&& notes(step.messages@) == seq![(Channel::Display, msg_cannot_open(old(self).target.file@))]
                    &&& final(self).stage == Stage::Finished
                },
                CheckEvent::Content(Some(content)) =>
                    after_digest(*old(self), *final(self), notes(step.messages@), content_digest(content@)),
                CheckEvent::Removed { ok } => {
                    if ok {
                        &&& step.messages@.len() == 0
                        &&& final(self).stage == Stage::Redownload
                        &&& final(self).doc == old(self).doc
                        &&& final(self).index == old(self).index
                        &&& final(self).target == old(self).target
                        &&& final(self).digest == old(self).digest
                    } else {
                        &&& notes(step.messages@) == seq![(Channel::Display, msg_cannot_delete(old(self).target.file@))]
                        &&& final(self).stage == Stage::Finished
                    }
                },
            },
    {
        match event {
            CheckEvent::Manifest(None) => self.finish_with(resource_missing()),
            CheckEvent::Manifest(Some(doc)) => {
                self.doc = doc;
                let has_core = self.doc.get_section("core_files").is_some();
                if !has_core {
                    self.finish_with(json_invalid())
                } else {
                    let mut messages: Vec<Message> = Vec::new();
                    assert(notes(messages@) =~= Seq::empty());
                    self.scan(&mut messages, 0);
                    let op = op_for(self.stage, &self.target);
                    CheckStep { messages, op }
                }
            },
            CheckEvent::Exists(exists) => {
                let messages: Vec<Message> = Vec::new();
                if exists {
                    self.wait_for(Stage::Content, messages)
                } else {
                    self.wait_for(Stage::FirstDownload, messages)
                }
            },
            CheckEvent::Downloaded { failed } => {
                if failed {
                    let text = download_failed(&self.target);
                    self.finish_with(text)
                } else if self.stage == Stage::FirstDownload {
                    let mut messages: Vec<Message> = Vec::new();
                    messages.push(display(downloaded_missing(&self.target)));
                    assert(notes(messages@) =~= seq![(Channel::Display, msg_downloaded_missing(self.target.file@, self.target.url@))]);
                    self.wait_for(Stage::Content, messages)
                } else {
                    let n = self.core_len();
                    assert(self.index < n);
                    let text = concat5("File ", self.target.file.as_str(), " isn't correct (", self.digest.as_str(), "), download from ");
                    let text = concat3(text.as_str(), self.target.url.as_str(), ".");
                    let ghost t = text@;
                    assert(t =~= msg_incorrect(self.target.file@, self.digest@, self.target.url@));
                    let mut messages: Vec<Message> = Vec::new();
                    messages.push(display(text));
                    assert(notes(messages@) =~= seq![(Channel::Display, t)]);
                    self.scan(&mut messages, self.index + 1);
                    let op = op_for(self.stage, &self.target);
                    CheckStep { messages, op }
                }
            },
            CheckEvent::Content(None) => {
                let text = cannot_open(&self.target);
                self.finish_with(text)
            },
            CheckEvent::Content(Some(content)) => {
                let digest = file_hash_hex(content.as_slice());
                self.on_digest(digest)
            },
            CheckEvent::Removed { ok } => {
                if ok {
                    let messages: Vec<Message> = Vec::new();
                    self.wait_for(Stage::Redownload, messages)
                } else {
                    let text = cannot_delete(&self.target);
                    self.finish_with(text)
                }
            },
        }
    }
}

/// A colour by its red, green, blue and alpha parts.
#[derive(Clone, Copy, PartialEq, Eq, Structural, Debug)]
pub struct Rgba {
    pub red: i32,
    pub green: i32,
    pub blue: i32,
    pub alpha: i32,
}

/// What the launcher window shows: its title, the texts of its buttons, the
/// buttons' colour, and the result line.
pub struct FileIntegrityRust {
    pub title: String,
    pub play: String,
    pub verify: String,
    pub language: String,
    pub button_color: Rgba,
    pub result: String,
}

impl Default for FileIntegrityRust {
    fn default() -> (res: Self)
        ensures
            res.title@ == "WoW Private Server Launcher"@,
            res.play@ == "Play"@,
            res.verify@ == "Verify game"@,
            res.language@ == "Language settings"@,
            res.button_color == (Rgba { red: 155, green: 0, blue: 0, alpha: 255 }),
            res.result@ == ""@,
    {
        FileIntegrityRust {
            title: FileIntegrity::load_gui_text_title(),
            play: FileIntegrity::load_gui_button_text_play(),
            verify: FileIntegrity::load_gui_button_text_verify(),
            language: FileIntegrity::load_gui_button_text_language(),
            button_color: FileIntegrity::load_gui_button_color(),
            result: String::from_str(""),
        }
    }
}

/// How the game is started on this operating system.
pub enum LaunchPlan {
    /// Run `cmd` with the single argument `args`.
    Run { cmd: String, args: String },
    /// The game cannot be started here; the text says why.
    Unsupported(String),
}

/// What a press on "Play" gives: the immediate reply, and how the game is
/// then started in the background.
pub struct GameStart {
    pub reply: String,
    pub plan: LaunchPlan,
}

pub open spec fn msg_unsupported(os: Seq<char>) -> Seq<char> {
    "Unsupported OS: "@ + os + "."@
}

pub open spec fn msg_launch_failed(error: Seq<char>) -> Seq<char> {
    "Unable to launch game: "@ + error
}

pub open spec fn msg_game_error(stderr_output: Seq<char>) -> Seq<char> {
    "Error from wine: "@ + stderr_output
}

/// The launcher window's object.
pub struct FileIntegrity {
    pub rust: FileIntegrityRust,
}

impl Default for FileIntegrity {
    fn default() -> (res: Self)
        ensures
            res.rust.title@ == "WoW Private Server Launcher"@,
            res.rust.play@ == "Play"@,
            res.rust.verify@ == "Verify game"@,
            res.rust.language@ == "Language settings"@,
            res.rust.button_color == (Rgba { red: 155, green: 0, blue: 0, alpha: 255 }),
            res.rust.result@ == ""@,
    {
        FileIntegrity { rust: FileIntegrityRust::default() }
    }
}

impl FileIntegrity {
    pub fn load_gui_button_text_play() -> (res: String)
        ensures
            res@ == "Play"@,
    {
        String::from_str("Play")
    }

    pub fn load_gui_button_text_verify() -> (res: String)
        ensures
            res@ == "Verify game"@,
    {
        String::from_str("Verify game")
    }

    pub fn load_gui_button_text_language() -> (res: String)
        ensures
            res@ == "Language settings"@,
    {
        String::from_str("Language settings")
    }

    pub fn load_gui_text_title() -> (res: String)
        ensures
            res@ == "WoW Private Server Launcher"@,
    {
        String::from_str("WoW Private Server Launcher")
    }

    /// The colour of the window's buttons: opaque dark red.
    pub fn load_gui_button_color() -> (res: Rgba)
        ensures
            res == (Rgba { red: 155, green: 0, blue: 0, alpha: 255 }),
    {
        Rgba { red: 155, green: 0, blue: 0, alpha: 255 }
    }

    /// Shows `text` as the window's result line.
    pub fn set_result(&mut self, text: String)
        ensures
            final(self).rust.result == text,
            final(self).rust.title == old(self).rust.title,
            final(self).rust.play == old(self).rust.play,
            final(self).rust.verify == old(self).rust.verify,
            final(self).rust.language == old(self).rust.language,
            final(self).rust.button_color == old(self).rust.button_color,
    {
        self.rust.result = text;
    }

    /// Starts the repair of the game's core files, whose names are taken
    /// from the directory `current_path`.
    pub fn check_file(&self, current_path: String) -> (res: (CheckFile, CheckStep))
        ensures
            res.0.current_path == current_path,
            res.0.stage == Stage::Manifest,
            res.0.wf(),
            notes(res.1.messages@) == seq![(Channel::Display, msg_begin())],
            res.1.op is ReadManifest,
    {
        CheckFile::begin(current_path)
    }

    /// Starts the game on the operating system `os`: through `wine` on Linux
    /// and macOS, directly on Windows, and not at all elsewhere. The reply is
    /// given at once; the start itself goes on in the background.
    pub fn start_game(&self, os: &str) -> (res: GameStart)
        ensures
            res.reply@ == "Game launching"@,
            (os@ == "linux"@ || os@ == "macos"@) ==> (res.plan matches LaunchPlan::Run { cmd, args }
                && cmd@ == "wine"@ && args@ == "Wow.exe"@),
            os@ == "windows"@ ==> (res.plan matches LaunchPlan::Run { cmd, args }
                && cmd@ == "Wow.exe"@ && args@ == ""@),
            !(os@ == "linux"@ || os@ == "macos"@ || os@ == "windows"@) ==>
                (res.plan matches LaunchPlan::Unsupported(text) && text@ == msg_unsupported(os@)),
    {
        let name = os.to_owned();
        proof {
            reveal_strlit("linux");
            reveal_strlit("macos");
            reveal_strlit("windows");
            assert("windows"@[0] != "linux"@[0]);
            assert("windows"@[0] != "macos"@[0]);
        }
        let linux = String::from_str("linux");
        let macos = String::from_str("macos");
        let windows = String::from_str("windows");
        let plan = if name.eq(&linux) || name.eq(&macos) {
            LaunchPlan::Run { cmd: String::from_str("wine"), args: String::from_str("Wow.exe") }
        } else if name.eq(&windows) {
            LaunchPlan::Run { cmd: String::from_str("Wow.exe"), args: String::from_str("") }
        } else {
            LaunchPlan::Unsupported(concat3("Unsupported OS: ", os, "."))
        };
        GameStart { reply: String::from_str("Game launching"), plan }
    }

    /// The text that the background start ends with: "Game started", or why
    /// the game could not be launched.
    pub fn launch_outcome(result: Result<(), String>) -> (res: String)
        ensures
            match result {
                Ok(_) => res@ == "Game started"@,
                Err(e) => res@ == msg_launch_failed(e@),
            },
    {
        match result {
            Ok(_) => String::from_str("Game started"),
            Err(e) => concat2("Unable to launch game: ", e.as_str()),
        }
    }

    /// What the game's error output makes the launcher show: nothing when it
    /// is empty, the output itself otherwise.
    pub fn run_game_report(stderr_output: &String) -> (res: Option<Message>)
        ensures
            stderr_output@.len() == 0 ==> res is None,
            stderr_output@.len() > 0 ==> (res matches Some(m)
                && m@ == (Channel::Display, msg_game_error(stderr_output@))),
    {
        if stderr_output.as_str().is_empty() {
            None
        } else {
            Some(display(concat2("Error from wine: ", stderr_output.as_str())))
        }
    }
}

/// A manifest that passes the start-up shape check never makes the repair
/// report a corrupt core entry: from any entry on, the walk announces that
/// entry and stops at it, as a pair to check.
pub proof fn law_sanitized_manifest_walks_pairs(doc: JsonValue, i: nat)
    requires
        sanitize_report(doc) is None,
        i < core_entries(doc).len(),
    ensures
        scan_stop(core_entries(doc), i) == i,
        core_entries(doc)[i as int].1 is Array,
        core_entries(doc)[i as int].1->Array_0@.len() == 2,
        scan_notes(core_entries(doc), i) == seq![(Channel::Display, msg_current(i, core_entries(doc).len()))],
{
    law_sanitized_iff_shapes(doc);
    let e = core_entries(doc);
    assert(entry_fits(e[i as int].1, 2));
}

/// A file is judged by the SHA-512 digest of all its content: when the
/// lowercase hex digest of the whole content is the recorded hash, the file is
/// reported correct and the walk goes on; otherwise nothing is shown and the
/// file is to be deleted, with that digest kept for the report.
pub proof fn law_whole_content_decides(before: CheckFile, after: CheckFile, shown: Seq<(Channel, Seq<char>)>, content: Seq<u8>)
    requires
        after_digest(before, after, shown, content_digest(content)),
    ensures
        hex_lower(sha512_digest(content)) == before.target.hash@ ==> {
            &&& shown.len() >= 1
            &&& shown[0] == (Channel::Display, "File "@ + before.target.file@ + " is correct."@)
            &&& after.stage != Stage::Remove
        },
        hex_lower(sha512_digest(content)) != before.target.hash@ ==> {
            &&& shown.len() == 0
            &&& after.stage == Stage::Remove
            &&& after.digest@ == hex_lower(sha512_digest(content))
            &&& after.target == before.target
        },
{
    if hex_lower(sha512_digest(content)) == before.target.hash@ {
        let prefix = seq![(Channel::Display, msg_correct(before.target.file@))];
        assert(shown == prefix + scan_notes(core_entries(after.doc), (before.index + 1) as nat));
        assert(shown[0] == prefix[0]);
    }
}

/// A missing core file is downloaded from the URL recorded for it (the second
/// value of its pair) into the file's path under the directory, and so is a
/// wrong one after its deletion.
pub proof fn law_core_downloads_fetch_recorded_url(check: CheckFile, op: CheckOp)
    requires
        check.wf(),
        check.stage == Stage::FirstDownload || check.stage == Stage::Redownload,
        op_matches(op, check.stage, check.target),
    ensures
        op matches CheckOp::Download { url, path } && {
            let entry = check.doc.section("core_files"@)->0[check.index as int];
            &&& url@ == (match entry.1->Array_0@[1] {
                JsonValue::String(s) => s@,
                _ => Seq::<char>::empty(),
            })
            &&& path@ == check.current_path@ + "/"@ + entry.0@
        },
{
    crate::integrity::law_requests_by_stage(op, check.stage, check.target);
    crate::integrity::law_target_from_entry(check.target, core_entries(check.doc)[check.index as int], check.current_path@);
}

/// The walk over `core_files`, entry by entry: each entry is announced as
/// "Current file: i on n"; one that is not an array is reported as corrupted
/// and passed over; an array of another size than two is reported and ends
/// the walk; a pair stops it, to be checked.
pub proof fn law_walk_entry(entries: Seq<(String, JsonValue)>, i: nat)
    requires
        i < entries.len(),
    ensures
        ({
            let current = (Channel::Display, "Current file: "@ + decimal(i) + " on "@ + decimal(entries.len()));
            let file = entries[i as int].0@;
            &&& !(entries[i as int].1 is Array) ==> {
                &&& scan_notes(entries, i) == seq![
                    current,
                    (Channel::Display, "File "@ + file + " data in JSON are corrupted (not an array)"@),
                ] + scan_notes(entries, i + 1)
                &&& scan_stop(entries, i) == scan_stop(entries, i + 1)
            }
            &&& (entries[i as int].1 is Array && entries[i as int].1->Array_0@.len() != 2) ==> {
                &&& scan_notes(entries, i) == seq![
                    current,
                    (Channel::Display, "File "@ + file + " data in JSON are corrupted (wrong array size)"@),
                ]
                &&& scan_stop(entries, i) == i
            }
            &&& (entries[i as int].1 is Array && entries[i as int].1->Array_0@.len() == 2) ==> {
                &&& scan_notes(entries, i) == seq![current]
                &&& scan_stop(entries, i) == i
            }
        }),
{
}

/// Where the walk stops, the check ends or waits for the pair found there:
/// it ends once every entry has been passed, or at an array of the wrong size,
/// and otherwise asks whether the pair's file exists.
pub proof fn law_walk_outcome(after: CheckFile, shown: Seq<(Channel, Seq<char>)>, prefix: Seq<(Channel, Seq<char>)>, from: nat)
    requires
        after.scanned(shown, prefix, from),
        from <= core_entries(after.doc).len(),
    ensures
        ({
            let entries = core_entries(after.doc);
            let stop = scan_stop(entries, from);
            &&& from <= stop <= entries.len()
            &&& forall|k: int| from <= k < stop ==> !(#[trigger] entries[k].1 is Array)
            &&& stop == entries.len() ==> after.stage == Stage::Finished
            &&& stop < entries.len() && entries[stop as int].1->Array_0@.len() != 2 ==> after.stage == Stage::Finished
            &&& stop < entries.len() && entries[stop as int].1->Array_0@.len() == 2 ==> {
                &&& after.stage == Stage::Exists
                &&& after.index == stop
            }
        }),
{
    let entries = core_entries(after.doc);
    CheckFile::lemma_scan_stop_bounds(entries, from);
    lemma_scan_skips(entries, from);
}

proof fn lemma_scan_skips(entries: Seq<(String, JsonValue)>, i: nat)
    requires
        i <= entries.len(),
    ensures
        forall|k: int| i <= k < scan_stop(entries, i) ==> !(#[trigger] entries[k].1 is Array),
    decreases entries.len() - i,
{
    if i < entries.len() && !(entries[i as int].1 is Array) {
        lemma_scan_skips(entries, i + 1);
    }
}

} // verus!
