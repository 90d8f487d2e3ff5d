//! The first form of the launcher's window object: a check that looks at the
//! first entry of `core_files` only and answers with a single line.
use vstd::prelude::*;
use crate::digest::{file_hash_hex, hash_matches, hex_lower, sha512_digest};
use crate::integrity::{
    CheckEvent, CheckOp, CoreEntry, Stage, Target, cannot_delete, cannot_open, classify_core_entry, core_entries,
    correct, download_failed, downloaded_missing, event_fits, json_invalid, make_target,
    msg_cannot_delete, msg_cannot_open, msg_correct, msg_download_failed, msg_downloaded_missing,
    msg_json_invalid, msg_not_array, msg_resource_missing, msg_wrong_size, not_array, op_for,
    op_matches, resource_missing, target_matches, wrong_size,
};
use crate::json::JsonValue;
use crate::text::concat5;

verus! {

/// The window object: the file at hand and the result line.
pub struct FileIntegrity {
    pub file: String,
    pub result: String,
}

impl Default for FileIntegrity {
    fn default() -> (res: Self)
        ensures
            res.file@ == ""@,
            res.result@ == ""@,
    {
        FileIntegrity { file: String::from_str(""), result: String::from_str("") }
    }
}

pub open spec fn msg_incorrect(file: Seq<char>, url: Seq<char>) -> Seq<char> {
    "File "@ + file + " isn't correct, download from "@ + url + "."@
}

/// The answer to a manifest `doc` whose first entry of `core_files` is not a
/// pair, if that is so; `None` where the check goes on with that entry.
pub open spec fn manifest_reply(doc: JsonValue) -> Option<Seq<char>> {
    let entries = core_entries(doc);
    if entries.len() == 0 {
        Some(msg_json_invalid())
    } else if !(entries[0].1 is Array) {
        Some(msg_not_array(entries[0].0@))
    } else if entries[0].1->Array_0@.len() != 2 {
        Some(msg_wrong_size(entries[0].0@))
    } else {
        None
    }
}

/// The check in progress.
pub struct FirstFileCheck {
    pub current_path: String,
    pub doc: JsonValue,
    pub target: Target,
    pub stage: Stage,
}

/// What a step gives: the outside work asked for next, and the answer once
/// the check is over.
pub struct FirstStep {
    pub op: CheckOp,
    pub reply: Option<String>,
}

impl FirstFileCheck {
    /// The target at hand is the first entry of `core_files`.
    pub open spec fn wf(self) -> bool {
        match self.stage {
            Stage::Manifest | Stage::Finished => true,
            _ => {
                &&& core_entries(self.doc).len() > 0
                &&& target_matches(self.target, core_entries(self.doc)[0], self.current_path@)
            },
        }
    }

    /// The step leaves the check waiting in `stage` with nothing to answer yet.
    pub open spec fn waits(self, step: FirstStep, stage: Stage) -> bool {
        &&& self.stage == stage
        &&& step.reply is None
        &&& op_matches(step.op, stage, self.target)
    }

    /// The step ends the check with the answer `text`.
    pub open spec fn answers(self, step: FirstStep, text: Seq<char>) -> bool {
        &&& self.stage == Stage::Finished
        &&& step.op is Done
        &&& step.reply matches Some(r) && r@ == text
    }

    pub fn begin(current_path: String) -> (res: (FirstFileCheck, FirstStep))
        ensures
            res.0.current_path == current_path,
            res.0.wf(),
            res.0.waits(res.1, Stage::Manifest),
    {
        let check = FirstFileCheck {
            current_path,
            doc: JsonValue::Null,
            target: Target { file: String::new(), hash: String::new(), url: String::new(), path: String::new() },
            stage: Stage::Manifest,
        };
        let op = op_for(Stage::Manifest, &check.target);
        (check, FirstStep { op, reply: None })
    }

    fn answer(&mut self, text: String) -> (step: FirstStep)
        ensures
            final(self).answers(step, text@),
            final(self).doc == old(self).doc,
            final(self).current_path == old(self).current_path,
            final(self).target == old(self).target,
    {
        self.stage = Stage::Finished;
        FirstStep { op: CheckOp::Done, reply: Some(text) }
    }

    fn wait_for(&mut self, stage: Stage) -> (step: FirstStep)
        ensures
            final(self).waits(step, stage),
            final(self).doc == old(self).doc,
            final(self).current_path == old(self).current_path,
            final(self).target == old(self).target,
    {
        self.stage = stage;
        let op = op_for(stage, &self.target);
        FirstStep { op, reply: None }
    }

    /// Takes the digest text of the file: a file whose digest is the recorded
    /// hash is correct, any other is to be deleted.
    pub fn on_digest(&mut self, digest: String) -> (step: FirstStep)
        requires
            old(self).wf(),
            old(self).stage == Stage::Content,
        ensures
            final(self).wf(),
            final(self).target == old(self).target,
            final(self).doc == old(self).doc,
            final(self).current_path == old(self).current_path,
            if digest@ == old(self).target.hash@ {
                final(self).answers(step, msg_correct(old(self).target.file@))
            } else {
                final(self).waits(step, Stage::Remove)
            },
    {
        if hash_matches(&digest, &self.target.hash) {
            let text = correct(&self.target);
            self.answer(text)
        } else {
            self.wait_for(Stage::Remove)
        }
    }

    /// Takes what came of the outside work asked for last.
    pub fn step(&mut self, event: CheckEvent) -> (step: FirstStep)
        requires
            old(self).wf(),
            event_fits(old(self).stage, event),
        ensures
            final(self).wf(),
            final(self).current_path == old(self).current_path,
            match event {
                CheckEvent::Manifest(None) => final(self).answers(step, msg_resource_missing()),
                CheckEvent::Manifest(Some(doc)) => {
                    &&& final(self).doc == doc
                    &&& match manifest_reply(doc) {
                        Some(text) => final(self).answers(step, text),
                        None => final(self).waits(step, Stage::Exists),
                    }
                },
                CheckEvent::Exists(exists) => final(self).waits(
                    step,
                    if exists { Stage::Content } else { Stage::FirstDownload },
                ),
                CheckEvent::Downloaded { failed } => {
                    let t = old(self).target;
                    if failed {
                        final(self).answers(step, msg_download_failed(t.file@, t.url@))
                    } else if old(self).stage == Stage::FirstDownload {
                        final(self).answers(step, msg_downloaded_missing(t.file@, t.url@))
                    } else {
                        final(self).answers(step, msg_incorrect(t.file@, t.url@))
                    }
                },
                CheckEvent::Content(None) => final(self).answers(step, msg_cannot_open(old(self).target.file@)),
                CheckEvent::Content(Some(content)) =>
                    if hex_lower(sha512_digest(content@)) == old(self).target.hash@ {
                        final(self).answers(step, msg_correct(old(self).target.file@))
                    } else {
                        final(self).waits(step, Stage::Remove)
                    },
                CheckEvent::Removed { ok } =>
                    if ok {
                        final(self).waits(step, Stage::Redownload)
                    } else {
                        final(self).answers(step, msg_cannot_delete(old(self).target.file@))
                    },
            },
    {
        match event {
            CheckEvent::Manifest(None) => self.answer(resource_missing()),
            CheckEvent::Manifest(Some(doc)) => {
                self.doc = doc;
                let entries = match self.doc.get_section("core_files") {
                    Some(e) => e,
                    None => {
                        let text = json_invalid();
                        return self.answer(text);
                    },
                };
                if entries.len() == 0 {
                    let text = json_invalid();
                    return self.answer(text);
                }
                let file = &entries[0].0;
                match classify_core_entry(&entries[0].1) {
                    CoreEntry::NotArray => {
                        let text = not_array(file);
                        self.answer(text)
                    },
                    CoreEntry::WrongSize => {
                        let text = wrong_size(file);
                        self.answer(text)
                    },
                    CoreEntry::Pair { hash, url } => {
                        let target = make_target(file, hash, url, &self.current_path);
                        self.target = target;
                        self.wait_for(Stage::Exists)
                    },
                }
            },
            CheckEvent::Exists(exists) => {
                if exists {
                    self.wait_for(Stage::Content)
                } else {
                    self.wait_for(Stage::FirstDownload)
                }
            },
            CheckEvent::Downloaded { failed } => {
                if failed {
                    let text = download_failed(&self.target);
                    self.answer(text)
                } else if self.stage == Stage::FirstDownload {
                    let text = downloaded_missing(&self.target);
                    self.answer(text)
                } else {
                    let text = concat5(
                        "File ",
                        self.target.file.as_str(),
                        " isn't correct, download from ",
                        self.target.url.as_str(),
                        ".",
                    );
                    self.answer(text)
                }
            },
            CheckEvent::Content(None) => {
                let text = cannot_open(&self.target);
                self.answer(text)
            },
            CheckEvent::Content(Some(content)) => {
                let digest = file_hash_hex(content.as_slice());
                self.on_digest(digest)
            },
            CheckEvent::Removed { ok } => {
                if ok {
                    self.wait_for(Stage::Redownload)
                } else {
                    let text = cannot_delete(&self.target);
                    self.answer(text)
                }
            },
        }
    }
}

impl FileIntegrity {
    /// Starts the check of the first core file, whose name is taken from the
    /// directory `current_path`.
    pub fn check_file(&self, current_path: String) -> (res: (FirstFileCheck, FirstStep))
        ensures
            res.0.current_path == current_path,
            res.0.wf(),
            res.0.waits(res.1, Stage::Manifest),
    {
        FirstFileCheck::begin(current_path)
    }
}

/// What the first-form check asks for while it waits, spelled out: after a
/// deletion (as when the file was missing) it downloads the target's recorded
/// URL into the target's path, and it gives no answer yet.
pub proof fn law_first_check_requests(check: FirstFileCheck, step: FirstStep, stage: Stage)
    requires
        check.waits(step, stage),
    ensures
        step.reply is None,
        check.stage == stage,
        stage == Stage::Exists ==> (step.op matches CheckOp::FileExists(p) && p@ == check.target.path@),
        (stage == Stage::FirstDownload || stage == Stage::Redownload) ==> (step.op matches CheckOp::Download { url, path }
            && url@ == check.target.url@ && path@ == check.target.path@),
        stage == Stage::Content ==> (step.op matches CheckOp::ReadFile(p) && p@ == check.target.path@),
        stage == Stage::Remove ==> (step.op matches CheckOp::RemoveFile(p) && p@ == check.target.path@),
{
    crate::integrity::law_requests_by_stage(step.op, stage, check.target);
}

} // verus!
