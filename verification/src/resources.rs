//! The check of `resources/hashmap.json` made at start-up: the manifest's
//! sections must have the expected shape, and missing resources are downloaded.
use vstd::prelude::*;
use crate::integrity::{Channel, Message, notes, lemma_notes_push};
use crate::json::JsonValue;
use crate::text::{decimal, decimal_string, concat2, concat3, concat5};

verus! {

/// Whether `v` is an array of `len` values.
pub open spec fn entry_fits(v: JsonValue, len: nat) -> bool {
    v is Array && v->Array_0@.len() == len
}

pub open spec fn msg_not_array(index: Seq<char>, file: Seq<char>) -> Seq<char> {
    "Error in JSON file, in `"@ + index + "` index, element `"@ + file + "` is not an array"@
}

pub open spec fn msg_wrong_size(index: Seq<char>, file: Seq<char>, len: nat) -> Seq<char> {
    msg_not_array(index, file) + " of size of "@ + decimal(len)
}

/// The complaint about the first entry of `entries` that is not an array of
/// `len` values, if there is one.
pub open spec fn section_report(entries: Seq<(String, JsonValue)>, index: Seq<char>, len: nat) -> Option<Seq<char>>
    decreases entries.len(),
{
    if entries.len() == 0 {
        None
    } else if !(entries[0].1 is Array) {
        Some(msg_not_array(index, entries[0].0@))
    } else if entries[0].1->Array_0@.len() != len {
        Some(msg_wrong_size(index, entries[0].0@, len))
    } else {
        section_report(entries.drop_first(), index, len)
    }
}

/// The complaint about the section `index` of `json`: none where there is no
/// such section or every entry is an array of `len` values.
pub open spec fn check_array_report(json: JsonValue, index: Seq<char>, len: nat) -> Option<Seq<char>> {
    match json.section(index) {
        Some(entries) => section_report(entries, index, len),
        None => None,
    }
}

pub open spec fn opt_view(o: Option<String>) -> Option<Seq<char>> {
    match o {
        Some(s) => Some(s@),
        None => None,
    }
}

/// A section reports nothing exactly when each of its entries is an array of `len` values.
pub proof fn lemma_section_report_none(entries: Seq<(String, JsonValue)>, index: Seq<char>, len: nat)
    ensures
        section_report(entries, index, len) is None
            <==> forall|k: int| 0 <= k < entries.len() ==> entry_fits(#[trigger] entries[k].1, len),
    decreases entries.len(),
{
    if entries.len() > 0 {
        lemma_section_report_none(entries.drop_first(), index, len);
        if section_report(entries, index, len) is None {
            assert forall|k: int| 0 <= k < entries.len() implies entry_fits(#[trigger] entries[k].1, len) by {
                if k > 0 {
                    assert(entries[k] == entries.drop_first()[k - 1]);
                }
            }
        } else {
            if forall|k: int| 0 <= k < entries.len() ==> entry_fits(#[trigger] entries[k].1, len) {
                assert(entry_fits(entries[0].1, len));
                assert forall|k: int| 0 <= k < entries.drop_first().len()
                    implies entry_fits(#[trigger] entries.drop_first()[k].1, len) by {
                    assert(entries.drop_first()[k] == entries[k + 1]);
                }
            }
        }
    }
}

/// Looks at the section `index` of the manifest and returns the complaint about
/// its first entry that is not an array of `len` values; nothing where all are
/// (or where the section is missing or not an object).
pub fn json_check_array(json: &JsonValue, index: &str, len: usize) -> (res: Option<String>)
    ensures
        opt_view(res) == check_array_report(*json, index@, len as nat),
{
    match json.get_section(index) {
        None => None,
        Some(entries) => {
            let mut i: usize = 0;
            assert(entries@.skip(0) =~= entries@);
            while i < entries.len()
                invariant
                    0 <= i <= entries@.len(),
                    check_array_report(*json, index@, len as nat)
                        == section_report(entries@.skip(i as int), index@, len as nat),
                decreases entries@.len() - i,
            {
                assert(entries@.skip(i as int).drop_first() =~= entries@.skip(i + 1));
                assert(entries@.skip(i as int)[0] == entries@[i as int]);
                let file = &entries[i].0;
                match &entries[i].1 {
                    JsonValue::Array(items) => {
                        if items.len() != len {
                            let head = concat5(
                                "Error in JSON file, in `",
                                index,
                                "` index, element `",
                                file.as_str(),
                                "` is not an array",
                            );
                            let number = decimal_string(len as u64);
                            let text = concat3(head.as_str(), " of size of ", number.as_str());
                            return Some(text);
                        }
                    },
                    _ => {
                        let text = concat5(
                            "Error in JSON file, in `",
                            index,
                            "` index, element `",
                            file.as_str(),
                            "` is not an array",
                        );
                        return Some(text);
                    },
                }
                i += 1;
            }
            assert(entries@.skip(i as int).len() == 0);
            None
        },
    }
}

/// The first complaint about the manifest's sections: `core_files` and
/// `add_ons` must hold arrays of two values, `mod_files` arrays of three.
pub open spec fn sanitize_report(json: JsonValue) -> Option<Seq<char>> {
    match check_array_report(json, "core_files"@, 2) {
        Some(m) => Some(m),
        None => match check_array_report(json, "mod_files"@, 3) {
            Some(m) => Some(m),
            None => check_array_report(json, "add_ons"@, 2),
        },
    }
}

/// Checks the shape of the manifest's sections; the complaint, if any, is the
/// error that the launcher prints.
pub fn json_is_sanitized(json: &JsonValue) -> (res: Option<String>)
    ensures
        opt_view(res) == sanitize_report(*json),
{
    let core = json_check_array(json, "core_files", 2);
    if core.is_some() {
        return core;
    }
    let mods = json_check_array(json, "mod_files", 3);
    if mods.is_some() {
        return mods;
    }
    json_check_array(json, "add_ons", 2)
}

/// The manifest passes the shape check exactly when each entry of
/// `core_files` and `add_ons` is an array of two values and each entry of
/// `mod_files` an array of three (a missing section passes).
pub proof fn law_sanitized_iff_shapes(json: JsonValue)
    ensures
        sanitize_report(json) is None <==> {
            &&& (json.section("core_files"@) matches Some(e) ==>
                    forall|k: int| 0 <= k < e.len() ==> entry_fits(#[trigger] e[k].1, 2))
            &&& (json.section("mod_files"@) matches Some(e) ==>
                    forall|k: int| 0 <= k < e.len() ==> entry_fits(#[trigger] e[k].1, 3))
            &&& (json.section("add_ons"@) matches Some(e) ==>
                    forall|k: int| 0 <= k < e.len() ==> entry_fits(#[trigger] e[k].1, 2))
        },
{
    if let Some(e) = json.section("core_files"@) {
        lemma_section_report_none(e, "core_files"@, 2);
    }
    if let Some(e) = json.section("mod_files"@) {
        lemma_section_report_none(e, "mod_files"@, 3);
    }
    if let Some(e) = json.section("add_ons"@) {
        lemma_section_report_none(e, "add_ons"@, 2);
    }
}

/// The entries of the manifest's `resources` section: file names and where to
/// download them (none where the section is missing or not an object).
pub open spec fn resource_entries(doc: JsonValue) -> Seq<(String, JsonValue)> {
    match doc.section("resources"@) {
        Some(e) => e,
        None => Seq::empty(),
    }
}

/// Where the resource `file` is kept.
pub open spec fn resource_path(file: Seq<char>) -> Seq<char> {
    "resources/"@ + file
}

pub open spec fn msg_download_failed(error: Seq<char>) -> Seq<char> {
    "Download failed: "@ + error
}

/// Whether a check of `entries` from `i` on fails, where `exists[k]` tells
/// whether resource `k` is on disk and `oks[k]` whether its download succeeds:
/// it fails at the first missing resource whose download fails.
pub open spec fn run_from(entries: Seq<(String, JsonValue)>, i: nat, exists: Seq<bool>, oks: Seq<bool>) -> bool
    decreases entries.len() - i,
{
    if i >= entries.len() {
        false
    } else if exists[i as int] || oks[i as int] {
        run_from(entries, i + 1, exists, oks)
    } else {
        true
    }
}

/// Whether the whole resource check of `doc` fails, with the outside answers
/// `exists` and `oks`.
pub open spec fn resource_outcome(doc: JsonValue, exists: Seq<bool>, oks: Seq<bool>) -> bool {
    if doc is Null {
        false
    } else if sanitize_report(doc) is Some {
        true
    } else {
        run_from(resource_entries(doc), 0, exists, oks)
    }
}

/// Outside work that the resource check asks for next.
pub enum ResourceOp {
    /// Tell whether the file at this path exists.
    FileExists(String),
    /// Download the resource at `index` of the `resources` section into `path`;
    /// its URL is that entry's value, written out as JSON text.
    Download { path: String, index: usize },
    /// The check is over; `failed` tells whether it found a problem.
    Finish { failed: bool },
}

/// What came of the outside work.
pub enum ResourceEvent {
    Exists(bool),
    Downloaded(Result<(), String>),
}

pub struct ResourceStep {
    pub messages: Vec<Message>,
    pub op: ResourceOp,
}

#[derive(Clone, Copy, PartialEq, Eq, Structural, Debug)]
pub enum ResourceStage {
    Exists,
    Download,
    Finished,
}

/// The resource check in progress: the manifest, the entry of `resources`
/// at hand, and what the check waits for.
pub struct ResourceCheck {
    pub doc: JsonValue,
    pub index: usize,
    pub stage: ResourceStage,
    /// Once the check is over: whether it found a problem.
    pub failed: bool,
}

impl ResourceCheck {
    pub open spec fn wf(self) -> bool {
        self.stage != ResourceStage::Finished ==> self.index < resource_entries(self.doc).len()
    }

    /// Whether the check, from where it stands, ends failed, with the outside
    /// answers `exists` and `oks`.
    pub open spec fn outcome(self, exists: Seq<bool>, oks: Seq<bool>) -> bool {
        match self.stage {
            ResourceStage::Finished => self.failed,
            ResourceStage::Exists => run_from(resource_entries(self.doc), self.index as nat, exists, oks),
            ResourceStage::Download => if oks[self.index as int] {
                run_from(resource_entries(self.doc), (self.index + 1) as nat, exists, oks)
            } else {
                true
            },
        }
    }

    /// Whether `event` is the answer that `exists` and `oks` give to what the
    /// check waits for.
    pub open spec fn answers(self, event: ResourceEvent, exists: Seq<bool>, oks: Seq<bool>) -> bool {
        match self.stage {
            ResourceStage::Exists => event matches ResourceEvent::Exists(b) && b == exists[self.index as int],
            ResourceStage::Download =>
                event matches ResourceEvent::Downloaded(r) && (r is Ok) == oks[self.index as int],
            ResourceStage::Finished => false,
        }
    }

    pub open spec fn fits(self, event: ResourceEvent) -> bool {
        match self.stage {
            ResourceStage::Exists => event is Exists,
            ResourceStage::Download => event is Downloaded,
            ResourceStage::Finished => false,
        }
    }

    fn resources_len(&self) -> (n: usize)
        ensures
            n == resource_entries(self.doc).len(),
    {
        match self.doc.get_section("resources") {
            Some(entries) => entries.len(),
            None => 0,
        }
    }

    /// The value recorded for the resource at `index`: what its download
    /// fetches, written out as JSON text.
    pub fn url_value(&self, index: usize) -> (v: &JsonValue)
        requires
            index < resource_entries(self.doc).len(),
        ensures
            *v == resource_entries(self.doc)[index as int].1,
    {
        match self.doc.get_section("resources") {
            Some(entries) => &entries[index].1,
            None => {
                assert(false);
                &self.doc
            },
        }
    }

    /// The request for the entry at `self.index`, or the end of the check.
    fn visit(&mut self) -> (op: ResourceOp)
        requires
            old(self).stage != ResourceStage::Finished,
            old(self).index <= resource_entries(old(self).doc).len(),
        ensures
            final(self).doc == old(self).doc,
            final(self).index == old(self).index,
            final(self).wf(),
            final(self).stage == ResourceStage::Finished ==> op == (ResourceOp::Finish { failed: final(self).failed }),
            if old(self).index == resource_entries(old(self).doc).len() {
                final(self).stage == ResourceStage::Finished && op == (ResourceOp::Finish { failed: false })
            } else {
                &&& final(self).stage == ResourceStage::Exists
                &&& op is FileExists
                &&& op->FileExists_0@ == resource_path(resource_entries(old(self).doc)[old(self).index as int].0@)
            },
    {
        match self.doc.get_section("resources") {
            Some(entries) => {
                if self.index < entries.len() {
                    let path = concat2("resources/", entries[self.index].0.as_str());
                    self.stage = ResourceStage::Exists;
                    assert(path@ =~= resource_path(entries@[self.index as int].0@));
                    ResourceOp::FileExists(path)
                } else {
                    self.stage = ResourceStage::Finished;
                    self.failed = false;
                    ResourceOp::Finish { failed: false }
                }
            },
            None => {
                self.stage = ResourceStage::Finished;
                self.failed = false;
                ResourceOp::Finish { failed: false }
            },
        }
    }

    /// Starts the check on the parsed manifest (`JsonValue::Null` where it
    /// could not be read): a null manifest passes at once, a manifest whose
    /// sections have the wrong shape fails with the complaint on standard
    /// error, and otherwise the resources are visited in order.
    pub fn start(doc: JsonValue) -> (res: (ResourceCheck, ResourceStep))
        ensures
            res.0.doc == doc,
            res.0.wf(),
            res.0.stage == ResourceStage::Finished ==> res.1.op == (ResourceOp::Finish { failed: res.0.failed }),
            forall|exists: Seq<bool>, oks: Seq<bool>| #[trigger] res.0.outcome(exists, oks) == resource_outcome(doc, exists, oks),
            doc is Null ==> {
                &&& res.1.messages@.len() == 0
                &&& res.1.op == (ResourceOp::Finish { failed: false })
                &&& res.0.stage == ResourceStage::Finished
            },
            !(doc is Null) && sanitize_report(doc) is Some ==> {
                &&& notes(res.1.messages@) == seq![(Channel::Stderr, sanitize_report(doc)->0)]
                &&& res.1.op == (ResourceOp::Finish { failed: true })
                &&& res.0.stage == ResourceStage::Finished
            },
            !(doc is Null) && sanitize_report(doc) is None ==> {
                &&& res.1.messages@.len() == 0
                &&& res.0.index == 0
                &&& if resource_entries(doc).len() == 0 {
                    res.0.stage == ResourceStage::Finished && res.1.op == (ResourceOp::Finish { failed: false })
                } else {
                    &&& res.0.stage == ResourceStage::Exists
                    &&& res.1.op is FileExists
                    &&& res.1.op->FileExists_0@ == resource_path(resource_entries(doc)[0].0@)
                }
            },
    {
        let mut messages: Vec<Message> = Vec::new();
        match doc {
            JsonValue::Null => {
                let check = ResourceCheck { doc, index: 0, stage: ResourceStage::Finished, failed: false };
                (check, ResourceStep { messages, op: ResourceOp::Finish { failed: false } })
            },
            _ => {
                let report = json_is_sanitized(&doc);
                match report {
                    Some(text) => {
                        let ghost t = text@;
                        messages.push(Message { channel: Channel::Stderr, text });
                        assert(notes(messages@) =~= seq![(Channel::Stderr, t)]);
                        let check = ResourceCheck { doc, index: 0, stage: ResourceStage::Finished, failed: true };
                        (check, ResourceStep { messages, op: ResourceOp::Finish { failed: true } })
                    },
                    None => {
                        let mut check = ResourceCheck { doc, index: 0, stage: ResourceStage::Exists, failed: false };
                        let op = check.visit();
                        (check, ResourceStep { messages, op })
                    },
                }
            },
        }
    }

    /// Takes what came of the requested work: an existing resource, or one
    /// downloaded, moves the check to the next entry; a missing one is
    /// downloaded; a failed download ends the check with its error.
    pub fn on_event(&mut self, event: ResourceEvent) -> (step: ResourceStep)
        requires
            old(self).wf(),
            old(self).fits(event),
        ensures
            final(self).doc == old(self).doc,
            final(self).wf(),
            final(self).stage == ResourceStage::Finished ==> step.op == (ResourceOp::Finish { failed: final(self).failed }),
            forall|exists: Seq<bool>, oks: Seq<bool>| old(self).answers(event, exists, oks)
                ==> #[trigger] final(self).outcome(exists, oks) == old(self).outcome(exists, oks),
            match event {
                ResourceEvent::Exists(false) => {
                    &&& step.messages@.len() == 0
                    &&& final(self).stage == ResourceStage::Download
                    &&& final(self).index == old(self).index
                    &&& step.op is Download
                    &&& step.op->index == old(self).index
                    &&& step.op->path@ == resource_path(resource_entries(old(self).doc)[old(self).index as int].0@)
                },
                ResourceEvent::Downloaded(Err(e)) => {
                    &&& notes(step.messages@) == seq![(Channel::Stderr, msg_download_failed(e@))]
                    &&& final(self).stage == ResourceStage::Finished
                    &&& step.op == (ResourceOp::Finish { failed: true })
                },
                _ => {
                    &&& step.messages@.len() == 0
                    &&& final(self).index == old(self).index + 1
                    &&& if final(self).index == resource_entries(old(self).doc).len() {
                        final(self).stage == ResourceStage::Finished && step.op == (ResourceOp::Finish { failed: false })
                    } else {
                        &&& final(self).stage == ResourceStage::Exists
                        &&& step.op is FileExists
                        &&& step.op->FileExists_0@ == resource_path(resource_entries(old(self).doc)[final(self).index as int].0@)
                    }
                },
            },
    {
        let ghost before = *self;
        let ghost ev = event;
        let mut messages: Vec<Message> = Vec::new();
        let step = match event {
            ResourceEvent::Exists(false) => {
                match self.doc.get_section("resources") {
                    Some(entries) => {
                        let path = concat2("resources/", entries[self.index].0.as_str());
                        assert(path@ =~= resource_path(entries@[self.index as int].0@));
                        self.stage = ResourceStage::Download;
                        ResourceStep { messages, op: ResourceOp::Download { path, index: self.index } }
                    },
                    None => {
                        // a check that waits always has a resource at hand
                        assert(resource_entries(self.doc).len() == 0);
                        self.stage = ResourceStage::Finished;
                        self.failed = false;
                        ResourceStep { messages, op: ResourceOp::Finish { failed: false } }
                    },
                }
            },
            ResourceEvent::Downloaded(Err(e)) => {
                let text = concat2("Download failed: ", e.as_str());
                let ghost t = text@;
                messages.push(Message { channel: Channel::Stderr, text });
                assert(t =~= msg_download_failed(e@));
                assert(notes(messages@) =~= seq![(Channel::Stderr, msg_download_failed(e@))]);
                self.stage = ResourceStage::Finished;
                self.failed = true;
                ResourceStep { messages, op: ResourceOp::Finish { failed: true } }
            },
            _ => {
                let n = self.resources_len();
                assert(self.index < n);
                self.index = self.index + 1;
                self.stage = ResourceStage::Exists;
                let op = self.visit();
                ResourceStep { messages, op }
            },
        };
        proof {
            let entries = resource_entries(before.doc);
            assert forall|exists: Seq<bool>, oks: Seq<bool>| before.answers(ev, exists, oks)
                implies #[trigger] self.outcome(exists, oks) == before.outcome(exists, oks) by {
                assert(before.index < entries.len());
                if before.stage == ResourceStage::Exists {
                    assert(run_from(entries, before.index as nat, exists, oks) == if exists[before.index as int]
                        || oks[before.index as int] {
                        run_from(entries, (before.index + 1) as nat, exists, oks)
                    } else {
                        true
                    });
                }
                if self.stage == ResourceStage::Finished && !self.failed {
                    assert(run_from(entries, self.index as nat, exists, oks) == false);
                }
            }
        }
        step
    }
}

/// A check from entry `i` on fails exactly when some missing resource from
/// `i` on cannot be downloaded.
pub proof fn lemma_run_from(entries: Seq<(String, JsonValue)>, i: nat, exists: Seq<bool>, oks: Seq<bool>)
    requires
        exists.len() >= entries.len(),
        oks.len() >= entries.len(),
    ensures
        run_from(entries, i, exists, oks)
            <==> (exists|k: int| i <= k < entries.len() && !exists[k] && !oks[k]),
    decreases entries.len() - i,
{
    if i < entries.len() {
        lemma_run_from(entries, i + 1, exists, oks);
        if !run_from(entries, i, exists, oks) {
            assert forall|k: int| i <= k < entries.len() implies !(!exists[k] && !oks[k]) by {
                if k == i {
                } else {
                    assert(i + 1 <= k);
                }
            }
        }
    }
}

/// The start-up check fails exactly when the manifest was read and either its
/// sections have the wrong shape or the download of some missing resource
/// fails; an unreadable manifest (`Null`) passes.
pub proof fn law_resource_check_outcome(doc: JsonValue, exists: Seq<bool>, oks: Seq<bool>)
    requires
        exists.len() >= resource_entries(doc).len(),
        oks.len() >= resource_entries(doc).len(),
    ensures
        resource_outcome(doc, exists, oks) <==> {
            &&& !(doc is Null)
            &&& (sanitize_report(doc) is Some || exists|k: int|
                0 <= k < resource_entries(doc).len() && !exists[k] && !oks[k])
        },
{
    lemma_run_from(resource_entries(doc), 0, exists, oks);
}

/// The start-up check looks at every entry of the `resources` section, in
/// order: it fails exactly when the manifest was read and either its sections
/// have the wrong shape or some entry of the section is missing and its
/// download fails, whichever entry that is.
pub proof fn law_each_resource_is_checked(doc: JsonValue, section: Seq<(String, JsonValue)>, exists: Seq<bool>, oks: Seq<bool>)
    requires
        doc.section("resources"@) == Some(section),
        exists.len() >= section.len(),
        oks.len() >= section.len(),
    ensures
        resource_outcome(doc, exists, oks) <==> {
            &&& !(doc is Null)
            &&& (sanitize_report(doc) is Some || exists|k: int|
                0 <= k < section.len() && !exists[k] && !oks[k])
        },
{
    law_resource_check_outcome(doc, exists, oks);
}

} // verus!
