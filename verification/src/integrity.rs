//! What both file checks share: the messages they emit, the entries of
//! `core_files` they read, and the outside work they ask for.
use vstd::prelude::*;
use crate::json::JsonValue;
use crate::text::{concat3, concat5};

verus! {

/// Where a message goes.
#[derive(Clone, Copy, PartialEq, Eq, Structural, Debug)]
pub enum Channel {
    /// Printed on standard output and shown as the window's result text.
    Display,
    /// Printed on standard output.
    Stdout,
    /// Printed on standard error.
    Stderr,
    /// Shown as the window's result text only.
    Status,
}

/// A line of text for the user.
#[derive(Debug)]
pub struct Message {
    pub channel: Channel,
    pub text: String,
}

impl View for Message {
    type V = (Channel, Seq<char>);

    open spec fn view(&self) -> (Channel, Seq<char>) {
        (self.channel, self.text@)
    }
}

/// The messages `ms`, each by its channel and text.
pub open spec fn notes(ms: Seq<Message>) -> Seq<(Channel, Seq<char>)> {
    ms.map_values(|m: Message| m@)
}

pub proof fn lemma_notes_push(ms: Seq<Message>, m: Message)
    ensures
        notes(ms.push(m)) == notes(ms).push(m@),
{
    assert(notes(ms.push(m)) =~= notes(ms).push(m@));
}

pub fn display(text: String) -> (m: Message)
    ensures
        m@ == (Channel::Display, text@),
{
    Message { channel: Channel::Display, text }
}

/// The text of a JSON string value, or the empty text for any other value
/// (what `as_str().unwrap_or("")` gives).
pub open spec fn text_or_empty(v: JsonValue) -> Seq<char> {
    match v {
        JsonValue::String(s) => s@,
        _ => Seq::empty(),
    }
}

pub fn text_or_empty_exec(v: &JsonValue) -> (res: String)
    ensures
        res@ == text_or_empty(*v),
{
    match v {
        JsonValue::String(s) => s.clone(),
        _ => String::new(),
    }
}

/// How an entry of `core_files` reads.
pub enum CoreEntry {
    /// The value is not an array.
    NotArray,
    /// The value is an array whose length is not two.
    WrongSize,
    /// The value is an array of two: the recorded hash and the download URL
    /// (each the empty text where it is not a string).
    Pair { hash: String, url: String },
}

pub fn classify_core_entry(v: &JsonValue) -> (res: CoreEntry)
    ensures
        match res {
            CoreEntry::NotArray => !(*v is Array),
            CoreEntry::WrongSize => *v is Array && v->Array_0@.len() != 2,
            CoreEntry::Pair { hash, url } => {
                &&& *v is Array
                &&& v->Array_0@.len() == 2
                &&& hash@ == text_or_empty(v->Array_0@[0])
                &&& url@ == text_or_empty(v->Array_0@[1])
            },
        },
{
    match v {
        JsonValue::Array(items) => {
            if items.len() == 2 {
                let hash = text_or_empty_exec(&items[0]);
                let url = text_or_empty_exec(&items[1]);
                CoreEntry::Pair { hash, url }
            } else {
                CoreEntry::WrongSize
            }
        },
        _ => CoreEntry::NotArray,
    }
}

/// A core file under check: its name in the manifest, its recorded hash, where
/// to download it, and its path on disk.
pub struct Target {
    pub file: String,
    pub hash: String,
    pub url: String,
    pub path: String,
}

/// The entries of the manifest's `core_files` section (none where it is
/// missing or not an object).
pub open spec fn core_entries(doc: JsonValue) -> Seq<(String, JsonValue)> {
    match doc.section("core_files"@) {
        Some(e) => e,
        None => Seq::empty(),
    }
}

/// The path of `file` under the directory `base`.
pub open spec fn join_path(base: Seq<char>, file: Seq<char>) -> Seq<char> {
    base + "/"@ + file
}

/// The target that the pair entry `entry` of a manifest names, under `base`.
pub open spec fn target_matches(t: Target, entry: (String, JsonValue), base: Seq<char>) -> bool {
    &&& entry.1 is Array
    &&& entry.1->Array_0@.len() == 2
    &&& t.file@ == entry.0@
    &&& t.hash@ == text_or_empty(entry.1->Array_0@[0])
    &&& t.url@ == text_or_empty(entry.1->Array_0@[1])
    &&& t.path@ == join_path(base, entry.0@)
}

pub fn make_target(file: &String, hash: String, url: String, base: &String) -> (t: Target)
    ensures
        t.file@ == file@,
        t.hash@ == hash@,
        t.url@ == url@,
        t.path@ == join_path(base@, file@),
{
    let path = concat3(base.as_str(), "/", file.as_str());
    Target { file: file.clone(), hash, url, path }
}

/// Outside work that a check asks for next.
pub enum CheckOp {
    /// Read and parse `resources/hashmap.json`.
    ReadManifest,
    /// Tell whether the file at this path exists.
    FileExists(String),
    /// Download `url` into `path`, with retries.
    Download { url: String, path: String },
    /// Read the whole file at this path.
    ReadFile(String),
    /// Delete the file at this path.
    RemoveFile(String),
    /// Nothing more: the check is over.
    Done,
}

/// What came of the outside work that a check asked for.
pub enum CheckEvent {
    /// The parsed manifest, or nothing where the file could not be read.
    Manifest(Option<JsonValue>),
    /// Whether the file exists.
    Exists(bool),
    /// Whether the download failed after all its attempts.
    Downloaded { failed: bool },
    /// The file's content, or nothing where it could not be opened.
    Content(Option<Vec<u8>>),
    /// Whether the file was deleted.
    Removed { ok: bool },
}

/// Where a check stands, that is, what it waits for.
#[derive(Clone, Copy, PartialEq, Eq, Structural, Debug)]
pub enum Stage {
    Manifest,
    Exists,
    FirstDownload,
    Content,
    Remove,
    Redownload,
    Finished,
}

/// Whether `event` answers what a check in `stage` waits for.
pub open spec fn event_fits(stage: Stage, event: CheckEvent) -> bool {
    match stage {
        Stage::Manifest => event is Manifest,
        Stage::Exists => event is Exists,
        Stage::FirstDownload => event is Downloaded,
        Stage::Content => event is Content,
        Stage::Remove => event is Removed,
        Stage::Redownload => event is Downloaded,
        Stage::Finished => false,
    }
}

/// The outside work that a check in `stage`, on target `t`, asks for.
pub open spec fn op_matches(op: CheckOp, stage: Stage, t: Target) -> bool {
    match stage {
        Stage::Manifest => op is ReadManifest,
        Stage::Exists => op is FileExists && op->FileExists_0@ == t.path@,
        Stage::FirstDownload | Stage::Redownload =>
            op is Download && op->url@ == t.url@ && op->path@ == t.path@,
        Stage::Content => op is ReadFile && op->ReadFile_0@ == t.path@,
        Stage::Remove => op is RemoveFile && op->RemoveFile_0@ == t.path@,
        Stage::Finished => op is Done,
    }
}

pub fn op_for(stage: Stage, t: &Target) -> (op: CheckOp)
    ensures
        op_matches(op, stage, *t),
{
    match stage {
        Stage::Manifest => CheckOp::ReadManifest,
        Stage::Exists => CheckOp::FileExists(t.path.clone()),
        Stage::FirstDownload | Stage::Redownload =>
            CheckOp::Download { url: t.url.clone(), path: t.path.clone() },
        Stage::Content => CheckOp::ReadFile(t.path.clone()),
        Stage::Remove => CheckOp::RemoveFile(t.path.clone()),
        Stage::Finished => CheckOp::Done,
    }
}

pub open spec fn msg_resource_missing() -> Seq<char> {
    "Resource file is missing."@
}

pub open spec fn msg_json_invalid() -> Seq<char> {
    "JSON isn't valid"@
}

pub open spec fn msg_not_array(file: Seq<char>) -> Seq<char> {
    "File "@ + file + " data in JSON are corrupted (not an array)"@
}

pub open spec fn msg_wrong_size(file: Seq<char>) -> Seq<char> {
    "File "@ + file + " data in JSON are corrupted (wrong array size)"@
}

pub open spec fn msg_download_failed(file: Seq<char>, url: Seq<char>) -> Seq<char> {
    "Unable to download "@ + file + " from "@ + url + "."@
}

pub open spec fn msg_downloaded_missing(file: Seq<char>, url: Seq<char>) -> Seq<char> {
    "File "@ + file + " didn't exist, downloaded from "@ + url + "."@
}

pub open spec fn msg_cannot_open(file: Seq<char>) -> Seq<char> {
    "File "@ + file + " couldn't be opened."@
}

pub open spec fn msg_correct(file: Seq<char>) -> Seq<char> {
    "File "@ + file + " is correct."@
}

pub open spec fn msg_cannot_delete(file: Seq<char>) -> Seq<char> {
    "Unable to delete "@ + file + "."@
}

pub fn resource_missing() -> (s: String)
    ensures
        s@ == msg_resource_missing(),
{
    String::from_str("Resource file is missing.")
}

pub fn json_invalid() -> (s: String)
    ensures
        s@ == msg_json_invalid(),
{
    String::from_str("JSON isn't valid")
}

pub fn not_array(file: &String) -> (s: String)
    ensures
        s@ == msg_not_array(file@),
{
    concat3("File ", file.as_str(), " data in JSON are corrupted (not an array)")
}

pub fn wrong_size(file: &String) -> (s: String)
    ensures
        s@ == msg_wrong_size(file@),
{
    concat3("File ", file.as_str(), " data in JSON are corrupted (wrong array size)")
}

pub fn download_failed(t: &Target) -> (s: String)
    ensures
        s@ == msg_download_failed(t.file@, t.url@),
{
    concat5("Unable to download ", t.file.as_str(), " from ", t.url.as_str(), ".")
}

pub fn downloaded_missing(t: &Target) -> (s: String)
    ensures
        s@ == msg_downloaded_missing(t.file@, t.url@),
{
    concat5("File ", t.file.as_str(), " didn't exist, downloaded from ", t.url.as_str(), ".")
}

pub fn cannot_open(t: &Target) -> (s: String)
    ensures
        s@ == msg_cannot_open(t.file@),
{
    concat3("File ", t.file.as_str(), " couldn't be opened.")
}

pub fn correct(t: &Target) -> (s: String)
    ensures
        s@ == msg_correct(t.file@),
{
    concat3("File ", t.file.as_str(), " is correct.")
}

pub fn cannot_delete(t: &Target) -> (s: String)
    ensures
        s@ == msg_cannot_delete(t.file@),
{
    concat3("Unable to delete ", t.file.as_str(), ".")
}

/// What each stage asks for, spelled out: the target's path to test, read or
/// delete, and its recorded URL to download into its path, whether the file
/// was missing or wrong.
pub proof fn law_requests_by_stage(op: CheckOp, stage: Stage, t: Target)
    requires
        op_matches(op, stage, t),
    ensures
        stage == Stage::Manifest ==> op is ReadManifest,
        stage == Stage::Exists ==> (op matches CheckOp::FileExists(p) && p@ == t.path@),
        (stage == Stage::FirstDownload || stage == Stage::Redownload) ==> (op matches CheckOp::Download { url, path }
            && url@ == t.url@ && path@ == t.path@),
        stage == Stage::Content ==> (op matches CheckOp::ReadFile(p) && p@ == t.path@),
        stage == Stage::Remove ==> (op matches CheckOp::RemoveFile(p) && p@ == t.path@),
        stage == Stage::Finished ==> op is Done,
{
}

/// A target taken from a `core_files` entry: its path is the file's name
/// under the directory, its hash the first value of the pair and its URL the
/// second (each the empty text where it is not a string).
pub proof fn law_target_from_entry(t: Target, entry: (String, JsonValue), base: Seq<char>)
    requires
        target_matches(t, entry, base),
    ensures
        t.file@ == entry.0@,
        t.path@ == base + "/"@ + entry.0@,
        entry.1 is Array && entry.1->Array_0@.len() == 2,
        t.hash@ == (match entry.1->Array_0@[0] {
            JsonValue::String(s) => s@,
            _ => Seq::<char>::empty(),
        }),
        t.url@ == (match entry.1->Array_0@[1] {
            JsonValue::String(s) => s@,
            _ => Seq::<char>::empty(),
        }),
{
}

} // verus!
