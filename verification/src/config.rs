//! Application configuration: its default, its use as a model description,
//! the key by which a loaded model is cached, and the bookkeeping that tells
//! the application's own writes of the configuration file from outside edits.

use vstd::prelude::*;
use crate::error::AppError;
use crate::text::{append_str, is_blank, is_blank_str};

verus! {

broadcast use vstd::string::group_string_axioms;

/// The user's configuration.
#[derive(Debug, Clone, PartialEq, Eq)]
pub struct AppConfig {
    pub model: String,
    pub model_url: String,
    pub model_sha256: String,
    pub model_filename: String,
    /// The hotkey that starts and stops recording, as text.
    pub record_hotkey: String,
}

impl Default for AppConfig {
    /// The `tiny` model, with no download location yet, recorded with the
    /// default hotkey.
    fn default() -> (res: AppConfig)
        ensures
            res.model@ == "tiny"@,
            res.model_url@ == Seq::<char>::empty(),
            res.model_sha256@ == Seq::<char>::empty(),
            res.model_filename@ == "whisper-tiny.bin"@,
            res.record_hotkey@ == "Cmd+Shift+V"@,
    {
        AppConfig {
            model: "tiny".to_string(),
            model_url: String::new(),
            model_sha256: String::new(),
            model_filename: "whisper-tiny.bin".to_string(),
            record_hotkey: default_record_hotkey(),
        }
    }
}

impl AppConfig {
    /// A field-by-field copy.
    pub fn duplicate(&self) -> (res: AppConfig)
        ensures
            res == *self,
    {
        AppConfig {
            model: self.model.clone(),
            model_url: self.model_url.clone(),
            model_sha256: self.model_sha256.clone(),
            model_filename: self.model_filename.clone(),
            record_hotkey: self.record_hotkey.clone(),
        }
    }
}

/// The recording hotkey used when none is configured.
pub fn default_record_hotkey() -> (res: String)
    ensures
        res@ == "Cmd+Shift+V"@,
{
    "Cmd+Shift+V".to_string()
}

/// The fields of a configuration update sent by the user interface.
#[derive(Debug, Clone)]
pub struct UpdateConfigPayload {
    pub model: String,
    pub model_url: String,
    pub model_sha256: String,
    pub model_filename: String,
}

/// The configuration carried by a `config:updated` event.
#[derive(Debug, Clone)]
pub struct ConfigUpdatedPayload {
    pub config: AppConfig,
}

/// The configuration that an update request asks for; the request does not
/// carry a hotkey, so the one configured so far is kept.
pub fn config_from_payload(payload: UpdateConfigPayload, record_hotkey: String) -> (res: AppConfig)
    ensures
        res.model == payload.model,
        res.model_url == payload.model_url,
        res.model_sha256 == payload.model_sha256,
        res.model_filename == payload.model_filename,
        res.record_hotkey == record_hotkey,
{
    AppConfig {
        model: payload.model,
        model_url: payload.model_url,
        model_sha256: payload.model_sha256,
        model_filename: payload.model_filename,
        record_hotkey,
    }
}

/// Where and under which name a Whisper model is fetched, and its digest.
#[derive(Debug, Clone)]
pub struct WhisperModelConfig {
    pub name: String,
    pub url: String,
    pub sha256: String,
    pub filename: String,
}

/// A configuration names a model only when its URL, digest and file name
/// are not blank.
pub open spec fn names_model(config: AppConfig) -> bool {
    !is_blank(config.model_url@) && !is_blank(config.model_sha256@) && !is_blank(
        config.model_filename@,
    )
}

/// The model description of a configuration, or the `MODEL_CONFIG` error
/// when its URL, digest or file name is blank.
pub fn build_model_config(config: &AppConfig) -> (res: Result<WhisperModelConfig, AppError>)
    ensures
        res is Ok <==> names_model(*config),
        res matches Ok(m) ==> m.name@ == config.model@ && m.url@ == config.model_url@
            && m.sha256@ == config.model_sha256@ && m.filename@ == config.model_filename@,
        res matches Err(e) ==> e.is(
            "MODEL_CONFIG"@,
            "Не заданы URL, SHA256 или имя файла модели"@,
        ),
{
    if is_blank_str(config.model_url.as_str()) || is_blank_str(config.model_sha256.as_str())
        || is_blank_str(config.model_filename.as_str()) {
        return Err(
            AppError::new("MODEL_CONFIG", "Не заданы URL, SHA256 или имя файла модели"),
        );
    }
    Ok(
        WhisperModelConfig {
            name: config.model.clone(),
            url: config.model_url.clone(),
            sha256: config.model_sha256.clone(),
            filename: config.model_filename.clone(),
        },
    )
}

/// The separator between the fields of a model key.
pub open spec fn key_separator() -> Seq<char> {
    seq!['|']
}

/// The cache key of a configuration: its four fields joined by `|`.
pub open spec fn model_key_of(config: AppConfig) -> Seq<char> {
    config.model@ + key_separator() + config.model_url@ + key_separator() + config.model_sha256@
        + key_separator() + config.model_filename@
}

/// The key under which the engine for this configuration is cached.
pub fn model_key(config: &AppConfig) -> (res: String)
    ensures
        res@ == model_key_of(*config),
{
    let mut key = config.model.clone();
    append_str(&mut key, "|");
    append_str(&mut key, config.model_url.as_str());
    append_str(&mut key, "|");
    append_str(&mut key, config.model_sha256.as_str());
    append_str(&mut key, "|");
    append_str(&mut key, config.model_filename.as_str());
    proof {
        reveal_strlit("|");
    }
    key
}

/// No `|` occurs in `s`.
pub open spec fn free_of_separator(s: Seq<char>) -> bool {
    forall|i: int| 0 <= i < s.len() ==> s[i] != '|'
}

proof fn lemma_split_at_separator(x1: Seq<char>, y1: Seq<char>, x2: Seq<char>, y2: Seq<char>)
    requires
        free_of_separator(x1),
        free_of_separator(x2),
        x1 + key_separator() + y1 == x2 + key_separator() + y2,
    ensures
        x1 == x2,
        y1 == y2,
{
    let l = x1 + key_separator() + y1;
    let r = x2 + key_separator() + y2;
    if x1.len() < x2.len() {
        assert(l[x1.len() as int] == '|');
        assert(r[x1.len() as int] == x2[x1.len() as int]);
    } else if x2.len() < x1.len() {
        assert(r[x2.len() as int] == '|');
        assert(l[x2.len() as int] == x1[x2.len() as int]);
    } else {
        assert forall|i: int| 0 <= i < x1.len() implies x1[i] == x2[i] by {
            assert(l[i] == r[i]);
        }
        assert(x1 == x2);
        assert(l.len() == r.len());
        assert(y1.len() == y2.len());
        assert forall|i: int| 0 <= i < y1.len() implies y1[i] == y2[i] by {
            assert(l[x1.len() + 1 + i] == r[x1.len() + 1 + i]);
            assert(l[x1.len() + 1 + i] == y1[i]);
            assert(r[x1.len() + 1 + i] == y2[i]);
        }
        assert(y1 == y2);
    }
}

/// Two configurations whose fields hold no `|` have the same cache key only
/// when they are equal field by field: a changed model is always noticed.
pub proof fn model_key_identifies_config(a: AppConfig, b: AppConfig)
    requires
        free_of_separator(a.model@),
        free_of_separator(a.model_url@),
        free_of_separator(a.model_sha256@),
        free_of_separator(b.model@),
        free_of_separator(b.model_url@),
        free_of_separator(b.model_sha256@),
        model_key_of(a) == model_key_of(b),
    ensures
        a.model@ == b.model@,
        a.model_url@ == b.model_url@,
        a.model_sha256@ == b.model_sha256@,
        a.model_filename@ == b.model_filename@,
{
    let s = key_separator();
    let ra = a.model_url@ + s + a.model_sha256@ + s + a.model_filename@;
    let rb = b.model_url@ + s + b.model_sha256@ + s + b.model_filename@;
    assert(model_key_of(a) == a.model@ + s + ra);
    assert(model_key_of(b) == b.model@ + s + rb);
    lemma_split_at_separator(a.model@, ra, b.model@, rb);
    let qa = a.model_sha256@ + s + a.model_filename@;
    let qb = b.model_sha256@ + s + b.model_filename@;
    assert(ra == a.model_url@ + s + qa);
    assert(rb == b.model_url@ + s + qb);
    lemma_split_at_separator(a.model_url@, qa, b.model_url@, qb);
    lemma_split_at_separator(a.model_sha256@, a.model_filename@, b.model_sha256@, b.model_filename@);
}

/// What the configuration keeper holds: the current configuration and the
/// text it last wrote to the configuration file, if that write has not been
/// seen back yet.
pub struct ConfigState {
    pub config: AppConfig,
    pub last_written: Option<String>,
}

/// What a change of the configuration file amounts to.
#[derive(Debug, Clone, Copy, PartialEq, Eq, Structural)]
pub enum FileChange {
    /// The file holds what this application last wrote: nothing to do.
    OwnWrite,
    /// The file was changed from outside: its text is to be parsed.
    External,
}

/// The text last written, as a sequence of characters.
pub open spec fn written_text(w: Option<String>) -> Option<Seq<char>> {
    match w {
        Some(s) => Some(s@),
        None => None,
    }
}

/// How a file holding `contents` is classified while `last` is pending.
pub open spec fn change_kind(last: Option<String>, contents: Seq<char>) -> FileChange {
    if written_text(last) == Some(contents) {
        FileChange::OwnWrite
    } else {
        FileChange::External
    }
}

/// The pending write after a file holding `contents` was seen.
pub open spec fn pending_after(last: Option<String>, contents: Seq<char>) -> Option<String> {
    if written_text(last) == Some(contents) {
        None
    } else {
        last
    }
}

impl ConfigState {
    /// A keeper holding `config`, with no write pending.
    pub fn new(config: AppConfig) -> (res: ConfigState)
        ensures
            res.config == config,
            res.last_written is None,
    {
        ConfigState { config, last_written: None }
    }

    /// The current configuration.
    pub fn get(&self) -> (res: AppConfig)
        ensures
            res == self.config,
    {
        self.config.duplicate()
    }

    /// Records that `config` was written to the file as `text`.
    pub fn record_write(&mut self, config: AppConfig, text: String)
        ensures
            final(self).config == config,
            final(self).last_written == Some(text),
    {
        self.config = config;
        self.last_written = Some(text);
    }

    /// Classifies a change of the file whose new text is `contents`. A file
    /// that holds exactly the text last written is this application's own
    /// write: the pending write is then forgotten.
    pub fn observe_file(&mut self, contents: &str) -> (res: FileChange)
        ensures
            final(self).config == old(self).config,
            res == change_kind(old(self).last_written, contents@),
            final(self).last_written == pending_after(old(self).last_written, contents@),
    {
        let own = match &self.last_written {
            Some(last) => crate::text::str_eq(last.as_str(), contents),
            None => false,
        };
        if own {
            self.last_written = None;
            FileChange::OwnWrite
        } else {
            FileChange::External
        }
    }

    /// Takes the configuration parsed from an outside edit of the file.
    pub fn apply_external(&mut self, config: AppConfig)
        ensures
            final(self).config == config,
            final(self).last_written == old(self).last_written,
    {
        self.config = config;
    }
}

/// The application's own write is recognised once: after writing `text`,
/// finding `text` in the file is the own write and clears the pending write,
/// so that finding the same text again counts as an outside edit; finding any
/// other text is an outside edit and leaves the pending write in place.
pub proof fn own_write_is_recognised_once(text: String, contents: Seq<char>)
    ensures
        change_kind(Some(text), text@) == FileChange::OwnWrite,
        pending_after(Some(text), text@) is None,
        change_kind(pending_after(Some(text), text@), text@) == FileChange::External,
        contents != text@ ==> change_kind(Some(text), contents) == FileChange::External
            && pending_after(Some(text), contents) == Some(text),
{
}

} // verus!
