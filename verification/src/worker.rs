//! The transcription worker's decisions: keeping the loaded engine across
//! requests while the configured model stays the same, and turning the
//! outcome of a transcription into the event the user interface receives.
//! The engine type is left open: the worker only keeps and hands it back.

use vstd::prelude::*;
use crate::config::{build_model_config, model_key, model_key_of, names_model, AppConfig, WhisperModelConfig};
use crate::error::AppError;
use crate::text::{is_blank, is_blank_str};

verus! {

broadcast use vstd::string::group_string_axioms;

/// The text of an optional key.
pub open spec fn key_text(k: Option<String>) -> Option<Seq<char>> {
    match k {
        Some(s) => Some(s@),
        None => None,
    }
}

/// The engine kept for a request whose model key is `key`: the cached one
/// when the key is unchanged, none otherwise.
pub open spec fn kept_engine<E>(last_key: Option<Seq<char>>, cached: Option<E>, key: Seq<char>) -> Option<E> {
    if last_key == Some(key) {
        cached
    } else {
        None
    }
}

/// What the worker holds, as plain values: the kept engine and the model key.
pub open spec fn worker_view<E>(w: TranscriptionWorker<E>) -> (Option<E>, Option<Seq<char>>) {
    (w.cached_engine, key_text(w.last_model_key))
}

/// The engine handed out for a request with model key `key`.
pub open spec fn handed_engine<E>(v: (Option<E>, Option<Seq<char>>), key: Seq<char>) -> Option<E> {
    kept_engine(v.1, v.0, key)
}

/// What the worker holds after preparing a request with model key `key`:
/// the engine is handed out when the configuration names a model, and
/// otherwise kept only if the key is unchanged.
pub open spec fn begun_view<E>(v: (Option<E>, Option<Seq<char>>), key: Seq<char>, valid: bool) -> (
    Option<E>,
    Option<Seq<char>>,
) {
    if valid {
        (None, Some(key))
    } else {
        (kept_engine(v.1, v.0, key), Some(key))
    }
}

/// What the worker holds after the clipboard step of a request that
/// produced `engine`: the engine is kept when the text was copied.
pub open spec fn copied_view<E>(v: (Option<E>, Option<Seq<char>>), engine: E, copied: bool) -> (
    Option<E>,
    Option<Seq<char>>,
) {
    if copied {
        (Some(engine), v.1)
    } else {
        v
    }
}

/// The worker's state: the engine kept from the last successful request and
/// the model key it was loaded for.
pub struct TranscriptionWorker<E> {
    pub cached_engine: Option<E>,
    pub last_model_key: Option<String>,
}

/// How running the engine went.
pub enum RunOutcome<E> {
    /// The engine produced this text and is handed back.
    Transcribed { engine: E, text: String },
    /// The engine failed with this description.
    Failed(String),
    /// The engine's task died with this description.
    Panicked(String),
}

/// What follows a run.
pub enum RunDecision<E> {
    /// Copy the text to the clipboard, then report with `clipboard_done`.
    CopyToClipboard { engine: E, text: String },
    /// Announce this error; the engine, if any, is dropped.
    ReportError(AppError),
}

/// The message of the error for a transcription without text.
pub open spec fn empty_result_message() -> Seq<char> {
    "Пустой результат расшифровки"@
}

/// What follows a run: non-blank text goes to the clipboard with its engine,
/// blank text is the `INFERENCE_EMPTY` error, an engine failure the
/// `INFERENCE` error and a dead task the `INFERENCE_PANIC` error, each with
/// the failure's description.
pub open spec fn decision_ok<E>(outcome: RunOutcome<E>, d: RunDecision<E>) -> bool {
    match outcome {
        RunOutcome::Transcribed { engine, text } => if is_blank(text@) {
            d matches RunDecision::ReportError(e) && e.is("INFERENCE_EMPTY"@, empty_result_message())
        } else {
            d matches RunDecision::CopyToClipboard { engine: e2, text: t2 } && e2 == engine && t2
                == text
        },
        RunOutcome::Failed(m) => d matches RunDecision::ReportError(e) && e.is("INFERENCE"@, m@),
        RunOutcome::Panicked(m) => d matches RunDecision::ReportError(e) && e.is(
            "INFERENCE_PANIC"@,
            m@,
        ),
    }
}

/// Decides what follows a run of the engine.
pub fn decide_after_run<E>(outcome: RunOutcome<E>) -> (res: RunDecision<E>)
    ensures
        decision_ok(outcome, res),
{
    match outcome {
        RunOutcome::Transcribed { engine, text } => {
            if is_blank_str(text.as_str()) {
                RunDecision::ReportError(
                    AppError::new("INFERENCE_EMPTY", "Пустой результат расшифровки"),
                )
            } else {
                RunDecision::CopyToClipboard { engine, text }
            }
        },
        RunOutcome::Failed(m) => RunDecision::ReportError(AppError::new("INFERENCE", m.as_str())),
        RunOutcome::Panicked(m) => RunDecision::ReportError(
            AppError::new("INFERENCE_PANIC", m.as_str()),
        ),
    }
}

/// An announced event as plain values: whether it is
/// `transcription:success`, then the error code (empty for a success), then
/// the text or the error message.
pub type EventView = (bool, Seq<char>, Seq<char>);

/// The `transcription:error` event for an error.
pub open spec fn failure_view(e: AppError) -> EventView {
    (false, e.code@, e.message@)
}

/// The event that an outcome of a request step announces, when it announces
/// one: `Ok` is the success with its text, `Err` the error.
pub open spec fn result_view(r: Result<String, AppError>) -> EventView {
    match r {
        Ok(t) => (true, Seq::<char>::empty(), t@),
        Err(e) => failure_view(e),
    }
}

/// `res` is what preparing a request under `config` gives: the way on when
/// the configuration names a model, else the `MODEL_CONFIG` error.
pub open spec fn begin_outcome_ok<E>(config: AppConfig, res: Result<(WhisperModelConfig, Option<E>), AppError>) -> bool {
    &&& res is Ok <==> names_model(config)
    &&& res matches Err(e) ==> e.is("MODEL_CONFIG"@, "Не заданы URL, SHA256 или имя файла модели"@)
}

/// `res` is what the clipboard step gives for `text` copied with `copied`.
pub open spec fn clipboard_outcome_ok(text: String, copied: Result<(), AppError>, res: Result<String, AppError>) -> bool {
    match copied {
        Ok(()) => res == Ok::<String, AppError>(text),
        Err(e) => res == Err::<String, AppError>(e),
    }
}

/// The events announced along the steps of one request: the error of
/// preparing it, else the error decided after the run, else the outcome of
/// the clipboard step.
pub open spec fn emitted<E>(
    b: Result<(WhisperModelConfig, Option<E>), AppError>,
    d: RunDecision<E>,
    c: Result<String, AppError>,
) -> Seq<EventView> {
    match b {
        Err(e) => seq![failure_view(e)],
        Ok(_) => match d {
            RunDecision::ReportError(e) => seq![failure_view(e)],
            RunDecision::CopyToClipboard { engine: _, text: _ } => seq![result_view(c)],
        },
    }
}

/// The events one request announces, from its configuration, the outcome of
/// running the engine and the outcome of copying the text.
pub open spec fn request_events<E>(config: AppConfig, outcome: RunOutcome<E>, copied: Result<(), AppError>) -> Seq<EventView> {
    if !names_model(config) {
        seq![(false, "MODEL_CONFIG"@, "Не заданы URL, SHA256 или имя файла модели"@)]
    } else {
        match outcome {
            RunOutcome::Transcribed { engine: _, text } => if is_blank(text@) {
                seq![(false, "INFERENCE_EMPTY"@, empty_result_message())]
            } else {
                match copied {
                    Ok(()) => seq![(true, Seq::<char>::empty(), text@)],
                    Err(e) => seq![failure_view(e)],
                }
            },
            RunOutcome::Failed(m) => seq![(false, "INFERENCE"@, m@)],
            RunOutcome::Panicked(m) => seq![(false, "INFERENCE_PANIC"@, m@)],
        }
    }
}

impl<E> TranscriptionWorker<E> {
    /// A worker with no engine loaded.
    pub fn new() -> (res: TranscriptionWorker<E>)
        ensures
            res.cached_engine is None,
            res.last_model_key is None,
    {
        TranscriptionWorker { cached_engine: None, last_model_key: None }
    }

    /// Prepares a request under `config`: a changed model key discards the
    /// kept engine; then either the model description and the engine to
    /// reuse (which the worker no longer keeps), or the error for a
    /// configuration that names no model.
    pub fn begin(&mut self, config: &AppConfig) -> (res: Result<(WhisperModelConfig, Option<E>), AppError>)
        ensures
            worker_view(*final(self)) == begun_view(worker_view(*old(self)), model_key_of(*config), names_model(*config)),
            key_text(final(self).last_model_key) == Some(model_key_of(*config)),
            res is Ok <==> names_model(*config),
            begin_outcome_ok(*config, res),
            res matches Ok(r) ==> {
                &&& r.1 == kept_engine(key_text(old(self).last_model_key), old(self).cached_engine, model_key_of(*config))
                &&& final(self).cached_engine is None
                &&& r.0.name@ == config.model@ && r.0.url@ == config.model_url@
                &&& r.0.sha256@ == config.model_sha256@ && r.0.filename@ == config.model_filename@
            },
            res matches Err(e) ==> {
                &&& e.is("MODEL_CONFIG"@, "Не заданы URL, SHA256 или имя файла модели"@)
                &&& final(self).cached_engine == kept_engine(key_text(old(self).last_model_key), old(self).cached_engine, model_key_of(*config))
            },
    {
        let key = model_key(config);
        let same = match &self.last_model_key {
            Some(last) => *last == key,
            None => false,
        };
        if !same {
            self.cached_engine = None;
            self.last_model_key = Some(key);
        }
        match build_model_config(config) {
            Err(e) => Err(e),
            Ok(model) => {
                let engine = self.cached_engine.take();
                Ok((model, engine))
            },
        }
    }

    /// Takes the outcome of copying `text` to the clipboard: on success the
    /// engine is kept for the next request and the text is announced;
    /// otherwise the clipboard error is announced and the engine dropped.
    pub fn clipboard_done(&mut self, engine: E, text: String, copied: Result<(), AppError>) -> (res: Result<String, AppError>)
        ensures
            worker_view(*final(self)) == copied_view(worker_view(*old(self)), engine, copied is Ok),
            clipboard_outcome_ok(text, copied, res),
            final(self).last_model_key == old(self).last_model_key,
            copied is Ok ==> res == Ok::<String, AppError>(text) && final(self).cached_engine == Some(engine),
            copied matches Err(e) ==> res == Err::<String, AppError>(e) && final(self).cached_engine == old(self).cached_engine,
    {
        match copied {
            Ok(()) => {
                self.cached_engine = Some(engine);
                Ok(text)
            },
            Err(e) => Err(e),
        }
    }
}

/// The engine is only reused for the model it was loaded for: a request
/// whose model key differs from the last one never gets the kept engine,
/// and one with the same key gets exactly the kept engine.
pub proof fn engine_reused_only_for_same_model<E>(last_key: Option<Seq<char>>, cached: Option<E>, key: Seq<char>)
    ensures
        last_key != Some(key) ==> kept_engine(last_key, cached, key) is None,
        last_key == Some(key) ==> kept_engine(last_key, cached, key) == cached,
{
}

/// Blank text is never copied to the clipboard, and an engine is handed on
/// to be kept only with non-blank text.
pub proof fn blank_text_is_never_copied<E>(outcome: RunOutcome<E>, d: RunDecision<E>)
    requires
        decision_ok(outcome, d),
    ensures
        d matches RunDecision::CopyToClipboard { engine: _, text: t } ==> !is_blank(t@),
{
}

/// Two consecutive requests: the second reuses the engine of the first
/// (without loading one) exactly when both have the same model key and the
/// first ended with its text copied; otherwise it gets no engine and loads
/// one. When the first request's configuration named no model, the second
/// gets the engine kept before the first exactly when all three keys agree.
pub proof fn engine_reuse_across_requests<E>(
    start: (Option<E>, Option<Seq<char>>),
    k1: Seq<char>,
    k2: Seq<char>,
    e: E,
    copied: bool,
)
    ensures
        handed_engine(copied_view(begun_view(start, k1, true), e, copied), k2) == (if copied && k1
            == k2 {
            Some(e)
        } else {
            None
        }),
        handed_engine(begun_view(start, k1, false), k2) == (if k1 == k2 && start.1 == Some(k1) {
            start.0
        } else {
            None
        }),
{
}

/// One event per request: whatever the configuration, the outcome of the
/// run and the outcome of copying, the steps `begin`, `decide_after_run` and
/// `clipboard_done` announce exactly one event, the one `request_events`
/// gives; it is `transcription:success` with the text exactly when the
/// configuration names a model, the engine produced non-blank text and it
/// was copied.
pub proof fn one_event_per_request<E>(
    config: AppConfig,
    outcome: RunOutcome<E>,
    copied: Result<(), AppError>,
    b: Result<(WhisperModelConfig, Option<E>), AppError>,
    d: RunDecision<E>,
    c: Result<String, AppError>,
)
    requires
        begin_outcome_ok(config, b),
        decision_ok(outcome, d),
        d matches RunDecision::CopyToClipboard { engine: _, text } ==> clipboard_outcome_ok(
            text,
            copied,
            c,
        ),
    ensures
        emitted(b, d, c) == request_events(config, outcome, copied),
        request_events(config, outcome, copied).len() == 1,
        request_events(config, outcome, copied)[0].0 <==> (names_model(config) && copied is Ok
            && (outcome matches RunOutcome::Transcribed { engine: _, text } && !is_blank(text@))),
{
    reveal_strlit("MODEL_CONFIG");
    reveal_strlit("INFERENCE_EMPTY");
    reveal_strlit("INFERENCE");
    reveal_strlit("INFERENCE_PANIC");
}

} // verus!
