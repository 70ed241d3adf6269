use n501_tts_lite::audio::{
    hotkey_command, recording_after_hotkey, AudioAction, AudioCommand, AudioRecorder,
    StartReport, StopReport, StreamOutcome,
};
use n501_tts_lite::config::AppConfig;
use n501_tts_lite::error::AppError;
use n501_tts_lite::worker::{decide_after_run, RunDecision, RunOutcome, TranscriptionWorker};

fn config(model: &str) -> AppConfig {
    AppConfig {
        model: model.to_string(),
        model_url: "https://x/m.bin".to_string(),
        model_sha256: "abc".to_string(),
        model_filename: "m.bin".to_string(),
        record_hotkey: "Cmd+Shift+V".to_string(),
    }
}

#[test]
fn recorder_session() {
    let mut r = AudioRecorder::new();
    assert_eq!(r.sample_rate, 16000);
    assert_eq!(r.on_command(AudioCommand::Stop), AudioAction::Ignore);
    assert_eq!(r.on_command(AudioCommand::Start), AudioAction::BeginCapture);
    let rep = r.capture_started(StreamOutcome::Opened(44100));
    assert_eq!(rep, StartReport { recording: true, started: true });
    assert!(r.recording);
    assert_eq!(r.on_command(AudioCommand::Start), AudioAction::Ignore);
    assert_eq!(r.on_command(AudioCommand::Stop), AudioAction::EndCapture);
    let rep = r.capture_ended(1000);
    assert_eq!(rep, StopReport { transcribe_at: Some(44100), has_samples: true, recording: false });
    assert!(!r.recording);
    assert_eq!(r.on_command(AudioCommand::Stop), AudioAction::Ignore);
}

#[test]
fn recording_without_samples_is_not_transcribed() {
    let mut r = AudioRecorder::new();
    r.capture_started(StreamOutcome::Opened(48000));
    let rep = r.capture_ended(0);
    assert_eq!(rep, StopReport { transcribe_at: None, has_samples: false, recording: false });
}

#[test]
fn failed_start_leaves_recorder_idle() {
    let mut r = AudioRecorder::new();
    assert_eq!(r.capture_started(StreamOutcome::OpenFailed), StartReport { recording: false, started: false });
    assert!(!r.recording);
    assert_eq!(r.capture_started(StreamOutcome::PlayFailed), StartReport { recording: false, started: false });
    assert_eq!(r, AudioRecorder::new());
}

#[test]
fn hotkey_toggles_recording() {
    assert_eq!(hotkey_command(false), AudioCommand::Start);
    assert_eq!(hotkey_command(true), AudioCommand::Stop);
    assert!(recording_after_hotkey(false, true));
    assert!(!recording_after_hotkey(true, true));
    assert!(recording_after_hotkey(true, false));
}

#[test]
fn engine_is_reused_for_same_model() {
    let mut w: TranscriptionWorker<u32> = TranscriptionWorker::new();
    let (m, engine) = w.begin(&config("tiny")).unwrap();
    assert_eq!(m.name, "tiny");
    assert!(engine.is_none());
    assert_eq!(w.clipboard_done(7, "hello".to_string(), Ok(())).unwrap(), "hello");
    let (_, engine) = w.begin(&config("tiny")).unwrap();
    assert_eq!(engine, Some(7));
    assert!(w.cached_engine.is_none());
}

#[test]
fn engine_is_dropped_when_model_changes() {
    let mut w: TranscriptionWorker<u32> = TranscriptionWorker::new();
    w.begin(&config("tiny")).unwrap();
    w.clipboard_done(7, "hello".to_string(), Ok(())).unwrap();
    let (_, engine) = w.begin(&config("base")).unwrap();
    assert_eq!(engine, None);
    assert_eq!(w.last_model_key.clone().unwrap(), "base|https://x/m.bin|abc|m.bin");
}

#[test]
fn unusable_config_is_reported() {
    let mut w: TranscriptionWorker<u32> = TranscriptionWorker::new();
    let e = w.begin(&AppConfig::default()).unwrap_err();
    assert_eq!(e.code, "MODEL_CONFIG");
}

#[test]
fn clipboard_failure_drops_engine() {
    let mut w: TranscriptionWorker<u32> = TranscriptionWorker::new();
    w.begin(&config("tiny")).unwrap();
    let e = w.clipboard_done(7, "hi".to_string(), Err(AppError::new("CLIPBOARD", "busy"))).unwrap_err();
    assert_eq!(e.code, "CLIPBOARD");
    assert_eq!(e.message, "busy");
    assert!(w.cached_engine.is_none());
}

#[test]
fn run_outcomes_become_events() {
    match decide_after_run(RunOutcome::Transcribed { engine: 1u32, text: "  \n".to_string() }) {
        RunDecision::ReportError(e) => {
            assert_eq!(e.code, "INFERENCE_EMPTY");
            assert_eq!(e.message, "Пустой результат расшифровки");
        }
        _ => panic!("blank text must be an error"),
    }
    match decide_after_run(RunOutcome::Transcribed { engine: 1u32, text: " hi ".to_string() }) {
        RunDecision::CopyToClipboard { engine, text } => {
            assert_eq!(engine, 1);
            assert_eq!(text, " hi ");
        }
        _ => panic!("text must be copied"),
    }
    match decide_after_run::<u32>(RunOutcome::Failed("boom".to_string())) {
        RunDecision::ReportError(e) => {
            assert_eq!(e.code, "INFERENCE");
            assert_eq!(e.message, "boom");
        }
        _ => panic!("failure must be an error"),
    }
    match decide_after_run::<u32>(RunOutcome::Panicked("died".to_string())) {
        RunDecision::ReportError(e) => {
            assert_eq!(e.code, "INFERENCE_PANIC");
            assert_eq!(e.message, "died");
        }
        _ => panic!("panic must be an error"),
    }
}

#[test]
fn events_alternate_over_a_command_sequence() {
    let mut r = AudioRecorder::new();
    let mut flag = false;
    let mut events: Vec<&str> = Vec::new();
    let steps = [
        (AudioCommand::Stop, StreamOutcome::OpenFailed, 0),
        (AudioCommand::Start, StreamOutcome::OpenFailed, 0),
        (AudioCommand::Start, StreamOutcome::Opened(48000), 0),
        (AudioCommand::Start, StreamOutcome::Opened(16000), 0),
        (AudioCommand::Stop, StreamOutcome::OpenFailed, 10),
        (AudioCommand::Stop, StreamOutcome::OpenFailed, 10),
        (AudioCommand::Start, StreamOutcome::PlayFailed, 0),
        (AudioCommand::Start, StreamOutcome::Opened(44100), 0),
        (AudioCommand::Stop, StreamOutcome::OpenFailed, 0),
    ];
    for (cmd, outcome, count) in steps {
        match r.on_command(cmd) {
            AudioAction::Ignore => {}
            AudioAction::BeginCapture => {
                let rep = r.capture_started(outcome);
                flag = rep.recording;
                if rep.started {
                    events.push("started");
                }
            }
            AudioAction::EndCapture => {
                let rep = r.capture_ended(count);
                flag = rep.recording;
                events.push("stopped");
            }
        }
        assert_eq!(flag, r.recording);
    }
    assert_eq!(events, vec!["started", "stopped", "started", "stopped"]);
}

#[test]
fn second_request_gets_no_engine_after_failed_copy() {
    let mut w: TranscriptionWorker<u32> = TranscriptionWorker::new();
    w.begin(&config("tiny")).unwrap();
    let _ = w.clipboard_done(7, "hi".to_string(), Err(AppError::new("CLIPBOARD", "busy")));
    let (_, engine) = w.begin(&config("tiny")).unwrap();
    assert_eq!(engine, None);
}

#[test]
fn each_request_announces_one_event() {
    let mut w: TranscriptionWorker<u32> = TranscriptionWorker::new();
    let mut events: Vec<(bool, String)> = Vec::new();
    let requests = [
        (AppConfig::default(), RunOutcome::Transcribed { engine: 1u32, text: "x".to_string() }, true),
        (config("tiny"), RunOutcome::Transcribed { engine: 1u32, text: " ".to_string() }, true),
        (config("tiny"), RunOutcome::Failed("boom".to_string()), true),
        (config("tiny"), RunOutcome::Transcribed { engine: 2u32, text: "hi".to_string() }, false),
        (config("tiny"), RunOutcome::Transcribed { engine: 3u32, text: "hi".to_string() }, true),
    ];
    for (cfg, outcome, copy_ok) in requests {
        let before = events.len();
        match w.begin(&cfg) {
            Err(e) => events.push((false, e.code)),
            Ok(_) => match decide_after_run(outcome) {
                RunDecision::ReportError(e) => events.push((false, e.code)),
                RunDecision::CopyToClipboard { engine, text } => {
                    let copied = if copy_ok { Ok(()) } else { Err(AppError::new("CLIPBOARD", "busy")) };
                    match w.clipboard_done(engine, text, copied) {
                        Ok(t) => events.push((true, t)),
                        Err(e) => events.push((false, e.code)),
                    }
                }
            },
        }
        assert_eq!(events.len(), before + 1);
    }
    assert_eq!(
        events,
        vec![
            (false, "MODEL_CONFIG".to_string()),
            (false, "INFERENCE_EMPTY".to_string()),
            (false, "INFERENCE".to_string()),
            (false, "CLIPBOARD".to_string()),
            (true, "hi".to_string()),
        ]
    );
    assert_eq!(w.cached_engine, Some(3));
}
