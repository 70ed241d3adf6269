//! The recorder's decisions: what a Start or Stop command leads to, what the
//! outcome of opening the input stream changes, and when the recorded
//! samples are handed on for transcription. The caller performs the audio
//! work and reports back.

use vstd::prelude::*;

verus! {

/// Commands to the recorder.
#[derive(Debug, Clone, Copy, PartialEq, Eq, Structural)]
pub enum AudioCommand {
    Start,
    Stop,
}

/// The sample rate assumed before any stream was opened, in Hz.
pub const DEFAULT_SAMPLE_RATE: u32 = 16000;

/// The recorder's state: whether it records, and the sample rate of the
/// stream it opened last.
#[derive(Debug, Clone, Copy, PartialEq, Eq, Structural)]
pub struct AudioRecorder {
    pub recording: bool,
    pub sample_rate: u32,
}

/// What the caller does for a command.
#[derive(Debug, Clone, Copy, PartialEq, Eq, Structural)]
pub enum AudioAction {
    /// Nothing: the command does not apply in this state.
    Ignore,
    /// Clear the sample buffer, open the input stream and start it, then
    /// report with `capture_started`.
    BeginCapture,
    /// Close the stream, take the recorded samples, then report with
    /// `capture_ended`.
    EndCapture,
}

/// How opening and starting the input stream went.
#[derive(Debug, Clone, Copy, PartialEq, Eq, Structural)]
pub enum StreamOutcome {
    /// The stream runs at this sample rate.
    Opened(u32),
    /// No input stream could be opened.
    OpenFailed,
    /// The stream was opened but could not be started.
    PlayFailed,
}

/// What the caller does after a start attempt.
#[derive(Debug, Clone, Copy, PartialEq, Eq, Structural)]
pub struct StartReport {
    /// The value to publish as the shared recording flag.
    pub recording: bool,
    /// Keep the stream and announce `audio:started`.
    pub started: bool,
}

/// What the caller does after a recording ended.
#[derive(Debug, Clone, Copy, PartialEq, Eq, Structural)]
pub struct StopReport {
    /// Hand the samples on for transcription at this sample rate.
    pub transcribe_at: Option<u32>,
    /// Whether samples were recorded, as announced with `audio:stopped`.
    pub has_samples: bool,
    /// The value to publish as the shared recording flag.
    pub recording: bool,
}

/// What a command leads to in a state.
pub open spec fn action_for(s: AudioRecorder, cmd: AudioCommand) -> AudioAction {
    match cmd {
        AudioCommand::Start => if s.recording {
            AudioAction::Ignore
        } else {
            AudioAction::BeginCapture
        },
        AudioCommand::Stop => if s.recording {
            AudioAction::EndCapture
        } else {
            AudioAction::Ignore
        },
    }
}

/// The state after a start attempt.
pub open spec fn after_start(s: AudioRecorder, outcome: StreamOutcome) -> AudioRecorder {
    match outcome {
        StreamOutcome::Opened(rate) => AudioRecorder { recording: true, sample_rate: rate },
        _ => s,
    }
}

/// The report of a start attempt.
pub open spec fn start_report(outcome: StreamOutcome) -> StartReport {
    match outcome {
        StreamOutcome::Opened(_) => StartReport { recording: true, started: true },
        _ => StartReport { recording: false, started: false },
    }
}

/// The state after a recording ended.
pub open spec fn after_stop(s: AudioRecorder) -> AudioRecorder {
    AudioRecorder { recording: false, sample_rate: s.sample_rate }
}

/// The report of a recording that ended with `count` samples.
pub open spec fn stop_report(s: AudioRecorder, count: nat) -> StopReport {
    StopReport {
        transcribe_at: if count > 0 {
            Some(s.sample_rate)
        } else {
            None
        },
        has_samples: count > 0,
        recording: false,
    }
}

impl AudioRecorder {
    /// A recorder that does not record.
    pub fn new() -> (res: AudioRecorder)
        ensures
            !res.recording,
            res.sample_rate == DEFAULT_SAMPLE_RATE,
    {
        AudioRecorder { recording: false, sample_rate: DEFAULT_SAMPLE_RATE }
    }

    /// What to do for a command: a Start while recording and a Stop while
    /// not recording are ignored.
    pub fn on_command(&self, cmd: AudioCommand) -> (res: AudioAction)
        ensures
            res == action_for(*self, cmd),
    {
        match cmd {
            AudioCommand::Start => if self.recording {
                AudioAction::Ignore
            } else {
                AudioAction::BeginCapture
            },
            AudioCommand::Stop => if self.recording {
                AudioAction::EndCapture
            } else {
                AudioAction::Ignore
            },
        }
    }

    /// Takes the outcome of opening and starting the input stream.
    pub fn capture_started(&mut self, outcome: StreamOutcome) -> (res: StartReport)
        requires
            !old(self).recording,
        ensures
            *final(self) == after_start(*old(self), outcome),
            res == start_report(outcome),
    {
        match outcome {
            StreamOutcome::Opened(rate) => {
                self.recording = true;
                self.sample_rate = rate;
                StartReport { recording: true, started: true }
            },
            _ => StartReport { recording: false, started: false },
        }
    }

    /// Ends a recording that produced `sample_count` samples.
    pub fn capture_ended(&mut self, sample_count: usize) -> (res: StopReport)
        requires
            old(self).recording,
        ensures
            *final(self) == after_stop(*old(self)),
            res == stop_report(*old(self), sample_count as nat),
    {
        self.recording = false;
        let has_samples = sample_count > 0;
        StopReport {
            transcribe_at: if has_samples {
                Some(self.sample_rate)
            } else {
                None
            },
            has_samples,
            recording: false,
        }
    }
}

/// A Start while recording and a Stop while idle change nothing.
pub proof fn repeated_commands_are_ignored(s: AudioRecorder)
    ensures
        s.recording ==> action_for(s, AudioCommand::Start) == AudioAction::Ignore,
        !s.recording ==> action_for(s, AudioCommand::Stop) == AudioAction::Ignore,
{
}

/// The published recording flag always equals the recorder's own state
/// after a start attempt (made while idle) or a stop.
pub proof fn published_flag_matches_state(s: AudioRecorder, outcome: StreamOutcome, count: nat)
    ensures
        !s.recording ==> start_report(outcome).recording == after_start(s, outcome).recording,
        stop_report(s, count).recording == after_stop(s).recording,
{
}

/// A recording session: from idle, a Start whose stream opens at `rate`
/// followed by a Stop with `count` samples hands the samples on for
/// transcription at `rate` exactly when there are any, and leaves the
/// recorder idle, where a further Stop is ignored; a start attempt that
/// fails leaves the recorder idle.
pub proof fn recording_session(s: AudioRecorder, rate: u32, count: nat, failure: StreamOutcome)
    requires
        !s.recording,
        !(failure is Opened),
    ensures
        action_for(s, AudioCommand::Start) == AudioAction::BeginCapture,
        ({
            let r = after_start(s, StreamOutcome::Opened(rate));
            &&& action_for(r, AudioCommand::Stop) == AudioAction::EndCapture
            &&& stop_report(r, count).transcribe_at == (if count > 0 {
                Some(rate)
            } else {
                None
            })
            &&& !after_stop(r).recording
            &&& action_for(after_stop(r), AudioCommand::Stop) == AudioAction::Ignore
        }),
        !after_start(s, failure).recording,
{
}

/// The events the recorder announces.
#[derive(Debug, Clone, Copy, PartialEq, Eq, Structural)]
pub enum AudioEvent {
    /// `audio:started`
    Started,
    /// `audio:stopped`
    Stopped,
}

/// One handled command, with the outcome of opening the stream (used when
/// the command starts a capture) and the number of samples recorded (used
/// when it ends one).
pub type AudioStep = (AudioCommand, StreamOutcome, nat);

/// The recorder, the published recording flag and the announced event after
/// one handled command.
pub open spec fn step_effect(s: AudioRecorder, flag: bool, st: AudioStep) -> (AudioRecorder, bool, Option<AudioEvent>) {
    match action_for(s, st.0) {
        AudioAction::Ignore => (s, flag, None),
        AudioAction::BeginCapture => (
            after_start(s, st.1),
            start_report(st.1).recording,
            if start_report(st.1).started {
                Some(AudioEvent::Started)
            } else {
                None
            },
        ),
        AudioAction::EndCapture => (after_stop(s), stop_report(s, st.2).recording, Some(AudioEvent::Stopped)),
    }
}

/// The recorder, the published flag and all announced events after a
/// sequence of handled commands.
pub open spec fn run_steps(s: AudioRecorder, flag: bool, steps: Seq<AudioStep>) -> (AudioRecorder, bool, Seq<AudioEvent>)
    decreases steps.len(),
{
    if steps.len() == 0 {
        (s, flag, Seq::<AudioEvent>::empty())
    } else {
        let (s1, f1, ev) = run_steps(s, flag, steps.drop_last());
        let (s2, f2, e) = step_effect(s1, f1, steps.last());
        (s2, f2, match e {
            Some(x) => ev.push(x),
            None => ev,
        })
    }
}

/// Whether events alternate `Started`, `Stopped`, `Started`, ... from the
/// first.
pub open spec fn alternating(ev: Seq<AudioEvent>) -> bool {
    forall|i: int| 0 <= i < ev.len() ==> #[trigger] ev[i] == (if i % 2 == 0 {
        AudioEvent::Started
    } else {
        AudioEvent::Stopped
    })
}

/// Over any sequence of commands handled from the idle recorder with the flag
/// cleared: the published flag always equals the recorder's state, the
/// recorder records exactly after an odd number of events, and the events
/// alternate, starting with `audio:started`.
pub proof fn events_alternate(s0: AudioRecorder, steps: Seq<AudioStep>)
    requires
        !s0.recording,
    ensures
        ({
            let (s, f, ev) = run_steps(s0, false, steps);
            &&& f == s.recording
            &&& s.recording == (ev.len() % 2 == 1)
            &&& alternating(ev)
        }),
    decreases steps.len(),
{
    if steps.len() > 0 {
        events_alternate(s0, steps.drop_last());
        let (s1, f1, ev) = run_steps(s0, false, steps.drop_last());
        let st = steps.last();
        match action_for(s1, st.0) {
            AudioAction::Ignore => {},
            AudioAction::BeginCapture => {
                if start_report(st.1).started {
                    let ev2 = ev.push(AudioEvent::Started);
                    assert forall|i: int| 0 <= i < ev2.len() implies #[trigger] ev2[i] == (if i % 2
                        == 0 {
                        AudioEvent::Started
                    } else {
                        AudioEvent::Stopped
                    }) by {
                        if i < ev.len() {
                            assert(ev2[i] == ev[i]);
                        }
                    }
                }
            },
            AudioAction::EndCapture => {
                let ev2 = ev.push(AudioEvent::Stopped);
                assert forall|i: int| 0 <= i < ev2.len() implies #[trigger] ev2[i] == (if i % 2 == 0 {
                    AudioEvent::Started
                } else {
                    AudioEvent::Stopped
                }) by {
                    if i < ev.len() {
                        assert(ev2[i] == ev[i]);
                    }
                }
            },
        }
    }
}

/// The command a hotkey press sends: Stop while recording, else Start.
pub fn hotkey_command(recording: bool) -> (res: AudioCommand)
    ensures
        res == (if recording {
            AudioCommand::Stop
        } else {
            AudioCommand::Start
        }),
{
    if recording {
        AudioCommand::Stop
    } else {
        AudioCommand::Start
    }
}

/// The recording flag after a hotkey press: flipped when the command was
/// sent, unchanged when sending failed.
pub fn recording_after_hotkey(recording: bool, sent: bool) -> (res: bool)
    ensures
        res == (if sent {
            !recording
        } else {
            recording
        }),
{
    if sent {
        !recording
    } else {
        recording
    }
}

} // verus!
