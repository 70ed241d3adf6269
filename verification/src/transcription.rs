//! The integer and text decisions of a transcription: which weights format
//! to load, how audio is cut into resampler chunks, which inputs are refused,
//! and the greedy decoding loop over token ids.

use vstd::prelude::*;
use crate::error::InferenceError;
use crate::text::{append_str, chars_of, chars_eq_str, lowercase, to_lowercase};

verus! {

broadcast use vstd::string::group_string_axioms;

/// The sample rate the model expects, in Hz.
pub const TARGET_SAMPLE_RATE: u32 = 16000;

/// Number of input samples the resampler takes at a time.
pub const RESAMPLE_CHUNK: usize = 1024;

/// The two formats model weights are loaded from.
#[derive(Debug, Clone, Copy, PartialEq, Eq, Structural)]
pub enum ModelFormat {
    /// Quantized weights in a `.gguf` file.
    Quantized,
    /// Full weights in a `.safetensors` file.
    Normal,
}

/// The format named by a lowercase file extension.
pub open spec fn format_of(ext: Seq<char>) -> Option<ModelFormat> {
    if ext == "gguf"@ {
        Some(ModelFormat::Quantized)
    } else if ext == "safetensors"@ {
        Some(ModelFormat::Normal)
    } else {
        None
    }
}

/// The weights format of a model file, from its extension in any case
/// (empty when the file has none); other extensions are refused.
pub fn model_format(extension: &str) -> (res: Result<ModelFormat, InferenceError>)
    ensures
        match format_of(lowercase(extension@)) {
            Some(f) => res == Ok::<ModelFormat, InferenceError>(f),
            None => res matches Err(e) && e.is_invalid_input(
                "Неподдерживаемый формат модели: "@ + lowercase(extension@),
            ),
        },
{
    let lowered = to_lowercase(extension);
    let cs = chars_of(lowered.as_str());
    if chars_eq_str(&cs, "gguf") {
        Ok(ModelFormat::Quantized)
    } else if chars_eq_str(&cs, "safetensors") {
        Ok(ModelFormat::Normal)
    } else {
        let mut m = "Неподдерживаемый формат модели: ".to_string();
        append_str(&mut m, lowered.as_str());
        Err(InferenceError::InvalidInput(m))
    }
}

/// The id of a special token as the tokenizer reported it, or the error
/// naming the token when the vocabulary lacks it.
pub fn token_id(token: &str, id: Option<u32>) -> (res: Result<u32, InferenceError>)
    ensures
        match id {
            Some(i) => res == Ok::<u32, InferenceError>(i),
            None => res matches Err(e) && e.is_inference("Нет токена "@ + token@ + " в словаре"@),
        },
{
    match id {
        Some(i) => Ok(i),
        None => {
            let mut m = "Нет токена ".to_string();
            append_str(&mut m, token);
            append_str(&mut m, " в словаре");
            Err(InferenceError::Inference(m))
        },
    }
}

/// The stages at which audio may turn out empty.
#[derive(Debug, Clone, Copy, PartialEq, Eq, Structural)]
pub enum AudioStage {
    /// The samples handed in.
    Input,
    /// The samples after resampling to 16 kHz.
    Resampled,
    /// The mel spectrogram.
    Mel,
}

/// The message of the error for empty audio at a stage.
pub open spec fn empty_audio_message(stage: AudioStage) -> Seq<char> {
    match stage {
        AudioStage::Input => "Пустой аудиобуфер"@,
        AudioStage::Resampled => "Аудио пустое после ресемплинга"@,
        AudioStage::Mel => "Не удалось получить мел-спектрограмму"@,
    }
}

/// Refuses empty audio at a stage of a transcription.
pub fn check_audio(stage: AudioStage, len: usize) -> (res: Result<(), InferenceError>)
    ensures
        res is Ok <==> len > 0,
        res matches Err(e) ==> e.is_invalid_input(empty_audio_message(stage)),
{
    if len > 0 {
        return Ok(());
    }
    let m = match stage {
        AudioStage::Input => "Пустой аудиобуфер".to_string(),
        AudioStage::Resampled => "Аудио пустое после ресемплинга".to_string(),
        AudioStage::Mel => "Не удалось получить мел-спектрограмму".to_string(),
    };
    Err(InferenceError::InvalidInput(m))
}

/// The shape of the mel tensor: one batch, `num_mel_bins` rows and as many
/// whole frames as the data holds.
pub fn mel_shape(mel_len: usize, num_mel_bins: usize) -> (res: (usize, usize, usize))
    requires
        num_mel_bins > 0,
    ensures
        res == (1usize, num_mel_bins, mel_len / num_mel_bins),
{
    (1, num_mel_bins, mel_len / num_mel_bins)
}

/// Checks the parameters of the mel filter bank and gives its number of
/// frequency bins, `1 + n_fft / 2`.
pub fn mel_frequency_bins(num_mel_bins: usize, n_fft: usize, sample_rate: u32) -> (res: Result<usize, InferenceError>)
    ensures
        res is Ok <==> (num_mel_bins > 0 && n_fft > 0 && sample_rate > 0),
        res matches Ok(n) ==> n == 1 + n_fft / 2,
        res matches Err(e) ==> e.is_invalid_input("Некорректные параметры мел-фильтров"@),
{
    if num_mel_bins == 0 || n_fft == 0 || sample_rate == 0 {
        return Err(InferenceError::InvalidInput("Некорректные параметры мел-фильтров".to_string()));
    }
    Ok(1 + n_fft / 2)
}

/// The frequency bin a mel point falls in, kept below `n_freqs`.
pub fn clamp_bin(bin: usize, n_freqs: usize) -> (res: usize)
    ensures
        res == (if n_freqs == 0 {
            0
        } else if bin < n_freqs {
            bin
        } else {
            (n_freqs - 1) as usize
        }),
{
    let top: usize = if n_freqs == 0 { 0 } else { n_freqs - 1 };
    if bin < top { bin } else { top }
}

/// The triangle of the `i`-th mel filter over the bin points: its left,
/// centre and right bins, or none when either side is empty (such a filter
/// stays zero).
pub open spec fn filter_span(points: Seq<usize>, i: int) -> Option<(usize, usize, usize)> {
    let (l, c, r) = (points[i], points[i + 1], points[i + 2]);
    if c == l || r == c {
        None
    } else {
        Some((l, c, r))
    }
}

/// The triangles of the mel filters: one per consecutive triple of bin
/// points. With every point below `n_freqs`, so are the bins of every
/// triangle.
pub fn mel_filter_spans(points: &Vec<usize>, n_freqs: usize) -> (res: Vec<Option<(usize, usize, usize)>>)
    requires
        points.len() >= 2,
        forall|k: int| 0 <= k < points.len() ==> points@[k] < n_freqs,
    ensures
        res.len() == points.len() - 2,
        forall|i: int| 0 <= i < res.len() ==> #[trigger] res@[i] == filter_span(points@, i),
        forall|i: int|
            0 <= i < res.len() ==> (#[trigger] res@[i] matches Some((l, c, r)) && l < n_freqs && c
                < n_freqs && r < n_freqs) || res@[i] is None,
        forall|i: int|
            0 <= i < res.len() ==> (#[trigger] res@[i] is None <==> (points@[i + 1] == points@[i]
                || points@[i + 2] == points@[i + 1])),
        forall|i: int|
            0 <= i < res.len() ==> (#[trigger] res@[i] is Some ==> res@[i] == Some(
                (points@[i], points@[i + 1], points@[i + 2]),
            )),
{
    let n: usize = points.len() - 2;
    let mut res: Vec<Option<(usize, usize, usize)>> = Vec::new();
    let mut i: usize = 0;
    while i < n
        invariant
            n == points.len() - 2,
            i <= n,
            res.len() == i,
            forall|k: int| 0 <= k < points.len() ==> points@[k] < n_freqs,
            forall|k: int| 0 <= k < i ==> #[trigger] res@[k] == filter_span(points@, k),
        decreases n - i,
    {
        let l = points[i];
        let c = points[i + 1];
        let r = points[i + 2];
        if c == l || r == c {
            res.push(None);
        } else {
            res.push(Some((l, c, r)));
        }
        i = i + 1;
    }
    proof {
        assert forall|k: int| 0 <= k < res.len() implies (#[trigger] res@[k] matches Some((l, c, r))
            && l < n_freqs && c < n_freqs && r < n_freqs) || res@[k] is None by {
            assert(res@[k] == filter_span(points@, k));
        }
    }
    res
}

/// The position of bin `j` of filter `i` in the filter bank, which holds
/// `num_filters` rows of `n_freqs` values.
pub fn filter_cell(i: usize, j: usize, num_filters: usize, n_freqs: usize) -> (res: usize)
    requires
        i < num_filters,
        j < n_freqs,
        num_filters * n_freqs <= usize::MAX,
    ensures
        res == i * n_freqs + j,
        res < num_filters * n_freqs,
{
    proof {
        assert(i * n_freqs + j < num_filters * n_freqs) by (nonlinear_arith)
            requires
                i < num_filters,
                j < n_freqs,
        ;
    }
    i * n_freqs + j
}

/// The `k`-th chunk of `len` samples: from `k * chunk` to the next multiple
/// or the end.
pub open spec fn chunk_at(len: int, chunk: int, k: int) -> (usize, usize) {
    let start = k * chunk;
    (start as usize, if start + chunk < len { (start + chunk) as usize } else { len as usize })
}

/// How audio of `len` samples at `sample_rate` Hz is fed to the resampler:
/// nothing (`None`) when it is already at 16 kHz, else the consecutive
/// ranges of at most `RESAMPLE_CHUNK` samples that cover it.
pub fn resample_plan(sample_rate: u32, len: usize) -> (res: Option<Vec<(usize, usize)>>)
    ensures
        sample_rate == TARGET_SAMPLE_RATE <==> res is None,
        res matches Some(v) ==> {
            &&& v.len() * RESAMPLE_CHUNK >= len
            &&& v.len() == 0 || (v.len() - 1) * RESAMPLE_CHUNK < len
            &&& forall|k: int| 0 <= k < v.len() ==> #[trigger] v@[k] == chunk_at(len as int, RESAMPLE_CHUNK as int, k)
        },
{
    if sample_rate == TARGET_SAMPLE_RATE {
        return None;
    }
    let mut v: Vec<(usize, usize)> = Vec::new();
    let mut offset: usize = 0;
    while offset < len
        invariant
            offset <= len,
            offset == v.len() * RESAMPLE_CHUNK || (offset == len && v.len() * RESAMPLE_CHUNK >= len),
            v.len() == 0 || (v.len() - 1) * RESAMPLE_CHUNK < len,
            forall|k: int| 0 <= k < v.len() ==> #[trigger] v@[k] == chunk_at(len as int, RESAMPLE_CHUNK as int, k),
        decreases len - offset,
    {
        let end: usize = if len - offset > RESAMPLE_CHUNK { offset + RESAMPLE_CHUNK } else { len };
        v.push((offset, end));
        offset = end;
    }
    Some(v)
}

/// The greedy decoding loop over token ids: it starts from the prompt
/// `start-of-transcript, transcribe, no-timestamps`, takes one chosen token
/// per step, and stops after the end-of-text token or after `max_len` steps.
pub struct GreedyDecoder {
    tokens: Vec<u32>,
    eot: u32,
    max_len: usize,
    steps: usize,
    finished: bool,
}

impl GreedyDecoder {
    /// The loop's invariant: prompt plus one token per step, at most
    /// `max_len` steps, end-of-text only as the last token, and finished
    /// exactly when end-of-text was taken.
    pub closed spec fn well_formed(self) -> bool {
        &&& self.tokens.len() == 3 + self.steps
        &&& self.steps <= self.max_len
        &&& forall|k: int| 3 <= k < self.tokens.len() - 1 ==> self.tokens[k] != self.eot
        &&& self.finished <==> (self.steps > 0 && self.tokens@.last() == self.eot)
    }

    /// The token ids so far, prompt included.
    pub closed spec fn token_seq(self) -> Seq<u32> {
        self.tokens@
    }

    /// The end-of-text token id.
    pub closed spec fn eot_token(self) -> u32 {
        self.eot
    }

    /// The most steps the loop takes.
    pub closed spec fn step_limit(self) -> nat {
        self.max_len as nat
    }

    /// The number of steps taken.
    pub closed spec fn step_count(self) -> nat {
        self.steps as nat
    }

    /// The loop has produced the end-of-text token.
    pub closed spec fn has_finished(self) -> bool {
        self.finished
    }

    /// Another step is to be taken.
    pub open spec fn runs(self) -> bool {
        !self.has_finished() && self.step_count() < self.step_limit()
    }

    /// A decoder at its first step.
    pub fn new(sot: u32, transcribe: u32, no_timestamps: u32, eot: u32, max_len: usize) -> (res: GreedyDecoder)
        ensures
            res.token_seq() == seq![sot, transcribe, no_timestamps],
            res.eot_token() == eot,
            res.step_limit() == max_len,
            res.step_count() == 0,
            !res.has_finished(),
            res.well_formed(),
    {
        let mut tokens: Vec<u32> = Vec::new();
        tokens.push(sot);
        tokens.push(transcribe);
        tokens.push(no_timestamps);
        GreedyDecoder { tokens, eot, max_len, steps: 0, finished: false }
    }

    /// Whether another step is to be taken.
    pub fn is_running(&self) -> (res: bool)
        ensures
            res == self.runs(),
            res == (!self.has_finished() && self.step_count() < self.step_limit()),
    {
        !self.finished && self.steps < self.max_len
    }

    /// Whether this is the first step (the model then starts afresh).
    pub fn is_first_step(&self) -> (res: bool)
        ensures
            res == (self.step_count() == 0),
    {
        self.steps == 0
    }

    /// The token ids so far, prompt included, to feed the model or decode.
    pub fn tokens(&self) -> (res: &Vec<u32>)
        ensures
            res@ == self.token_seq(),
    {
        &self.tokens
    }

    /// Takes the index of the highest logit as the next token; an empty set
    /// of logits is an error.
    pub fn push_choice(&mut self, choice: Option<usize>) -> (res: Result<(), InferenceError>)
        requires
            old(self).runs(),
            old(self).well_formed(),
        ensures
            final(self).well_formed(),
            choice is None ==> (res matches Err(e) && e.is_inference("Пустые логиты"@)
                && *final(self) == *old(self)),
            choice matches Some(i) ==> res is Ok && final(self).token_seq() == old(
                self,
            ).token_seq().push(i as u32) && final(self).step_count() == old(self).step_count() + 1
                && final(self).has_finished() == (i as u32 == old(self).eot_token())
                && final(self).eot_token() == old(self).eot_token() && final(self).step_limit()
                == old(self).step_limit(),
    {
        match choice {
            None => Err(InferenceError::Inference("Пустые логиты".to_string())),
            Some(i) => {
                #[verifier::truncate]
                let token: u32 = i as u32;
                self.push_token(token);
                Ok(())
            },
        }
    }

    /// Appends the next token; the loop ends once it is end-of-text.
    pub fn push_token(&mut self, token: u32)
        requires
            old(self).runs(),
            old(self).well_formed(),
        ensures
            final(self).well_formed(),
            final(self).token_seq() == old(self).token_seq().push(token),
            final(self).step_count() == old(self).step_count() + 1,
            final(self).has_finished() == (token == old(self).eot_token()),
            final(self).eot_token() == old(self).eot_token(),
            final(self).step_limit() == old(self).step_limit(),
    {
        let finished = token == self.eot;
        let ghost old_tokens = self.tokens@;
        self.tokens.push(token);
        self.steps = self.steps + 1;
        self.finished = finished;
        proof {
            assert(forall|k: int| 3 <= k < self.tokens.len() - 1 ==> self.tokens@[k] == old_tokens[k]);
        }
    }

    /// The decoded token ids: the prompt, then the chosen tokens; the
    /// end-of-text token can only be the last one, and there are at most
    /// `max_len` chosen tokens.
    pub fn into_tokens(self) -> (res: Vec<u32>)
        requires
            self.well_formed(),
        ensures
            res@ == self.token_seq(),
            3 <= res@.len() <= 3 + self.step_limit(),
            forall|k: int| 3 <= k < res@.len() - 1 ==> res@[k] != self.eot_token(),
            self.has_finished() <==> (res@.len() > 3 && res@.last() == self.eot_token()),
    {
        self.tokens
    }
}

/// A mel filter is skipped only when one of its sides is empty: the span of
/// filter `i` is none exactly when two neighbouring bin points of its triple
/// coincide, and otherwise it is the triple of bin points itself.
pub proof fn filter_skipped_only_when_a_side_is_empty(points: Seq<usize>, i: int)
    requires
        0 <= i && i + 2 < points.len(),
    ensures
        filter_span(points, i) is None <==> (points[i + 1] == points[i] || points[i + 2]
            == points[i + 1]),
        filter_span(points, i) is Some ==> filter_span(points, i) == Some(
            (points[i], points[i + 1], points[i + 2]),
        ),
{
}

/// The decoding loop goes on until it has taken end-of-text or used all of
/// its steps: a decoder runs exactly when it has not finished and has taken
/// fewer than `max_len` steps.
pub proof fn decoder_runs_until_end_or_limit(d: GreedyDecoder)
    ensures
        d.runs() == (!d.has_finished() && d.step_count() < d.step_limit()),
{
}

} // verus!
