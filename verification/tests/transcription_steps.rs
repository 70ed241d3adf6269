use n501_tts_lite::error::InferenceError;
use n501_tts_lite::transcription::{
    check_audio, clamp_bin, filter_cell, mel_filter_spans, mel_frequency_bins, mel_shape, model_format,
    resample_plan, token_id, AudioStage, GreedyDecoder, ModelFormat,
};

fn message(e: InferenceError) -> String {
    match e {
        InferenceError::InvalidInput(m) => m,
        InferenceError::Inference(m) => m,
        other => panic!("unexpected error {:?}", other),
    }
}

#[test]
fn weights_format_from_extension() {
    assert_eq!(model_format("gguf").unwrap(), ModelFormat::Quantized);
    assert_eq!(model_format("GGUF").unwrap(), ModelFormat::Quantized);
    assert_eq!(model_format("SafeTensors").unwrap(), ModelFormat::Normal);
    assert_eq!(message(model_format("BIN").unwrap_err()), "Неподдерживаемый формат модели: bin");
    assert_eq!(message(model_format("").unwrap_err()), "Неподдерживаемый формат модели: ");
}

#[test]
fn missing_token_is_named() {
    assert_eq!(token_id("<|endoftext|>", Some(50257)).unwrap(), 50257);
    assert_eq!(message(token_id("<|notimestamps|>", None).unwrap_err()), "Нет токена <|notimestamps|> в словаре");
}

#[test]
fn empty_audio_is_refused_per_stage() {
    assert!(check_audio(AudioStage::Input, 1).is_ok());
    assert_eq!(message(check_audio(AudioStage::Input, 0).unwrap_err()), "Пустой аудиобуфер");
    assert_eq!(message(check_audio(AudioStage::Resampled, 0).unwrap_err()), "Аудио пустое после ресемплинга");
    assert_eq!(message(check_audio(AudioStage::Mel, 0).unwrap_err()), "Не удалось получить мел-спектрограмму");
}

#[test]
fn mel_tensor_shape() {
    assert_eq!(mel_shape(80 * 3000, 80), (1, 80, 3000));
    assert_eq!(mel_shape(250, 80), (1, 80, 3));
}

#[test]
fn mel_bank_parameters() {
    assert_eq!(mel_frequency_bins(80, 400, 16000).unwrap(), 201);
    assert_eq!(message(mel_frequency_bins(0, 400, 16000).unwrap_err()), "Некорректные параметры мел-фильтров");
    assert!(mel_frequency_bins(80, 0, 16000).is_err());
    assert!(mel_frequency_bins(80, 400, 0).is_err());
}

#[test]
fn mel_bins_are_clamped() {
    assert_eq!(clamp_bin(5, 201), 5);
    assert_eq!(clamp_bin(201, 201), 200);
    assert_eq!(clamp_bin(7, 0), 0);
}

#[test]
fn degenerate_mel_filters_are_skipped() {
    let spans = mel_filter_spans(&vec![0, 2, 2, 5, 9], 10);
    assert_eq!(spans, vec![None, None, Some((2, 5, 9))]);
}

#[test]
fn audio_at_16khz_is_not_resampled() {
    assert!(resample_plan(16000, 5000).is_none());
}

#[test]
fn resampler_chunks_cover_audio() {
    assert_eq!(resample_plan(44100, 2500).unwrap(), vec![(0, 1024), (1024, 2048), (2048, 2500)]);
    assert_eq!(resample_plan(48000, 2048).unwrap(), vec![(0, 1024), (1024, 2048)]);
    assert_eq!(resample_plan(8000, 0).unwrap(), Vec::<(usize, usize)>::new());
}

#[test]
fn decoder_stops_at_end_of_text() {
    let mut d = GreedyDecoder::new(1, 2, 3, 9, 10);
    assert!(d.is_first_step());
    assert!(d.is_running());
    d.push_choice(Some(5)).unwrap();
    assert!(!d.is_first_step());
    d.push_token(9);
    assert!(!d.is_running());
    assert_eq!(d.into_tokens(), vec![1, 2, 3, 5, 9]);
}

#[test]
fn decoder_stops_after_step_limit() {
    let mut d = GreedyDecoder::new(1, 2, 3, 9, 2);
    d.push_token(4);
    d.push_token(4);
    assert!(!d.is_running());
    assert_eq!(d.tokens().clone(), vec![1, 2, 3, 4, 4]);
}

#[test]
fn decoder_refuses_empty_logits() {
    let mut d = GreedyDecoder::new(1, 2, 3, 9, 2);
    assert_eq!(message(d.push_choice(None).unwrap_err()), "Пустые логиты");
    assert_eq!(d.tokens().clone(), vec![1, 2, 3]);
    assert!(d.is_running());
}

#[test]
fn decoder_with_no_steps() {
    let d = GreedyDecoder::new(1, 2, 3, 9, 0);
    assert!(!d.is_running());
    assert_eq!(d.into_tokens(), vec![1, 2, 3]);
}

#[test]
fn filter_cells_are_row_major() {
    assert_eq!(filter_cell(0, 0, 80, 201), 0);
    assert_eq!(filter_cell(2, 5, 80, 201), 407);
    assert_eq!(filter_cell(79, 200, 80, 201), 80 * 201 - 1);
}
