use std::cell::RefCell;

use n501_tts_lite::config::WhisperModelConfig;
use n501_tts_lite::error::InferenceError;
use n501_tts_lite::model_files::{
    after_checksum, ChecksumFollowUp, ModelSource,
    asset_download_error, check_content_length, check_model_source, compute_sha256,
    derive_base_url, plan_model_assets, report_progress, verify_checksum, DownloadCounter,
    DownloadProgress, MAX_MODEL_BYTES,
};

fn model(url: &str, sha: &str, file: &str) -> WhisperModelConfig {
    WhisperModelConfig {
        name: "tiny".to_string(),
        url: url.to_string(),
        sha256: sha.to_string(),
        filename: file.to_string(),
    }
}

fn invalid_input(e: InferenceError) -> String {
    match e {
        InferenceError::InvalidInput(m) => m,
        other => panic!("unexpected error {:?}", other),
    }
}

fn download(e: InferenceError) -> String {
    match e {
        InferenceError::Download(m) => m,
        other => panic!("unexpected error {:?}", other),
    }
}

#[test]
fn base_url_is_directory_of_file() {
    assert_eq!(derive_base_url("https://host/models/model.bin", "model.bin").unwrap(), "https://host/models");
}

#[test]
fn base_url_trims_and_strips_slashes() {
    assert_eq!(derive_base_url("  https://host/m//model.bin \n", "model.bin").unwrap(), "https://host/m");
}

#[test]
fn base_url_strips_repeated_file_name() {
    assert_eq!(derive_base_url("https://h/x.binx.bin", "x.bin").unwrap(), "https://h");
}

#[test]
fn base_url_needs_file_name_at_end() {
    assert!(derive_base_url("https://host/models/other.bin", "model.bin").is_none());
    assert!(derive_base_url("https://host/model.bin?x=1", "model.bin").is_none());
}

#[test]
fn base_url_with_empty_file_name() {
    assert_eq!(derive_base_url("https://host/dir/", "").unwrap(), "https://host/dir");
}

#[test]
fn model_source_must_be_given() {
    assert!(check_model_source(&model("u", "s", "f")).is_ok());
    let e = check_model_source(&model("u", "  ", "f")).unwrap_err();
    assert_eq!(invalid_input(e), "Не задан URL, SHA256 или имя файла модели");
    assert!(check_model_source(&model("", "s", "f")).is_err());
    assert!(check_model_source(&model("u", "s", " ")).is_err());
}

#[test]
fn sha256_of_known_data() {
    assert_eq!(compute_sha256(b"abc"), "ba7816bf8f01cfea414140de5dae2223b00361a396177a9cb410ff61f20015ad");
    assert_eq!(compute_sha256(b""), "e3b0c44298fc1c149afbf4c8996fb92427ae41e4649b934ca495991b7852b855");
}

#[test]
fn checksum_is_compared_in_lowercase() {
    let actual = compute_sha256(b"abc");
    assert!(verify_checksum("BA7816BF8F01CFEA414140DE5DAE2223B00361A396177A9CB410FF61F20015AD", actual.clone()).is_ok());
    assert!(verify_checksum(&actual, actual.clone()).is_ok());
}

#[test]
fn checksum_mismatch_reports_both_digests() {
    match verify_checksum("ABCD", "1234".to_string()) {
        Err(InferenceError::ChecksumMismatch { expected, actual }) => {
            assert_eq!(expected, "ABCD");
            assert_eq!(actual, "1234");
        }
        other => panic!("unexpected {:?}", other),
    }
}

#[test]
fn assets_present_need_no_plan() {
    let p = plan_model_assets(true, true, &model("nowhere", "s", "f.bin")).unwrap();
    assert!(p.config_url.is_none());
    assert!(p.tokenizer_url.is_none());
}

#[test]
fn missing_assets_come_from_model_directory() {
    let m = model("https://hf.co/repo/resolve/main/model.safetensors", "s", "model.safetensors");
    let p = plan_model_assets(false, false, &m).unwrap();
    assert_eq!(p.config_url.unwrap(), "https://hf.co/repo/resolve/main/config.json");
    assert_eq!(p.tokenizer_url.unwrap(), "https://hf.co/repo/resolve/main/tokenizer.json");
    let p = plan_model_assets(true, false, &m).unwrap();
    assert!(p.config_url.is_none());
    assert_eq!(p.tokenizer_url.unwrap(), "https://hf.co/repo/resolve/main/tokenizer.json");
}

#[test]
fn assets_without_base_url_are_refused() {
    let e = plan_model_assets(false, true, &model("https://x/a.bin", "s", "b.bin")).unwrap_err();
    assert_eq!(invalid_input(e), "Не удалось определить базовый URL для config.json и tokenizer.json");
}

#[test]
fn asset_download_error_text() {
    let e = asset_download_error("timeout", "config.json", "https://x/config.json");
    assert_eq!(download(e), "timeout. Ожидается config.json рядом с моделью или по адресу https://x/config.json");
}

#[test]
fn announced_length_over_limit_is_refused() {
    assert!(check_content_length(None).is_ok());
    assert!(check_content_length(Some(MAX_MODEL_BYTES)).is_ok());
    let e = check_content_length(Some(MAX_MODEL_BYTES + 1)).unwrap_err();
    assert_eq!(download(e), "Файл модели превышает лимит размера");
}

#[test]
fn download_counter_stops_at_limit() {
    assert_eq!(MAX_MODEL_BYTES, 2147483648);
    let mut c = DownloadCounter::new();
    assert_eq!(c.add_chunk(8192).unwrap(), 8192);
    assert_eq!(c.add_chunk(100).unwrap(), 8292);
    assert_eq!(c.total(), 8292);
    let mut full = DownloadCounter::new();
    let mut n: u64 = 0;
    while n + 8192 <= MAX_MODEL_BYTES {
        n = full.add_chunk(8192).unwrap();
    }
    assert_eq!(n, MAX_MODEL_BYTES);
    let e = full.add_chunk(1).unwrap_err();
    assert_eq!(download(e), "Файл модели превышает лимит размера");
    assert_eq!(full.total(), MAX_MODEL_BYTES);
    assert_eq!(full.add_chunk(0).unwrap(), MAX_MODEL_BYTES);
}

#[test]
fn progress_reaches_callback() {
    let seen: RefCell<Vec<(String, u64, Option<u64>)>> = RefCell::new(Vec::new());
    let cb = |p: DownloadProgress| seen.borrow_mut().push((p.asset.to_string(), p.downloaded_bytes, p.total_bytes));
    report_progress(Some(&cb), "model", 10, Some(20));
    report_progress::<dyn Fn(DownloadProgress)>(None, "model", 30, None);
    assert_eq!(seen.borrow().clone(), vec![("model".to_string(), 10, Some(20))]);
}

#[test]
fn only_verified_downloads_are_kept() {
    assert!(matches!(after_checksum(ModelSource::InPlace, Ok(())), ChecksumFollowUp::Keep));
    assert!(matches!(after_checksum(ModelSource::Downloaded, Ok(())), ChecksumFollowUp::MoveIntoPlace));
    let mismatch = verify_checksum("00", compute_sha256(b"abc")).unwrap_err();
    assert!(matches!(after_checksum(ModelSource::Downloaded, Err(mismatch)), ChecksumFollowUp::DiscardDownload(InferenceError::ChecksumMismatch { .. })));
    let mismatch = verify_checksum("00", compute_sha256(b"abc")).unwrap_err();
    assert!(matches!(after_checksum(ModelSource::InPlace, Err(mismatch)), ChecksumFollowUp::Fail(InferenceError::ChecksumMismatch { .. })));
}

#[test]
fn unicode_white_space_is_trimmed() {
    let m = model("\u{3000}https://h/d/f.bin\u{85}\u{2029}", "s", "f.bin");
    let p = plan_model_assets(false, false, &m).unwrap();
    assert_eq!(p.config_url.unwrap(), "https://h/d/config.json");
    assert!(check_model_source(&model("u", "\u{a0}\u{2003}", "f")).is_err());
    assert!(check_model_source(&model("u", "\u{200b}", "f")).is_ok());
}
