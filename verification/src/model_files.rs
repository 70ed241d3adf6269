//! The model files: checking the model's description, locating the files
//! that accompany it, bounding downloads and checking the model's digest.

use vstd::prelude::*;
use crate::config::WhisperModelConfig;
use crate::error::InferenceError;
use crate::text::{
    append_str, chars_of, ends_with, ends_with_chars, is_blank, is_blank_str, is_white_space,
    lowercase, str_eq, strip_suffixes, strip_suffixes_len, strip_trailing_char,
    strip_trailing_char_len, string_of_range, to_lowercase, trim, trim_chars, trim_end,
    trim_start,
};

verus! {

broadcast use vstd::string::group_string_axioms;

/// The largest model file, in bytes, that is downloaded.
pub const MAX_MODEL_BYTES: u64 = 2 * 1024 * 1024 * 1024;

/// Connect, read and write timeout of a download, in seconds.
pub const DOWNLOAD_TIMEOUT_SECS: u64 = 30;

/// Size of the buffer a download is read through.
pub const DOWNLOAD_BUFFER_SIZE: usize = 8192;

/// The directory part of a model URL: the trimmed URL without the trailing
/// copies of the file name and the slashes before them; none when the
/// trimmed URL does not end with the file name.
pub open spec fn base_url_of(url: Seq<char>, filename: Seq<char>) -> Option<Seq<char>> {
    let t = trim(url);
    if ends_with(t, filename) {
        Some(strip_trailing_char(strip_suffixes(t, filename), '/'))
    } else {
        None
    }
}

/// The URL of the directory that holds the model file, from which the
/// model's `config.json` and `tokenizer.json` are fetched.
pub fn derive_base_url(url: &str, filename: &str) -> (res: Option<String>)
    ensures
        match base_url_of(url@, filename@) {
            Some(b) => res matches Some(r) && r@ == b,
            None => res is None,
        },
{
    let t = trim_chars(url);
    let f = chars_of(filename);
    let n: usize = t.len();
    proof {
        assert(t@.take(n as int) == t@);
    }
    if !ends_with_chars(&t, n, &f) {
        return None;
    }
    let m1 = strip_suffixes_len(&t, n, &f);
    let m2 = strip_trailing_char_len(&t, m1, '/');
    proof {
        assert(t@.take(m2 as int) == t@.subrange(0, m2 as int));
    }
    Some(string_of_range(&t, 0, m2))
}

/// A model file `filename` directly under the directory `base` is served
/// from `base`: when the URL is `base/filename`, without surrounding white
/// space, with a file name free of `/` and a directory that does not end
/// with `/`, the derived directory is `base`.
pub proof fn base_url_of_file_in_directory(base: Seq<char>, filename: Seq<char>)
    requires
        base.len() > 0,
        !is_white_space(base[0]),
        base.last() != '/',
        filename.len() > 0,
        !is_white_space(filename.last()),
        forall|i: int| 0 <= i < filename.len() ==> filename[i] != '/',
    ensures
        base_url_of(base + seq!['/'] + filename, filename) == Some(base),
{
    let d = base + seq!['/'];
    let u = d + filename;
    assert(u[0] == base[0]);
    assert(trim_start(u) == u);
    assert(u.last() == filename.last());
    assert(trim_end(u) == u);
    assert(u.subrange(u.len() - filename.len(), u.len() as int) == filename);
    assert(u.subrange(0, u.len() - filename.len()) == d);
    if ends_with(d, filename) {
        assert(d.subrange(d.len() - filename.len(), d.len() as int)[filename.len() - 1] == '/');
    }
    assert(strip_suffixes(d, filename) == d);
    assert(d.drop_last() == base);
    assert(strip_trailing_char(d, '/') == strip_trailing_char(base, '/'));
}

/// A model description names where to fetch the model, its digest and its
/// file name, none of them blank.
pub open spec fn model_source_given(model: WhisperModelConfig) -> bool {
    !is_blank(model.url@) && !is_blank(model.sha256@) && !is_blank(model.filename@)
}

/// Checks that the URL, digest and file name of a model are given.
pub fn check_model_source(model: &WhisperModelConfig) -> (res: Result<(), InferenceError>)
    ensures
        res is Ok <==> model_source_given(*model),
        res matches Err(e) ==> e.is_invalid_input("Не задан URL, SHA256 или имя файла модели"@),
{
    if is_blank_str(model.url.as_str()) || is_blank_str(model.sha256.as_str()) || is_blank_str(
        model.filename.as_str(),
    ) {
        return Err(
            InferenceError::InvalidInput("Не задан URL, SHA256 или имя файла модели".to_string()),
        );
    }
    Ok(())
}

/// The name of what SHA-256 gives for a byte sequence.
pub uninterp spec fn sha256_of(data: Seq<u8>) -> Seq<u8>;

/// `sha2::Sha256::digest`: the SHA-256 digest of `data`, 32 bytes. The
/// contract names the digest and states its length; the hash function itself
/// is not restated.
#[verifier::external_body]
fn sha256_digest(data: &[u8]) -> (res: Vec<u8>)
    ensures
        res@ == sha256_of(data@),
        res@.len() == 32,
{
    <sha2::Sha256 as sha2::Digest>::digest(data).to_vec()
}

/// The lowercase hexadecimal digit of a value below 16.
pub open spec fn hex_digit(n: u8) -> char {
    if n < 10 {
        (('0' as u8) + n) as char
    } else {
        (('a' as u8) + (n - 10)) as char
    }
}

/// Lowercase hexadecimal text of bytes: two digits per byte, high nibble
/// first.
pub open spec fn hex_lower(bytes: Seq<u8>) -> Seq<char>
    decreases bytes.len(),
{
    if bytes.len() == 0 {
        Seq::<char>::empty()
    } else {
        hex_lower(bytes.drop_last()) + seq![hex_digit(bytes.last() / 16), hex_digit(bytes.last() % 16)]
    }
}

/// `hex::encode`: the lowercase hexadecimal text of `bytes`, two digits per
/// byte, high nibble first, as the crate documents it.
#[verifier::external_body]
fn hex_encode(bytes: &[u8]) -> (res: String)
    ensures
        res@ == hex_lower(bytes@),
{
    hex::encode(bytes)
}

/// The SHA-256 digest of `data` as lowercase hexadecimal text.
pub fn compute_sha256(data: &[u8]) -> (res: String)
    ensures
        res@ == hex_lower(sha256_of(data@)),
{
    let digest = sha256_digest(data);
    hex_encode(digest.as_slice())
}

/// Compares the digest of the model file with the expected one, which may
/// be written in any case.
pub fn verify_checksum(expected: &str, actual: String) -> (res: Result<(), InferenceError>)
    ensures
        res is Ok <==> actual@ == lowercase(expected@),
        res matches Err(e) ==> e matches InferenceError::ChecksumMismatch { expected: x, actual: a }
            && x@ == expected@ && a@ == actual@,
{
    let lowered = to_lowercase(expected);
    if str_eq(actual.as_str(), lowered.as_str()) {
        Ok(())
    } else {
        Err(InferenceError::ChecksumMismatch { expected: expected.to_string(), actual })
    }
}

/// Where the model file whose digest was checked came from.
#[derive(Debug, Clone, Copy, PartialEq, Eq, Structural)]
pub enum ModelSource {
    /// The file was already in place.
    InPlace,
    /// The file was just downloaded to a temporary path.
    Downloaded,
}

/// What is done with the model file once its digest was checked.
#[derive(Debug)]
pub enum ChecksumFollowUp {
    /// The file in place is the model: nothing more to do.
    Keep,
    /// Move the verified download into place.
    MoveIntoPlace,
    /// Delete the download, then fail with the error.
    DiscardDownload(InferenceError),
    /// Fail with the error, leaving the file in place as it is.
    Fail(InferenceError),
}

/// `res` is what follows a digest check of a file from `source` with
/// `verdict`.
pub open spec fn follows_checksum(source: ModelSource, verdict: Result<(), InferenceError>, res: ChecksumFollowUp) -> bool {
    match (source, verdict) {
        (ModelSource::InPlace, Ok(())) => res is Keep,
        (ModelSource::Downloaded, Ok(())) => res is MoveIntoPlace,
        (ModelSource::InPlace, Err(e)) => res matches ChecksumFollowUp::Fail(f) && f == e,
        (ModelSource::Downloaded, Err(e)) => res matches ChecksumFollowUp::DiscardDownload(f) && f == e,
    }
}

/// Decides what follows the digest check of the model file: a download is
/// moved into place only when its digest matched, and deleted otherwise; a
/// file already in place is kept or, on mismatch, reported.
pub fn after_checksum(source: ModelSource, verdict: Result<(), InferenceError>) -> (res: ChecksumFollowUp)
    ensures
        follows_checksum(source, verdict, res),
{
    match (source, verdict) {
        (ModelSource::InPlace, Ok(())) => ChecksumFollowUp::Keep,
        (ModelSource::Downloaded, Ok(())) => ChecksumFollowUp::MoveIntoPlace,
        (ModelSource::InPlace, Err(e)) => ChecksumFollowUp::Fail(e),
        (ModelSource::Downloaded, Err(e)) => ChecksumFollowUp::DiscardDownload(e),
    }
}

/// A download reaches the model's place only when its digest matches.
pub proof fn unverified_download_never_kept(source: ModelSource, verdict: Result<(), InferenceError>, res: ChecksumFollowUp)
    requires
        follows_checksum(source, verdict, res),
    ensures
        res is MoveIntoPlace ==> source == ModelSource::Downloaded && verdict is Ok,
        source == ModelSource::Downloaded && verdict is Err ==> res is DiscardDownload,
{
}

/// Which of the files that accompany the model are to be fetched, and from
/// where; `None` for a file already present.
#[derive(Debug, Clone)]
pub struct AssetPlan {
    pub config_url: Option<String>,
    pub tokenizer_url: Option<String>,
}

/// The URL of a file in a directory.
pub open spec fn file_url(base: Seq<char>, name: Seq<char>) -> Seq<char> {
    base + seq!['/'] + name
}

/// The URL of an accompanying file, when it is to be fetched.
pub open spec fn planned_url(present: bool, base: Seq<char>, name: Seq<char>) -> Option<Seq<char>> {
    if present {
        None
    } else {
        Some(file_url(base, name))
    }
}

/// The text of an optional URL.
pub open spec fn url_view(u: Option<String>) -> Option<Seq<char>> {
    match u {
        Some(s) => Some(s@),
        None => None,
    }
}

fn url_in(base: &str, name: &str) -> (res: String)
    ensures
        res@ == file_url(base@, name@),
{
    let mut u = base.to_string();
    append_str(&mut u, "/");
    append_str(&mut u, name);
    proof {
        reveal_strlit("/");
    }
    u
}

/// Decides which of `config.json` and `tokenizer.json` are to be fetched:
/// none when both are present, else those missing, from the directory of the
/// model file; an error when that directory cannot be derived.
pub fn plan_model_assets(config_present: bool, tokenizer_present: bool, model: &WhisperModelConfig) -> (res: Result<AssetPlan, InferenceError>)
    ensures
        config_present && tokenizer_present ==> (res matches Ok(p) && p.config_url is None
            && p.tokenizer_url is None),
        !(config_present && tokenizer_present) ==> match base_url_of(model.url@, model.filename@) {
            None => res matches Err(e) && e.is_invalid_input(
                "Не удалось определить базовый URL для config.json и tokenizer.json"@,
            ),
            Some(b) => res matches Ok(p) && url_view(p.config_url) == planned_url(
                config_present,
                b,
                "config.json"@,
            ) && url_view(p.tokenizer_url) == planned_url(tokenizer_present, b, "tokenizer.json"@),
        },
{
    if config_present && tokenizer_present {
        return Ok(AssetPlan { config_url: None, tokenizer_url: None });
    }
    let base = match derive_base_url(model.url.as_str(), model.filename.as_str()) {
        Some(b) => b,
        None => {
            return Err(
                InferenceError::InvalidInput(
                    "Не удалось определить базовый URL для config.json и tokenizer.json".to_string(),
                ),
            );
        },
    };
    let config_url = if config_present {
        None
    } else {
        Some(url_in(base.as_str(), "config.json"))
    };
    let tokenizer_url = if tokenizer_present {
        None
    } else {
        Some(url_in(base.as_str(), "tokenizer.json"))
    };
    Ok(AssetPlan { config_url, tokenizer_url })
}

/// The text of the error for a failed download of an accompanying file.
pub open spec fn asset_download_message(cause: Seq<char>, file: Seq<char>, url: Seq<char>) -> Seq<char> {
    cause + ". Ожидается "@ + file + " рядом с моделью или по адресу "@ + url
}

/// The error reported when fetching the accompanying file `file` from `url`
/// failed with the description `cause`.
pub fn asset_download_error(cause: &str, file: &str, url: &str) -> (res: InferenceError)
    ensures
        res.is_download(asset_download_message(cause@, file@, url@)),
{
    let mut m = cause.to_string();
    append_str(&mut m, ". Ожидается ");
    append_str(&mut m, file);
    append_str(&mut m, " рядом с моделью или по адресу ");
    append_str(&mut m, url);
    InferenceError::Download(m)
}

/// The text of the error for a model file over the size limit.
pub open spec fn too_large_message() -> Seq<char> {
    "Файл модели превышает лимит размера"@
}

/// Refuses a download whose announced length exceeds the limit.
pub fn check_content_length(content_length: Option<u64>) -> (res: Result<(), InferenceError>)
    ensures
        res is Err <==> (content_length matches Some(n) && n > MAX_MODEL_BYTES),
        res matches Err(e) ==> e.is_download(too_large_message()),
{
    match content_length {
        Some(size) => {
            if size > MAX_MODEL_BYTES {
                return Err(InferenceError::Download("Файл модели превышает лимит размера".to_string()));
            }
            Ok(())
        },
        None => Ok(()),
    }
}

/// The number of bytes received so far by a download; it never exceeds
/// `MAX_MODEL_BYTES`.
pub struct DownloadCounter {
    total: u64,
}

impl View for DownloadCounter {
    type V = u64;

    closed spec fn view(&self) -> u64 {
        self.total
    }
}

impl DownloadCounter {
    #[verifier::type_invariant]
    spec fn within_limit(self) -> bool {
        self.total <= MAX_MODEL_BYTES
    }

    /// Nothing received yet.
    pub fn new() -> (res: DownloadCounter)
        ensures
            res@ == 0,
    {
        DownloadCounter { total: 0 }
    }

    /// The number of bytes received.
    pub fn total(&self) -> (res: u64)
        ensures
            res == self@,
            res <= MAX_MODEL_BYTES,
    {
        proof {
            use_type_invariant(self);
        }
        self.total
    }

    /// Counts `read` more bytes: the new total, or the size-limit error when
    /// it would exceed the limit, in which case nothing is counted.
    pub fn add_chunk(&mut self, read: usize) -> (res: Result<u64, InferenceError>)
        ensures
            old(self)@ + read <= MAX_MODEL_BYTES ==> res == Ok::<u64, InferenceError>(
                (old(self)@ + read) as u64,
            ) && final(self)@ == old(self)@ + read,
            old(self)@ + read > MAX_MODEL_BYTES ==> (res matches Err(e) && e.is_download(
                too_large_message(),
            ) && final(self)@ == old(self)@),
            final(self)@ <= MAX_MODEL_BYTES,
    {
        proof {
            use_type_invariant(&*self);
        }
        let read64: u64 = read as u64;
        if read64 > MAX_MODEL_BYTES - self.total {
            return Err(InferenceError::Download("Файл модели превышает лимит размера".to_string()));
        }
        let next: u64 = self.total + read64;
        self.total = next;
        Ok(next)
    }
}

/// Progress of a download, as reported to the caller.
#[derive(Debug, Clone)]
pub struct DownloadProgress {
    pub asset: &'static str,
    pub downloaded_bytes: u64,
    pub total_bytes: Option<u64>,
}

/// Hands the progress of a download to the caller's callback, if there is
/// one: the callback is called once, with exactly this progress.
pub fn report_progress<F: Fn(DownloadProgress) + ?Sized>(
    progress: Option<&F>,
    asset: &'static str,
    downloaded_bytes: u64,
    total_bytes: Option<u64>,
)
    requires
        progress matches Some(f) ==> f.requires(
            (DownloadProgress { asset, downloaded_bytes, total_bytes },),
        ),
    ensures
        progress matches Some(f) ==> f.ensures(
            (DownloadProgress { asset, downloaded_bytes, total_bytes },),
            (),
        ),
{
    if let Some(callback) = progress {
        callback(DownloadProgress { asset, downloaded_bytes, total_bytes });
    }
}

} // verus!
