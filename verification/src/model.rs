//! A loaded model and the decisions taken around each native call:
//! ABI check, argument checks, and how native results become values or errors.

use vstd::prelude::*;
use vstd::utf8::{decode_utf8, valid_utf8};

use crate::error::Error;
use crate::options::{contains_nul, has_nul, TranscribeOptions};

verus! {

/// The ABI this binding was written against. Bump together with the upstream pin.
pub const SUPPORTED_ABI: i32 = 4;

/// Decoder selector handed to the native transcribe entry points: the
/// architecture's default decoder.
pub const DEFAULT_DECODER: i32 = 0;

/// A loaded model: the native handle `H` and whether the model supports real
/// (cache-aware) streaming.
pub struct Model<H> {
    handle: H,
    streaming: bool,
}

impl<H> Model<H> {
    /// The native handle that the model owns.
    pub closed spec fn native(&self) -> H {
        self.handle
    }

    /// Whether the model was found to support real streaming when it was loaded.
    pub closed spec fn streaming(&self) -> bool {
        self.streaming
    }

    /// A model over a freshly loaded native handle; `stream_probe_succeeded`
    /// is whether opening a stream on it succeeded.
    pub fn from_native(handle: H, stream_probe_succeeded: bool) -> (m: Self)
        ensures
            m.native() == handle,
            m.streaming() == stream_probe_succeeded,
    {
        Model { handle, streaming: stream_probe_succeeded }
    }

    pub fn is_streaming(&self) -> (r: bool)
        ensures
            r == self.streaming(),
    {
        self.streaming
    }

    /// The native handle, for the calls that operate on it.
    pub fn handle(&self) -> (h: &H)
        ensures
            *h == self.native(),
    {
        &self.handle
    }
}

/// Accepts the native library only when it reports the ABI this binding
/// was written against.
pub fn check_abi(found: i32) -> (r: Result<(), Error>)
    ensures
        found == SUPPORTED_ABI <==> r is Ok,
        found != SUPPORTED_ABI ==> (r matches Err(Error::AbiMismatch { expected, found: f })
            && expected == SUPPORTED_ABI && f == found),
{
    if found != SUPPORTED_ABI {
        return Err(Error::AbiMismatch { expected: SUPPORTED_ABI, found });
    }
    Ok(())
}

/// A model path can be handed to the native loader unless it holds a NUL byte.
pub fn check_model_path(path: &str) -> (r: Result<(), Error>)
    ensures
        !contains_nul(path@) <==> r is Ok,
        contains_nul(path@) ==> (r matches Err(Error::Load(msg)) && msg@ == "path contains NUL"@),
{
    if has_nul(path) {
        return Err(Error::Load(String::from_str("path contains NUL")));
    }
    Ok(())
}

/// The error reported when the native loader returns no context for `path`.
pub fn load_returned_null(path: &str) -> (e: Error)
    ensures
        e matches Error::Load(msg) && msg@ == "parakeet_capi_load returned NULL for "@ + path@,
{
    let mut msg = String::from_str("parakeet_capi_load returned NULL for ");
    msg.append(path);
    Error::Load(msg)
}

/// The sample count handed to the native layer, which takes a 32-bit count.
pub fn sample_count(len: usize) -> (r: Result<i32, Error>)
    ensures
        len <= i32::MAX <==> r is Ok,
        r matches Ok(n) ==> n == len,
        len > i32::MAX ==> (r matches Err(Error::Transcribe(msg)) && msg@ == "too many samples"@),
{
    if len <= 2147483647usize {
        Ok(len as i32)
    } else {
        Err(Error::Transcribe(String::from_str("too many samples")))
    }
}

/// A 32-bit unsigned value read as a signed one (two's complement).
pub open spec fn as_signed(v: u32) -> int {
    if v <= i32::MAX {
        v as int
    } else {
        v - 0x1_0000_0000
    }
}

/// Reading a 32-bit unsigned value as a signed one loses nothing: the result
/// fits in an `i32` whose bits are exactly the input's, and every value up to
/// `i32::MAX` is kept as it is.
pub proof fn lemma_as_signed_keeps_bits(v: u32)
    ensures
        i32::MIN <= as_signed(v) <= i32::MAX,
        (as_signed(v) as i32) as u32 == v,
        v <= i32::MAX ==> as_signed(v) == v,
        v > i32::MAX ==> as_signed(v) < 0,
{
    assert((v as i32) as u32 == v) by (bit_vector);
    assert(v <= 0x7fff_ffff ==> (v as i32) as int == v as int) by (bit_vector);
    assert(v > 0x7fff_ffff ==> (v as i32) as int == v as int - 0x1_0000_0000) by (bit_vector);
    assert(as_signed(v) == (v as i32) as int);
}

/// The sample rate handed to the native layer: the same bits read as a
/// signed 32-bit value, so the native layer sees the caller's rate (and
/// resamples when it is not 16 kHz).
pub fn native_sample_rate(sample_rate: u32) -> (r: i32)
    ensures
        r == as_signed(sample_rate),
        r as u32 == sample_rate,
        sample_rate <= i32::MAX ==> r == sample_rate,
{
    proof {
        lemma_as_signed_keeps_bits(sample_rate);
    }
    if sample_rate <= 2147483647u32 {
        sample_rate as i32
    } else {
        (sample_rate as i64 - 0x1_0000_0000i64) as i32
    }
}

/// Checks made before the native loader is called, in order: the library's
/// ABI version, then the model path.
pub fn prepare_load(abi: i32, path: &str) -> (r: Result<(), Error>)
    ensures
        (abi == SUPPORTED_ABI && !contains_nul(path@)) <==> r is Ok,
        abi != SUPPORTED_ABI ==> (r matches Err(Error::AbiMismatch { expected, found })
            && expected == SUPPORTED_ABI && found == abi),
        abi == SUPPORTED_ABI && contains_nul(path@) ==> (r matches Err(Error::Load(msg)) && msg@
            == "path contains NUL"@),
{
    check_abi(abi)?;
    check_model_path(path)
}

/// The arguments of one native transcribe call.
#[derive(Debug)]
pub struct NativeRequest {
    /// Number of samples.
    pub samples: i32,
    /// Sample rate of the audio.
    pub sample_rate: i32,
    /// Decoder selector.
    pub decoder: i32,
    /// Language for the language-aware entry point; `None` for the default one.
    pub language: Option<String>,
}

/// Checks made and arguments computed before a native transcribe call, in
/// order: the sample count, then the language.
pub fn prepare_transcribe(sample_len: usize, sample_rate: u32, opts: &TranscribeOptions) -> (r:
    Result<NativeRequest, Error>)
    ensures
        sample_len > i32::MAX ==> (r matches Err(Error::Transcribe(msg)) && msg@
            == "too many samples"@),
        sample_len <= i32::MAX && (opts.language matches Some(lang) && contains_nul(lang@)) ==> (
        r matches Err(Error::Transcribe(msg)) && msg@ == "lang has NUL"@),
        sample_len <= i32::MAX && !(opts.language matches Some(lang) && contains_nul(lang@)) ==> (
        r matches Ok(req) && req.samples == sample_len && req.sample_rate == as_signed(sample_rate)
            && req.decoder == DEFAULT_DECODER && (opts.language is None ==> req.language is None)
            && (opts.language matches Some(lang) ==> (req.language matches Some(l) && l@
            == lang@))),
{
    let samples = sample_count(sample_len)?;
    let sample_rate = native_sample_rate(sample_rate);
    let language = opts.native_language()?;
    Ok(NativeRequest { samples, sample_rate, decoder: DEFAULT_DECODER, language })
}

/// Calls `String::from_utf8`, which std documents to succeed exactly when the
/// bytes are valid UTF-8, returning the text they encode.
#[verifier::external_body]
fn string_from_utf8(bytes: Vec<u8>) -> (r: Option<String>)
    ensures
        r is Some <==> valid_utf8(bytes@),
        r matches Some(s) ==> s@ == decode_utf8(bytes@),
{
    String::from_utf8(bytes).ok()
}

/// Text that `String::from_utf8_lossy` makes of the given bytes.
pub uninterp spec fn lossy_utf8(bytes: Seq<u8>) -> Seq<char>;

/// Calls `String::from_utf8_lossy`: its result is named `lossy_utf8`; std
/// documents that valid UTF-8 comes back unchanged. How invalid sequences are
/// replaced is not stated here.
#[verifier::external_body]
fn string_from_utf8_lossy(bytes: &[u8]) -> (r: String)
    ensures
        r@ == lossy_utf8(bytes@),
        valid_utf8(bytes@) ==> r@ == decode_utf8(bytes@),
{
    String::from_utf8_lossy(bytes).into_owned()
}

/// The text of a string returned by the native layer, which must be UTF-8.
pub fn text_from_native(bytes: Vec<u8>) -> (r: Result<String, Error>)
    ensures
        valid_utf8(bytes@) <==> r is Ok,
        r matches Ok(s) ==> s@ == decode_utf8(bytes@),
        !valid_utf8(bytes@) ==> r matches Err(Error::Utf8),
{
    match string_from_utf8(bytes) {
        Some(s) => Ok(s),
        None => Err(Error::Utf8),
    }
}

/// The description of the native layer's last error: its bytes read
/// leniently as UTF-8, or a fixed text when it reports none.
pub fn native_error_text(raw: Option<&[u8]>) -> (s: String)
    ensures
        raw is None ==> s@ == "unknown error"@,
        raw matches Some(bytes) ==> s@ == lossy_utf8(bytes@),
        raw matches Some(bytes) ==> (valid_utf8(bytes@) ==> s@ == decode_utf8(bytes@)),
{
    match raw {
        None => String::from_str("unknown error"),
        Some(bytes) => string_from_utf8_lossy(bytes),
    }
}

/// The error reported when a native transcribe call returns no text.
pub fn transcription_failed(last_error: Option<&[u8]>) -> (e: Error)
    ensures
        last_error is None ==> (e matches Error::Transcribe(msg) && msg@ == "unknown error"@),
        last_error matches Some(bytes) ==> (e matches Error::Transcribe(msg) && msg@ == lossy_utf8(
            bytes@,
        )),
{
    Error::Transcribe(native_error_text(last_error))
}

/// The message describing the native layer's last error: a fixed text when
/// it reports none, otherwise its bytes read leniently as UTF-8.
pub open spec fn native_error_message(last_error: Option<Seq<u8>>) -> Seq<char> {
    match last_error {
        None => "unknown error"@,
        Some(bytes) => lossy_utf8(bytes),
    }
}

/// The text of a native transcribe call: `raw` is the string it returned
/// (`None` for NULL) and `last_error` the context's last error message.
pub fn native_text(raw: Option<Vec<u8>>, last_error: Option<&[u8]>) -> (r: Result<String, Error>)
    ensures
        (raw matches Some(bytes) && valid_utf8(bytes@)) <==> r is Ok,
        raw is None ==> (r matches Err(Error::Transcribe(msg)) && msg@ == native_error_message(
            match last_error {
                None => None,
                Some(b) => Some(b@),
            },
        )),
        raw matches Some(bytes) ==> (!valid_utf8(bytes@) ==> r matches Err(Error::Utf8)),
        raw matches Some(bytes) ==> (r matches Ok(s) ==> s@ == decode_utf8(bytes@)),
{
    match raw {
        None => Err(transcription_failed(last_error)),
        Some(bytes) => text_from_native(bytes),
    }
}

/// The outcome of a transcription, given the native call's reply: the
/// checks on the sample count and the language come first (when either
/// fails, no native call is made and its reply is not read), then a NULL
/// reply, then text that is not UTF-8.
pub fn transcribe_result(
    sample_len: usize,
    opts: &TranscribeOptions,
    raw: Option<Vec<u8>>,
    last_error: Option<&[u8]>,
) -> (r: Result<String, Error>)
    ensures
        r is Err <==> (sample_len > i32::MAX || (opts.language matches Some(lang) && contains_nul(
            lang@,
        )) || raw is None || (raw matches Some(bytes) && !valid_utf8(bytes@))),
        sample_len > i32::MAX ==> (r matches Err(Error::Transcribe(msg)) && msg@
            == "too many samples"@),
        sample_len <= i32::MAX && (opts.language matches Some(lang) && contains_nul(lang@)) ==> (
        r matches Err(Error::Transcribe(msg)) && msg@ == "lang has NUL"@),
        sample_len <= i32::MAX && !(opts.language matches Some(lang) && contains_nul(lang@))
            && raw is None ==> (r matches Err(Error::Transcribe(msg)) && msg@
            == native_error_message(
            match last_error {
                None => None,
                Some(b) => Some(b@),
            },
        )),
        sample_len <= i32::MAX && !(opts.language matches Some(lang) && contains_nul(lang@)) ==> (
        raw matches Some(bytes) ==> (!valid_utf8(bytes@) ==> r matches Err(Error::Utf8))),
        r matches Ok(s) ==> (raw matches Some(bytes) && s@ == decode_utf8(bytes@)),
{
    sample_count(sample_len)?;
    opts.native_language()?;
    native_text(raw, last_error)
}

/// A model over the context that the native loader returned (`None` for
/// NULL); `stream_probe_succeeded` is whether a stream could be opened on it.
pub fn finish_load<H>(ctx: Option<H>, stream_probe_succeeded: bool, path: &str) -> (r: Result<
    Model<H>,
    Error,
>)
    ensures
        ctx is Some <==> r is Ok,
        ctx is None ==> (r matches Err(Error::Load(msg)) && msg@
            == "parakeet_capi_load returned NULL for "@ + path@),
        r matches Ok(m) ==> (ctx matches Some(c) && m.native() == c && m.streaming()
            == stream_probe_succeeded),
{
    match ctx {
        None => Err(load_returned_null(path)),
        Some(c) => Ok(Model::from_native(c, stream_probe_succeeded)),
    }
}

/// The outcome of loading a model, given what the native layer reported:
/// its ABI version, the context the loader returned for `path` (`None` for
/// NULL) and whether a stream could be opened on it. The ABI is checked
/// first, then the path (when either fails the loader is not called and its
/// reply is not read), then a NULL context.
pub fn load_result<H>(abi: i32, path: &str, ctx: Option<H>, stream_probe_succeeded: bool) -> (r:
    Result<Model<H>, Error>)
    ensures
        r is Err <==> (abi != SUPPORTED_ABI || contains_nul(path@) || ctx is None),
        abi != SUPPORTED_ABI ==> (r matches Err(Error::AbiMismatch { expected, found })
            && expected == SUPPORTED_ABI && found == abi),
        abi == SUPPORTED_ABI && contains_nul(path@) ==> (r matches Err(Error::Load(msg)) && msg@
            == "path contains NUL"@),
        abi == SUPPORTED_ABI && !contains_nul(path@) && ctx is None ==> (r matches Err(
            Error::Load(msg),
        ) && msg@ == "parakeet_capi_load returned NULL for "@ + path@),
        r matches Ok(m) ==> (ctx matches Some(c) && m.native() == c && m.streaming()
            == stream_probe_succeeded),
{
    prepare_load(abi, path)?;
    finish_load(ctx, stream_probe_succeeded, path)
}

} // verus!
