//! Options for a transcription request.

use vstd::prelude::*;
use vstd::utf8::{
    char_is_scalar, char_u32_cast, encode_scalar, encode_utf8, has_width_1_encoding,
    leading_byte_width_1,
};

use crate::error::Error;

verus! {

/// Options for one transcription call.
#[derive(Debug, Clone)]
pub struct TranscribeOptions {
    /// Target language code (e.g. "it", "en", "auto"). None = engine default.
    pub language: Option<String>,
    /// Request per-word timestamps (uses the JSON C entry points). Off by default.
    pub word_timestamps: bool,
}

impl Default for TranscribeOptions {
    fn default() -> (o: Self)
        ensures
            o.language is None,
            !o.word_timestamps,
    {
        TranscribeOptions { language: None, word_timestamps: false }
    }
}

/// The UTF-8 encoding of `s` holds a NUL byte, so it cannot be handed to the
/// native layer as a C string.
pub open spec fn contains_nul(s: Seq<char>) -> bool {
    encode_utf8(s).contains(0u8)
}

/// The UTF-8 encoding of one character holds a zero byte exactly when the
/// character is NUL: every byte of a multi-byte encoding has its top bit set.
proof fn lemma_scalar_zero_byte(c: char)
    ensures
        encode_scalar(c as u32).contains(0u8) <==> c == '\0',
{
    char_is_scalar(c);
    let v = c as u32;
    let e = encode_scalar(v);
    if has_width_1_encoding(v) {
        assert(v <= 0x7f ==> (((v & 0x7f) as u8 == 0) <==> v == 0)) by (bit_vector);
        assert(e =~= seq![leading_byte_width_1(v)]);
        if e.contains(0u8) {
            let i = choose|i: int| 0 <= i < e.len() && e[i] == 0u8;
            assert(i == 0);
        }
        if c == '\0' {
            assert(e[0] == 0u8);
        }
        assert(v == 0 <==> c == '\0') by {
            char_u32_cast(c, v);
        }
    } else {
        let b1 = (v >> 6) & 0x1F;
        assert(forall|y: u8| (0xC0u8 | y) != 0u8) by (bit_vector);
        assert(forall|y: u8| (0xE0u8 | y) != 0u8) by (bit_vector);
        assert(forall|y: u8| (0xF0u8 | y) != 0u8) by (bit_vector);
        assert(forall|y: u8| (0x80u8 | y) != 0u8) by (bit_vector);
        assert(forall|i: int| 0 <= i < e.len() ==> e[i] != 0u8);
        assert(v != 0);
        assert(c != '\0');
    }
}

/// A text's UTF-8 encoding holds a NUL byte exactly when the text holds the
/// NUL character; any other character, such as a space or a capital letter,
/// never makes a text unfit for the native layer.
pub proof fn lemma_contains_nul_iff_nul_char(s: Seq<char>)
    ensures
        contains_nul(s) <==> s.contains('\0'),
    decreases s.len(),
{
    if s.len() == 0 {
        assert(encode_utf8(s) =~= Seq::<u8>::empty());
        assert(!encode_utf8(s).contains(0u8));
    } else {
        let head = encode_scalar(s[0] as u32);
        let rest = s.drop_first();
        let tail = encode_utf8(rest);
        let e = encode_utf8(s);
        assert(e == head + tail);
        lemma_scalar_zero_byte(s[0]);
        lemma_contains_nul_iff_nul_char(rest);
        if e.contains(0u8) {
            let i = choose|i: int| 0 <= i < e.len() && e[i] == 0u8;
            if i < head.len() {
                assert(head[i] == 0u8);
                assert(head.contains(0u8));
            } else {
                assert(tail[i - head.len()] == 0u8);
                assert(tail.contains(0u8));
                let j = choose|j: int| 0 <= j < rest.len() && rest[j] == '\0';
                assert(s[j + 1] == '\0');
            }
        }
        if s.contains('\0') {
            let j = choose|j: int| 0 <= j < s.len() && s[j] == '\0';
            if j == 0 {
                let i = choose|i: int| 0 <= i < head.len() && head[i] == 0u8;
                assert(e[i] == 0u8);
            } else {
                assert(rest[j - 1] == '\0');
                let i = choose|i: int| 0 <= i < tail.len() && tail[i] == 0u8;
                assert(e[i + head.len()] == 0u8);
            }
        }
    }
}

/// Whether the text holds a NUL byte.
pub fn has_nul(s: &str) -> (r: bool)
    ensures
        r == contains_nul(s@),
        r == s@.contains('\0'),
{
    proof {
        lemma_contains_nul_iff_nul_char(s@);
    }
    let bytes = s.as_bytes();
    let mut i: usize = 0;
    while i < bytes.len()
        invariant
            bytes@ == encode_utf8(s@),
            i <= bytes.len(),
            forall|j: int| 0 <= j < i ==> bytes@[j] != 0u8,
            contains_nul(s@) <==> s@.contains('\0'),
        decreases bytes.len() - i,
    {
        if bytes[i] == 0u8 {
            assert(bytes@[i as int] == 0u8);
            return true;
        }
        i = i + 1;
    }
    false
}

impl TranscribeOptions {
    /// The language to hand to the native layer: `None` selects the engine's
    /// default entry point; a language holding a NUL byte is rejected.
    pub fn native_language(&self) -> (r: Result<Option<String>, Error>)
        ensures
            self.language is None ==> r matches Ok(None),
            self.language matches Some(lang) ==> {
                if contains_nul(lang@) {
                    r matches Err(Error::Transcribe(msg)) && msg@ == "lang has NUL"@
                } else {
                    r matches Ok(Some(c)) && c@ == lang@
                }
            },
    {
        match &self.language {
            None => Ok(None),
            Some(lang) => {
                if has_nul(lang.as_str()) {
                    Err(Error::Transcribe(String::from_str("lang has NUL")))
                } else {
                    Ok(Some(lang.clone()))
                }
            },
        }
    }
}

} // verus!
