//! Errors of the bindings and their human-readable messages.

use vstd::prelude::*;

verus! {

/// Errors reported by the bindings.
#[derive(Debug)]
pub enum Error {
    Load(String),
    Transcribe(String),
    NotStreaming,
    AbiMismatch { expected: i32, found: i32 },
    Utf8,
}

/// The decimal digit character for `d` (`d < 10`).
pub open spec fn digit_char(d: nat) -> char {
    seq!['0', '1', '2', '3', '4', '5', '6', '7', '8', '9'][d as int]
}

/// Decimal rendering of a natural number, most significant digit first.
pub open spec fn decimal_nat(n: nat) -> Seq<char>
    decreases n,
{
    if n < 10 {
        seq![digit_char(n)]
    } else {
        decimal_nat(n / 10).push(digit_char(n % 10))
    }
}

/// Decimal rendering of an integer, with a leading `-` when negative.
pub open spec fn decimal_int(i: int) -> Seq<char> {
    if i < 0 {
        seq!['-'] + decimal_nat((-i) as nat)
    } else {
        decimal_nat(i as nat)
    }
}

impl Error {
    /// The human-readable message of each error.
    pub open spec fn message(&self) -> Seq<char> {
        match self {
            Error::Load(detail) => "failed to load model: "@ + detail@,
            Error::Transcribe(detail) => "transcription failed: "@ + detail@,
            Error::NotStreaming => "model does not support real streaming"@,
            Error::AbiMismatch { expected, found } => "ABI mismatch: binding built for "@
                + decimal_int(*expected as int) + ", library is "@ + decimal_int(*found as int),
            Error::Utf8 => "invalid UTF-8 from native layer"@,
        }
    }

    /// Renders the error as its human-readable message.
    pub fn to_string(&self) -> (s: String)
        ensures
            s@ == self.message(),
    {
        match self {
            Error::Load(detail) => {
                let mut s = String::from_str("failed to load model: ");
                s.append(detail.as_str());
                s
            },
            Error::Transcribe(detail) => {
                let mut s = String::from_str("transcription failed: ");
                s.append(detail.as_str());
                s
            },
            Error::NotStreaming => String::from_str("model does not support real streaming"),
            Error::AbiMismatch { expected, found } => {
                let mut s = String::from_str("ABI mismatch: binding built for ");
                push_i32(&mut s, *expected);
                s.append(", library is ");
                push_i32(&mut s, *found);
                s
            },
            Error::Utf8 => String::from_str("invalid UTF-8 from native layer"),
        }
    }
}

/// The one-character string holding the decimal digit `d`.
fn digit_str(d: u32) -> (s: &'static str)
    requires
        d < 10,
    ensures
        s@ == seq![digit_char(d as nat)],
{
    proof {
        reveal_strlit("0");
        reveal_strlit("1");
        reveal_strlit("2");
        reveal_strlit("3");
        reveal_strlit("4");
        reveal_strlit("5");
        reveal_strlit("6");
        reveal_strlit("7");
        reveal_strlit("8");
        reveal_strlit("9");
    }
    let s = match d {
        0 => "0",
        1 => "1",
        2 => "2",
        3 => "3",
        4 => "4",
        5 => "5",
        6 => "6",
        7 => "7",
        8 => "8",
        _ => "9",
    };
    assert(s@ =~= seq![digit_char(d as nat)]);
    s
}

/// Appends the decimal rendering of `n` to `out`.
fn push_decimal(out: &mut String, n: u32)
    ensures
        final(out)@ == old(out)@ + decimal_nat(n as nat),
    decreases n,
{
    if n >= 10 {
        push_decimal(out, n / 10);
    }
    out.append(digit_str(n % 10));
    proof {
        if n >= 10 {
            assert(decimal_nat(n as nat) == decimal_nat((n / 10) as nat).push(
                digit_char((n % 10) as nat),
            ));
        }
    }
    assert(out@ =~= old(out)@ + decimal_nat(n as nat));
}

/// Appends the decimal rendering of `x` to `out`.
fn push_i32(out: &mut String, x: i32)
    ensures
        final(out)@ == old(out)@ + decimal_int(x as int),
{
    if x < 0 {
        out.append("-");
        let magnitude = (0i64 - x as i64) as u32;
        push_decimal(out, magnitude);
        proof {
            reveal_strlit("-");
        }
        assert(out@ =~= old(out)@ + decimal_int(x as int));
    } else {
        push_decimal(out, x as u32);
    }
}

} // verus!
