use vstd::prelude::*;
use vstd::string::{StrSliceExecFns, StringExecFns};

verus! {

/// Why a pattern command could not be turned into a pattern table.
#[derive(Debug, Clone, Copy, PartialEq, Eq, Structural)]
pub enum PatternError {
    InvalidDutyCycle,
    MissingDetails,
    InvalidPatternType,
    WavePeriodTooShort { min_ms: u64 },
    UnsupportedCommand,
}

/// The decimal digit `d` (0 to 9).
pub open spec fn decimal_digit(d: int) -> char {
    "0123456789"@[d]
}

/// `n` written in decimal, without leading zeros.
pub open spec fn decimal(n: nat) -> Seq<char>
    decreases n,
{
    if n < 10 {
        seq![decimal_digit(n as int)]
    } else {
        decimal(n / 10).push(decimal_digit((n % 10) as int))
    }
}

/// The human-readable text of each error.
pub open spec fn error_text(e: PatternError) -> Seq<char> {
    match e {
        PatternError::InvalidDutyCycle => "invalid duty cycle"@,
        PatternError::MissingDetails => "missing pattern details"@,
        PatternError::InvalidPatternType => "invalid pattern type"@,
        PatternError::WavePeriodTooShort { min_ms } => "wave period too short (minimum: "@
            + decimal(min_ms as nat) + "ms)"@,
        PatternError::UnsupportedCommand => "unsupported command"@,
    }
}

pub(crate) fn push_decimal(s: &mut String, n: u64)
    ensures
        final(s)@ == old(s)@ + decimal(n as nat),
    decreases n,
{
    if n >= 10 {
        push_decimal(s, n / 10);
    }
    let digits = "0123456789";
    proof {
        reveal_strlit("0123456789");
    }
    let d = (n % 10) as usize;
    let one = digits.substring_char(d, d + 1);
    assert(one@ =~= seq![decimal_digit(d as int)]);
    s.append(one);
    proof {
        if n >= 10 {
            assert(old(s)@ + decimal(n as nat) =~= old(s)@ + decimal((n / 10) as nat) + one@);
        } else {
            assert(old(s)@ + decimal(n as nat) =~= old(s)@ + one@);
        }
    }
}

impl PatternError {
    /// A short description of the error, for logs.
    pub fn message(&self) -> (r: String)
        ensures
            r@ == error_text(*self),
    {
        match *self {
            PatternError::InvalidDutyCycle => String::from_str("invalid duty cycle"),
            PatternError::MissingDetails => String::from_str("missing pattern details"),
            PatternError::InvalidPatternType => String::from_str("invalid pattern type"),
            PatternError::WavePeriodTooShort { min_ms } => {
                let mut s = String::from_str("wave period too short (minimum: ");
                push_decimal(&mut s, min_ms);
                s.append("ms)");
                s
            },
            PatternError::UnsupportedCommand => String::from_str("unsupported command"),
        }
    }
}

} // verus!
