use vstd::prelude::*;
use vstd::string::StrSliceExecFns;

use crate::color::{hsv_color, hsv_to_rgb, Rgb, UNIT};
use crate::error::PatternError;

verus! {

/// A light pattern requested for the LED.
///
/// `duration_ms` is the total lifetime of the pattern (0: until replaced),
/// `period_ms` the length of one cycle and `duty_cycle` the share of a
/// cycle, in percent, spent lit.
#[derive(Debug, Clone, Copy, PartialEq, Eq, Structural)]
pub enum LedCmd {
    Off,
    Blink { color: Rgb, duration_ms: u64, period_ms: u64, duty_cycle: u8 },
    Wave { color: Rgb, duration_ms: u64, period_ms: u64, duty_cycle: u8 },
}

/// Colour of an inbound pattern: hue in thousandths of a degree,
/// saturation and value in thousandths of one.
#[derive(Debug, Clone, Copy, PartialEq, Eq, Structural)]
pub struct MessageLedColor {
    pub h: i64,
    pub s: i64,
    pub v: i64,
}

/// Details of an inbound `blink` or `wave` pattern; `dc` is the duty cycle
/// in thousandths of one.
#[derive(Debug, Clone, Copy, PartialEq, Eq, Structural)]
pub struct MessageLedDetails {
    pub duration_ms: u32,
    pub period_ms: u32,
    pub dc: i64,
    pub color: MessageLedColor,
}

/// The `pattern` object of an inbound command: its `type` and, for
/// patterns other than `off`, its details.
#[derive(Debug)]
pub struct MessageLedType {
    pub pattern_type: String,
    pub details: Option<MessageLedDetails>,
}

/// An inbound command frame: `{"pattern": {"type": ..., "details": ...}}`.
#[derive(Debug)]
pub struct MessageLedPattern {
    pub pattern: MessageLedType,
}

/// The command that an inbound pattern message asks for.
pub open spec fn command_of(msg: MessageLedPattern) -> Result<LedCmd, PatternError> {
    let kind = msg.pattern.pattern_type@;
    if kind == "off"@ {
        Ok(LedCmd::Off)
    } else {
        match msg.pattern.details {
            None => Err(PatternError::MissingDetails),
            Some(d) => {
                if d.dc < 0 || d.dc > UNIT {
                    Err(PatternError::InvalidDutyCycle)
                } else {
                    let color = hsv_color(d.color.h as int, d.color.s as int, d.color.v as int);
                    let duty = (d.dc / 10) as u8;
                    if kind == "blink"@ {
                        Ok(
                            LedCmd::Blink {
                                color,
                                duration_ms: d.duration_ms as u64,
                                period_ms: d.period_ms as u64,
                                duty_cycle: duty,
                            },
                        )
                    } else if kind == "wave"@ {
                        Ok(
                            LedCmd::Wave {
                                color,
                                duration_ms: d.duration_ms as u64,
                                period_ms: d.period_ms as u64,
                                duty_cycle: duty,
                            },
                        )
                    } else {
                        Err(PatternError::InvalidPatternType)
                    }
                }
            }
        }
    }
}

/// Whether two strings hold the same characters.
pub fn same_text(a: &str, b: &str) -> (r: bool)
    ensures
        r == (a@ == b@),
{
    let n = a.unicode_len();
    if n != b.unicode_len() {
        return false;
    }
    let mut i: usize = 0;
    while i < n
        invariant
            n == a@.len(),
            n == b@.len(),
            i <= n,
            forall|j: int| 0 <= j < i ==> a@[j] == b@[j],
        decreases n - i,
    {
        if a.get_char(i) != b.get_char(i) {
            return false;
        }
        i = i + 1;
    }
    assert(a@ =~= b@);
    true
}

impl LedCmd {
    /// Turns a decoded inbound pattern message into a command.
    ///
    /// `off` needs no details. `blink` and `wave` need them, with a duty
    /// cycle in `[0, 1]` (kept as whole percent, rounded down) and a colour
    /// converted with [`hsv_to_rgb`]. Any other type is refused.
    pub fn from_message(msg: &MessageLedPattern) -> (r: Result<LedCmd, PatternError>)
        ensures
            r == command_of(*msg),
    {
        let kind = msg.pattern.pattern_type.as_str();
        if same_text(kind, "off") {
            return Ok(LedCmd::Off);
        }
        let details = match msg.pattern.details {
            Some(d) => d,
            None => {
                return Err(PatternError::MissingDetails);
            },
        };
        if details.dc < 0 || details.dc > UNIT {
            return Err(PatternError::InvalidDutyCycle);
        }
        let color = hsv_to_rgb(details.color.h, details.color.s, details.color.v);
        let duty_cycle = (details.dc / 10) as u8;
        if same_text(kind, "blink") {
            Ok(
                LedCmd::Blink {
                    color,
                    duration_ms: details.duration_ms as u64,
                    period_ms: details.period_ms as u64,
                    duty_cycle,
                },
            )
        } else if same_text(kind, "wave") {
            Ok(
                LedCmd::Wave {
                    color,
                    duration_ms: details.duration_ms as u64,
                    period_ms: details.period_ms as u64,
                    duty_cycle,
                },
            )
        } else {
            Err(PatternError::InvalidPatternType)
        }
    }
}

} // verus!
