use vstd::prelude::*;

use crate::color::Rgb;
use crate::command::LedCmd;
use crate::error::PatternError;

verus! {

/// Number of steps in a wave table.
pub const WAVE_STEPS: usize = 70;

/// Nominal hold of one wave step, in milliseconds.
pub const WAVE_TICK_MS: u64 = 30;

/// Shortest wave period that can be rendered: one tick per step.
pub const MIN_WAVE_PERIOD_MS: u64 = 2100;

/// Brightness of a fully lit step.
pub const MAX_BRIGHTNESS: u8 = 255;

/// One step of a pattern table: a brightness held for `hold_ms`.
#[derive(Debug, Clone, Copy, PartialEq, Eq, Structural)]
pub struct PatternStep {
    pub brightness: u8,
    pub hold_ms: u64,
}

/// A compiled pattern: the colour, the total lifetime (0: unbounded) and the
/// steps that the renderer cycles through.
#[derive(Debug)]
pub struct PatternTable {
    pub color: Rgb,
    pub duration_ms: u64,
    pub steps: Vec<PatternStep>,
}

impl PatternTable {
    /// A table has at least one step, so that cycling through it never ends,
    /// and never more than a wave has.
    pub open spec fn wf(&self) -> bool {
        1 <= self.steps@.len() <= WAVE_STEPS
    }
}

/// Brightness of each wave step `i`: `round(255/2 * (1 + cos(pi*(2i - N)/N)))`
/// for `N = WAVE_STEPS`, a raised cosine that starts dark, peaks at the middle
/// step and falls back.
pub open spec fn wave_levels() -> Seq<u8> {
    seq![
        0u8, 1, 2, 5, 8, 13, 18, 24, 31, 39, 48, 57, 67, 77, 88, 99, 110, 122, 133, 145,
        156, 167, 178, 188, 198, 207, 216, 224, 231, 237, 242, 247, 250, 253, 254, 255, 254, 253,
        250, 247, 242, 237, 231, 224, 216, 207, 198, 188, 178, 167, 156, 145, 133, 122, 110, 99,
        88, 77, 67, 57, 48, 39, 31, 24, 18, 13, 8, 5, 2, 1,
    ]
}

/// Total time that a sequence of steps takes, in milliseconds.
pub open spec fn total_hold(steps: Seq<PatternStep>) -> int
    decreases steps.len(),
{
    if steps.len() == 0 {
        0
    } else {
        total_hold(steps.drop_last()) + steps.last().hold_ms
    }
}

/// The two blink steps: fully lit for `period * duty / 100`, then dark for
/// the rest of the period.
pub open spec fn blink_steps(period: u64, duty: u8) -> Seq<PatternStep> {
    let on = (period * duty / 100) as u64;
    seq![
        PatternStep { brightness: MAX_BRIGHTNESS, hold_ms: on },
        PatternStep { brightness: 0, hold_ms: (period - on) as u64 },
    ]
}

/// The wave steps: each held one tick, but the last, which is held for what
/// is left of the period.
pub open spec fn wave_steps(period: u64) -> Seq<PatternStep> {
    Seq::new(
        WAVE_STEPS as nat,
        |i: int|
            PatternStep {
                brightness: wave_levels()[i],
                hold_ms: if i < WAVE_STEPS - 1 {
                    WAVE_TICK_MS
                } else {
                    (period - (WAVE_STEPS - 1) * WAVE_TICK_MS) as u64
                },
            },
    )
}

/// What compiling a command gives: its colour, lifetime and steps, or why it
/// is refused.
pub open spec fn compiled(cmd: LedCmd) -> Result<(Rgb, u64, Seq<PatternStep>), PatternError> {
    match cmd {
        LedCmd::Off => Err(PatternError::UnsupportedCommand),
        LedCmd::Blink { color, duration_ms, period_ms, duty_cycle } => {
            if duty_cycle > 100 {
                Err(PatternError::InvalidDutyCycle)
            } else {
                Ok((color, duration_ms, blink_steps(period_ms, duty_cycle)))
            }
        },
        LedCmd::Wave { color, duration_ms, period_ms, duty_cycle } => {
            if duty_cycle > 100 {
                Err(PatternError::InvalidDutyCycle)
            } else if period_ms < MIN_WAVE_PERIOD_MS {
                Err(PatternError::WavePeriodTooShort { min_ms: MIN_WAVE_PERIOD_MS })
            } else {
                Ok((color, duration_ms, wave_steps(period_ms)))
            }
        },
    }
}

/// Whether `r` is the outcome that [`compiled`] describes for `cmd`.
pub open spec fn compiles_to(cmd: LedCmd, r: Result<PatternTable, PatternError>) -> bool {
    match compiled(cmd) {
        Ok((color, duration, steps)) => {
            &&& r is Ok
            &&& r->Ok_0.color == color
            &&& r->Ok_0.duration_ms == duration
            &&& r->Ok_0.steps@ == steps
        },
        Err(e) => r == Err::<PatternTable, PatternError>(e),
    }
}

fn wave_level(i: usize) -> (r: u8)
    requires
        i < WAVE_STEPS,
    ensures
        r == wave_levels()[i as int],
{
    let levels: [u8; 70] = [
        0, 1, 2, 5, 8, 13, 18, 24, 31, 39, 48, 57, 67, 77, 88, 99, 110, 122, 133, 145, 156, 167,
        178, 188, 198, 207, 216, 224, 231, 237, 242, 247, 250, 253, 254, 255, 254, 253, 250, 247,
        242, 237, 231, 224, 216, 207, 198, 188, 178, 167, 156, 145, 133, 122, 110, 99, 88, 77, 67,
        57, 48, 39, 31, 24, 18, 13, 8, 5, 2, 1,
    ];
    assert(levels@ =~= wave_levels());
    levels[i]
}

/// Builds the wave table for a period of at least [`MIN_WAVE_PERIOD_MS`].
fn compute_wave_table(period_ms: u64) -> (r: Vec<PatternStep>)
    requires
        period_ms >= MIN_WAVE_PERIOD_MS,
    ensures
        r@ == wave_steps(period_ms),
{
    let mut steps: Vec<PatternStep> = Vec::new();
    let mut i: usize = 0;
    while i < WAVE_STEPS
        invariant
            i <= WAVE_STEPS,
            period_ms >= MIN_WAVE_PERIOD_MS,
            steps@ =~= wave_steps(period_ms).take(i as int),
        decreases WAVE_STEPS - i,
    {
        let hold_ms: u64 = if i < WAVE_STEPS - 1 {
            WAVE_TICK_MS
        } else {
            period_ms - (WAVE_STEPS as u64 - 1) * WAVE_TICK_MS
        };
        steps.push(PatternStep { brightness: wave_level(i), hold_ms });
        i = i + 1;
    }
    steps
}

/// Compiles a command into the table of steps that renders it.
///
/// `Blink` gives two steps (lit, then dark) that fill one period; `Wave`
/// gives [`WAVE_STEPS`] steps of a raised cosine, the last one stretched so
/// that the steps fill the period exactly. A duty cycle over 100 is refused
/// for both, a wave period under [`MIN_WAVE_PERIOD_MS`] too; `Off` has no
/// table.
pub fn compile(cmd: &LedCmd) -> (r: Result<PatternTable, PatternError>)
    ensures
        compiles_to(*cmd, r),
        r is Ok ==> r->Ok_0.wf(),
{
    match *cmd {
        LedCmd::Off => Err(PatternError::UnsupportedCommand),
        LedCmd::Blink { color, duration_ms, period_ms, duty_cycle } => {
            if duty_cycle > 100 {
                return Err(PatternError::InvalidDutyCycle);
            }
            assert(period_ms as u128 * duty_cycle as u128 <= 0xffff_ffff_ffff_ffff * 100u128)
                by (nonlinear_arith)
                requires duty_cycle <= 100;
            let product: u128 = period_ms as u128 * duty_cycle as u128;
            assert(product <= period_ms as u128 * 100) by (nonlinear_arith)
                requires product == period_ms as u128 * duty_cycle as u128, duty_cycle <= 100;
            let on: u64 = (product / 100) as u64;
            let off: u64 = period_ms - on;
            let steps: Vec<PatternStep> = vec![
                PatternStep { brightness: MAX_BRIGHTNESS, hold_ms: on },
                PatternStep { brightness: 0, hold_ms: off },
            ];
            assert(steps@ =~= blink_steps(period_ms, duty_cycle));
            Ok(PatternTable { color, duration_ms, steps })
        },
        LedCmd::Wave { color, duration_ms, period_ms, duty_cycle } => {
            if duty_cycle > 100 {
                return Err(PatternError::InvalidDutyCycle);
            }
            if period_ms < MIN_WAVE_PERIOD_MS {
                return Err(PatternError::WavePeriodTooShort { min_ms: MIN_WAVE_PERIOD_MS });
            }
            let steps = compute_wave_table(period_ms);
            Ok(PatternTable { color, duration_ms, steps })
        },
    }
}

proof fn lemma_wave_prefix_hold(period: u64, k: int)
    requires
        0 <= k < WAVE_STEPS,
    ensures
        total_hold(wave_steps(period).take(k)) == k * WAVE_TICK_MS,
    decreases k,
{
    if k > 0 {
        let prefix = wave_steps(period).take(k);
        assert(prefix.drop_last() =~= wave_steps(period).take(k - 1));
        lemma_wave_prefix_hold(period, k - 1);
    }
}

/// A blink command with a duty cycle of at most 100 compiles to two steps
/// whose holds add up to the period exactly.
pub proof fn lemma_blink_fills_period(color: Rgb, duration_ms: u64, period_ms: u64, duty_cycle: u8)
    requires
        duty_cycle <= 100,
        period_ms > 0,
    ensures
        ({
            let r = compiled(LedCmd::Blink { color, duration_ms, period_ms, duty_cycle });
            &&& r is Ok
            &&& r->Ok_0.2.len() == 2
            &&& total_hold(r->Ok_0.2) == period_ms
        }),
{
    let steps = blink_steps(period_ms, duty_cycle);
    assert(period_ms * duty_cycle / 100 <= period_ms) by (nonlinear_arith)
        requires duty_cycle <= 100;
    let first = steps.drop_last();
    assert(first.drop_last() =~= Seq::<PatternStep>::empty());
    assert(total_hold(first.drop_last()) == 0);
    assert(first.last() == steps[0]);
    assert(total_hold(first) == steps[0].hold_ms);
    assert(total_hold(steps) == steps[0].hold_ms + steps[1].hold_ms);
}

/// A duty cycle over 100 is refused, for blinks and waves alike, whatever
/// the other fields hold.
pub proof fn lemma_duty_cycle_over_100_refused(
    color: Rgb,
    duration_ms: u64,
    period_ms: u64,
    duty_cycle: u8,
)
    requires
        duty_cycle > 100,
    ensures
        compiled(LedCmd::Blink { color, duration_ms, period_ms, duty_cycle }) == Err::<
            (Rgb, u64, Seq<PatternStep>),
            PatternError,
        >(PatternError::InvalidDutyCycle),
        compiled(LedCmd::Wave { color, duration_ms, period_ms, duty_cycle }) == Err::<
            (Rgb, u64, Seq<PatternStep>),
            PatternError,
        >(PatternError::InvalidDutyCycle),
{
}

/// A wave whose period is shorter than one tick per step is refused, and the
/// error names that minimum. (A duty cycle over 100 is refused first.)
pub proof fn lemma_short_wave_refused(
    color: Rgb,
    duration_ms: u64,
    period_ms: u64,
    duty_cycle: u8,
)
    requires
        period_ms < WAVE_STEPS * WAVE_TICK_MS,
        duty_cycle <= 100,
    ensures
        compiled(LedCmd::Wave { color, duration_ms, period_ms, duty_cycle }) == Err::<
            (Rgb, u64, Seq<PatternStep>),
            PatternError,
        >(PatternError::WavePeriodTooShort { min_ms: (WAVE_STEPS * WAVE_TICK_MS) as u64 }),
{
}

/// A wave that compiles has [`WAVE_STEPS`] steps whose holds add up to the
/// requested period exactly.
pub proof fn lemma_wave_fills_period(color: Rgb, duration_ms: u64, period_ms: u64, duty_cycle: u8)
    requires
        compiled(LedCmd::Wave { color, duration_ms, period_ms, duty_cycle }) is Ok,
    ensures
        ({
            let r = compiled(LedCmd::Wave { color, duration_ms, period_ms, duty_cycle });
            &&& r->Ok_0.2.len() == WAVE_STEPS
            &&& total_hold(r->Ok_0.2) == period_ms
        }),
{
    let steps = wave_steps(period_ms);
    lemma_wave_prefix_hold(period_ms, WAVE_STEPS - 1);
    assert(steps.drop_last() =~= steps.take(WAVE_STEPS - 1));
}

} // verus!
