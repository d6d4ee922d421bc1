use vstd::prelude::*;

use crate::color::Rgb;
use crate::command::LedCmd;
use crate::pattern::{compile, compiled, PatternTable};

verus! {

/// What the LED task does next: write `color` scaled to `brightness`, then
/// wait for a new command and, when `hold_ms` is given, for that long at most.
#[derive(Debug, Clone, Copy, PartialEq, Eq, Structural)]
pub struct LedOutput {
    pub color: Rgb,
    pub brightness: u8,
    pub hold_ms: Option<u64>,
}

/// The state of the LED renderer.
#[derive(Debug)]
pub enum RendererState {
    /// The LED is dark until the next command.
    Off,
    /// `table` is being cycled through; step `index` is on show, and the
    /// pattern started at `started_ms`.
    Rendering { table: PatternTable, index: usize, started_ms: u64 },
}

/// Drives one LED: turns commands and elapsed holds into the next write.
#[derive(Debug)]
pub struct LedRenderer {
    pub state: RendererState,
}

/// The LED switched off, waiting for a command with no timeout.
pub open spec fn dark() -> LedOutput {
    LedOutput { color: Rgb { r: 0, g: 0, b: 0 }, brightness: 0, hold_ms: None }
}

/// Step `i` of `table` on show, held for its own time.
pub open spec fn show_step(table: PatternTable, i: int) -> LedOutput {
    LedOutput {
        color: table.color,
        brightness: table.steps@[i].brightness,
        hold_ms: Some(table.steps@[i].hold_ms),
    }
}

/// Time since `start`, or 0 for a clock reading before it.
pub open spec fn elapsed(now: u64, start: u64) -> int {
    if now >= start {
        now - start
    } else {
        0
    }
}

/// Whether a pattern with lifetime `duration` that started at `start` is over
/// at `now`; a lifetime of 0 never ends.
pub open spec fn expired(duration: u64, start: u64, now: u64) -> bool {
    duration > 0 && elapsed(now, start) >= duration
}

impl LedRenderer {
    pub open spec fn wf(&self) -> bool {
        match self.state {
            RendererState::Off => true,
            RendererState::Rendering { table, index, started_ms } => {
                table.wf() && index < table.steps@.len()
            },
        }
    }

    /// A renderer that starts dark and waits for its first command.
    pub fn new() -> (r: (LedRenderer, LedOutput))
        ensures
            r.0.wf(),
            r.0.state is Off,
            r.1 == dark(),
    {
        (LedRenderer { state: RendererState::Off }, dark_output())
    }

    /// Takes a new command; it replaces whatever was on show.
    ///
    /// `Off` switches the LED off at once. A blink or wave that compiles
    /// starts from its first step at `now_ms`. One that does not compile is
    /// dropped: the state stays as it was and `None` says to keep waiting as
    /// before.
    pub fn on_command(&mut self, cmd: LedCmd, now_ms: u64) -> (r: Option<LedOutput>)
        requires
            old(self).wf(),
        ensures
            final(self).wf(),
            cmd is Off ==> final(self).state is Off && r == Some(dark()),
            !(cmd is Off) && compiled(cmd) is Ok ==> {
                &&& final(self).state is Rendering
                &&& final(self).state->index == 0
                &&& final(self).state->started_ms == now_ms
                &&& final(self).state->table.color == compiled(cmd)->Ok_0.0
                &&& final(self).state->table.duration_ms == compiled(cmd)->Ok_0.1
                &&& final(self).state->table.steps@ == compiled(cmd)->Ok_0.2
                &&& r == Some(show_step(final(self).state->table, 0))
            },
            !(cmd is Off) && compiled(cmd) is Err ==> *final(self) == *old(self) && r is None,
    {
        if let LedCmd::Off = cmd {
            self.state = RendererState::Off;
            return Some(dark_output());
        }
        match compile(&cmd) {
            Ok(table) => {
                let out = step_output(&table, 0);
                self.state = RendererState::Rendering { table, index: 0, started_ms: now_ms };
                Some(out)
            },
            Err(_) => None,
        }
    }

    /// The hold of the step on show has run out at `now_ms`.
    ///
    /// A pattern whose lifetime is over switches the LED off; otherwise the
    /// next step goes on show, wrapping round to the first after the last.
    /// When dark there is nothing to advance.
    pub fn on_hold_elapsed(&mut self, now_ms: u64) -> (r: LedOutput)
        requires
            old(self).wf(),
        ensures
            final(self).wf(),
            old(self).state is Off ==> final(self).state is Off && r == dark(),
            old(self).state is Rendering ==> {
                let table = old(self).state->table;
                let index = old(self).state->index;
                let started = old(self).state->started_ms;
                if expired(table.duration_ms, started, now_ms) {
                    final(self).state is Off && r == dark()
                } else {
                    let next = (index + 1) % table.steps@.len() as int;
                    &&& final(self).state is Rendering
                    &&& final(self).state->table == table
                    &&& final(self).state->index == next
                    &&& final(self).state->started_ms == started
                    &&& r == show_step(table, next)
                }
            },
    {
        let mut state = RendererState::Off;
        core::mem::swap(&mut self.state, &mut state);
        match state {
            RendererState::Off => dark_output(),
            RendererState::Rendering { table, index, started_ms } => {
                let elapsed: u64 = if now_ms >= started_ms {
                    now_ms - started_ms
                } else {
                    0
                };
                if table.duration_ms > 0 && elapsed >= table.duration_ms {
                    return dark_output();
                }
                let next: usize = if index + 1 < table.steps.len() {
                    index + 1
                } else {
                    0
                };
                proof {
                    let len = table.steps@.len();
                    if index + 1 < len {
                        vstd::arithmetic::div_mod::lemma_small_mod((index + 1) as nat, len);
                    } else {
                        vstd::arithmetic::div_mod::lemma_mod_self_0(len as int);
                    }
                }
                let out = step_output(&table, next);
                self.state = RendererState::Rendering { table, index: next, started_ms };
                out
            },
        }
    }
}

fn dark_output() -> (r: LedOutput)
    ensures
        r == dark(),
{
    LedOutput { color: Rgb { r: 0, g: 0, b: 0 }, brightness: 0, hold_ms: None }
}

fn step_output(table: &PatternTable, i: usize) -> (r: LedOutput)
    requires
        i < table.steps@.len(),
    ensures
        r == show_step(*table, i as int),
{
    let step = table.steps[i];
    LedOutput { color: table.color, brightness: step.brightness, hold_ms: Some(step.hold_ms) }
}

} // verus!
