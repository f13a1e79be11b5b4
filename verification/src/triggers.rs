//! Remote triggers, macros and the service timer.
use vstd::prelude::*;
use crate::ids::{is_uuid_text, new_id};
use crate::text::{trim, trimmed};

verus! {

/// An action fired by an HTTP or OSC trigger or a macro step.
#[derive(Debug)]
pub enum TriggerAction {
    NextSlide,
    PrevSlide,
    GotoSlide(usize),
    BlackScreen(bool),
    ClearOutput,
    TriggerProp(String),
    StartTimer,
    StopTimer,
    ResetTimer,
}

/// The service timer and the wall clock it reads.
#[derive(Clone, Copy, Debug, PartialEq, Eq, Structural)]
pub struct Timer {
    pub running: bool,
    /// When the timer (as if never paused) started, in seconds since the epoch.
    pub start_epoch: u64,
    /// The seconds shown.
    pub secs: u64,
    /// The time of day shown, in seconds since midnight.
    pub clock_secs: u64,
}

/// The timer after a clock tick at `now` (seconds since the epoch): the clock
/// shows the time of day, and a running timer the seconds since it started
/// (none when the start lies ahead).
pub open spec fn ticked(t: Timer, now: u64) -> Timer {
    Timer {
        running: t.running,
        start_epoch: t.start_epoch,
        secs: if t.running {
            if now >= t.start_epoch {
                (now - t.start_epoch) as u64
            } else {
                0
            }
        } else {
            t.secs
        },
        clock_secs: (now % 86400) as u64,
    }
}

/// The timer after it is started or paused at `now`: a paused timer resumes
/// from the seconds shown.
pub open spec fn toggled(t: Timer, now: u64) -> Timer {
    if t.running {
        Timer { running: false, ..t }
    } else {
        Timer {
            running: true,
            start_epoch: if now >= t.secs {
                (now - t.secs) as u64
            } else {
                0
            },
            ..t
        }
    }
}

impl Timer {
    /// A stopped timer at zero.
    pub fn new() -> (t: Timer)
        ensures
            !t.running,
            t.start_epoch == 0,
            t.secs == 0,
            t.clock_secs == 0,
    {
        Timer { running: false, start_epoch: 0, secs: 0, clock_secs: 0 }
    }

    /// One clock tick at `now` (seconds since the epoch): the clock shows the
    /// time of day, and a running timer the seconds since it started.
    pub fn tick_at(&mut self, now: u64)
        ensures
            *final(self) == ticked(*old(self), now),
    {
        self.clock_secs = now % 86400;
        if self.running {
            self.secs = if now >= self.start_epoch {
                now - self.start_epoch
            } else {
                0
            };
        }
    }

    /// Starts or pauses the timer at `now`; starting again resumes from the
    /// seconds shown.
    pub fn toggle_at(&mut self, now: u64)
        ensures
            *final(self) == toggled(*old(self), now),
    {
        if self.running {
            self.running = false;
        } else {
            self.start_epoch = if now >= self.secs {
                now - self.secs
            } else {
                0
            };
            self.running = true;
        }
    }

    /// Stops the timer at zero, counting from `now`.
    pub fn reset_at(&mut self, now: u64)
        ensures
            final(self).secs == 0,
            !final(self).running,
            final(self).start_epoch == now,
            final(self).clock_secs == old(self).clock_secs,
    {
        self.secs = 0;
        self.running = false;
        self.start_epoch = now;
    }

    /// A trigger starts the timer from the time of day shown, unless it runs.
    pub fn trigger_start(&mut self)
        ensures
            *final(self) == if old(self).running {
                *old(self)
            } else {
                (Timer { running: true, start_epoch: old(self).clock_secs, ..*old(self) })
            },
    {
        if !self.running {
            self.running = true;
            self.start_epoch = self.clock_secs;
        }
    }

    /// A trigger stops the timer.
    pub fn trigger_stop(&mut self)
        ensures
            *final(self) == (Timer { running: false, ..*old(self) }),
    {
        self.running = false;
    }

    /// A trigger resets the timer to zero, stopped.
    pub fn trigger_reset(&mut self)
        ensures
            *final(self) == (Timer { running: false, secs: 0, ..*old(self) }),
    {
        self.secs = 0;
        self.running = false;
    }
}

/// The clock shows the time of day: seconds since midnight, below a full day,
/// the time itself during the first day, and the same time one day later.
pub proof fn law_clock_shows_time_of_day(t: Timer, now: u64)
    ensures
        ticked(t, now).clock_secs < 86400,
        now < 86400 ==> ticked(t, now).clock_secs == now,
        now >= 86400 ==> ticked(t, now).clock_secs == ticked(t, (now - 86400) as u64).clock_secs,
{
}

/// Time spent paused is not counted: a running timer ticked at `p`, paused at
/// `p`, resumed at `q` and ticked at `r` shows the seconds it showed at `p`
/// plus the `r - q` seconds it ran since.
pub proof fn law_paused_time_not_counted(t: Timer, p: u64, q: u64, r: u64)
    requires
        t.running,
        t.start_epoch <= p <= q <= r,
    ensures
        ticked(toggled(toggled(ticked(t, p), p), q), r).secs == ticked(t, p).secs + (r - q),
        !toggled(ticked(t, p), p).running,
        toggled(toggled(ticked(t, p), p), q).running,
{
}

/// What a trigger action asks of the rest of the application, besides its
/// effect on the timer.
#[derive(Debug)]
pub enum TriggerEffect {
    NextSlide,
    PrevSlide,
    /// Make this slide index live, as given.
    GotoSlide(usize),
    /// Set the output's black screen.
    SetBlack(bool),
    /// Show or hide this prop.
    ToggleProp(String),
    /// Only the timer changed.
    TimerOnly,
}

/// Applies the timer part of `action` to `timer` and says what else it asks
/// for: a cleared output is a black screen.
pub fn trigger_fired(timer: &mut Timer, action: TriggerAction) -> (e: TriggerEffect)
    ensures
        match action {
            TriggerAction::NextSlide => e is NextSlide && *final(timer) == *old(timer),
            TriggerAction::PrevSlide => e is PrevSlide && *final(timer) == *old(timer),
            TriggerAction::GotoSlide(i) => e == TriggerEffect::GotoSlide(i) && *final(timer)
                == *old(timer),
            TriggerAction::BlackScreen(on) => e == TriggerEffect::SetBlack(on) && *final(timer)
                == *old(timer),
            TriggerAction::ClearOutput => e == TriggerEffect::SetBlack(true) && *final(timer)
                == *old(timer),
            TriggerAction::TriggerProp(id) => e == TriggerEffect::ToggleProp(id) && *final(timer)
                == *old(timer),
            TriggerAction::StartTimer => e is TimerOnly && *final(timer) == if old(timer).running {
                *old(timer)
            } else {
                (Timer { running: true, start_epoch: old(timer).clock_secs, ..*old(timer) })
            },
            TriggerAction::StopTimer => e is TimerOnly && *final(timer) == (Timer {
                running: false,
                ..*old(timer)
            }),
            TriggerAction::ResetTimer => e is TimerOnly && *final(timer) == (Timer {
                running: false,
                secs: 0,
                ..*old(timer)
            }),
        },
{
    match action {
        TriggerAction::NextSlide => TriggerEffect::NextSlide,
        TriggerAction::PrevSlide => TriggerEffect::PrevSlide,
        TriggerAction::GotoSlide(i) => TriggerEffect::GotoSlide(i),
        TriggerAction::BlackScreen(on) => TriggerEffect::SetBlack(on),
        TriggerAction::ClearOutput => TriggerEffect::SetBlack(true),
        TriggerAction::TriggerProp(id) => TriggerEffect::ToggleProp(id),
        TriggerAction::StartTimer => {
            timer.trigger_start();
            TriggerEffect::TimerOnly
        },
        TriggerAction::StopTimer => {
            timer.trigger_stop();
            TriggerEffect::TimerOnly
        },
        TriggerAction::ResetTimer => {
            timer.trigger_reset();
            TriggerEffect::TimerOnly
        },
    }
}

/// A macro: a named sequence of trigger actions that may loop.
#[derive(Debug)]
pub struct Macro {
    pub id: String,
    pub name: String,
    pub looping: bool,
}

/// Adds a macro named by the name field (trimmed), under a fresh identity
/// and not looping; a blank name adds nothing. Returns whether a macro was
/// added (the field is then to be cleared).
pub fn macro_add(macros: &mut Vec<Macro>, field: &str) -> (added: bool)
    ensures
        added == (trim(field@).len() > 0),
        added ==> {
            &&& final(macros)@.len() == old(macros)@.len() + 1
            &&& final(macros)@.drop_last() == old(macros)@
            &&& final(macros)@.last().name@ == trim(field@)
            &&& !final(macros)@.last().looping
            &&& is_uuid_text(final(macros)@.last().id@)
        },
        !added ==> final(macros)@ == old(macros)@,
{
    let name = trimmed(field);
    if name.as_str().is_empty() {
        return false;
    }
    macros.push(Macro { id: new_id(), name, looping: false });
    assert(macros@.drop_last() =~= old(macros)@);
    true
}

/// Flips looping of every macro with id `id`.
pub fn macro_toggle_loop(macros: &mut Vec<Macro>, id: &String)
    ensures
        final(macros)@.len() == old(macros)@.len(),
        forall|k: int|
            0 <= k < old(macros)@.len() ==> {
                let m = old(macros)@[k];
                let n = #[trigger] final(macros)@[k];
                &&& n.id == m.id
                &&& n.name == m.name
                &&& n.looping == if m.id@ == id@ {
                    !m.looping
                } else {
                    m.looping
                }
            },
{
    let n = macros.len();
    for i in 0..n
        invariant
            n == macros@.len(),
            n == old(macros)@.len(),
            forall|k: int|
                0 <= k < n ==> {
                    let m = old(macros)@[k];
                    let c = #[trigger] macros@[k];
                    &&& c.id == m.id
                    &&& c.name == m.name
                    &&& c.looping == if k < i && m.id@ == id@ {
                        !m.looping
                    } else {
                        m.looping
                    }
                },
    {
        if macros[i].id == *id {
            let l = macros[i].looping;
            macros[i].looping = !l;
        }
    }
}

/// `ms` without the macros whose id is `id`, in order.
pub open spec fn without_macro(ms: Seq<Macro>, id: Seq<char>) -> Seq<Macro>
    decreases ms.len(),
{
    if ms.len() == 0 {
        ms
    } else {
        let rest = without_macro(ms.drop_last(), id);
        if ms.last().id@ == id {
            rest
        } else {
            rest.push(ms.last())
        }
    }
}

/// Removes every macro with id `id`, keeping the order of the others.
pub fn macro_remove(macros: &mut Vec<Macro>, id: &String)
    ensures
        final(macros)@ == without_macro(old(macros)@, id@),
{
    let ghost orig = macros@;
    let mut kept: Vec<Macro> = Vec::new();
    while macros.len() > 0
        invariant
            orig.len() >= macros@.len(),
            macros@ == orig.skip(orig.len() - macros@.len()),
            kept@ == without_macro(orig.take(orig.len() - macros@.len()), id@),
        decreases macros@.len(),
    {
        let ghost k = orig.len() - macros@.len();
        let m = macros.remove(0);
        assert(m == orig[k]);
        assert(orig.take(k + 1).drop_last() =~= orig.take(k));
        assert(macros@ =~= orig.skip(k + 1));
        if m.id != *id {
            kept.push(m);
        }
    }
    assert(orig.take(orig.len() as int) =~= orig);
    *macros = kept;
}

} // verus!
