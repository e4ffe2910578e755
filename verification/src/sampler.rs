//! Timing rules of the input sampler.
//!
//! The sampler runs beside the main loop for the whole session.  Each
//! iteration it polls the keyboard with a bounded timeout, forwards any key it
//! saw, and emits a tick once the tick interval has fully elapsed, so that the
//! screen is redrawn periodically even with no input.  The polling itself is
//! device work and lives outside the library; the decisions — how long to
//! wait, whether a tick is due, what to emit and in which order — are here.

use vstd::prelude::*;

use crate::event::{Event, Key};

verus! {

/// The fixed tick interval, in milliseconds.
pub const TICK_RATE_MS: u64 = 250;

/// How long the next keyboard poll may block: the remainder of the tick
/// interval, and zero once the interval has already elapsed.
pub fn poll_timeout_ms(tick_rate: u64, elapsed: u64) -> (timeout: u64)
    ensures
        timeout == if elapsed >= tick_rate {
            0u64
        } else {
            (tick_rate - elapsed) as u64
        },
{
    if elapsed >= tick_rate {
        0
    } else {
        tick_rate - elapsed
    }
}

/// Whether the tick interval has fully elapsed, so that a tick must be
/// emitted and the tick clock restarted.
pub fn tick_due(tick_rate: u64, elapsed: u64) -> (due: bool)
    ensures
        due == (elapsed >= tick_rate),
{
    elapsed >= tick_rate
}

/// What one sampler iteration emits, in order: first the key that the poll
/// returned, if any, then a tick if the interval has elapsed.  The second
/// component says whether the tick clock restarts.  Keys are never
/// reordered relative to ticks: the caller sends the events exactly in the
/// order of the returned list.
pub fn sampler_emits(polled: Option<Key>, elapsed: u64, tick_rate: u64) -> (r: (Vec<Event>, bool))
    ensures
        r.1 == (elapsed >= tick_rate),
        r.0@ == ({
            let keys: Seq<Event> = match polled {
                Some(k) => seq![Event::Input(k)],
                None => seq![],
            };
            if elapsed >= tick_rate {
                keys.push(Event::Tick)
            } else {
                keys
            }
        }),
{
    let mut out: Vec<Event> = Vec::new();
    if let Some(k) = polled {
        out.push(Event::Input(k));
    }
    let due = elapsed >= tick_rate;
    if due {
        out.push(Event::Tick);
    }
    proof {
        assert(out@ =~= ({
            let keys: Seq<Event> = match polled {
                Some(k) => seq![Event::Input(k)],
                None => seq![],
            };
            if elapsed >= tick_rate {
                keys.push(Event::Tick)
            } else {
                keys
            }
        }));
    }
    (out, due)
}

} // verus!
