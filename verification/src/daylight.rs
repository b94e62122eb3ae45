//! Daylight acquisition state machine.
//!
//! The machine tracks whether the clock stands before today's sunrise,
//! between sunrise and sunset, or past sunset with no trusted boundary; it
//! decides when a fresh fetch of boundary data is due and doubles the retry
//! delay after every failed fetch, up to a cap of twelve hours. Advancing the
//! machine is pure: the fetch itself happens outside this crate, and its
//! outcome is handed back in through [`resolve_fetch`]. All clock values are
//! seconds since the Unix epoch.

use vstd::prelude::*;

use crate::sunrise_sunset_api::DaylightResponse;
use crate::sunrise_sunset_api::FetchError;

verus! {

/// Which day's boundary a fetch should return; absent means today.
/// `Tomorrow` is used once the current day's sunset has passed.
#[derive(Clone, Copy, PartialEq, Eq, Structural, Debug)]
pub enum DateLabel {
    Tomorrow,
}

/// The machine's state: counting down to a known sunrise, to a known sunset,
/// or holding no trusted boundary and waiting to retry a fetch.
#[derive(Clone, Copy, PartialEq, Eq, Debug)]
pub enum Daylight {
    Sunrise { response: DaylightResponse },
    Sunset { response: DaylightResponse },
    Unknown { date: Option<DateLabel>, try_again: i64, backoff_seconds: usize },
}

/// What one advance of the machine decided: either the state is settled for
/// this instant, or a fetch of boundary data is due right now. The caller
/// performs the fetch and hands its outcome to [`resolve_fetch`].
#[derive(Clone, Copy, PartialEq, Eq, Debug)]
pub enum UpdateOutcome {
    Settled(Daylight),
    FetchDue { date: Option<DateLabel>, backoff_seconds: usize },
}

/// The retry delay after one more failure: double the last delay, capped at
/// twelve hours.
pub open spec fn next_backoff(last_backoff_seconds: int) -> int {
    if 2 * last_backoff_seconds < 43200 {
        2 * last_backoff_seconds
    } else {
        43200
    }
}

/// What advancing the machine at instant `now` yields: a passed sunrise rolls
/// to the sunset countdown, a passed sunset rolls to `Unknown` with an
/// immediate retry for tomorrow, and an `Unknown` whose retry time has come
/// asks for a fetch.
pub open spec fn spec_update(state: Daylight, now: i64) -> UpdateOutcome
    decreases state.rank(),
{
    match state {
        Daylight::Sunrise { response } => {
            if now >= response.sunrise {
                spec_update(Daylight::Sunset { response }, now)
            } else {
                UpdateOutcome::Settled(state)
            }
        },
        Daylight::Sunset { response } => {
            if now >= response.sunset {
                spec_update(
                    Daylight::Unknown {
                        date: Some(DateLabel::Tomorrow),
                        try_again: now,
                        backoff_seconds: 1,
                    },
                    now,
                )
            } else {
                UpdateOutcome::Settled(state)
            }
        },
        Daylight::Unknown { date, try_again, backoff_seconds } => {
            if now >= try_again {
                UpdateOutcome::FetchDue { date, backoff_seconds }
            } else {
                UpdateOutcome::Settled(state)
            }
        },
    }
}

impl Daylight {
    /// How many more transitions one advance can still roll through from this
    /// state; it bounds the re-evaluation chain.
    pub open spec fn rank(self) -> nat {
        match self {
            Daylight::Sunrise { .. } => 2,
            Daylight::Sunset { .. } => 1,
            Daylight::Unknown { .. } => 0,
        }
    }

    /// A backoff of zero would never grow and one past the cap was never
    /// issued; every reachable `Unknown` lies in between.
    pub open spec fn wf(self) -> bool {
        match self {
            Daylight::Unknown { backoff_seconds, .. } => 1 <= backoff_seconds <= 43200,
            _ => true,
        }
    }

    /// The state holding no boundary, due for its first fetch attempt at
    /// once, with the minimum one-second backoff.
    pub fn unknown(date: Option<DateLabel>, now: i64) -> (r: Daylight)
        ensures
            r == (Daylight::Unknown { date, try_again: now, backoff_seconds: 1 }),
            r.wf(),
    {
        Daylight::Unknown { date, try_again: now, backoff_seconds: 1 }
    }

    /// Advance the machine to instant `now`. A boundary that has passed is
    /// re-evaluated in the same call, as a bounded chain of transitions, so
    /// the outcome never lags more than one fetch behind the clock.
    pub fn update(self, now: i64) -> (r: UpdateOutcome)
        ensures
            r == spec_update(self, now),
            self.wf() ==> r.wf(),
    {
        let mut state: Daylight = self;
        loop
            invariant
                spec_update(state, now) == spec_update(self, now),
                self.wf() ==> state.wf(),
            decreases state.rank(),
        {
            match state {
                Daylight::Sunrise { response } => {
                    if now >= response.sunrise {
                        state = Daylight::Sunset { response };
                    } else {
                        return UpdateOutcome::Settled(state);
                    }
                },
                Daylight::Sunset { response } => {
                    if now >= response.sunset {
                        state = Daylight::Unknown {
                            date: Some(DateLabel::Tomorrow),
                            try_again: now,
                            backoff_seconds: 1,
                        };
                    } else {
                        return UpdateOutcome::Settled(state);
                    }
                },
                Daylight::Unknown { date, try_again, backoff_seconds } => {
                    if now >= try_again {
                        return UpdateOutcome::FetchDue { date, backoff_seconds };
                    } else {
                        return UpdateOutcome::Settled(state);
                    }
                },
            }
        }
    }

    /// The countdown of this state can be computed at `now`: the boundary
    /// counted down to has not passed and its distance fits the clock type.
    pub open spec fn countdown_ready(self, now: i64) -> bool {
        match self {
            Daylight::Sunrise { response } => now <= response.sunrise && response.sunrise - now
                <= i64::MAX,
            Daylight::Sunset { response } => now <= response.sunset && response.sunset - now
                <= i64::MAX,
            Daylight::Unknown { .. } => true,
        }
    }

    /// The countdown shown for this state: whole hours (modulo a day) and
    /// minutes past the hour until the boundary, and zero while no boundary
    /// is known.
    pub open spec fn spec_until(self, now: i64) -> (int, int) {
        match self {
            Daylight::Sunrise { response } => (
                ((response.sunrise - now) / 3600) % 24,
                ((response.sunrise - now) / 60) % 60,
            ),
            Daylight::Sunset { response } => (
                ((response.sunset - now) / 3600) % 24,
                ((response.sunset - now) / 60) % 60,
            ),
            Daylight::Unknown { .. } => (0, 0),
        }
    }

    /// Hours and minutes until the next relevant boundary, `(0, 0)` while the
    /// boundary is unknown.
    pub fn until(&self, now: i64) -> (r: (usize, usize))
        requires
            self.countdown_ready(now),
        ensures
            r.0 == self.spec_until(now).0,
            r.1 == self.spec_until(now).1,
    {
        match *self {
            Daylight::Sunrise { response } => until(response.sunrise - now),
            Daylight::Sunset { response } => until(response.sunset - now),
            Daylight::Unknown { .. } => (0, 0),
        }
    }
}

/// Split a nonnegative duration in seconds into whole hours modulo a day and
/// the minutes past the hour.
fn until(duration: i64) -> (r: (usize, usize))
    requires
        duration >= 0,
    ensures
        r.0 == (duration as int / 3600) % 24,
        r.1 == (duration as int / 60) % 60,
{
    let d: u64 = duration as u64;
    (((d / 3600) % 24) as usize, ((d / 60) % 60) as usize)
}

/// Decide from the outcome of one fetch attempt: a success wraps the fetched
/// boundary as a sunrise countdown and re-advances at once, since the fetched
/// sunrise may itself already have passed; a failure stays `Unknown` with the
/// retry delay doubled and capped at twelve hours.
pub fn resolve_fetch(
    now: i64,
    date: Option<DateLabel>,
    last_backoff_seconds: usize,
    result: Result<DaylightResponse, FetchError>,
) -> (r: UpdateOutcome)
    requires
        now + 43200 <= i64::MAX,
    ensures
        result matches Ok(response) ==> r == spec_update(Daylight::Sunrise { response }, now),
        result is Err ==> r == UpdateOutcome::Settled(
            Daylight::Unknown {
                date,
                try_again: (now + next_backoff(last_backoff_seconds as int)) as i64,
                backoff_seconds: next_backoff(last_backoff_seconds as int) as usize,
            },
        ),
        last_backoff_seconds >= 1 ==> r.wf(),
{
    match result {
        Ok(response) => Daylight::Sunrise { response }.update(now),
        Err(_) => {
            let backoff_seconds: usize = if last_backoff_seconds >= 21600 {
                43200
            } else {
                last_backoff_seconds * 2
            };
            let try_again: i64 = now + (backoff_seconds as i64);
            UpdateOutcome::Settled(Daylight::Unknown { date, try_again, backoff_seconds })
        },
    }
}

impl UpdateOutcome {
    pub open spec fn wf(self) -> bool {
        match self {
            UpdateOutcome::Settled(state) => state.wf(),
            UpdateOutcome::FetchDue { backoff_seconds, .. } => 1 <= backoff_seconds <= 43200,
        }
    }
}

/// The backoff the machine carries after this many consecutive fetch
/// failures: the initial second, put through one doubling per failure.
pub open spec fn backoff_after(failures: nat) -> int
    decreases failures,
{
    if failures == 0 {
        1
    } else {
        next_backoff(backoff_after((failures - 1) as nat))
    }
}

/// Two raised to `n`, for stating how the backoff grows.
pub open spec fn two_pow(n: nat) -> int
    decreases n,
{
    if n == 0 {
        1
    } else {
        2 * two_pow((n - 1) as nat)
    }
}

/// Law: the retry backoff doubles with each consecutive failure - one second,
/// two, four, eight and so on - and never exceeds the twelve-hour cap of
/// 43200 seconds.
pub proof fn lemma_backoff_doubles_capped(failures: nat)
    ensures
        backoff_after(failures) == (if two_pow(failures) <= 43200 {
            two_pow(failures)
        } else {
            43200
        }),
        1 <= backoff_after(failures) <= 43200,
        two_pow(failures) >= 1,
    decreases failures,
{
    if failures > 0 {
        lemma_backoff_doubles_capped((failures - 1) as nat);
    }
}

/// Law: at or past its sunrise, one advance never leaves the machine counting
/// down to that sunrise again; it has moved to the sunset countdown or beyond.
pub proof fn lemma_sunrise_does_not_linger(response: DaylightResponse, now: i64)
    requires
        now >= response.sunrise,
    ensures
        spec_update(Daylight::Sunrise { response }, now) matches UpdateOutcome::Settled(state)
            ==> !(state is Sunrise),
{
    let after_sunrise = spec_update(Daylight::Sunset { response }, now);
    assert(spec_update(Daylight::Sunrise { response }, now) == after_sunrise);
    if now >= response.sunset {
        let rolled = Daylight::Unknown {
            date: Some(DateLabel::Tomorrow),
            try_again: now,
            backoff_seconds: 1,
        };
        assert(after_sunrise == spec_update(rolled, now));
        assert(spec_update(rolled, now) == (UpdateOutcome::FetchDue {
            date: Some(DateLabel::Tomorrow),
            backoff_seconds: 1,
        }));
    } else {
        assert(after_sunrise == UpdateOutcome::Settled((Daylight::Sunset { response })));
    }
}

/// Law: at or past its sunset, one advance from the sunset countdown rolls
/// through `Unknown` for tomorrow's boundary and is due to fetch at once,
/// with the initial one-second backoff.
pub proof fn lemma_sunset_rolls_to_immediate_fetch(response: DaylightResponse, now: i64)
    requires
        now >= response.sunset,
    ensures
        spec_update(Daylight::Sunset { response }, now) == (UpdateOutcome::FetchDue {
            date: Some(DateLabel::Tomorrow),
            backoff_seconds: 1,
        }),
{
    let rolled = Daylight::Unknown {
        date: Some(DateLabel::Tomorrow),
        try_again: now,
        backoff_seconds: 1,
    };
    assert(spec_update(rolled, now) == (UpdateOutcome::FetchDue {
        date: Some(DateLabel::Tomorrow),
        backoff_seconds: 1,
    }));
}

/// Law: from the initial `Unknown` that is due at once, the machine asks for
/// a fetch; a successful fetch whose sunrise lies two hours ahead settles as
/// the sunrise countdown of that boundary, and the countdown reads two hours,
/// zero minutes.
pub proof fn lemma_immediate_fetch_success_counts_down(response: DaylightResponse, now: i64)
    requires
        response.sunrise == now + 7200,
        response.sunset == now + 36000,
    ensures
        spec_update(
            (Daylight::Unknown { date: None, try_again: now, backoff_seconds: 1 }),
            now,
        ) == (UpdateOutcome::FetchDue { date: None::<DateLabel>, backoff_seconds: 1 }),
        spec_update((Daylight::Sunrise { response }), now) == UpdateOutcome::Settled(
            (Daylight::Sunrise { response }),
        ),
        (Daylight::Sunrise { response }).spec_until(now).0 == 2,
        (Daylight::Sunrise { response }).spec_until(now).1 == 0,
{
}

} // verus!
