use vstd::prelude::*;

verus! {

/// Persisted timer of a room, in Unix seconds.  The timer runs while at least
/// one connection is present and is paused while the room is empty.
#[derive(Clone, Copy, Debug, PartialEq, Eq, Structural)]
pub struct RoomTimer {
    /// When the first connection ever arrived.
    pub started_at: Option<i64>,
    /// When the room last became empty; unset while anyone is present.
    pub paused_at: Option<i64>,
    /// Seconds spent paused, summed over all finished pauses.
    pub total_pause_duration: i64,
}

/// `x` brought into the range of `i64`.
pub open spec fn clamp_i64(x: int) -> int {
    if x < i64::MIN {
        i64::MIN as int
    } else if x > i64::MAX {
        i64::MAX as int
    } else {
        x
    }
}

/// The timer after the room goes from empty to occupied at `now`: a pause
/// ends and its length is added to the total; a timer never started starts;
/// a running timer is left alone.
pub open spec fn activated(t: RoomTimer, now: i64) -> RoomTimer {
    match t.paused_at {
        Some(p) => RoomTimer {
            started_at: t.started_at,
            paused_at: None,
            total_pause_duration: clamp_i64(t.total_pause_duration + (now - p)) as i64,
        },
        None => if t.started_at is None {
            RoomTimer { started_at: Some(now), paused_at: None, total_pause_duration: t.total_pause_duration }
        } else {
            t
        },
    }
}

/// The timer after the room goes from occupied to empty at `now`.
pub open spec fn idled(t: RoomTimer, now: i64) -> RoomTimer {
    RoomTimer { started_at: t.started_at, paused_at: Some(now), total_pause_duration: t.total_pause_duration }
}

/// Seconds of play at `now`: time since the start, less every pause,
/// the current one included.  `None` before the timer has started.
pub open spec fn elapsed_at(t: RoomTimer, now: i64) -> Option<int> {
    match t.started_at {
        None => None,
        Some(s) => Some(
            clamp_i64(
                now - s - t.total_pause_duration - match t.paused_at {
                    Some(p) => now - p,
                    None => 0,
                },
            ),
        ),
    }
}

/// The value of `a + b - c` clamped into `i64`.
fn clamped_sum(a: i64, b: i64, c: i64) -> (r: i64)
    ensures
        r == clamp_i64(a + b - c),
{
    let x: i128 = a as i128 + b as i128 - c as i128;
    if x < i64::MIN as i128 {
        i64::MIN
    } else if x > i64::MAX as i128 {
        i64::MAX
    } else {
        x as i64
    }
}

/// Relies on chrono::Utc::now and DateTime::timestamp: the current Unix
/// time in seconds, whatever the clock says.
#[verifier::external_body]
fn unix_now() -> (r: i64) {
    chrono::Utc::now().timestamp()
}

impl RoomTimer {
    /// A room timer that has never run.
    pub fn new() -> (t: RoomTimer)
        ensures
            t.started_at is None,
            t.paused_at is None,
            t.total_pause_duration == 0,
    {
        RoomTimer { started_at: None, paused_at: None, total_pause_duration: 0 }
    }

    /// Reaction to the room's first connection at `now`: resume from a pause
    /// (adding its length to the total, which stops at the bounds of `i64`)
    /// or start the timer.
    pub fn on_became_active(&mut self, now: i64)
        ensures
            *final(self) == activated(*old(self), now),
    {
        match self.paused_at {
            Some(p) => {
                self.total_pause_duration = clamped_sum(self.total_pause_duration, now, p);
                self.paused_at = None;
            },
            None => {
                if self.started_at.is_none() {
                    self.started_at = Some(now);
                }
            },
        }
    }

    /// Reaction to the room's last connection leaving at `now`.
    pub fn on_became_idle(&mut self, now: i64)
        ensures
            *final(self) == idled(*old(self), now),
    {
        self.paused_at = Some(now);
    }

    /// `on_became_active` at the current time of the system clock.
    pub fn on_became_active_now(&mut self)
        ensures
            exists|now: i64| *final(self) == activated(*old(self), now),
    {
        let now = unix_now();
        self.on_became_active(now);
    }

    /// `on_became_idle` at the current time of the system clock.
    pub fn on_became_idle_now(&mut self)
        ensures
            exists|now: i64| *final(self) == idled(*old(self), now),
    {
        let now = unix_now();
        self.on_became_idle(now);
    }

    /// Seconds of play at `now`, pauses excluded; `None` before the start.
    pub fn effective_elapsed(&self, now: i64) -> (r: Option<i64>)
        ensures
            match elapsed_at(*self, now) {
                None => r is None,
                Some(e) => r == Some(e as i64),
            },
    {
        match self.started_at {
            None => None,
            Some(s) => {
                let base: i128 = now as i128 - s as i128 - self.total_pause_duration as i128;
                let x: i128 = match self.paused_at {
                    Some(p) => base - (now as i128 - p as i128),
                    None => base,
                };
                if x < i64::MIN as i128 {
                    Some(i64::MIN)
                } else if x > i64::MAX as i128 {
                    Some(i64::MAX)
                } else {
                    Some(x as i64)
                }
            },
        }
    }
}

/// A leave followed by a rejoin adds exactly the gap between them to the
/// pause total and leaves the start time untouched.
pub proof fn lemma_leave_rejoin(t: RoomTimer, leave: i64, rejoin: i64)
    requires
        t.started_at is Some,
        t.paused_at is None,
        leave <= rejoin,
        t.total_pause_duration + (rejoin - leave) <= i64::MAX,
        t.total_pause_duration >= 0,
    ensures
        activated(idled(t, leave), rejoin).started_at == t.started_at,
        activated(idled(t, leave), rejoin).paused_at is None,
        activated(idled(t, leave), rejoin).total_pause_duration == t.total_pause_duration + (rejoin
            - leave),
{
}

/// While the room is paused its elapsed time stands still, and a resume
/// neither adds nor removes play time.
pub proof fn lemma_pause_freezes_elapsed(t: RoomTimer, pause: i64, later: i64)
    requires
        t.started_at is Some,
        t.paused_at is None,
        pause <= later,
        0 <= t.total_pause_duration,
        t.total_pause_duration + (later - pause) <= i64::MAX,
        i64::MIN <= pause - t.started_at->0 - t.total_pause_duration,
    ensures
        elapsed_at(idled(t, pause), later) == elapsed_at(t, pause),
        elapsed_at(activated(idled(t, pause), later), later) == elapsed_at(t, pause),
{
}

/// A running timer's elapsed time never goes backwards as the clock advances.
pub proof fn lemma_elapsed_monotone(t: RoomTimer, a: i64, b: i64)
    requires
        t.started_at is Some,
        a <= b,
    ensures
        elapsed_at(t, a)->0 <= elapsed_at(t, b)->0,
{
}

} // verus!
