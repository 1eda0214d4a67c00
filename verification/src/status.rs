use vstd::prelude::*;

verus! {

/// The playback status of one playlist entry.
///
/// Instants and lengths of time are whole nanoseconds on the clock of the
/// player that owns the entry.
#[derive(Clone, Copy, Debug, PartialEq, Eq, PartialOrd, Ord, Structural)]
pub enum PlayStatus {
    /// Queued, never started.
    Waiting,
    /// Sounding since the first field; the second is the time played before that.
    Playing(u64, u64),
    /// Halted after having played for the given time.
    Stopped(u64),
}

/// The time that passes from `since` until `now`; nothing where the clock
/// reads earlier than `since`.
pub open spec fn gap(now: u64, since: u64) -> nat {
    if now >= since {
        (now - since) as nat
    } else {
        0
    }
}

impl PlayStatus {
    /// The time accumulated in the status itself, without the running stretch.
    pub open spec fn already_played(self) -> nat {
        match self {
            PlayStatus::Waiting => 0,
            PlayStatus::Playing(_, played) => played as nat,
            PlayStatus::Stopped(played) => played as nat,
        }
    }

    /// The playback position at the clock reading `now`.
    pub open spec fn elapsed_at(self, now: u64) -> nat {
        match self {
            PlayStatus::Waiting => 0,
            PlayStatus::Playing(since, played) => gap(now, since) + played as nat,
            PlayStatus::Stopped(played) => played as nat,
        }
    }

    /// Whether the position at `now` can be written down as a `u64`.
    pub open spec fn representable_at(self, now: u64) -> bool {
        self.elapsed_at(now) <= u64::MAX
    }

    /// The status after a request to play at `now`.
    pub open spec fn started(self, now: u64) -> PlayStatus {
        match self {
            PlayStatus::Waiting => PlayStatus::Playing(now, 0),
            PlayStatus::Playing(_, _) => self,
            PlayStatus::Stopped(played) => PlayStatus::Playing(now, played),
        }
    }

    /// The status after a request to resume at `now`.
    pub open spec fn resumed(self, now: u64) -> PlayStatus {
        match self {
            PlayStatus::Stopped(played) => PlayStatus::Playing(now, played),
            _ => self,
        }
    }

    /// The status after a request to pause at `now`: a running status is
    /// frozen at its position, unless that position does not fit a `u64`.
    pub open spec fn paused(self, now: u64) -> PlayStatus {
        match self {
            PlayStatus::Playing(_, _) if self.representable_at(now) => PlayStatus::Stopped(
                self.elapsed_at(now) as u64,
            ),
            _ => self,
        }
    }

    /// Whether a request to pause at `now` takes effect as asked.
    pub open spec fn pausable_at(self, now: u64) -> bool {
        self is Playing ==> self.representable_at(now)
    }

    /// Starts a waiting entry and restarts a halted one.
    pub fn start(self, now: u64) -> (r: PlayStatus)
        ensures
            r == self.started(now),
    {
        match self {
            PlayStatus::Waiting => PlayStatus::Playing(now, 0),
            PlayStatus::Playing(since, played) => PlayStatus::Playing(since, played),
            PlayStatus::Stopped(played) => PlayStatus::Playing(now, played),
        }
    }

    /// Restarts a halted entry; a waiting one stays waiting.
    pub fn resume(self, now: u64) -> (r: PlayStatus)
        ensures
            r == self.resumed(now),
    {
        match self {
            PlayStatus::Stopped(played) => PlayStatus::Playing(now, played),
            other => other,
        }
    }

    /// Freezes a running entry at its position at `now`. `None` where the
    /// position does not fit a `u64`; the entry is then to be left as it is.
    pub fn pause(self, now: u64) -> (r: Option<PlayStatus>)
        ensures
            r.is_some() == self.pausable_at(now),
            r.is_some() ==> r.unwrap() == self.paused(now),
    {
        match self {
            PlayStatus::Playing(since, played) => {
                match played.checked_add(now.saturating_sub(since)) {
                    Some(total) => Some(PlayStatus::Stopped(total)),
                    None => None,
                }
            },
            other => Some(other),
        }
    }

    /// The position at `now`, or `None` where it does not fit a `u64`.
    pub fn position(self, now: u64) -> (r: Option<u64>)
        ensures
            r.is_some() == self.representable_at(now),
            r.is_some() ==> r.unwrap() == self.elapsed_at(now),
    {
        match self {
            PlayStatus::Waiting => Some(0),
            PlayStatus::Playing(since, played) => played.checked_add(now.saturating_sub(since)),
            PlayStatus::Stopped(played) => Some(played),
        }
    }
}

} // verus!
