use vstd::prelude::*;
use crate::playlist::Track;
use crate::status::PlayStatus;

verus! {

/// What the owner of the audio sink has to do to it. A transition hands out
/// its commands in the order in which they are to be carried out.
#[derive(Clone, Copy, Debug, PartialEq, Eq, Structural)]
pub enum SinkCommand {
    /// Halt the sink, drop what it has queued and go on with a fresh, empty one.
    Replace,
    /// Queue the audio of the track that was just added.
    Append,
    /// Let the sink sound.
    Play,
    /// Hold the sink where it is.
    Pause,
    /// Halt the sink.
    Stop,
}

/// A request that starts or holds the current track, with the clock reading
/// at which it is made.
pub enum Transport {
    Play(u64),
    Pause(u64),
    Resume(u64),
}

/// The player as contracts see it: the progress shown to the outside, the
/// playlist, and whether a track was ever added.
pub struct PlayerModel {
    pub current_time: nat,
    pub total_time: nat,
    pub play_list: Seq<Track>,
    pub initialized: bool,
}

/// The entry that a newly added track starts as.
pub open spec fn fresh_track(name: Seq<char>, duration: u64) -> Track {
    Track { name: name, duration: duration as nat, current_pos: 0, status: PlayStatus::Waiting }
}

impl PlayerModel {
    /// The player before anything was added.
    pub open spec fn initial() -> PlayerModel {
        PlayerModel { current_time: 0, total_time: 0, play_list: Seq::empty(), initialized: false }
    }

    /// Only the head of the playlist has ever been started, and a playlist
    /// with entries belongs to a player that was initialized.
    pub open spec fn well_formed(self) -> bool {
        &&& self.play_list.len() > 0 ==> self.initialized
        &&& forall|i: int|
            1 <= i < self.play_list.len() ==> (#[trigger] self.play_list[i]).status is Waiting
    }

    /// Sound is coming out: a track was added at some time, the sink is not
    /// held, and there is a current track.
    pub open spec fn is_playing(self, sink_paused: bool) -> bool {
        self.initialized && !sink_paused && self.play_list.len() > 0
    }

    /// The time that the status of the current track has accumulated; nothing
    /// without a current track.
    pub open spec fn head_played(self) -> nat {
        if self.play_list.len() == 0 {
            0
        } else {
            self.play_list[0].status.already_played()
        }
    }

    /// The position of the current track at `now`; nothing without one.
    pub open spec fn head_position(self, now: u64) -> nat {
        if self.play_list.len() == 0 {
            0
        } else {
            self.play_list[0].status.elapsed_at(now)
        }
    }

    /// The same player with another status on its current track.
    pub open spec fn with_head_status(self, status: PlayStatus) -> PlayerModel
        recommends
            self.play_list.len() > 0,
    {
        PlayerModel {
            play_list: self.play_list.update(0, Track { status: status, ..self.play_list[0] }),
            ..self
        }
    }

    /// The same player with its progress, and the cached position of its
    /// current track, set to `position`.
    pub open spec fn with_progress(self, position: nat) -> PlayerModel
        recommends
            self.play_list.len() > 0,
    {
        PlayerModel {
            current_time: position,
            total_time: self.play_list[0].duration,
            play_list: self.play_list.update(
                0,
                Track { current_pos: position, ..self.play_list[0] },
            ),
            ..self
        }
    }

    /// The same player without its current track.
    pub open spec fn without_head(self) -> PlayerModel
        recommends
            self.play_list.len() > 0,
    {
        PlayerModel { play_list: self.play_list.drop_first(), ..self }
    }

    /// A request to play at `now`: a waiting or halted current track starts.
    pub open spec fn after_play(self, now: u64) -> PlayerModel {
        if self.play_list.len() == 0 {
            self
        } else {
            self.with_head_status(self.play_list[0].status.started(now))
        }
    }

    /// A request to resume at `now`: only a halted current track starts.
    pub open spec fn after_resume(self, now: u64) -> PlayerModel {
        if self.play_list.len() == 0 {
            self
        } else {
            self.with_head_status(self.play_list[0].status.resumed(now))
        }
    }

    /// Whether a request to pause at `now` records what it was asked to.
    pub open spec fn pause_takes_effect(self, now: u64) -> bool {
        self.play_list.len() > 0 ==> self.play_list[0].status.pausable_at(now)
    }

    /// A request to pause at `now`: a running current track is frozen at its
    /// position.
    pub open spec fn after_pause(self, now: u64) -> PlayerModel {
        if self.play_list.len() == 0 {
            self
        } else {
            self.with_head_status(self.play_list[0].status.paused(now))
        }
    }

    /// Whether there is a track to skip to.
    pub open spec fn can_skip(self) -> bool {
        self.play_list.len() > 1
    }

    /// A request to skip: the current track leaves if another one follows.
    pub open spec fn after_next(self) -> PlayerModel {
        if self.can_skip() {
            self.without_head()
        } else {
            self
        }
    }

    /// Whether the current track has played to its end at `now`.
    pub open spec fn head_finished(self, now: u64) -> bool {
        &&& self.play_list.len() > 0
        &&& self.play_list[0].status is Playing
        &&& self.play_list[0].status.elapsed_at(now) >= self.play_list[0].duration
    }

    /// One step of time accounting at `now`, with the sink held or not.
    pub open spec fn after_tick(self, now: u64, sink_paused: bool) -> PlayerModel {
        if self.play_list.len() == 0 {
            self
        } else {
            match self.play_list[0].status {
                PlayStatus::Waiting => if self.is_playing(sink_paused) {
                    self.with_head_status(PlayStatus::Playing(now, 0))
                } else {
                    self
                },
                PlayStatus::Playing(_, _) => if self.head_finished(now) {
                    self.without_head()
                } else {
                    self.with_progress(self.play_list[0].status.elapsed_at(now))
                },
                PlayStatus::Stopped(played) => self.with_progress(played as nat),
            }
        }
    }

    /// What a step of time accounting asks of the sink: to halt once nothing
    /// is left to play.
    pub open spec fn tick_commands(self, now: u64, sink_paused: bool) -> Seq<SinkCommand> {
        if self.after_tick(now, sink_paused).play_list.len() == 0 {
            seq![SinkCommand::Stop]
        } else {
            Seq::empty()
        }
    }

    /// The player with a new track queued behind the others, or alone where
    /// `once` is set.
    pub open spec fn with_queued(self, name: Seq<char>, duration: u64, once: bool) -> PlayerModel {
        PlayerModel {
            play_list: (if once {
                Seq::empty()
            } else {
                self.play_list
            }).push(fresh_track(name, duration)),
            initialized: true,
            ..self
        }
    }

    /// A track added at `now`: it is queued, the current track is asked to
    /// play, and time is accounted once with the sink sounding.
    pub open spec fn after_add(
        self,
        name: Seq<char>,
        duration: u64,
        once: bool,
        now: u64,
    ) -> PlayerModel {
        self.with_queued(name, duration, once).after_play(now).after_tick(now, false)
    }

    /// What adding a track at `now` asks of the sink.
    pub open spec fn add_commands(
        self,
        name: Seq<char>,
        duration: u64,
        once: bool,
        now: u64,
    ) -> Seq<SinkCommand> {
        (if once {
            seq![SinkCommand::Replace]
        } else {
            Seq::empty()
        }) + seq![SinkCommand::Append, SinkCommand::Play] + self.with_queued(
            name,
            duration,
            once,
        ).after_play(now).tick_commands(now, false)
    }

    /// The player after one request.
    pub open spec fn after_request(self, request: Transport) -> PlayerModel {
        match request {
            Transport::Play(now) => self.after_play(now),
            Transport::Pause(now) => self.after_pause(now),
            Transport::Resume(now) => self.after_resume(now),
        }
    }

    /// The player after a run of requests, made from the first to the last.
    pub open spec fn after_requests(self, requests: Seq<Transport>) -> PlayerModel
        decreases requests.len(),
    {
        if requests.len() == 0 {
            self
        } else {
            self.after_requests(requests.drop_last()).after_request(requests.last())
        }
    }
}

} // verus!
