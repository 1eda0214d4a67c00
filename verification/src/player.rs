use vstd::prelude::*;
use std::time::Instant;
use crate::clock::nanos_since;
use crate::laws::{
    law_add_keeps_well_formed, law_next_keeps_well_formed, law_request_keeps_well_formed,
    law_tick_keeps_well_formed,
};
use crate::model::{PlayerModel, SinkCommand, Transport};
use crate::playlist::{PlayList, PlayListItem};
use crate::status::PlayStatus;

verus! {

/// Why a track could not be made ready to play.
#[derive(Clone, Copy, Debug, PartialEq, Eq, Structural)]
pub enum MediaError {
    /// The resource could not be opened or read.
    Resource,
    /// Its length could not be measured, or its audio could not be decoded.
    Decode,
}

/// What a transition answers: whether the effect asked for has occurred, and
/// the commands that the owner of the sink now carries out, in order.
#[derive(Clone, Debug, PartialEq, Eq)]
pub struct Outcome {
    pub done: bool,
    pub commands: Vec<SinkCommand>,
}

/// The playback state of a player for one track at a time. It decides; the
/// owner of the audio sink carries out the commands that it hands back.
#[derive(Debug)]
pub struct MusicPlayer {
    /// The position of the current track at the last tick, in nanoseconds.
    pub current_time: u64,
    /// The length of the current track at the last tick, in nanoseconds.
    pub total_time: u64,
    pub play_list: PlayList,
    origin: Instant,
    initialized: bool,
}

impl View for MusicPlayer {
    type V = PlayerModel;

    closed spec fn view(&self) -> PlayerModel {
        PlayerModel {
            current_time: self.current_time as nat,
            total_time: self.total_time as nat,
            play_list: self.play_list@,
            initialized: self.initialized,
        }
    }
}

impl MusicPlayer {
    /// A player with an empty playlist, whose clock starts now.
    pub fn new() -> (r: MusicPlayer)
        ensures
            r@ == PlayerModel::initial(),
            r.well_formed(),
    {
        MusicPlayer {
            current_time: 0,
            total_time: 0,
            play_list: PlayList::new(),
            origin: Instant::now(),
            initialized: false,
        }
    }

    /// Only the head of the playlist has ever been started. Every transition
    /// keeps a player so.
    pub open spec fn well_formed(&self) -> bool {
        self@.well_formed()
    }

    /// The reading of the player's clock: the nanoseconds since it was made.
    fn now(&self) -> u64 {
        nanos_since(&self.origin)
    }

    /// Whether sound is coming out, given whether the sink is held.
    pub fn is_playing(&self, sink_paused: bool) -> (r: bool)
        ensures
            r == self@.is_playing(sink_paused),
    {
        self.initialized && !sink_paused && !self.play_list.is_empty()
    }

    /// The progress as of the last tick: position and length of the track
    /// that was current then, in nanoseconds.
    pub fn get_progress(&self) -> (r: (u64, u64))
        ensures
            r.0 == self@.current_time,
            r.1 == self@.total_time,
    {
        (self.current_time, self.total_time)
    }

    /// The current track, if there is one.
    pub fn playing_song(&self) -> (r: Option<&PlayListItem>)
        ensures
            r.is_some() == (self@.play_list.len() > 0),
            r.is_some() ==> r.unwrap()@ == self@.play_list[0],
    {
        self.play_list.head()
    }

    /// Starts the current track at `now`, unless it is running already.
    fn start_head(&mut self, now: u64)
        ensures
            final(self)@ == old(self)@.after_play(now),
    {
        if !self.play_list.is_empty() {
            let status = self.play_list.lists[0].status.start(now);
            self.play_list.set_head_status(status);
        }
    }

    /// Asks the sink to sound and starts the current track at `now`, unless
    /// it is running already. Safe on an empty playlist.
    pub fn play_at(&mut self, now: u64) -> (r: Outcome)
        ensures
            old(self).well_formed() ==> final(self).well_formed(),
            final(self)@ == old(self)@.after_play(now),
            r.done,
            r.commands@ == seq![SinkCommand::Play],
    {
        proof {
            if old(self).well_formed() {
                law_request_keeps_well_formed(old(self)@, Transport::Play(now));
            }
        }
        self.start_head(now);
        Outcome { done: true, commands: vec![SinkCommand::Play] }
    }

    /// Asks the sink to sound and starts the current track at `now` if it
    /// was halted. A waiting track is left waiting.
    pub fn resume_at(&mut self, now: u64) -> (r: Outcome)
        ensures
            old(self).well_formed() ==> final(self).well_formed(),
            final(self)@ == old(self)@.after_resume(now),
            r.done,
            r.commands@ == seq![SinkCommand::Play],
    {
        proof {
            if old(self).well_formed() {
                law_request_keeps_well_formed(old(self)@, Transport::Resume(now));
            }
        }
        if !self.play_list.is_empty() {
            let status = self.play_list.lists[0].status.resume(now);
            self.play_list.set_head_status(status);
        }
        Outcome { done: true, commands: vec![SinkCommand::Play] }
    }

    /// Asks the sink to hold and freezes a running current track at its
    /// position at `now`. Where that position does not fit a `u64` the track
    /// is left running and the answer is not done.
    pub fn pause_at(&mut self, now: u64) -> (r: Outcome)
        ensures
            old(self).well_formed() ==> final(self).well_formed(),
            final(self)@ == old(self)@.after_pause(now),
            r.done == old(self)@.pause_takes_effect(now),
            !r.done ==> final(self)@ == old(self)@,
            r.commands@ == seq![SinkCommand::Pause],
    {
        proof {
            if old(self).well_formed() {
                law_request_keeps_well_formed(old(self)@, Transport::Pause(now));
            }
        }
        let mut done = true;
        if !self.play_list.is_empty() {
            match self.play_list.lists[0].status.pause(now) {
                Some(status) => {
                    self.play_list.set_head_status(status);
                },
                None => {
                    done = false;
                    assert(self@.play_list =~= old(self)@.after_pause(now).play_list);
                },
            }
        }
        Outcome { done: done, commands: vec![SinkCommand::Pause] }
    }

    /// Asks the sink to halt. No track changes its status.
    pub fn stop(&mut self) -> (r: Outcome)
        ensures
            old(self).well_formed() ==> final(self).well_formed(),
            final(self)@ == old(self)@,
            r.done,
            r.commands@ == seq![SinkCommand::Stop],
    {
        Outcome { done: true, commands: vec![SinkCommand::Stop] }
    }

    /// Skips the current track where another one follows: the sink is asked
    /// to halt and the next track becomes current, in the status it has.
    /// With one track or none, nothing happens and the answer is not done.
    pub fn next(&mut self) -> (r: Outcome)
        ensures
            old(self).well_formed() ==> final(self).well_formed(),
            r.done == old(self)@.can_skip(),
            final(self)@ == old(self)@.after_next(),
            r.commands@ == (if r.done {
                seq![SinkCommand::Stop]
            } else {
                Seq::<SinkCommand>::empty()
            }),
    {
        proof {
            if old(self).well_formed() {
                law_next_keeps_well_formed(old(self)@);
            }
        }
        if self.play_list.len() > 1 {
            let _ = self.play_list.remove_head();
            Outcome { done: true, commands: vec![SinkCommand::Stop] }
        } else {
            Outcome { done: false, commands: Vec::new() }
        }
    }

    /// Writes down the progress of the current track.
    fn record_progress(&mut self, position: u64)
        requires
            old(self)@.play_list.len() > 0,
        ensures
            final(self)@ == old(self)@.with_progress(position as nat),
    {
        self.current_time = position;
        self.total_time = self.play_list.lists[0].duration;
        self.play_list.set_head_position(position);
    }

    /// The step of time accounting itself; the answer says whether the
    /// playlist is empty after it.
    fn account(&mut self, now: u64, sink_paused: bool) -> (idle: bool)
        ensures
            final(self)@ == old(self)@.after_tick(now, sink_paused),
            idle == (final(self)@.play_list.len() == 0),
    {
        let sounding = self.is_playing(sink_paused);
        if !self.play_list.is_empty() {
            let status = self.play_list.lists[0].status;
            let duration: u64 = self.play_list.lists[0].duration;
            match status {
                PlayStatus::Waiting => {
                    if sounding {
                        self.play_list.set_head_status(PlayStatus::Playing(now, 0));
                    }
                },
                PlayStatus::Playing(_, _) => {
                    match status.position(now) {
                        Some(elapsed) => {
                            if elapsed >= duration {
                                let _ = self.play_list.remove_head();
                            } else {
                                self.record_progress(elapsed);
                            }
                        },
                        None => {
                            let _ = self.play_list.remove_head();
                        },
                    }
                },
                PlayStatus::Stopped(played) => {
                    self.record_progress(played);
                },
            }
        }
        self.play_list.is_empty()
    }

    /// Accounts for time at `now`, given whether the sink is held.
    ///
    /// A waiting current track is taken as started where sound is coming
    /// out. A running one that has reached its length leaves the playlist,
    /// and the track behind it is not started; otherwise its progress is
    /// written down. A halted one has its frozen position written down. Where
    /// no track is left afterwards, the sink is asked to halt.
    pub fn tick_at(&mut self, now: u64, sink_paused: bool) -> (r: Vec<SinkCommand>)
        ensures
            old(self).well_formed() ==> final(self).well_formed(),
            final(self)@ == old(self)@.after_tick(now, sink_paused),
            r@ == old(self)@.tick_commands(now, sink_paused),
    {
        proof {
            if old(self).well_formed() {
                law_tick_keeps_well_formed(old(self)@, now, sink_paused);
            }
        }
        if self.account(now, sink_paused) {
            vec![SinkCommand::Stop]
        } else {
            Vec::new()
        }
    }

    /// Adds a track at `now`, given what opening and measuring it gave: its
    /// length in nanoseconds, or the reason why it cannot be played.
    ///
    /// A track that cannot be played changes nothing. Otherwise the track is
    /// queued as waiting, behind the others or, with `once`, in their place
    /// and on a fresh sink; then the current track is asked to play and time
    /// is accounted once.
    pub fn add_to_list_at(
        &mut self,
        name: String,
        media: Result<u64, MediaError>,
        once: bool,
        now: u64,
    ) -> (r: Outcome)
        ensures
            old(self).well_formed() ==> final(self).well_formed(),
            r.done == media.is_ok(),
            media.is_ok() ==> final(self)@ == old(self)@.after_add(
                name@,
                media.unwrap(),
                once,
                now,
            ),
            media.is_ok() ==> r.commands@ == old(self)@.add_commands(
                name@,
                media.unwrap(),
                once,
                now,
            ),
            media.is_err() ==> final(self)@ == old(self)@,
            media.is_err() ==> r.commands@ == Seq::<SinkCommand>::empty(),
    {
        match media {
            Ok(duration) => {
                proof {
                    if old(self).well_formed() {
                        law_add_keeps_well_formed(old(self)@, name@, duration, once, now);
                    }
                }
                let mut commands: Vec<SinkCommand> = Vec::new();
                self.initialized = true;
                if once {
                    self.play_list.clear();
                    commands.push(SinkCommand::Replace);
                }
                self.play_list.push(
                    PlayListItem {
                        name: name,
                        duration: duration,
                        current_pos: 0,
                        status: PlayStatus::Waiting,
                    },
                );
                commands.push(SinkCommand::Append);
                assert(self@ == old(self)@.with_queued(name@, duration, once));
                self.start_head(now);
                commands.push(SinkCommand::Play);
                if self.account(now, false) {
                    commands.push(SinkCommand::Stop);
                }
                assert(commands@ =~= old(self)@.add_commands(name@, duration, once, now));
                Outcome { done: true, commands: commands }
            },
            Err(_) => Outcome { done: false, commands: Vec::new() },
        }
    }

    /// `play_at` at the reading of the player's clock.
    pub fn play(&mut self) -> (r: Outcome)
        ensures
            old(self).well_formed() ==> final(self).well_formed(),
            exists|now: u64| final(self)@ == #[trigger] old(self)@.after_play(now),
            r.done,
            r.commands@ == seq![SinkCommand::Play],
    {
        let now: u64 = self.now();
        self.play_at(now)
    }

    /// `resume_at` at the reading of the player's clock.
    pub fn resume(&mut self) -> (r: Outcome)
        ensures
            old(self).well_formed() ==> final(self).well_formed(),
            exists|now: u64| final(self)@ == #[trigger] old(self)@.after_resume(now),
            r.done,
            r.commands@ == seq![SinkCommand::Play],
    {
        let now: u64 = self.now();
        self.resume_at(now)
    }

    /// `pause_at` at the reading of the player's clock.
    pub fn pause(&mut self) -> (r: Outcome)
        ensures
            old(self).well_formed() ==> final(self).well_formed(),
            exists|now: u64|
                final(self)@ == #[trigger] old(self)@.after_pause(now) && r.done == old(
                    self,
                )@.pause_takes_effect(now),
            !r.done ==> final(self)@ == old(self)@,
            r.commands@ == seq![SinkCommand::Pause],
    {
        let now: u64 = self.now();
        self.pause_at(now)
    }

    /// `tick_at` at the reading of the player's clock.
    pub fn tick(&mut self, sink_paused: bool) -> (r: Vec<SinkCommand>)
        ensures
            old(self).well_formed() ==> final(self).well_formed(),
            exists|now: u64|
                final(self)@ == #[trigger] old(self)@.after_tick(now, sink_paused) && r@ == old(
                    self,
                )@.tick_commands(now, sink_paused),
    {
        let now: u64 = self.now();
        self.tick_at(now, sink_paused)
    }

    /// `add_to_list_at` at the reading of the player's clock.
    pub fn add_to_list(
        &mut self,
        name: String,
        media: Result<u64, MediaError>,
        once: bool,
    ) -> (r: Outcome)
        ensures
            old(self).well_formed() ==> final(self).well_formed(),
            r.done == media.is_ok(),
            media.is_ok() ==> exists|now: u64|
                final(self)@ == #[trigger] old(self)@.after_add(name@, media.unwrap(), once, now)
                    && r.commands@ == old(self)@.add_commands(name@, media.unwrap(), once, now),
            media.is_err() ==> final(self)@ == old(self)@,
            media.is_err() ==> r.commands@ == Seq::<SinkCommand>::empty(),
    {
        let now: u64 = self.now();
        self.add_to_list_at(name, media, once, now)
    }
}

} // verus!
