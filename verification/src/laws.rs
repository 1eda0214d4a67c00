use vstd::prelude::*;
use crate::model::{PlayerModel, Transport};
use crate::status::PlayStatus;

verus! {

/// A request to pause never takes played time away from a status, and a
/// request to play or to resume leaves it as it is.
pub proof fn law_status_keeps_played_time(status: PlayStatus, now: u64)
    ensures
        status.paused(now).already_played() >= status.already_played(),
        status.started(now).already_played() == status.already_played(),
        status.resumed(now).already_played() == status.already_played(),
{
}

/// One request changes neither the number of tracks nor the length of the
/// current one, and takes no played time away from it.
pub proof fn law_request_keeps_played_time(before: PlayerModel, request: Transport)
    ensures
        before.after_request(request).play_list.len() == before.play_list.len(),
        before.play_list.len() > 0 ==> before.after_request(request).play_list[0].duration
            == before.play_list[0].duration,
        before.after_request(request).head_played() >= before.head_played(),
{
}

/// Over any run of requests to play, pause and resume, the played time of the
/// current track never decreases: after `later` of the requests it is at
/// least what it was after `earlier` of them.
pub proof fn law_played_time_never_decreases(
    start: PlayerModel,
    requests: Seq<Transport>,
    earlier: int,
    later: int,
)
    requires
        0 <= earlier <= later <= requests.len(),
    ensures
        start.after_requests(requests.take(earlier)).head_played() <= start.after_requests(
            requests.take(later),
        ).head_played(),
        start.after_requests(requests.take(later)).play_list.len() == start.play_list.len(),
    decreases later,
{
    if later == 0 {
        assert(requests.take(0).len() == 0);
    } else {
        let shorter = requests.take(later - 1);
        assert(requests.take(later).drop_last() =~= shorter);
        assert(requests.take(later).last() == requests[later - 1]);
        law_request_keeps_played_time(start.after_requests(shorter), requests[later - 1]);
        if earlier < later {
            law_played_time_never_decreases(start, requests, earlier, later - 1);
        } else {
            law_played_time_never_decreases(start, requests, later - 1, later - 1);
        }
    }
}

/// After a tick the played time of a current track that is still there does
/// not exceed the track's length, and where the track is running, neither
/// does its position at the tick. This is stated of every track but a halted
/// one that was paused beyond its length, which a tick leaves as it is.
pub proof fn law_tick_bounds_played_time(before: PlayerModel, now: u64, sink_paused: bool)
    requires
        before.play_list.len() > 0,
        before.play_list[0].status is Stopped ==> before.head_played()
            <= before.play_list[0].duration,
    ensures
        ({
            let after = before.after_tick(now, sink_paused);
            after.play_list.len() == before.play_list.len() ==> {
                &&& after.head_played() <= after.play_list[0].duration
                &&& before.play_list[0].status is Playing ==> after.head_position(now)
                    < after.play_list[0].duration
            }
        }),
{
}

/// The same after any run of requests on a running track: once a tick has
/// accounted for time, the played time of the track, if it is still current,
/// is within its length.
pub proof fn law_requests_then_tick_bound_played_time(
    start: PlayerModel,
    requests: Seq<Transport>,
    now: u64,
    sink_paused: bool,
)
    requires
        start.play_list.len() > 0,
        start.play_list[0].status is Playing,
        ({
            let before = start.after_requests(requests);
            before.play_list[0].status is Stopped ==> before.head_played()
                <= before.play_list[0].duration
        }),
    ensures
        ({
            let before = start.after_requests(requests);
            let after = before.after_tick(now, sink_paused);
            &&& start.head_played() <= before.head_played()
            &&& after.play_list.len() == before.play_list.len() ==> after.head_played()
                <= after.play_list[0].duration
        }),
{
    assert(requests.take(0).len() == 0);
    assert(requests.take(requests.len() as int) =~= requests);
    law_played_time_never_decreases(start, requests, 0, requests.len() as int);
    law_tick_bounds_played_time(start.after_requests(requests), now, sink_paused);
}

/// A pause followed by a resume counts no time in between: the played time
/// after the resume is the played time after the pause, whenever the two are
/// made. Where the pause took effect, the position at the resume is that
/// played time, and a resume at the very reading of the pause leaves the
/// position where it was before the pause.
pub proof fn law_pause_then_resume_counts_no_time(
    before: PlayerModel,
    paused_at: u64,
    resumed_at: u64,
)
    ensures
        ({
            let held = before.after_pause(paused_at);
            let after = held.after_resume(resumed_at);
            &&& after.head_played() == held.head_played()
            &&& before.pause_takes_effect(paused_at) ==> after.head_position(resumed_at)
                == held.head_played()
            &&& before.pause_takes_effect(paused_at) && resumed_at == paused_at
                ==> after.head_position(paused_at) == before.head_position(paused_at)
        }),
{
}

/// A tick on a running track that has reached its length takes out exactly
/// that track: what is left is the playlist behind it, one shorter.
pub proof fn law_tick_retires_finished_track(before: PlayerModel, now: u64, sink_paused: bool)
    requires
        before.play_list.len() > 0,
        before.play_list[0].status is Playing,
        before.play_list[0].status.elapsed_at(now) >= before.play_list[0].duration,
    ensures
        before.after_tick(now, sink_paused).play_list == before.play_list.drop_first(),
        before.after_tick(now, sink_paused).play_list.len() == before.play_list.len() - 1,
{
}

/// A tick never takes out more than one track, and none but the current one:
/// behind the first place the playlist is what it was, or it has moved up by
/// one place as a whole.
pub proof fn law_tick_removes_at_most_one(before: PlayerModel, now: u64, sink_paused: bool)
    ensures
        ({
            let after = before.after_tick(now, sink_paused);
            if before.head_finished(now) {
                after.play_list == before.play_list.drop_first()
            } else {
                &&& after.play_list.len() == before.play_list.len()
                &&& forall|i: int|
                    1 <= i < before.play_list.len() ==> after.play_list[i] == before.play_list[i]
            }
        }),
{
}

/// Skipping with a single track is refused and changes nothing; with two or
/// more it is done and leaves the playlist one shorter, without its head.
pub proof fn law_next_needs_a_second_track(before: PlayerModel)
    ensures
        before.play_list.len() <= 1 ==> !before.can_skip() && before.after_next() == before,
        before.play_list.len() >= 2 ==> before.can_skip() && before.after_next().play_list.len()
            == before.play_list.len() - 1 && before.after_next().play_list
            == before.play_list.drop_first(),
{
}

/// With an empty playlist no sound is coming out, whatever the sink says.
pub proof fn law_empty_playlist_is_never_playing(player: PlayerModel, sink_paused: bool)
    requires
        player.play_list.len() == 0,
    ensures
        !player.is_playing(sink_paused),
{
}

/// A player that was just made is well formed.
pub proof fn law_initial_is_well_formed()
    ensures
        PlayerModel::initial().well_formed(),
{
}

/// A request to play, pause or resume keeps the player well formed: it
/// touches the head of the playlist only.
pub proof fn law_request_keeps_well_formed(before: PlayerModel, request: Transport)
    requires
        before.well_formed(),
    ensures
        before.after_request(request).well_formed(),
{
}

/// Skipping keeps the player well formed: the track that becomes current was
/// never started.
pub proof fn law_next_keeps_well_formed(before: PlayerModel)
    requires
        before.well_formed(),
    ensures
        before.after_next().well_formed(),
{
}

/// A tick keeps the player well formed.
pub proof fn law_tick_keeps_well_formed(before: PlayerModel, now: u64, sink_paused: bool)
    requires
        before.well_formed(),
    ensures
        before.after_tick(now, sink_paused).well_formed(),
{
}

/// Adding a track keeps the player well formed: the track is queued as
/// waiting, and only the head is started.
pub proof fn law_add_keeps_well_formed(
    before: PlayerModel,
    name: Seq<char>,
    duration: u64,
    once: bool,
    now: u64,
)
    requires
        before.well_formed(),
    ensures
        before.after_add(name, duration, once, now).well_formed(),
{
    let queued = before.with_queued(name, duration, once);
    assert(queued.well_formed());
    law_request_keeps_well_formed(queued, Transport::Play(now));
    law_tick_keeps_well_formed(queued.after_play(now), now, false);
}

} // verus!
