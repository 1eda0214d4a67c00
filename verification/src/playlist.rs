use vstd::prelude::*;
use crate::status::PlayStatus;

verus! {

/// One entry of the playlist.
#[derive(Clone, Debug, PartialEq, Eq)]
pub struct PlayListItem {
    /// The name under which the track is shown.
    pub name: String,
    /// The full length of the track, in nanoseconds.
    pub duration: u64,
    /// The position that the last tick computed, in nanoseconds.
    pub current_pos: u64,
    /// Where the entry stands in its life.
    pub status: PlayStatus,
}

/// What a playlist entry stands for in contracts.
pub struct Track {
    pub name: Seq<char>,
    pub duration: nat,
    pub current_pos: nat,
    pub status: PlayStatus,
}

impl View for PlayListItem {
    type V = Track;

    open spec fn view(&self) -> Track {
        Track {
            name: self.name@,
            duration: self.duration as nat,
            current_pos: self.current_pos as nat,
            status: self.status,
        }
    }
}

/// The tracks to play, in order; the first one is the current track.
#[derive(Clone, Debug, PartialEq, Eq)]
pub struct PlayList {
    pub lists: Vec<PlayListItem>,
}

impl View for PlayList {
    type V = Seq<Track>;

    open spec fn view(&self) -> Seq<Track> {
        self.lists@.map_values(|item: PlayListItem| item@)
    }
}

impl PlayList {
    /// A playlist without tracks.
    pub fn new() -> (r: PlayList)
        ensures
            r@ == Seq::<Track>::empty(),
    {
        let r = PlayList { lists: Vec::new() };
        assert(r@ =~= Seq::<Track>::empty());
        r
    }

    pub fn len(&self) -> (r: usize)
        ensures
            r == self@.len(),
    {
        self.lists.len()
    }

    pub fn is_empty(&self) -> (r: bool)
        ensures
            r == (self@.len() == 0),
    {
        self.lists.len() == 0
    }

    /// The current track, if there is one.
    pub fn head(&self) -> (r: Option<&PlayListItem>)
        ensures
            r.is_some() == (self@.len() > 0),
            r.is_some() ==> r.unwrap()@ == self@[0],
    {
        if self.lists.len() > 0 {
            Some(&self.lists[0])
        } else {
            None
        }
    }

    /// Queues a track behind the others.
    pub fn push(&mut self, item: PlayListItem)
        ensures
            final(self)@ == old(self)@.push(item@),
    {
        self.lists.push(item);
        assert(self@ =~= old(self)@.push(item@));
    }

    /// Takes the current track out and hands it back; the one behind it
    /// becomes current. An empty playlist stays as it is.
    pub fn remove_head(&mut self) -> (r: Option<PlayListItem>)
        ensures
            r.is_some() == (old(self)@.len() > 0),
            r.is_some() ==> r.unwrap()@ == old(self)@[0] && final(self)@ == old(
                self,
            )@.drop_first(),
            r.is_none() ==> final(self)@ == old(self)@,
    {
        if self.lists.len() > 0 {
            let item = self.lists.remove(0);
            assert(self@ =~= old(self)@.drop_first());
            Some(item)
        } else {
            None
        }
    }

    /// Takes every track out.
    pub fn clear(&mut self)
        ensures
            final(self)@ == Seq::<Track>::empty(),
    {
        self.lists.clear();
        assert(self@ =~= Seq::<Track>::empty());
    }

    /// Gives the current track another status.
    pub(crate) fn set_head_status(&mut self, status: PlayStatus)
        requires
            old(self)@.len() > 0,
        ensures
            final(self)@ == old(self)@.update(0, (Track { status: status, ..old(self)@[0] })),
    {
        self.lists[0].status = status;
        assert(self@ =~= old(self)@.update(0, (Track { status: status, ..old(self)@[0] })));
    }

    /// Records the position that was computed for the current track.
    pub(crate) fn set_head_position(&mut self, position: u64)
        requires
            old(self)@.len() > 0,
        ensures
            final(self)@ == old(self)@.update(
                0,
                (Track { current_pos: position as nat, ..old(self)@[0] }),
            ),
    {
        self.lists[0].current_pos = position;
        assert(self@ =~= old(self)@.update(
            0,
            (Track { current_pos: position as nat, ..old(self)@[0] }),
        ));
    }
}

} // verus!
