use music_player::{PlayList, PlayListItem, PlayStatus};

fn track(name: &str, duration: u64) -> PlayListItem {
    PlayListItem { name: name.to_string(), duration, current_pos: 0, status: PlayStatus::Waiting }
}

#[test]
fn new_playlist_is_empty() {
    let list = PlayList::new();
    assert_eq!(list.len(), 0);
    assert!(list.is_empty());
    assert!(list.head().is_none());
}

#[test]
fn push_appends_at_the_tail() {
    let mut list = PlayList::new();
    list.push(track("a", 1));
    list.push(track("b", 2));
    assert_eq!(list.len(), 2);
    assert!(!list.is_empty());
    assert_eq!(list.head(), Some(&track("a", 1)));
    assert_eq!(list.lists, vec![track("a", 1), track("b", 2)]);
}

#[test]
fn remove_head_hands_out_the_first_track() {
    let mut list = PlayList::new();
    list.push(track("a", 1));
    list.push(track("b", 2));
    assert_eq!(list.remove_head(), Some(track("a", 1)));
    assert_eq!(list.lists, vec![track("b", 2)]);
    assert_eq!(list.remove_head(), Some(track("b", 2)));
    assert_eq!(list.remove_head(), None);
    assert!(list.is_empty());
}

#[test]
fn clear_takes_every_track_out() {
    let mut list = PlayList::new();
    list.push(track("a", 1));
    list.push(track("b", 2));
    list.clear();
    assert!(list.is_empty());
    assert_eq!(list.lists, vec![]);
}
