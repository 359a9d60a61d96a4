use test_app::chat::{chat_send, chat_url, join, wipe, Room, CAPACITY, KEY, MAX_MESSAGES, MAX_TEXT, TITLE};
use test_app::principal::PrincipalId;

fn member(n: u64) -> PrincipalId {
    PrincipalId::from_slice(&n.to_be_bytes())
}

#[test]
fn joining_again_only_refreshes() {
    let mut room = Room::default();
    assert_eq!(join(&mut room, member(1), 10), None);
    assert_eq!(join(&mut room, member(1), 20), None);

    assert_eq!(room.members.len(), 1);
    assert_eq!(room.members[0].last_active, 20);
}

#[test]
fn the_next_member_evicts_the_quietest() {
    let mut room = Room::default();
    for n in 0..CAPACITY as u64 {
        assert_eq!(join(&mut room, member(n), n + 1), None, "the room has room");
    }

    // The first to join has been quiet longest, until it comes back.
    let refreshed = member(0);
    join(&mut room, refreshed.clone(), 1_000);

    let evicted = join(&mut room, member(CAPACITY as u64), 1_001);
    assert_eq!(evicted, Some(member(1)), "the next quietest goes instead");
    assert_eq!(room.members.len(), CAPACITY);
    assert!(room.members.iter().any(|member| member.who == refreshed));
}

#[test]
fn a_newcomer_quieter_than_everyone_is_the_one_evicted() {
    let mut room = Room::default();
    for n in 0..CAPACITY as u64 {
        join(&mut room, member(n), 100 + n);
    }
    let evicted = join(&mut room, member(500), 5);
    assert_eq!(evicted, Some(member(500)));
    assert_eq!(room.members.len(), CAPACITY);
    assert!(!room.members.iter().any(|m| m.who == member(500)));
}

#[test]
fn ties_evict_the_first_in_room_order() {
    let mut room = Room::default();
    for n in 0..CAPACITY as u64 {
        join(&mut room, member(n), 7);
    }
    let evicted = join(&mut room, member(999), 7);
    assert_eq!(evicted, Some(member(0)));
    assert_eq!(room.members[0].who, member(1));
    assert_eq!(room.members[CAPACITY - 1].who, member(999));
}

#[test]
fn below_capacity_nobody_is_evicted() {
    let mut room = Room::new();
    for n in 0..(CAPACITY as u64 - 1) {
        assert_eq!(join(&mut room, member(n), 1_000 - n), None);
    }
    assert_eq!(join(&mut room, member(7_000), 1), None);
    assert_eq!(room.members.len(), CAPACITY);
    assert_eq!(room.members[CAPACITY - 1].who, member(7_000));
    assert_eq!(room.members[CAPACITY - 1].last_active, 1);
}

#[test]
fn sending_counts_as_activity() {
    let mut room = Room::default();
    for n in 0..CAPACITY as u64 {
        join(&mut room, member(n), n + 1);
    }
    // The quietest member speaks up; the next quietest goes instead.
    chat_send(&mut room, member(0), "hello".to_string(), 500, None);
    assert_eq!(room.members[0].last_active, 500);
    let evicted = join(&mut room, member(4_000), 501);
    assert_eq!(evicted, Some(member(1)));
}

#[test]
fn everyone_else_is_notified() {
    let mut room = Room::default();
    join(&mut room, member(1), 1);
    join(&mut room, member(2), 2);
    join(&mut room, member(3), 3);
    let notices = chat_send(&mut room, member(2), "hi all".to_string(), 9, Some("https://app.example".to_string()));
    assert_eq!(notices.len(), 2);
    assert_eq!(notices[0].recipient, member(1));
    assert_eq!(notices[1].recipient, member(3));
    for notice in &notices {
        assert_eq!(notice.title, TITLE);
        assert_eq!(notice.title, "Test app chat");
        assert_eq!(notice.body, "hi all");
        assert_eq!(notice.url, Some("https://app.example".to_string()));
        assert_eq!(notice.key, Some(KEY.to_string()));
        assert_eq!(notice.key, Some("chat".to_string()));
    }
    assert_eq!(room.messages.len(), 1);
    assert_eq!(room.messages[0].from, member(2));
    assert_eq!(room.messages[0].text, "hi all");
    assert_eq!(room.messages[0].at, 9);
    assert_eq!(room.members[1].last_active, 9);
}

#[test]
fn a_stranger_can_send_and_everyone_is_notified() {
    let mut room = Room::default();
    join(&mut room, member(1), 1);
    let notices = chat_send(&mut room, member(8), "from outside".to_string(), 4, None);
    assert_eq!(notices.len(), 1);
    assert_eq!(notices[0].recipient, member(1));
    assert_eq!(notices[0].url, None);
    assert_eq!(room.members.len(), 1);
    assert_eq!(room.members[0].last_active, 1);
    assert_eq!(room.messages.len(), 1);
}

#[test]
fn long_messages_are_truncated_by_characters() {
    let mut room = Room::default();
    let long: String = "é".repeat(MAX_TEXT + 20);
    let notices = chat_send(&mut room, member(1), long, 1, None);
    assert!(notices.is_empty());
    assert_eq!(room.messages[0].text.chars().count(), MAX_TEXT);
    assert_eq!(room.messages[0].text, "é".repeat(MAX_TEXT));

    chat_send(&mut room, member(1), "short".to_string(), 2, None);
    assert_eq!(room.messages[1].text, "short");

    let exact: String = "x".repeat(MAX_TEXT);
    chat_send(&mut room, member(1), exact.clone(), 3, None);
    assert_eq!(room.messages[2].text, exact);
}

#[test]
fn only_the_last_messages_are_kept() {
    let mut room = Room::default();
    for n in 0..(MAX_MESSAGES as u64 + 5) {
        chat_send(&mut room, member(1), format!("message {n}"), n, None);
    }
    assert_eq!(room.messages.len(), MAX_MESSAGES);
    assert_eq!(room.messages[0].text, "message 5");
    assert_eq!(room.messages[MAX_MESSAGES - 1].text, format!("message {}", MAX_MESSAGES + 4));
}

#[test]
fn wiping_clears_messages_and_keeps_members() {
    let mut room = Room::default();
    join(&mut room, member(1), 1);
    chat_send(&mut room, member(1), "a".to_string(), 2, None);
    chat_send(&mut room, member(1), "b".to_string(), 3, None);
    wipe(&mut room);
    assert!(room.messages.is_empty());
    assert_eq!(room.members.len(), 1);
    assert_eq!(room.members[0].last_active, 3);
}

#[test]
fn the_chat_url_is_on_the_notification_origin() {
    assert_eq!(chat_url(Some("https://app.example")), Some("https://app.example/#chat".to_string()));
    assert_eq!(chat_url(None), None);
}

#[test]
fn principals_keep_their_bytes() {
    let p = PrincipalId::from_slice(&[1, 2, 3]);
    assert_eq!(p.as_slice(), &[1, 2, 3]);
    assert!(p.same_as(&PrincipalId::from_slice(&[1, 2, 3])));
    assert!(!p.same_as(&PrincipalId::from_slice(&[1, 2])));
    assert_eq!(p.duplicate(), p);
}
