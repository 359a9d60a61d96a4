//! One chatroom, so notifications can be tested end to end: joining and
//! sending are the two things that produce a notification for someone else.
//!
//! Members are principals, capped at [`CAPACITY`]. A join beyond the cap
//! evicts whoever has been quiet longest, where joining and sending both count
//! as activity.
use vstd::prelude::*;

use crate::principal::PrincipalId;

verus! {

/// The most members the room holds.
pub const CAPACITY: usize = 100;

/// A tester's message, not a document, and the room is read whole, so a
/// message keeps at most this many characters.
pub const MAX_TEXT: usize = 500;

/// Only this many of the latest messages are kept.
pub const MAX_MESSAGES: usize = 50;

/// Messages are wiped this often (in seconds), so a room left alone is empty
/// when someone comes back to it.
pub const WIPE_EVERY_SECS: u64 = 3600;

/// Every message is about the same thing, the room, so they share one key, and
/// a second message replaces the notification the first one left.
pub const KEY: &'static str = "chat";

/// The title of every chat notification.
pub const TITLE: &'static str = "Test app chat";

#[derive(Clone, Debug)]
pub struct Member {
    pub who: PrincipalId,
    /// Joined or last sent, in nanoseconds since the epoch.
    pub last_active: u64,
}

#[derive(Clone, Debug)]
pub struct ChatMessage {
    pub from: PrincipalId,
    pub text: String,
    pub at: u64,
}

#[derive(Clone, Debug)]
pub struct Room {
    pub members: Vec<Member>,
    pub messages: Vec<ChatMessage>,
}

/// A notification the room asks to be sent.
pub struct Notice {
    pub recipient: PrincipalId,
    pub title: String,
    pub body: String,
    pub url: Option<String>,
    pub key: Option<String>,
}

pub struct MemberView {
    pub who: Seq<u8>,
    pub last_active: u64,
}

pub struct MessageView {
    pub from: Seq<u8>,
    pub text: Seq<char>,
    pub at: u64,
}

pub struct RoomView {
    pub members: Seq<MemberView>,
    pub messages: Seq<MessageView>,
}

pub struct NoticeView {
    pub recipient: Seq<u8>,
    pub title: Seq<char>,
    pub body: Seq<char>,
    pub url: Option<Seq<char>>,
    pub key: Option<Seq<char>>,
}

impl View for Member {
    type V = MemberView;

    open spec fn view(&self) -> MemberView {
        MemberView { who: self.who@, last_active: self.last_active }
    }
}

impl View for ChatMessage {
    type V = MessageView;

    open spec fn view(&self) -> MessageView {
        MessageView { from: self.from@, text: self.text@, at: self.at }
    }
}

impl View for Room {
    type V = RoomView;

    open spec fn view(&self) -> RoomView {
        RoomView {
            members: self.members@.map_values(|m: Member| m@),
            messages: self.messages@.map_values(|m: ChatMessage| m@),
        }
    }
}

pub open spec fn opt_view(s: Option<String>) -> Option<Seq<char>> {
    match s {
        Some(s) => Some(s@),
        None => None,
    }
}

impl View for Notice {
    type V = NoticeView;

    open spec fn view(&self) -> NoticeView {
        NoticeView {
            recipient: self.recipient@,
            title: self.title@,
            body: self.body@,
            url: opt_view(self.url),
            key: opt_view(self.key),
        }
    }
}

/// `who` is in the room.
pub open spec fn is_member(ms: Seq<MemberView>, who: Seq<u8>) -> bool {
    exists|i: int| 0 <= i < ms.len() && #[trigger] ms[i].who == who
}

/// `i` is the first position of `who` in the room.
pub open spec fn first_match(ms: Seq<MemberView>, who: Seq<u8>, i: int) -> bool {
    &&& 0 <= i < ms.len()
    &&& ms[i].who == who
    &&& forall|j: int| 0 <= j < i ==> #[trigger] ms[j].who != who
}

/// `q` is the first of the members that have been quiet longest.
pub open spec fn first_quietest(ms: Seq<MemberView>, q: int) -> bool {
    &&& 0 <= q < ms.len()
    &&& forall|j: int| 0 <= j < ms.len() ==> ms[q].last_active <= #[trigger] ms[j].last_active
    &&& forall|j: int| 0 <= j < q ==> ms[q].last_active < #[trigger] ms[j].last_active
}

/// No principal is in the room twice.
pub open spec fn distinct_members(ms: Seq<MemberView>) -> bool {
    forall|i: int, j: int| 0 <= i < j < ms.len() ==> ms[i].who != ms[j].who
}

/// The members after `who` is active at `now`: the first entry of `who`, if
/// there is one, gets `now` as its last activity.
pub open spec fn refreshed(ms: Seq<MemberView>, who: Seq<u8>, now: u64) -> Seq<MemberView> {
    if is_member(ms, who) {
        let i = choose|i: int| first_match(ms, who, i);
        ms.update(i, MemberView { who, last_active: now })
    } else {
        ms
    }
}

/// The members once `who` has been added at `now`, before any eviction.
pub open spec fn with_newcomer(ms: Seq<MemberView>, who: Seq<u8>, now: u64) -> Seq<MemberView> {
    ms.push(MemberView { who, last_active: now })
}

/// The members after `who` joins at `now`.
pub open spec fn joined(ms: Seq<MemberView>, who: Seq<u8>, now: u64) -> Seq<MemberView> {
    let grown = with_newcomer(ms, who, now);
    if is_member(ms, who) {
        refreshed(ms, who, now)
    } else if grown.len() <= CAPACITY {
        grown
    } else {
        let q = choose|q: int| first_quietest(grown, q);
        grown.remove(q)
    }
}

/// Who is evicted when `who` joins at `now`.
pub open spec fn evicted_by_join(ms: Seq<MemberView>, who: Seq<u8>, now: u64) -> Option<Seq<u8>> {
    let grown = with_newcomer(ms, who, now);
    if is_member(ms, who) || grown.len() <= CAPACITY {
        None
    } else {
        let q = choose|q: int| first_quietest(grown, q);
        Some(grown[q].who)
    }
}

/// `text` as it is kept: its first [`MAX_TEXT`] characters.
pub open spec fn truncated(text: Seq<char>) -> Seq<char> {
    if text.len() <= MAX_TEXT {
        text
    } else {
        text.take(MAX_TEXT as int)
    }
}

/// The messages once `m` is posted: only the last [`MAX_MESSAGES`] are kept.
pub open spec fn posted(msgs: Seq<MessageView>, m: MessageView) -> Seq<MessageView> {
    let grown = msgs.push(m);
    if grown.len() > MAX_MESSAGES {
        grown.drop_first()
    } else {
        grown
    }
}

/// The principals in the room, in room order.
pub open spec fn whos(ms: Seq<MemberView>) -> Seq<Seq<u8>> {
    ms.map_values(|m: MemberView| m.who)
}

/// Holds of every principal but `sender`.
pub open spec fn other_than(sender: Seq<u8>) -> spec_fn(Seq<u8>) -> bool {
    |w: Seq<u8>| w != sender
}

/// Everyone in the room but `sender`, in room order.
pub open spec fn recipients(ms: Seq<MemberView>, sender: Seq<u8>) -> Seq<Seq<u8>> {
    whos(ms).filter(other_than(sender))
}

/// The notice each recipient gets for a message.
pub open spec fn notice_for(
    recipient: Seq<u8>,
    body: Seq<char>,
    url: Option<Seq<char>>,
) -> NoticeView {
    NoticeView { recipient, title: TITLE@, body, url, key: Some(KEY@) }
}

impl RoomView {
    /// What holds of every room the chat endpoints keep: no principal twice,
    /// at most [`CAPACITY`] members, at most [`MAX_MESSAGES`] messages of at
    /// most [`MAX_TEXT`] characters each.
    pub open spec fn wf(self) -> bool {
        &&& distinct_members(self.members)
        &&& self.members.len() <= CAPACITY
        &&& self.messages.len() <= MAX_MESSAGES
        &&& forall|i: int| 0 <= i < self.messages.len() ==> #[trigger] self.messages[i].text.len() <= MAX_TEXT
    }
}

proof fn lemma_first_match_unique(ms: Seq<MemberView>, who: Seq<u8>, i: int, k: int)
    requires
        first_match(ms, who, i),
        first_match(ms, who, k),
    ensures
        i == k,
{
    if i < k {
        assert(ms[i].who != who);
    } else if k < i {
        assert(ms[k].who != who);
    }
}

proof fn lemma_first_quietest_unique(ms: Seq<MemberView>, q: int, r: int)
    requires
        first_quietest(ms, q),
        first_quietest(ms, r),
    ensures
        q == r,
{
    if q < r {
        assert(ms[r].last_active < ms[q].last_active);
        assert(ms[r].last_active <= ms[q].last_active);
    } else if r < q {
        assert(ms[q].last_active < ms[r].last_active);
        assert(ms[q].last_active <= ms[r].last_active);
    }
}

/// The first position of `who` among `members`, if any.
fn position_of(members: &Vec<Member>, who: &PrincipalId) -> (at: Option<usize>)
    ensures
        match at {
            Some(i) => first_match(members@.map_values(|m: Member| m@), who@, i as int),
            None => !is_member(members@.map_values(|m: Member| m@), who@),
        },
{
    let ghost ms = members@.map_values(|m: Member| m@);
    let mut i: usize = 0;
    while i < members.len()
        invariant
            i <= members@.len(),
            ms == members@.map_values(|m: Member| m@),
            forall|j: int| 0 <= j < i ==> #[trigger] ms[j].who != who@,
        decreases members@.len() - i,
    {
        if members[i].who.same_as(who) {
            return Some(i);
        }
        i = i + 1;
    }
    None
}

/// The first of the members that have been quiet longest.
fn quietest(members: &Vec<Member>) -> (q: usize)
    requires
        members@.len() > 0,
    ensures
        first_quietest(members@.map_values(|m: Member| m@), q as int),
{
    let ghost ms = members@.map_values(|m: Member| m@);
    let mut q: usize = 0;
    let mut i: usize = 1;
    while i < members.len()
        invariant
            1 <= i <= members@.len(),
            ms == members@.map_values(|m: Member| m@),
            q < i,
            forall|j: int| 0 <= j < i ==> ms[q as int].last_active <= #[trigger] ms[j].last_active,
            forall|j: int| 0 <= j < q ==> ms[q as int].last_active < #[trigger] ms[j].last_active,
        decreases members@.len() - i,
    {
        if members[i].last_active < members[q].last_active {
            q = i;
        }
        i = i + 1;
    }
    q
}

/// Sets the last activity of the member at `i` to `now`.
fn touch(members: &mut Vec<Member>, i: usize, now: u64)
    requires
        i < old(members)@.len(),
    ensures
        final(members)@.map_values(|m: Member| m@) == old(members)@.map_values(|m: Member| m@).update(
            i as int,
            MemberView { who: old(members)@[i as int].who@, last_active: now },
        ),
{
    let mut m = members.remove(i);
    m.last_active = now;
    members.insert(i, m);
    assert(final(members)@.map_values(|m: Member| m@) =~= old(members)@.map_values(|m: Member| m@).update(
        i as int,
        MemberView { who: old(members)@[i as int].who@, last_active: now },
    ));
}

/// Joins the room, or refreshes `who`'s activity if they are already in it.
/// Returns whoever was evicted to make room: the first of the members (the
/// newcomer included) that have been quiet longest, once the room would
/// otherwise hold more than [`CAPACITY`] members.
pub fn join(room: &mut Room, who: PrincipalId, now: u64) -> (evicted: Option<PrincipalId>)
    ensures
        final(room)@.members == joined(old(room)@.members, who@, now),
        final(room)@.messages == old(room)@.messages,
        match evicted {
            Some(e) => evicted_by_join(old(room)@.members, who@, now) == Some(e@),
            None => evicted_by_join(old(room)@.members, who@, now) is None,
        },
{
    let ghost ms = old(room)@.members;
    let ghost me = MemberView { who: who@, last_active: now };
    match position_of(&room.members, &who) {
        Some(i) => {
            touch(&mut room.members, i, now);
            proof {
                let k = choose|k: int| first_match(ms, who@, k);
                lemma_first_match_unique(ms, who@, i as int, k);
                assert(ms[i as int].who == who@);
            }
            return None;
        },
        None => {},
    }
    room.members.push(Member { who, last_active: now });
    assert(room.members@.map_values(|m: Member| m@) =~= with_newcomer(ms, me.who, now));
    if room.members.len() <= CAPACITY {
        return None;
    }
    let q = quietest(&room.members);
    let gone = room.members.remove(q);
    proof {
        let grown = with_newcomer(ms, me.who, now);
        let r = choose|r: int| first_quietest(grown, r);
        lemma_first_quietest_unique(grown, q as int, r);
        assert(room.members@.map_values(|m: Member| m@) =~= grown.remove(q as int));
    }
    Some(gone.who)
}

/// Posts `text` from `sender` at `now`, and says whom to notify.
///
/// The sender's activity is refreshed if they are a member; the text keeps its
/// first [`MAX_TEXT`] characters; only the last [`MAX_MESSAGES`] messages are
/// kept. Everyone else in the room, in room order, gets a notice carrying the
/// kept text, the room's [`TITLE`] and [`KEY`], and `url`.
pub fn chat_send(room: &mut Room, sender: PrincipalId, text: String, now: u64, url: Option<String>) -> (notices: Vec<Notice>)
    ensures
        final(room)@.members == refreshed(old(room)@.members, sender@, now),
        final(room)@.messages == posted(
            old(room)@.messages,
            MessageView { from: sender@, text: truncated(text@), at: now },
        ),
        notices@.map_values(|n: Notice| n@) == recipients(final(room)@.members, sender@).map_values(
            |w: Seq<u8>| notice_for(w, truncated(text@), opt_view(url)),
        ),
{
    let ghost ms = old(room)@.members;
    let n = text.as_str().unicode_len();
    let keep = if n < MAX_TEXT { n } else { MAX_TEXT };
    let kept: String = text.as_str().substring_char(0, keep).to_owned();
    assert(kept@ == truncated(text@));

    match position_of(&room.members, &sender) {
        Some(i) => {
            touch(&mut room.members, i, now);
            proof {
                let k = choose|k: int| first_match(ms, sender@, k);
                lemma_first_match_unique(ms, sender@, i as int, k);
            }
        },
        None => {},
    }
    assert(room@.members == refreshed(ms, sender@, now));

    let ghost msgs = room@.messages;
    room.messages.push(ChatMessage { from: sender.duplicate(), text: kept.clone(), at: now });
    if room.messages.len() > MAX_MESSAGES {
        room.messages.remove(0);
    }
    assert(room@.messages =~= posted(
        msgs,
        MessageView { from: sender@, text: truncated(text@), at: now },
    ));

    let ghost fin = room@.members;
    let ghost names = whos(fin);
    let ghost keep_pred = other_than(sender@);
    let ghost mk = |w: Seq<u8>| notice_for(w, truncated(text@), opt_view(url));
    let mut notices: Vec<Notice> = Vec::new();
    let mut i: usize = 0;
    while i < room.members.len()
        invariant
            i <= room.members@.len(),
            room@.members == fin,
            names == whos(fin),
            kept@ == truncated(text@),
            keep_pred == other_than(sender@),
            mk == (|w: Seq<u8>| notice_for(w, truncated(text@), opt_view(url))),
            notices@.map_values(|n: Notice| n@) == names.take(i as int).filter(keep_pred).map_values(mk),
        decreases room.members@.len() - i,
    {
        proof {
            assert(names.take(i + 1) == names.take(i as int).push(names[i as int]));
            names.take(i as int).lemma_filter_push(names[i as int], keep_pred);
        }
        let ghost before = notices@.map_values(|n: Notice| n@);
        if !room.members[i].who.same_as(&sender) {
            let url_copy = match &url {
                Some(u) => Some(u.clone()),
                None => None,
            };
            notices.push(Notice {
                recipient: room.members[i].who.duplicate(),
                title: TITLE.to_owned(),
                body: kept.clone(),
                url: url_copy,
                key: Some(KEY.to_owned()),
            });
            assert(notices@.map_values(|n: Notice| n@) =~= before.push(mk(names[i as int])));
        }
        i = i + 1;
    }
    assert(names.take(fin.len() as int) == names);
    notices
}

/// Where acting on a chat notification takes the user: the chat page of the
/// notification origin the canister is configured with, if it is configured
/// with one. (Internet Identity refuses a URL that is not on the sending
/// origin.)
pub fn chat_url(notification_origin: Option<&str>) -> (url: Option<String>)
    ensures
        match notification_origin {
            Some(origin) => url matches Some(u) && u@ == origin@ + "/#chat"@,
            None => url is None,
        },
{
    match notification_origin {
        Some(origin) => {
            let mut u = origin.to_owned();
            u.append("/#chat");
            Some(u)
        },
        None => None,
    }
}

/// Clears the messages; the members stay.
pub fn wipe(room: &mut Room)
    ensures
        final(room)@.members == old(room)@.members,
        final(room)@.messages == Seq::<MessageView>::empty(),
{
    room.messages.clear();
    assert(room@.messages =~= Seq::<MessageView>::empty());
}

impl Room {
    /// An empty room.
    pub fn new() -> (room: Room)
        ensures
            room@.members == Seq::<MemberView>::empty(),
            room@.messages == Seq::<MessageView>::empty(),
    {
        let room = Room { members: Vec::new(), messages: Vec::new() };
        assert(room@.members =~= Seq::<MemberView>::empty());
        assert(room@.messages =~= Seq::<MessageView>::empty());
        room
    }
}

impl Default for Room {
    fn default() -> (room: Room)
        ensures
            room@.members == Seq::<MemberView>::empty(),
            room@.messages == Seq::<MessageView>::empty(),
    {
        Room::new()
    }
}

} // verus!
