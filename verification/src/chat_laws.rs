//! What the room promises across calls, proved over the models that the
//! contracts of [`crate::chat`] use.
use vstd::prelude::*;

use crate::chat::{
    distinct_members, evicted_by_join, first_match, first_quietest, is_member, joined, posted,
    other_than, recipients, refreshed, truncated, whos, with_newcomer, MemberView, MessageView, RoomView, CAPACITY,
    MAX_MESSAGES, MAX_TEXT,
};

verus! {

broadcast use vstd::seq_lib::group_seq_properties;

proof fn lemma_first_match_exists(ms: Seq<MemberView>, who: Seq<u8>)
    requires
        is_member(ms, who),
    ensures
        exists|i: int| first_match(ms, who, i),
    decreases ms.len(),
{
    let k = choose|k: int| 0 <= k < ms.len() && #[trigger] ms[k].who == who;
    if k == ms.len() - 1 && !is_member(ms.drop_last(), who) {
        assert(first_match(ms, who, k)) by {
            assert forall|j: int| 0 <= j < k implies #[trigger] ms[j].who != who by {
                if ms[j].who == who {
                    assert(ms.drop_last()[j].who == who);
                }
            }
        }
    } else {
        if k < ms.len() - 1 {
            assert(ms.drop_last()[k].who == who);
        }
        lemma_first_match_exists(ms.drop_last(), who);
        let i = choose|i: int| first_match(ms.drop_last(), who, i);
        assert(first_match(ms, who, i)) by {
            assert forall|j: int| 0 <= j < i implies #[trigger] ms[j].who != who by {
                assert(ms.drop_last()[j].who != who);
            }
        }
    }
}

proof fn lemma_quietest_exists(ms: Seq<MemberView>)
    requires
        ms.len() > 0,
    ensures
        exists|q: int| first_quietest(ms, q),
    decreases ms.len(),
{
    if ms.len() == 1 {
        assert(first_quietest(ms, 0));
    } else {
        let rest = ms.drop_last();
        lemma_quietest_exists(rest);
        let q = choose|q: int| first_quietest(rest, q);
        let l = ms.len() - 1;
        if ms[l].last_active < ms[q].last_active {
            assert(first_quietest(ms, l)) by {
                assert forall|j: int| 0 <= j < ms.len() implies ms[l].last_active <= #[trigger] ms[j].last_active by {
                    if j < l {
                        assert(rest[q].last_active <= rest[j].last_active);
                    }
                }
                assert forall|j: int| 0 <= j < l implies ms[l].last_active < #[trigger] ms[j].last_active by {
                    assert(rest[q].last_active <= rest[j].last_active);
                }
            }
        } else {
            assert(first_quietest(ms, q)) by {
                assert forall|j: int| 0 <= j < ms.len() implies ms[q].last_active <= #[trigger] ms[j].last_active by {
                    if j < l {
                        assert(rest[q].last_active <= rest[j].last_active);
                    }
                }
                assert forall|j: int| 0 <= j < q implies ms[q].last_active < #[trigger] ms[j].last_active by {
                    assert(rest[q].last_active < rest[j].last_active);
                }
            }
        }
    }
}

/// Joining keeps the room well formed: nobody is in it twice, and it never
/// holds more than [`CAPACITY`] members.
pub proof fn lemma_join_keeps_room_wf(room: RoomView, who: Seq<u8>, now: u64)
    requires
        room.wf(),
    ensures
        (RoomView { members: joined(room.members, who, now), ..room }).wf(),
{
    let ms = room.members;
    let grown = with_newcomer(ms, who, now);
    if is_member(ms, who) {
        lemma_first_match_exists(ms, who);
        let i = choose|i: int| first_match(ms, who, i);
        let after = joined(ms, who, now);
        assert(after == ms.update(i, MemberView { who, last_active: now }));
        assert forall|a: int, b: int| 0 <= a < b < after.len() implies after[a].who != after[b].who by {
            assert(after[a].who == ms[a].who);
            assert(after[b].who == ms[b].who);
        }
    } else {
        assert(distinct_members(grown)) by {
            assert forall|a: int, b: int| 0 <= a < b < grown.len() implies grown[a].who != grown[b].who by {
                if b == grown.len() - 1 {
                    assert(ms[a].who == grown[a].who);
                }
            }
        }
        if grown.len() > CAPACITY {
            lemma_quietest_exists(grown);
            let q = choose|q: int| first_quietest(grown, q);
            let after = grown.remove(q);
            assert forall|a: int, b: int| 0 <= a < b < after.len() implies after[a].who != after[b].who by {
                if a < q {
                    if b < q {
                    } else {
                        assert(after[b] == grown[b + 1]);
                    }
                } else {
                    assert(after[a] == grown[a + 1]);
                    assert(after[b] == grown[b + 1]);
                }
            }
        }
    }
}

/// Joining again only refreshes: a member who joins again stays where they
/// are, with `now` as their last activity; nobody comes, nobody goes.
pub proof fn lemma_join_again_only_refreshes(ms: Seq<MemberView>, who: Seq<u8>, now: u64)
    requires
        is_member(ms, who),
    ensures
        evicted_by_join(ms, who, now) is None,
        joined(ms, who, now).len() == ms.len(),
        forall|k: int| 0 <= k < ms.len() ==> #[trigger] joined(ms, who, now)[k].who == ms[k].who,
        exists|i: int|
            first_match(ms, who, i) && joined(ms, who, now)[i].last_active == now
                && forall|k: int| 0 <= k < ms.len() && k != i ==> #[trigger] joined(ms, who, now)[k] == ms[k],
{
    lemma_first_match_exists(ms, who);
    let i = choose|i: int| first_match(ms, who, i);
    assert(joined(ms, who, now)[i].last_active == now);
}

/// Below capacity nobody is evicted, and the newcomer is in the room.
pub proof fn lemma_no_eviction_below_capacity(ms: Seq<MemberView>, who: Seq<u8>, now: u64)
    requires
        ms.len() < CAPACITY,
    ensures
        evicted_by_join(ms, who, now) is None,
        is_member(joined(ms, who, now), who),
{
    if is_member(ms, who) {
        lemma_first_match_exists(ms, who);
        let i = choose|i: int| first_match(ms, who, i);
        assert(joined(ms, who, now)[i].who == who);
    } else {
        let after = joined(ms, who, now);
        assert(after[ms.len() as int].who == who);
    }
}

/// A join beyond the cap evicts whoever has been quiet longest: the evicted
/// principal was, among the members and the newcomer, one whose last activity
/// is the earliest, and the room afterwards is everyone else, in order.
pub proof fn lemma_eviction_takes_the_quietest(ms: Seq<MemberView>, who: Seq<u8>, now: u64)
    requires
        evicted_by_join(ms, who, now) is Some,
    ensures
        ({
            let grown = with_newcomer(ms, who, now);
            let gone = evicted_by_join(ms, who, now)->0;
            exists|q: int|
                #![trigger grown[q]]
                0 <= q < grown.len() && grown[q].who == gone && joined(ms, who, now) == grown.remove(q)
                    && forall|j: int| 0 <= j < grown.len() ==> grown[q].last_active <= #[trigger] grown[j].last_active
        }),
{
    let grown = with_newcomer(ms, who, now);
    lemma_quietest_exists(grown);
    let q = choose|q: int| first_quietest(grown, q);
    assert(grown[q].who == evicted_by_join(ms, who, now)->0);
}

/// After a join, the principal who joined is in the room, unless the room was
/// full and they were themselves the quietest (their `now` the earliest), in
/// which case they are the one evicted.
pub proof fn lemma_joiner_is_in_or_evicted(ms: Seq<MemberView>, who: Seq<u8>, now: u64)
    requires
        distinct_members(ms),
    ensures
        is_member(joined(ms, who, now), who) || evicted_by_join(ms, who, now) == Some(who),
{
    let grown = with_newcomer(ms, who, now);
    if is_member(ms, who) {
        lemma_first_match_exists(ms, who);
        let i = choose|i: int| first_match(ms, who, i);
        assert(joined(ms, who, now)[i].who == who);
    } else if grown.len() <= CAPACITY {
        assert(joined(ms, who, now)[ms.len() as int].who == who);
    } else {
        lemma_quietest_exists(grown);
        let q = choose|q: int| first_quietest(grown, q);
        let l = ms.len() as int;
        if q != l {
            assert(joined(ms, who, now)[l - 1].who == who);
        }
    }
}

/// Sending counts as activity: a member who sends at `now` has `now` as their
/// last activity afterwards; nobody joins or leaves by sending.
pub proof fn lemma_sending_counts_as_activity(ms: Seq<MemberView>, sender: Seq<u8>, now: u64)
    requires
        is_member(ms, sender),
    ensures
        refreshed(ms, sender, now).len() == ms.len(),
        forall|k: int| 0 <= k < ms.len() ==> #[trigger] refreshed(ms, sender, now)[k].who == ms[k].who,
        exists|i: int|
            first_match(ms, sender, i) && #[trigger] refreshed(ms, sender, now)[i].last_active == now,
{
    lemma_first_match_exists(ms, sender);
    let i = choose|i: int| first_match(ms, sender, i);
    assert(refreshed(ms, sender, now)[i].last_active == now);
}

/// Sending keeps the room well formed.
pub proof fn lemma_send_keeps_room_wf(room: RoomView, sender: Seq<u8>, text: Seq<char>, now: u64)
    requires
        room.wf(),
    ensures
        (RoomView {
            members: refreshed(room.members, sender, now),
            messages: posted(room.messages, MessageView { from: sender, text: truncated(text), at: now }),
        }).wf(),
{
    let ms = room.members;
    let after = refreshed(ms, sender, now);
    if is_member(ms, sender) {
        lemma_first_match_exists(ms, sender);
        let i = choose|i: int| first_match(ms, sender, i);
        assert forall|a: int, b: int| 0 <= a < b < after.len() implies after[a].who != after[b].who by {
            assert(after[a].who == ms[a].who);
            assert(after[b].who == ms[b].who);
        }
    }
    let m = MessageView { from: sender, text: truncated(text), at: now };
    let msgs = posted(room.messages, m);
    let grown = room.messages.push(m);
    assert forall|i: int| 0 <= i < msgs.len() implies #[trigger] msgs[i].text.len() <= MAX_TEXT by {
        if grown.len() > MAX_MESSAGES {
            assert(msgs[i] == grown[i + 1]);
        }
    }
}

/// The sender is never notified of their own message, and every other member
/// is.
pub proof fn lemma_everyone_else_is_notified(ms: Seq<MemberView>, sender: Seq<u8>)
    ensures
        !recipients(ms, sender).contains(sender),
        forall|i: int| 0 <= i < ms.len() && #[trigger] ms[i].who != sender ==> recipients(ms, sender).contains(ms[i].who),
        forall|w: Seq<u8>| #[trigger] recipients(ms, sender).contains(w) ==> w != sender && is_member(ms, w),
{
    broadcast use vstd::seq_lib::group_filter_ensures;

    let names = whos(ms);
    let pred = other_than(sender);
    assert forall|i: int| 0 <= i < ms.len() && #[trigger] ms[i].who != sender implies recipients(ms, sender).contains(ms[i].who) by {
        assert(names[i] == ms[i].who);
        names.lemma_filter_contains(pred, i);
    }
    assert forall|w: Seq<u8>| #[trigger] recipients(ms, sender).contains(w) implies w != sender && is_member(ms, w) by {
        let k = choose|k: int| 0 <= k < recipients(ms, sender).len() && recipients(ms, sender)[k] == w;
        names.lemma_filter_pred(pred, k);
        names.lemma_filter_contains_rev(pred, w);
        let j = choose|j: int| 0 <= j < names.len() && names[j] == w;
        assert(ms[j].who == w);
    }
    assert(!recipients(ms, sender).contains(sender));
}

/// Sending counts as activity against eviction: right after a member sends at
/// `sent`, a join at `later >= sent` does not evict them while some other
/// member has been quieter since before `sent`.
pub proof fn lemma_sender_outlasts_the_quieter(
    ms: Seq<MemberView>,
    sender: Seq<u8>,
    sent: u64,
    who: Seq<u8>,
    later: u64,
)
    requires
        distinct_members(ms),
        is_member(ms, sender),
        sent <= later,
        exists|j: int| 0 <= j < ms.len() && #[trigger] ms[j].who != sender && ms[j].last_active < sent,
    ensures
        evicted_by_join(refreshed(ms, sender, sent), who, later) != Some(sender),
{
    let after = refreshed(ms, sender, sent);
    lemma_first_match_exists(ms, sender);
    let i = choose|i: int| first_match(ms, sender, i);
    let j = choose|j: int| 0 <= j < ms.len() && #[trigger] ms[j].who != sender && ms[j].last_active < sent;
    let grown = with_newcomer(after, who, later);
    if evicted_by_join(after, who, later) is Some {
        lemma_quietest_exists(grown);
        let q = choose|q: int| first_quietest(grown, q);
        assert(grown[j].last_active < sent);
        if grown[q].who == sender {
            if q < ms.len() {
                assert(after[q].who == ms[q].who);
                assert(q == i);
                assert(grown[q].last_active == sent);
            } else {
                assert(is_member(after, who)) by {
                    assert(after[i].who == sender);
                }
            }
            assert(grown[q].last_active <= grown[j].last_active);
        }
    }
}

/// A new room is well formed.
pub proof fn lemma_new_room_wf()
    ensures
        (RoomView { members: Seq::<MemberView>::empty(), messages: Seq::<MessageView>::empty() }).wf(),
{
}

/// Wiping keeps the room well formed.
pub proof fn lemma_wipe_keeps_room_wf(room: RoomView)
    requires
        room.wf(),
    ensures
        (RoomView { messages: Seq::<MessageView>::empty(), ..room }).wf(),
{
}

/// A message keeps its beginning: the kept text is the first
/// `min(len, MAX_TEXT)` characters of the sent text, in order.
pub proof fn lemma_kept_text_is_a_prefix(text: Seq<char>)
    ensures
        truncated(text).len() == if text.len() <= MAX_TEXT { text.len() } else { MAX_TEXT as nat },
        forall|i: int| 0 <= i < truncated(text).len() ==> #[trigger] truncated(text)[i] == text[i],
        text.len() <= MAX_TEXT ==> truncated(text) == text,
{
}

/// Only the latest messages are kept: in a room holding at most
/// [`MAX_MESSAGES`] messages, posting keeps the last
/// `min(len + 1, MAX_MESSAGES)` of the old messages followed by the new one,
/// and the new one is the last.
pub proof fn lemma_posting_keeps_the_latest(msgs: Seq<MessageView>, m: MessageView)
    requires
        msgs.len() <= MAX_MESSAGES,
    ensures
        ({
            let all = msgs.push(m);
            let kept = posted(msgs, m);
            &&& kept.len() == if all.len() <= MAX_MESSAGES { all.len() } else { MAX_MESSAGES as nat }
            &&& kept == all.skip(all.len() - kept.len())
            &&& kept.last() == m
        }),
{
    let all = msgs.push(m);
    let kept = posted(msgs, m);
    if all.len() > MAX_MESSAGES {
        assert(kept =~= all.skip(1));
    } else {
        assert(all.skip(0) =~= all);
    }
}

/// A newcomer joining below capacity is appended with `now` as its last
/// activity, and every member already in the room keeps its entry as it was.
pub proof fn lemma_newcomer_is_appended(ms: Seq<MemberView>, who: Seq<u8>, now: u64)
    requires
        !is_member(ms, who),
        ms.len() < CAPACITY,
    ensures
        joined(ms, who, now) == ms.push(MemberView { who, last_active: now }),
        joined(ms, who, now).len() == ms.len() + 1,
        forall|k: int| 0 <= k < ms.len() ==> #[trigger] joined(ms, who, now)[k] == ms[k],
{
}

/// A join changes nobody else: every entry of the room afterwards that is not
/// the joiner's is an entry the room had before, unchanged, and the joiner's
/// entry (if they are in) has `now` as its last activity. At most one member
/// leaves.
pub proof fn lemma_join_touches_only_the_joiner(ms: Seq<MemberView>, who: Seq<u8>, now: u64)
    ensures
        forall|j: int|
            0 <= j < joined(ms, who, now).len() && (#[trigger] joined(ms, who, now)[j]).who != who
                ==> ms.contains(joined(ms, who, now)[j]),
        forall|j: int|
            0 <= j < joined(ms, who, now).len() && (#[trigger] joined(ms, who, now)[j]).who == who
                ==> joined(ms, who, now)[j].last_active == now || ms.contains(joined(ms, who, now)[j]),
        joined(ms, who, now).len() + 1 >= ms.len(),
        joined(ms, who, now).len() <= ms.len() + 1,
{
    let after = joined(ms, who, now);
    let grown = with_newcomer(ms, who, now);
    if is_member(ms, who) {
        lemma_first_match_exists(ms, who);
        let i = choose|i: int| first_match(ms, who, i);
        assert forall|j: int| 0 <= j < after.len() && (#[trigger] after[j]).who != who implies ms.contains(after[j]) by {
            assert(j != i);
            assert(after[j] == ms[j]);
        }
    } else if grown.len() <= CAPACITY {
        assert forall|j: int| 0 <= j < after.len() && (#[trigger] after[j]).who != who implies ms.contains(after[j]) by {
            assert(after[j] == ms[j]);
        }
    } else {
        lemma_quietest_exists(grown);
        let q = choose|q: int| first_quietest(grown, q);
        assert(after == grown.remove(q));
        assert forall|j: int| 0 <= j < after.len() && (#[trigger] after[j]).who != who implies ms.contains(after[j]) by {
            if j < q {
                assert(after[j] == grown[j]);
                assert(grown[j] == ms[j]);
            } else {
                assert(after[j] == grown[j + 1]);
                assert(grown[j + 1] == ms[j + 1]);
            }
        }
        assert forall|j: int| 0 <= j < after.len() && (#[trigger] after[j]).who == who implies after[j].last_active == now
            || ms.contains(after[j]) by {
            if j < q {
                assert(after[j] == grown[j]);
                assert(grown[j] == ms[j]);
            } else if j + 1 < grown.len() - 1 {
                assert(after[j] == grown[j + 1]);
                assert(grown[j + 1] == ms[j + 1]);
            } else {
                assert(after[j] == grown[j + 1]);
            }
        }
    }
}

} // verus!
