//! The mathematical model of the session store: a finite map from session
//! id to session, and what each operation of the store does to it.

use crate::services::session_manager::{
    ConversationState, MessageRole, MessageView, Session, SessionDataView, SessionView,
};
use vstd::prelude::*;

verus! {

/// A store as a map from session id to session.
pub type StoreView = Map<Seq<char>, SessionView>;

/// The store in which a session under `id` exists: unchanged if there was
/// one, with a fresh session under `id` otherwise.
pub open spec fn ensured(m: StoreView, id: Seq<char>, now: u64) -> StoreView {
    if m.dom().contains(id) {
        m
    } else {
        m.insert(id, SessionView::fresh(id, now))
    }
}

/// The store after a message was appended to the session under `id`, which
/// is created first if it is missing.
pub open spec fn appended(
    m: StoreView,
    id: Seq<char>,
    role: MessageRole,
    content: Seq<char>,
    now: u64,
) -> StoreView {
    let s = ensured(m, id, now)[id];
    m.insert(
        id,
        SessionView {
            messages: s.messages.push(MessageView { role, content, timestamp: now }),
            ..s.touched(now)
        },
    )
}

/// The store after the state of the session under `id` was set; unchanged
/// if there is no such session.
pub open spec fn with_state(
    m: StoreView,
    id: Seq<char>,
    state: ConversationState,
    now: u64,
) -> StoreView {
    if m.dom().contains(id) {
        m.insert(id, SessionView { state, ..m[id].touched(now) })
    } else {
        m
    }
}

/// The store after the data of the session under `id` was set; unchanged
/// if there is no such session.
pub open spec fn with_data(
    m: StoreView,
    id: Seq<char>,
    data: SessionDataView,
    now: u64,
) -> StoreView {
    if m.dom().contains(id) {
        m.insert(id, SessionView { data, ..m[id].touched(now) })
    } else {
        m
    }
}

/// The store without the sessions that have expired at time `now`.
pub open spec fn purged(m: StoreView, now: u64, ttl: u64) -> StoreView {
    Map::new(
        |id: Seq<char>| m.dom().contains(id) && !m[id].expired(now, ttl),
        |id: Seq<char>| m[id],
    )
}

/// Ensuring a session twice under the same id is the same as ensuring it
/// once: the second call finds the session of the first and leaves it alone,
/// whatever the time of the second call.
pub proof fn lemma_ensure_is_idempotent(m: StoreView, id: Seq<char>, first: u64, second: u64)
    ensures
        ensured(m, id, first).dom().contains(id),
        ensured(ensured(m, id, first), id, second) == ensured(m, id, first),
{
}

/// Ensuring a session leaves every other session as it was, and an
/// existing session under the id too.
pub proof fn lemma_ensure_keeps_sessions(m: StoreView, id: Seq<char>, now: u64, other: Seq<char>)
    requires
        m.dom().contains(other),
    ensures
        ensured(m, id, now).dom().contains(other),
        ensured(m, id, now)[other] == m[other],
{
}

/// A purge removes exactly the sessions that have been idle for the time
/// to live or longer, and leaves every other session unchanged. For a
/// session that was last active at or before `now`, the idle time is the
/// difference of the two times.
pub proof fn lemma_purge_removes_exactly_expired(m: StoreView, now: u64, ttl: u64, id: Seq<char>)
    ensures
        purged(m, now, ttl).dom().contains(id) <==> m.dom().contains(id) && !m[id].expired(
            now,
            ttl,
        ),
        purged(m, now, ttl).dom().contains(id) ==> purged(m, now, ttl)[id] == m[id],
        now >= m[id].last_active ==> (m[id].expired(now, ttl) <==> now - m[id].last_active >= ttl),
{
}

/// A purge at a time when no session has expired changes nothing.
pub proof fn lemma_purge_without_expired(m: StoreView, now: u64, ttl: u64)
    requires
        forall|id: Seq<char>| m.dom().contains(id) ==> !m[id].expired(now, ttl),
    ensures
        purged(m, now, ttl) == m,
{
    assert(purged(m, now, ttl) =~= m);
}

/// Purging twice at the same time removes nothing more than purging once.
pub proof fn lemma_purge_is_idempotent(m: StoreView, now: u64, ttl: u64)
    ensures
        purged(purged(m, now, ttl), now, ttl) == purged(m, now, ttl),
{
    assert(purged(purged(m, now, ttl), now, ttl) =~= purged(m, now, ttl));
}

/// While a session lives, the time of its last activity never goes back:
/// not when a message is appended, not when its state or its data is set.
pub proof fn lemma_activity_never_goes_back(
    m: StoreView,
    id: Seq<char>,
    other: Seq<char>,
    role: MessageRole,
    content: Seq<char>,
    state: ConversationState,
    data: SessionDataView,
    now: u64,
)
    requires
        m.dom().contains(other),
    ensures
        appended(m, id, role, content, now)[other].last_active >= m[other].last_active,
        with_state(m, id, state, now)[other].last_active >= m[other].last_active,
        with_data(m, id, data, now)[other].last_active >= m[other].last_active,
        ensured(m, id, now)[other].last_active == m[other].last_active,
{
}

/// Appending a message adds it at the end of the history of its session
/// and changes no other session.
pub proof fn lemma_append_extends_history(
    m: StoreView,
    id: Seq<char>,
    role: MessageRole,
    content: Seq<char>,
    now: u64,
)
    ensures
        appended(m, id, role, content, now).dom() == m.dom().insert(id),
        appended(m, id, role, content, now)[id].messages.last() == (MessageView {
            role,
            content,
            timestamp: now,
        }),
        m.dom().contains(id) ==> appended(m, id, role, content, now)[id].messages.drop_last()
            == m[id].messages,
        !m.dom().contains(id) ==> appended(m, id, role, content, now)[id].messages.len() == 1,
        forall|other: Seq<char>|
            other != id && m.dom().contains(other) ==> appended(m, id, role, content, now)[other]
                == m[other],
{
    let after = appended(m, id, role, content, now);
    assert(after.dom() =~= m.dom().insert(id));
    if m.dom().contains(id) {
        assert(after[id].messages.drop_last() =~= m[id].messages);
    }
}

/// The position of the session under `id` in a list of sessions.
pub(crate) open spec fn position(s: Seq<Session>, id: Seq<char>) -> int {
    choose|i: int| 0 <= i < s.len() && s[i].id@ == id
}

/// The map that a list of sessions with distinct ids stands for.
pub(crate) open spec fn store_map(s: Seq<Session>) -> StoreView {
    Map::new(
        |id: Seq<char>| exists|i: int| 0 <= i < s.len() && s[i].id@ == id,
        |id: Seq<char>| s[position(s, id)]@,
    )
}

/// No two sessions of the list share an id.
pub(crate) open spec fn distinct_ids(s: Seq<Session>) -> bool {
    forall|i: int, j: int| 0 <= i < s.len() && 0 <= j < s.len() && i != j ==> s[i].id@ != s[j].id@
}

/// The map holds each session of the list under its id.
pub(crate) proof fn lemma_lookup(s: Seq<Session>, i: int)
    requires
        distinct_ids(s),
        0 <= i < s.len(),
    ensures
        store_map(s).dom().contains(s[i].id@),
        store_map(s)[s[i].id@] == s[i]@,
        position(s, s[i].id@) == i,
{
}

/// The map holds nothing under an id that no session of the list has.
pub(crate) proof fn lemma_absent(s: Seq<Session>, id: Seq<char>)
    requires
        forall|i: int| 0 <= i < s.len() ==> s[i].id@ != id,
    ensures
        !store_map(s).dom().contains(id),
{
}

/// A session with a new id at the end of the list is an insertion into the map.
pub(crate) proof fn lemma_push(s: Seq<Session>, x: Session)
    requires
        distinct_ids(s),
        forall|i: int| 0 <= i < s.len() ==> s[i].id@ != x.id@,
    ensures
        distinct_ids(s.push(x)),
        store_map(s.push(x)) == store_map(s).insert(x.id@, x@),
{
    let t = s.push(x);
    assert(distinct_ids(t));
    assert forall|id: Seq<char>| #[trigger]
        store_map(t).dom().contains(id) == store_map(s).insert(x.id@, x@).dom().contains(id) by {
        if store_map(t).dom().contains(id) {
            let i = choose|i: int| 0 <= i < t.len() && t[i].id@ == id;
            if i < s.len() {
                assert(s[i].id@ == id);
            }
        }
        if store_map(s).dom().contains(id) {
            let i = choose|i: int| 0 <= i < s.len() && s[i].id@ == id;
            assert(t[i].id@ == id);
        }
        if id == x.id@ {
            assert(t[s.len() as int].id@ == id);
        }
    }
    assert forall|id: Seq<char>| #[trigger] store_map(t).dom().contains(id) implies store_map(
        t,
    )[id] == store_map(s).insert(x.id@, x@)[id] by {
        let i = choose|i: int| 0 <= i < t.len() && t[i].id@ == id;
        lemma_lookup(t, i);
        if i < s.len() {
            assert(s[i].id@ == id);
            lemma_lookup(s, i);
        }
    }
    assert(store_map(t) =~= store_map(s).insert(x.id@, x@));
}

/// A session put in the place of one with the same id is an insertion into the map.
pub(crate) proof fn lemma_update(s: Seq<Session>, k: int, x: Session)
    requires
        distinct_ids(s),
        0 <= k < s.len(),
        x.id@ == s[k].id@,
    ensures
        distinct_ids(s.update(k, x)),
        store_map(s.update(k, x)) == store_map(s).insert(x.id@, x@),
{
    let t = s.update(k, x);
    assert(distinct_ids(t)) by {
        assert forall|i: int, j: int|
            0 <= i < t.len() && 0 <= j < t.len() && i != j implies t[i].id@ != t[j].id@ by {
            assert(t[i].id@ == s[i].id@);
            assert(t[j].id@ == s[j].id@);
        }
    }
    assert forall|id: Seq<char>| #[trigger]
        store_map(t).dom().contains(id) == store_map(s).insert(x.id@, x@).dom().contains(id) by {
        if store_map(t).dom().contains(id) {
            let i = choose|i: int| 0 <= i < t.len() && t[i].id@ == id;
            assert(s[i].id@ == id);
        }
        if store_map(s).dom().contains(id) {
            let i = choose|i: int| 0 <= i < s.len() && s[i].id@ == id;
            assert(t[i].id@ == id);
        }
        if id == x.id@ {
            assert(t[k].id@ == id);
        }
    }
    assert forall|id: Seq<char>| #[trigger] store_map(t).dom().contains(id) implies store_map(
        t,
    )[id] == store_map(s).insert(x.id@, x@)[id] by {
        let i = choose|i: int| 0 <= i < t.len() && t[i].id@ == id;
        lemma_lookup(t, i);
        assert(s[i].id@ == id);
        lemma_lookup(s, i);
    }
    assert(store_map(t) =~= store_map(s).insert(x.id@, x@));
}

/// A session taken out of the list is a removal from the map.
pub(crate) proof fn lemma_remove(s: Seq<Session>, k: int)
    requires
        distinct_ids(s),
        0 <= k < s.len(),
    ensures
        distinct_ids(s.remove(k)),
        store_map(s.remove(k)) == store_map(s).remove(s[k].id@),
{
    let t = s.remove(k);
    let gone = s[k].id@;
    assert forall|i: int| 0 <= i < t.len() implies #[trigger] t[i] == s[if i < k {
        i
    } else {
        i + 1
    }] by {}
    assert(distinct_ids(t)) by {
        assert forall|i: int, j: int|
            0 <= i < t.len() && 0 <= j < t.len() && i != j implies t[i].id@ != t[j].id@ by {
            let a = if i < k {
                i
            } else {
                i + 1
            };
            let b = if j < k {
                j
            } else {
                j + 1
            };
            assert(t[i] == s[a] && t[j] == s[b]);
        }
    }
    assert forall|id: Seq<char>| #[trigger]
        store_map(t).dom().contains(id) == store_map(s).remove(gone).dom().contains(id) by {
        if store_map(t).dom().contains(id) {
            let i = choose|i: int| 0 <= i < t.len() && t[i].id@ == id;
            let a = if i < k {
                i
            } else {
                i + 1
            };
            assert(t[i] == s[a]);
            assert(s[a].id@ == id);
        }
        if store_map(s).dom().contains(id) && id != gone {
            let a = choose|a: int| 0 <= a < s.len() && s[a].id@ == id;
            let i = if a < k {
                a
            } else {
                a - 1
            };
            assert(t[i] == s[a]);
            assert(t[i].id@ == id);
        }
    }
    assert forall|id: Seq<char>| #[trigger] store_map(t).dom().contains(id) implies store_map(
        t,
    )[id] == store_map(s).remove(gone)[id] by {
        let i = choose|i: int| 0 <= i < t.len() && t[i].id@ == id;
        lemma_lookup(t, i);
        let a = if i < k {
            i
        } else {
            i + 1
        };
        assert(t[i] == s[a]);
        lemma_lookup(s, a);
    }
    assert(store_map(t) =~= store_map(s).remove(gone));
}

/// The map of a list has as many sessions as the list.
pub(crate) proof fn lemma_size(s: Seq<Session>)
    requires
        distinct_ids(s),
    ensures
        store_map(s).dom().finite(),
        store_map(s).dom().len() == s.len(),
    decreases s.len(),
{
    if s.len() == 0 {
        assert(store_map(s).dom() =~= Set::empty());
    } else {
        let front = s.drop_last();
        let x = s.last();
        assert(distinct_ids(front)) by {
            assert forall|i: int, j: int|
                0 <= i < front.len() && 0 <= j < front.len() && i != j implies front[i].id@
                != front[j].id@ by {
                assert(front[i] == s[i] && front[j] == s[j]);
            }
        }
        lemma_size(front);
        assert forall|i: int| 0 <= i < front.len() implies front[i].id@ != x.id@ by {
            assert(front[i] == s[i]);
        }
        lemma_push(front, x);
        lemma_absent(front, x.id@);
        assert(front.push(x) =~= s);
    }
}

} // verus!
