//! What the engine expects of the store, as mathematics.
//!
//! The session table and the two key tables are modelled as sequences of
//! rows in the order in which they were written. The functions here say
//! what a store in a given state answers and how a write changes it; the
//! laws say what the session and key adapters rely on. Nothing in this
//! module runs.
use crate::db::{DbReplyView, SqlValueView};
use vstd::prelude::*;

verus! {

/// One row of the session table.
pub struct SessionRow {
    pub session_uuid: Seq<char>,
    pub user_id: i64,
}

/// One row of a key table.
pub struct KeyRow {
    pub user_id: i64,
    pub secret: Seq<char>,
}

/// Whether a session with this identifier exists.
pub open spec fn session_exists(sessions: Seq<SessionRow>, session_uuid: Seq<char>) -> bool {
    exists|i: int| 0 <= i < sessions.len() && (#[trigger] sessions[i]).session_uuid == session_uuid
}

/// The store's answer to the question who owns a session.
pub open spec fn owner_reply(sessions: Seq<SessionRow>, session_uuid: Seq<char>) -> DbReplyView
    decreases sessions.len(),
{
    if sessions.len() == 0 {
        DbReplyView::NoRow
    } else if sessions[0].session_uuid == session_uuid {
        DbReplyView::Row(seq![SqlValueView::Int(sessions[0].user_id)])
    } else {
        owner_reply(sessions.drop_first(), session_uuid)
    }
}

/// The store's answer to the question for a user's current session: the
/// one created last.
pub open spec fn latest_reply(sessions: Seq<SessionRow>, user_id: i64) -> DbReplyView
    decreases sessions.len(),
{
    if sessions.len() == 0 {
        DbReplyView::NoRow
    } else if sessions.last().user_id == user_id {
        DbReplyView::Row(seq![SqlValueView::Text(sessions.last().session_uuid)])
    } else {
        latest_reply(sessions.drop_last(), user_id)
    }
}

/// The session table after a session was created.
pub open spec fn created(
    sessions: Seq<SessionRow>,
    user_id: i64,
    session_uuid: Seq<char>,
) -> Seq<SessionRow> {
    sessions.push(SessionRow { session_uuid, user_id })
}

/// The session table after a session was revoked.
pub open spec fn revoked(sessions: Seq<SessionRow>, session_uuid: Seq<char>) -> Seq<SessionRow>
    decreases sessions.len(),
{
    if sessions.len() == 0 {
        sessions
    } else if sessions[0].session_uuid == session_uuid {
        revoked(sessions.drop_first(), session_uuid)
    } else {
        seq![sessions[0]] + revoked(sessions.drop_first(), session_uuid)
    }
}

/// The store's answer to a revocation: the number of rows that went.
pub open spec fn revoke_reply(sessions: Seq<SessionRow>, session_uuid: Seq<char>) -> DbReplyView {
    DbReplyView::Done((sessions.len() - revoked(sessions, session_uuid).len()) as u64)
}

/// Whether a user has a key in the table.
pub open spec fn has_key(keys: Seq<KeyRow>, user_id: i64) -> bool {
    exists|i: int| 0 <= i < keys.len() && (#[trigger] keys[i]).user_id == user_id
}

/// The store's answer to the question for a user's key.
pub open spec fn key_reply(keys: Seq<KeyRow>, user_id: i64) -> DbReplyView
    decreases keys.len(),
{
    if keys.len() == 0 {
        DbReplyView::NoRow
    } else if keys[0].user_id == user_id {
        DbReplyView::Row(seq![SqlValueView::Text(keys[0].secret)])
    } else {
        key_reply(keys.drop_first(), user_id)
    }
}

/// The store's answer to an attempt to store a key: the table holds one
/// key per user and refuses a second.
pub open spec fn store_key_reply(keys: Seq<KeyRow>, user_id: i64) -> DbReplyView {
    if has_key(keys, user_id) {
        DbReplyView::Conflict
    } else {
        DbReplyView::Done(1)
    }
}

/// The key table after an attempt to store a key.
pub open spec fn key_stored(keys: Seq<KeyRow>, user_id: i64, secret: Seq<char>) -> Seq<KeyRow> {
    if has_key(keys, user_id) {
        keys
    } else {
        keys.push(KeyRow { user_id, secret })
    }
}

/// A session that does not exist has no owner.
pub proof fn lemma_unknown_session_has_no_owner(sessions: Seq<SessionRow>, session_uuid: Seq<char>)
    requires
        !session_exists(sessions, session_uuid),
    ensures
        owner_reply(sessions, session_uuid) == DbReplyView::NoRow,
    decreases sessions.len(),
{
    if sessions.len() > 0 {
        assert(sessions[0].session_uuid != session_uuid);
        let rest = sessions.drop_first();
        assert forall|i: int| 0 <= i < rest.len() implies (#[trigger] rest[i]).session_uuid
            != session_uuid by {
            assert(rest[i] == sessions[i + 1]);
        }
        lemma_unknown_session_has_no_owner(rest, session_uuid);
    }
}

/// Revocation removes every row of the session and keeps the others in
/// their order.
pub proof fn lemma_revoked_rows(sessions: Seq<SessionRow>, session_uuid: Seq<char>)
    ensures
        !session_exists(revoked(sessions, session_uuid), session_uuid),
        revoked(sessions, session_uuid).len() <= sessions.len(),
        !session_exists(sessions, session_uuid) ==> revoked(sessions, session_uuid) == sessions,
    decreases sessions.len(),
{
    if sessions.len() > 0 {
        let rest = sessions.drop_first();
        lemma_revoked_rows(rest, session_uuid);
        let kept = revoked(rest, session_uuid);
        if sessions[0].session_uuid != session_uuid {
            let out = seq![sessions[0]] + kept;
            assert forall|i: int| 0 <= i < out.len() implies (#[trigger] out[i]).session_uuid
                != session_uuid by {
                if i > 0 {
                    assert(out[i] == kept[i - 1]);
                }
            }
        }
        if !session_exists(sessions, session_uuid) {
            assert(sessions[0].session_uuid != session_uuid);
            assert forall|i: int| 0 <= i < rest.len() implies (#[trigger] rest[i]).session_uuid
                != session_uuid by {
                assert(rest[i] == sessions[i + 1]);
            }
            assert(seq![sessions[0]] + rest =~= sessions);
        }
    }
}

/// A revoked session is unknown to the store: asked for its owner, the
/// store has no row.
pub proof fn lemma_revoked_session_has_no_owner(sessions: Seq<SessionRow>, session_uuid: Seq<char>)
    ensures
        owner_reply(revoked(sessions, session_uuid), session_uuid) == DbReplyView::NoRow,
{
    lemma_revoked_rows(sessions, session_uuid);
    lemma_unknown_session_has_no_owner(revoked(sessions, session_uuid), session_uuid);
}

/// Revocation leaves every other session with its owner.
pub proof fn lemma_revocation_spares_others(
    sessions: Seq<SessionRow>,
    session_uuid: Seq<char>,
    other: Seq<char>,
)
    requires
        other != session_uuid,
    ensures
        owner_reply(revoked(sessions, session_uuid), other) == owner_reply(sessions, other),
    decreases sessions.len(),
{
    if sessions.len() > 0 {
        let rest = sessions.drop_first();
        lemma_revocation_spares_others(rest, session_uuid, other);
        if sessions[0].session_uuid != session_uuid {
            let out = seq![sessions[0]] + revoked(rest, session_uuid);
            assert(out.drop_first() =~= revoked(rest, session_uuid));
        }
    }
}

/// Revoking twice is revoking once, and the second time no row goes.
pub proof fn lemma_revocation_idempotent(sessions: Seq<SessionRow>, session_uuid: Seq<char>)
    ensures
        revoked(revoked(sessions, session_uuid), session_uuid) == revoked(sessions, session_uuid),
        revoke_reply(revoked(sessions, session_uuid), session_uuid) == DbReplyView::Done(0),
{
    lemma_revoked_rows(sessions, session_uuid);
    lemma_revoked_rows(revoked(sessions, session_uuid), session_uuid);
}

/// A session just created is its user's current session.
pub proof fn lemma_created_session_is_current(
    sessions: Seq<SessionRow>,
    user_id: i64,
    session_uuid: Seq<char>,
)
    ensures
        latest_reply(created(sessions, user_id, session_uuid), user_id) == DbReplyView::Row(
            seq![SqlValueView::Text(session_uuid)],
        ),
{
}

/// A session created under a new identifier is owned by its user.
pub proof fn lemma_created_session_has_its_owner(
    sessions: Seq<SessionRow>,
    user_id: i64,
    session_uuid: Seq<char>,
)
    requires
        !session_exists(sessions, session_uuid),
    ensures
        owner_reply(created(sessions, user_id, session_uuid), session_uuid) == DbReplyView::Row(
            seq![SqlValueView::Int(user_id)],
        ),
    decreases sessions.len(),
{
    let after = created(sessions, user_id, session_uuid);
    if sessions.len() > 0 {
        assert(sessions[0].session_uuid != session_uuid);
        let rest = sessions.drop_first();
        assert forall|i: int| 0 <= i < rest.len() implies (#[trigger] rest[i]).session_uuid
            != session_uuid by {
            assert(rest[i] == sessions[i + 1]);
        }
        lemma_created_session_has_its_owner(rest, user_id, session_uuid);
        assert(after.drop_first() =~= created(rest, user_id, session_uuid));
        assert(after[0] == sessions[0]);
    } else {
        assert(after[0].session_uuid == session_uuid);
    }
}

/// A user without a key gets `NoRow` for it.
pub proof fn lemma_missing_key(keys: Seq<KeyRow>, user_id: i64)
    requires
        !has_key(keys, user_id),
    ensures
        key_reply(keys, user_id) == DbReplyView::NoRow,
    decreases keys.len(),
{
    if keys.len() > 0 {
        assert(keys[0].user_id != user_id);
        let rest = keys.drop_first();
        assert forall|i: int| 0 <= i < rest.len() implies (#[trigger] rest[i]).user_id
            != user_id by {
            assert(rest[i] == keys[i + 1]);
        }
        lemma_missing_key(rest, user_id);
    }
}

/// A key is stored once. The first write for a user stores the secret;
/// any later write is refused and leaves the stored secret as it is.
pub proof fn lemma_key_is_stored_once(keys: Seq<KeyRow>, user_id: i64, secret: Seq<char>)
    ensures
        has_key(key_stored(keys, user_id, secret), user_id),
        has_key(keys, user_id) ==> store_key_reply(keys, user_id) == DbReplyView::Conflict
            && key_reply(key_stored(keys, user_id, secret), user_id) == key_reply(keys, user_id),
        !has_key(keys, user_id) ==> store_key_reply(keys, user_id) == DbReplyView::Done(1)
            && key_reply(key_stored(keys, user_id, secret), user_id) == DbReplyView::Row(
            seq![SqlValueView::Text(secret)],
        ),
    decreases keys.len(),
{
    let after = key_stored(keys, user_id, secret);
    if !has_key(keys, user_id) {
        assert(after[keys.len() as int].user_id == user_id);
        if keys.len() > 0 {
            assert(keys[0].user_id != user_id);
            let rest = keys.drop_first();
            assert forall|i: int| 0 <= i < rest.len() implies (#[trigger] rest[i]).user_id
                != user_id by {
                assert(rest[i] == keys[i + 1]);
            }
            lemma_key_is_stored_once(rest, user_id, secret);
            assert(after.drop_first() =~= key_stored(rest, user_id, secret));
            assert(after[0] == keys[0]);
        }
    }
}

/// Whether every session belongs to a user that the store holds.
pub open spec fn sessions_have_users(user_ids: Set<i64>, sessions: Seq<SessionRow>) -> bool {
    forall|i: int| 0 <= i < sessions.len() ==> user_ids.contains((#[trigger] sessions[i]).user_id)
}

/// The store's answer to an attempt to store a session: it refuses a
/// session of a user that it does not hold, and an identifier that is
/// taken.
pub open spec fn store_session_reply(
    user_ids: Set<i64>,
    sessions: Seq<SessionRow>,
    user_id: i64,
    session_uuid: Seq<char>,
) -> DbReplyView {
    if user_ids.contains(user_id) && !session_exists(sessions, session_uuid) {
        DbReplyView::Done(1)
    } else {
        DbReplyView::Conflict
    }
}

/// The session table after an attempt to store a session.
pub open spec fn session_stored(
    user_ids: Set<i64>,
    sessions: Seq<SessionRow>,
    user_id: i64,
    session_uuid: Seq<char>,
) -> Seq<SessionRow> {
    if user_ids.contains(user_id) && !session_exists(sessions, session_uuid) {
        created(sessions, user_id, session_uuid)
    } else {
        sessions
    }
}

/// Every row that is left after a revocation was there before.
pub proof fn lemma_revoked_rows_were_there(sessions: Seq<SessionRow>, session_uuid: Seq<char>)
    ensures
        forall|i: int|
            0 <= i < revoked(sessions, session_uuid).len() ==> sessions.contains(
                #[trigger] revoked(sessions, session_uuid)[i],
            ),
    decreases sessions.len(),
{
    if sessions.len() > 0 {
        let rest = sessions.drop_first();
        lemma_revoked_rows_were_there(rest, session_uuid);
        let kept = revoked(rest, session_uuid);
        assert forall|i: int| 0 <= i < kept.len() implies sessions.contains(#[trigger] kept[i]) by {
            assert(rest.contains(kept[i]));
            let j = choose|j: int| 0 <= j < rest.len() && rest[j] == kept[i];
            assert(sessions[j + 1] == kept[i]);
        }
        let out = revoked(sessions, session_uuid);
        assert forall|i: int| 0 <= i < out.len() implies sessions.contains(#[trigger] out[i]) by {
            if sessions[0].session_uuid != session_uuid {
                if i == 0 {
                    assert(sessions[0] == out[0]);
                } else {
                    assert(out[i] == kept[i - 1]);
                }
            }
        }
    }
}

/// Sessions refer to users, always. A session of a user that the store
/// does not hold is refused and leaves the table as it was; and where
/// every session has its user, that is still so after a session was
/// stored and after one was revoked.
pub proof fn lemma_sessions_keep_their_users(
    user_ids: Set<i64>,
    sessions: Seq<SessionRow>,
    user_id: i64,
    session_uuid: Seq<char>,
)
    requires
        sessions_have_users(user_ids, sessions),
    ensures
        !user_ids.contains(user_id) ==> store_session_reply(
            user_ids,
            sessions,
            user_id,
            session_uuid,
        ) == DbReplyView::Conflict && session_stored(user_ids, sessions, user_id, session_uuid)
            == sessions,
        sessions_have_users(user_ids, session_stored(user_ids, sessions, user_id, session_uuid)),
        sessions_have_users(user_ids, revoked(sessions, session_uuid)),
{
    lemma_revoked_rows_were_there(sessions, session_uuid);
    let out = revoked(sessions, session_uuid);
    assert forall|i: int| 0 <= i < out.len() implies user_ids.contains(
        (#[trigger] out[i]).user_id,
    ) by {
        assert(sessions.contains(out[i]));
        let j = choose|j: int| 0 <= j < sessions.len() && sessions[j] == out[i];
        assert(user_ids.contains(sessions[j].user_id));
    }
}

} // verus!
