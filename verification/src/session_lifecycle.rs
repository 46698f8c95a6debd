//! What holds of a session from its creation to its end, whatever the order
//! in which creations, connections and expiries reach the store.
//!
//! The store is taken as the map from each live token to the socket that
//! waits under it, and each operation of the manager as the function or
//! relation on such maps that its contract names.

use crate::zebra_session_manager::{
    collides, connect, created_by, creates, expire, ConnectionError, CreateSessionError, Pairing,
    MAX_REDRAWS,
};
use vstd::prelude::*;

verus! {

/// Whether `tokens` were created one after another, the `i`-th taking the
/// store from `befores[i]` to `afters[i]`, with no session removed between
/// one creation and the next.
pub open spec fn creations_without_removal<S>(
    befores: Seq<Map<u32, Option<S>>>,
    afters: Seq<Map<u32, Option<S>>>,
    tokens: Seq<u32>,
) -> bool {
    &&& befores.len() == tokens.len()
    &&& afters.len() == tokens.len()
    &&& forall|i: int|
        0 <= i < tokens.len() ==> creates(#[trigger] befores[i], Ok(tokens[i]), afters[i])
    &&& forall|i: int, token: u32|
        0 <= i < tokens.len() - 1 && afters[i].contains_key(token) ==> #[trigger] befores[i
            + 1].contains_key(token)
}

/// A token, once created, is still live when any later session of the run is
/// created.
proof fn lemma_token_stays_live<S>(
    befores: Seq<Map<u32, Option<S>>>,
    afters: Seq<Map<u32, Option<S>>>,
    tokens: Seq<u32>,
    i: int,
    j: int,
)
    requires
        creations_without_removal(befores, afters, tokens),
        0 <= i < j < tokens.len(),
    ensures
        befores[j].contains_key(tokens[i]),
    decreases j - i,
{
    assert(creates(befores[j - 1], Ok(tokens[j - 1]), afters[j - 1]));
    if j - 1 > i {
        lemma_token_stays_live(befores, afters, tokens, i, j - 1);
    }
    assert(afters[j - 1].contains_key(tokens[i]));
    assert(befores[j - 1 + 1].contains_key(tokens[i]));
}

/// Sessions created one after another, with none removed in between, have
/// pairwise distinct tokens.
pub proof fn lemma_created_tokens_distinct<S>(
    befores: Seq<Map<u32, Option<S>>>,
    afters: Seq<Map<u32, Option<S>>>,
    tokens: Seq<u32>,
)
    requires
        creations_without_removal(befores, afters, tokens),
    ensures
        forall|i: int, j: int| 0 <= i < j < tokens.len() ==> tokens[i] != tokens[j],
{
    assert forall|i: int, j: int| 0 <= i < j < tokens.len() implies tokens[i] != tokens[j] by {
        lemma_token_stays_live(befores, afters, tokens, i, j);
        assert(creates(befores[j], Ok(tokens[j]), afters[j]));
    }
}

/// A created token was free before, and is live with no socket after.
pub proof fn lemma_created_session_is_reserved<S>(
    before: Map<u32, Option<S>>,
    token: u32,
    after: Map<u32, Option<S>>,
)
    requires
        creates(before, Ok(token), after),
    ensures
        !before.contains_key(token),
        after.contains_key(token),
        after[token].is_none(),
        forall|other: u32| other != token ==> (after.contains_key(other) <==> before.contains_key(other)),
{
}

/// Of three sockets that present the token of a reserved session in turn,
/// the first is held, the second is paired with the first, which ends the
/// session, and the third finds no session.
pub proof fn lemma_pairing<S>(
    sessions: Map<u32, Option<S>>,
    token: u32,
    first: S,
    second: S,
    third: S,
)
    requires
        sessions.contains_key(token),
        sessions[token].is_none(),
    ensures
        ({
            let (held, first_outcome) = connect(sessions, token, first);
            let (paired, second_outcome) = connect(held, token, second);
            let (left, third_outcome) = connect(paired, token, third);
            &&& first_outcome == Ok::<Pairing<S>, ConnectionError>(Pairing::Waiting)
            &&& held == sessions.insert(token, Some(first))
            &&& second_outcome == Ok::<Pairing<S>, ConnectionError>(
                Pairing::Paired { first, second },
            )
            &&& paired == sessions.remove(token)
            &&& third_outcome == Err::<Pairing<S>, ConnectionError>(
                ConnectionError::SessionNotFound,
            )
            &&& left == paired
        }),
{
    assert(sessions.insert(token, Some(first)).remove(token) =~= sessions.remove(token));
}

/// A socket that presents the token of an expired session finds no session,
/// and the store stays as the expiry left it.
pub proof fn lemma_expired_session_not_found<S>(
    sessions: Map<u32, Option<S>>,
    token: u32,
    socket: S,
)
    ensures
        connect(expire(sessions, token), token, socket) == (
            expire(sessions, token),
            Err::<Pairing<S>, ConnectionError>(ConnectionError::SessionNotFound),
        ),
{
}

/// An expiry that comes after its session was paired changes nothing: the
/// pairing has removed the session, and no other session is touched.
pub proof fn lemma_expiry_after_pairing<S>(
    sessions: Map<u32, Option<S>>,
    token: u32,
    socket: S,
)
    requires
        sessions.contains_key(token),
        sessions[token].is_some(),
    ensures
        connect(sessions, token, socket).1 == Ok::<Pairing<S>, ConnectionError>(
            Pairing::Paired { first: sessions[token].unwrap(), second: socket },
        ),
        !connect(sessions, token, socket).0.contains_key(token),
        expire(connect(sessions, token, socket).0, token) == connect(sessions, token, socket).0,
{
    assert(sessions.remove(token).remove(token) =~= sessions.remove(token));
}

/// A socket that presents a token touches no session but that of the token.
pub proof fn lemma_connection_is_local<S>(
    sessions: Map<u32, Option<S>>,
    token: u32,
    socket: S,
    other: u32,
)
    requires
        other != token,
    ensures
        connect(sessions, token, socket).0.contains_key(other) == sessions.contains_key(other),
        sessions.contains_key(other) ==> connect(sessions, token, socket).0[other]
            == sessions[other],
{
}

/// An expiry touches no session but its own.
pub proof fn lemma_expiry_is_local<S>(sessions: Map<u32, Option<S>>, token: u32, other: u32)
    requires
        other != token,
    ensures
        expire(sessions, token).contains_key(other) == sessions.contains_key(other),
        sessions.contains_key(other) ==> expire(sessions, token)[other] == sessions[other],
        !expire(sessions, token).contains_key(token),
{
}

/// Where every value drawn stands for a taken token, the creation is given
/// up as `SessionLimitReached` after `MAX_REDRAWS + 1` draws, and the store
/// is left as it was.
pub proof fn lemma_collision_backoff<S>(
    before: Map<u32, Option<S>>,
    draws: Seq<Option<u32>>,
    outcome: Result<u32, CreateSessionError>,
    after: Map<u32, Option<S>>,
)
    requires
        created_by(before, draws, outcome, after),
        forall|i: int| 0 <= i < draws.len() ==> collides(before, #[trigger] draws[i]),
    ensures
        outcome == Err::<u32, CreateSessionError>(CreateSessionError::SessionLimitReached),
        draws.len() == MAX_REDRAWS + 1,
        after == before,
{
    assert(collides(before, draws[draws.len() - 1]));
}

} // verus!
