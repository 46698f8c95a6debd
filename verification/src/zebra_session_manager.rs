//! The store of live sessions and the rules of pairing.
//!
//! A session is reserved under a fresh token, holds the first socket that
//! presents the token, and ends when a second socket presents it or when its
//! time runs out. The manager decides; starting the relay between two paired
//! sockets and waiting for a session's time to run out are left to the caller,
//! who holds the manager under one lock.

use crate::generator::Generator;
use std::collections::hash_map::DefaultHasher;
use std::collections::HashMap;
use std::hash::Hasher;
use tokio::sync::oneshot::{channel, Receiver, Sender};
use vstd::bytes::{spec_u32_to_le_bytes, u32_to_le_bytes};
use vstd::prelude::*;
use vstd::std_specs::hash::*;

verus! {

broadcast use vstd::std_specs::hash::group_hash_axioms;

/// The sending half of a `tokio` one-shot channel, carried as an opaque value.
#[verifier::external_type_specification]
#[verifier::external_body]
#[verifier::reject_recursive_types(T)]
pub struct ExSender<T>(tokio::sync::oneshot::Sender<T>);

/// The receiving half of a `tokio` one-shot channel, carried as an opaque value.
#[verifier::external_type_specification]
#[verifier::external_body]
#[verifier::reject_recursive_types(T)]
pub struct ExReceiver<T>(tokio::sync::oneshot::Receiver<T>);

/// What awaiting a `tokio` one-shot receiver gives when its sender is gone.
/// No value of it is handled here; the receiver's type mentions it.
#[verifier::external_type_specification]
#[verifier::external_body]
pub struct ExRecvError(tokio::sync::oneshot::error::RecvError);

/// `tokio::sync::oneshot::channel` creates the two halves of a fresh channel.
/// Nothing is claimed of them.
pub assume_specification<T>[ tokio::sync::oneshot::channel::<T> ]() -> (halves: (
    Sender<T>,
    Receiver<T>,
));

/// `tokio::sync::oneshot::Sender::send` consumes the sender and tries to hand
/// the value to the receiver; it does not block. Nothing is claimed of whether
/// the value arrived.
pub assume_specification<T>[ Sender::<T>::send ](sender: Sender<T>, t: T) -> (outcome: Result<
    (),
    T,
>);

/// Calls `chrono::Utc::now` and `DateTime::timestamp`: the system clock's
/// reading in whole seconds since the Unix epoch. Nothing is claimed of it.
#[verifier::external_body]
fn unix_time() -> (seconds: i64) {
    chrono::Utc::now().timestamp()
}

/// How many times in a row a candidate token may be redrawn because it is
/// taken, before the creation of a session is given up.
pub const MAX_REDRAWS: u32 = 10;

/// A live session as the store keeps it.
pub struct Connection<S> {
    /// The socket of the peer that came first, once it has come.
    pub socket: Option<S>,
    /// Tells the session's expiry watcher that it is no longer needed.
    pub cancel_tx: Sender<()>,
}

/// The live sessions, the generator that their tokens come from, and the two
/// timeouts. `G` is the generator and `S` the type of a socket, of which the
/// manager reads nothing.
pub struct ZebraSessionManager<G, S> {
    sequence: G,
    connections: HashMap<u32, Connection<S>>,
    session_timeout: u64,
    socket_timeout: u64,
}

/// Why a socket was refused.
#[derive(Debug)]
pub enum ConnectionError {
    /// No live session has the token: it was never created, has expired, or
    /// was paired already.
    SessionNotFound,
}

/// What a new session's creator is told.
pub struct Session {
    // using u32 because JS supports only f64, which makes integer max value 2^53
    pub token: u32,
    /// Unix time, in seconds, at which the session ends unless it was paired.
    pub expires: u32,
}

/// Why no session was created.
#[derive(Debug)]
pub enum CreateSessionError {
    /// Every token drawn was taken, the redraws included.
    SessionLimitReached,
    /// The generator handed out no value.
    SequenceError,
}

/// What became of a socket that presented a live token.
pub enum Pairing<S> {
    /// It came first, and is held until its peer comes or the session ends.
    Waiting,
    /// It came second. The session is over, and bytes are to be relayed
    /// between the socket that was held and the one that just came.
    Paired { first: S, second: S },
}

/// What one drawn value means for the session that is being created.
pub enum Verdict {
    /// The token is free: the session is created under it.
    Accept(u32),
    /// The token is taken: draw again.
    Redraw,
    /// No session is created.
    Abort(CreateSessionError),
}

/// The token that a raw value of the generator stands for: the low 32 bits of
/// the hash of its four bytes, least significant first.
pub open spec fn token_of(raw: u32) -> u32 {
    (DefaultHasher::spec_finish(seq![spec_u32_to_le_bytes(raw)]) & 0xFFFF_FFFF) as u32
}

/// Whether a drawn value stands for a token that a live session has.
pub open spec fn collides<S>(sessions: Map<u32, Option<S>>, drawn: Option<u32>) -> bool {
    drawn matches Some(raw) && sessions.contains_key(token_of(raw))
}

/// The meaning of a drawn value after `collisions` taken tokens in a row.
pub open spec fn verdict<S>(
    sessions: Map<u32, Option<S>>,
    drawn: Option<u32>,
    collisions: nat,
) -> Verdict {
    match drawn {
        None => Verdict::Abort(CreateSessionError::SequenceError),
        Some(raw) => if !sessions.contains_key(token_of(raw)) {
            Verdict::Accept(token_of(raw))
        } else if collisions >= MAX_REDRAWS {
            Verdict::Abort(CreateSessionError::SessionLimitReached)
        } else {
            Verdict::Redraw
        },
    }
}

/// Whether drawing `draws` in turn settles the choice of a token with
/// `outcome`: all draws but the last are taken tokens that were redrawn, and
/// the last one is accepted or ends the attempt.
pub open spec fn selects<S>(
    sessions: Map<u32, Option<S>>,
    draws: Seq<Option<u32>>,
    outcome: Result<u32, CreateSessionError>,
) -> bool {
    &&& 1 <= draws.len() <= MAX_REDRAWS + 1
    &&& forall|i: int| 0 <= i < draws.len() - 1 ==> collides(sessions, #[trigger] draws[i])
    &&& verdict(sessions, draws.last(), (draws.len() - 1) as nat) == match outcome {
        Ok(token) => Verdict::Accept(token),
        Err(error) => Verdict::Abort(error),
    }
}

/// The store after a session was reserved under `token`.
pub open spec fn reserve<S>(sessions: Map<u32, Option<S>>, token: u32) -> Map<u32, Option<S>> {
    sessions.insert(token, None)
}

/// The store after the session of `token` has run out of time, if it was
/// still there.
pub open spec fn expire<S>(sessions: Map<u32, Option<S>>, token: u32) -> Map<u32, Option<S>> {
    sessions.remove(token)
}

/// The store after `socket` has presented `token`, and what became of the
/// socket.
pub open spec fn connect<S>(sessions: Map<u32, Option<S>>, token: u32, socket: S) -> (
    Map<u32, Option<S>>,
    Result<Pairing<S>, ConnectionError>,
) {
    if !sessions.contains_key(token) {
        (sessions, Err(ConnectionError::SessionNotFound))
    } else {
        match sessions[token] {
            None => (sessions.insert(token, Some(socket)), Ok(Pairing::Waiting)),
            Some(first) => (sessions.remove(token), Ok(Pairing::Paired { first, second: socket })),
        }
    }
}

/// Whether drawing `draws` in turn creates a session, or fails to, with
/// `outcome`, and takes the store from `before` to `after`: the token that
/// the draws select is reserved, and none is where they select none.
pub open spec fn created_by<S>(
    before: Map<u32, Option<S>>,
    draws: Seq<Option<u32>>,
    outcome: Result<u32, CreateSessionError>,
    after: Map<u32, Option<S>>,
) -> bool {
    &&& selects(before, draws, outcome)
    &&& match outcome {
        Ok(token) => after == reserve(before, token),
        Err(_) => after == before,
    }
}

/// Whether the creation of a session may take the store from `before` to
/// `after` with `outcome`, whatever was drawn.
pub open spec fn creates<S>(
    before: Map<u32, Option<S>>,
    outcome: Result<u32, CreateSessionError>,
    after: Map<u32, Option<S>>,
) -> bool {
    exists|draws: Seq<Option<u32>>| created_by(before, draws, outcome, after)
}

/// Whether a generator that starts as `from` may hand out `draws` in turn,
/// passing through `states`, and be left as `to`.
pub open spec fn drawn_in_turn<G: Generator>(
    from: G,
    states: Seq<G>,
    draws: Seq<Option<u32>>,
    to: G,
) -> bool {
    &&& states.len() == draws.len() + 1
    &&& states[0] == from
    &&& states.last() == to
    &&& forall|i: int|
        0 <= i < draws.len() ==> (#[trigger] states[i]).yields(draws[i], states[i + 1])
}

/// Whether the creation of a session may take the store from `before` to
/// `after` and the generator from `from` to `to`, with `outcome`: values are
/// drawn from the generator for as long as the rules of redrawing ask for,
/// and no longer.
pub open spec fn creates_drawing<G: Generator, S>(
    before: Map<u32, Option<S>>,
    from: G,
    outcome: Result<u32, CreateSessionError>,
    after: Map<u32, Option<S>>,
    to: G,
) -> bool {
    exists|draws: Seq<Option<u32>>, states: Seq<G>|
        #[trigger] drawn_in_turn(from, states, draws, to) && created_by(
            before,
            draws,
            outcome,
            after,
        )
}

/// The token of a created session, or why none was created.
pub open spec fn token_outcome<R>(outcome: Result<(Session, R), CreateSessionError>) -> Result<
    u32,
    CreateSessionError,
> {
    match outcome {
        Ok((session, _)) => Ok(session.token),
        Err(error) => Err(error),
    }
}

/// Whether the creation of a session under a clock that reads `now`, in Unix
/// seconds, may take the store from `before` to `after` and the generator
/// from `from` to `to`, with `outcome`.
///
/// Where a `u32` holds `now + session_timeout`, a session is created, or
/// fails to be, by the rules of drawing, and a created session ends at that
/// time. Where it does not, nothing is drawn or reserved and there is no
/// outcome.
pub open spec fn creates_at<G: Generator, S, R>(
    before: Map<u32, Option<S>>,
    from: G,
    session_timeout: u64,
    now: i64,
    outcome: Option<Result<(Session, R), CreateSessionError>>,
    after: Map<u32, Option<S>>,
    to: G,
) -> bool {
    if 0 <= now + session_timeout <= u32::MAX {
        &&& outcome matches Some(created)
        &&& creates(before, token_outcome(created), after)
        &&& creates_drawing(before, from, token_outcome(created), after, to)
        &&& created matches Ok((session, _)) ==> session.expires == now + session_timeout
    } else {
        &&& outcome.is_none()
        &&& after == before
        &&& to == from
    }
}

/// Derives a token from a raw value of the generator, so that tokens do not
/// give the generator's arithmetic away.
pub fn token_from(raw: u32) -> (token: u32)
    ensures
        token == token_of(raw),
{
    let mut hasher = DefaultHasher::new();
    let bytes = u32_to_le_bytes(raw);
    hasher.write(bytes.as_slice());
    assert(hasher@ =~= seq![spec_u32_to_le_bytes(raw)]);

    // make sure the hash is 32 bits
    let hash: u64 = hasher.finish();
    assert(hash & 0xFFFF_FFFF <= 0xFFFF_FFFF) by (bit_vector);
    (hash & 0xFFFF_FFFF) as u32
}

/// The time at which a session created at `now` ends, where a `u32` holds it.
pub fn expiry(now: i64, session_timeout: u64) -> (expires: Option<u32>)
    ensures
        expires matches Some(time) ==> time == now + session_timeout,
        expires.is_some() <==> 0 <= now + session_timeout <= u32::MAX,
{
    let time: i128 = now as i128 + session_timeout as i128;
    if 0 <= time && time <= 0xFFFF_FFFF {
        Some(time as u32)
    } else {
        None
    }
}

impl<G: Generator, S> ZebraSessionManager<G, S> {
    /// The live sessions: each token with the socket that waits under it.
    pub closed spec fn sessions(&self) -> Map<u32, Option<S>> {
        self.connections@.map_values(|connection: Connection<S>| connection.socket)
    }

    /// The generator that the tokens come from.
    pub closed spec fn generator(&self) -> G {
        self.sequence
    }

    /// The generator is in order.
    pub open spec fn wf(&self) -> bool {
        self.generator().wf()
    }

    /// Seconds that a session may wait to be paired.
    pub closed spec fn spec_session_timeout(&self) -> u64 {
        self.session_timeout
    }

    /// Seconds that a relay between two paired sockets may last.
    pub closed spec fn spec_socket_timeout(&self) -> u64 {
        self.socket_timeout
    }

    /// Seconds that a session may wait to be paired.
    #[verifier::when_used_as_spec(spec_session_timeout)]
    pub fn session_timeout(&self) -> (seconds: u64)
        ensures
            seconds == self.spec_session_timeout(),
    {
        self.session_timeout
    }

    /// Seconds that a relay between two paired sockets may last.
    #[verifier::when_used_as_spec(spec_socket_timeout)]
    pub fn socket_timeout(&self) -> (seconds: u64)
        ensures
            seconds == self.spec_socket_timeout(),
    {
        self.socket_timeout
    }

    /// A manager without sessions.
    pub fn new(session_timeout: u64, socket_timeout: u64, sequence: G) -> (manager: Self)
        ensures
            manager.generator() == sequence,
            manager.sessions() == Map::<u32, Option<S>>::empty(),
            manager.session_timeout() == session_timeout,
            manager.socket_timeout() == socket_timeout,
    {
        let manager = Self {
            sequence,
            connections: HashMap::new(),
            session_timeout,
            socket_timeout,
        };
        assert(manager.sessions() =~= Map::<u32, Option<S>>::empty());
        manager
    }

    /// Whether a session is live under `token`.
    pub fn is_live(&self, token: u32) -> (live: bool)
        ensures
            live == self.sessions().contains_key(token),
    {
        self.connections.contains_key(&token)
    }

    /// Decides what a value drawn from the generator means, after
    /// `collisions` taken tokens in a row.
    pub fn judge(&self, drawn: Option<u32>, collisions: u32) -> (decision: Verdict)
        ensures
            decision == verdict(self.sessions(), drawn, collisions as nat),
    {
        match drawn {
            None => Verdict::Abort(CreateSessionError::SequenceError),
            Some(raw) => {
                let token: u32 = token_from(raw);
                if !self.connections.contains_key(&token) {
                    Verdict::Accept(token)
                } else if collisions >= MAX_REDRAWS {
                    Verdict::Abort(CreateSessionError::SessionLimitReached)
                } else {
                    Verdict::Redraw
                }
            },
        }
    }

    /// Creates a session at the time `now`, in Unix seconds.
    ///
    /// Values are drawn from the generator until one stands for a free token.
    /// The attempt is given up when the generator is exhausted, or when a
    /// token is still taken after `MAX_REDRAWS` redraws. On success the token
    /// is reserved with no socket, and the caller gets the token, the time at
    /// which the session ends, and the receiver on which the session's expiry
    /// watcher learns that the session was paired.
    pub fn create_session_at(&mut self, now: i64) -> (outcome: Result<
        (Session, Receiver<()>),
        CreateSessionError,
    >)
        requires
            old(self).wf(),
            0 <= now + old(self).session_timeout() <= u32::MAX,
        ensures
            final(self).wf(),
            final(self).session_timeout() == old(self).session_timeout(),
            final(self).socket_timeout() == old(self).socket_timeout(),
            creates(old(self).sessions(), token_outcome(outcome), final(self).sessions()),
            creates_drawing(
                old(self).sessions(),
                old(self).generator(),
                token_outcome(outcome),
                final(self).sessions(),
                final(self).generator(),
            ),
            outcome matches Ok((session, _)) ==> session.expires == now + old(self).session_timeout(),
    {
        let ghost sessions = self.sessions();
        let ghost mut draws: Seq<Option<u32>> = Seq::empty();
        let ghost mut states: Seq<G> = seq![self.generator()];
        let mut collisions: u32 = 0;
        loop
            invariant
                self.wf(),
                self.sessions() == sessions,
                self.session_timeout() == old(self).session_timeout(),
                self.socket_timeout() == old(self).socket_timeout(),
                sessions == old(self).sessions(),
                0 <= now + self.session_timeout() <= u32::MAX,
                collisions <= MAX_REDRAWS,
                draws.len() == collisions,
                forall|i: int| 0 <= i < draws.len() ==> collides(sessions, #[trigger] draws[i]),
                drawn_in_turn(old(self).generator(), states, draws, self.generator()),
            decreases MAX_REDRAWS - collisions,
        {
            let ghost resting = self.generator();
            let drawn: Option<u32> = self.sequence.next();
            proof {
                let earlier_states = states;
                let earlier_draws = draws;
                draws = draws.push(drawn);
                states = states.push(self.generator());
                assert forall|i: int| 0 <= i < draws.len() implies (#[trigger] states[i]).yields(
                    draws[i],
                    states[i + 1],
                ) by {
                    if i < earlier_draws.len() {
                        assert(earlier_states[i].yields(earlier_draws[i], earlier_states[i + 1]));
                    } else {
                        assert(states[i] == resting);
                    }
                }
            }
            match self.judge(drawn, collisions) {
                Verdict::Accept(token) => {
                    let (cancel_tx, cancel) = channel::<()>();
                    self.connections.insert(token, Connection { socket: None, cancel_tx });
                    let expires: u32 = (now as i128 + self.session_timeout as i128) as u32;
                    proof {
                        assert(self.sessions() =~= reserve(sessions, token));
                        assert(created_by(sessions, draws, Ok(token), self.sessions()));
                        assert(drawn_in_turn(old(self).generator(), states, draws, self.generator()));
                    }
                    return Ok((Session { token, expires }, cancel));
                },
                Verdict::Abort(error) => {
                    proof {
                        assert(created_by(sessions, draws, Err(error), self.sessions()));
                        assert(drawn_in_turn(old(self).generator(), states, draws, self.generator()));
                    }
                    return Err(error);
                },
                Verdict::Redraw => {
                    collisions += 1;
                },
            }
        }
    }

    /// Creates a session under a clock that reads `now`, in Unix seconds.
    ///
    /// Where a `u32` cannot hold the time at which the session would end,
    /// nothing is done and `None` is returned. Otherwise the session is
    /// created as `create_session_at` does it.
    pub fn create_session_if_timely(&mut self, now: i64) -> (outcome: Option<
        Result<(Session, Receiver<()>), CreateSessionError>,
    >)
        requires
            old(self).wf(),
        ensures
            final(self).wf(),
            final(self).session_timeout() == old(self).session_timeout(),
            final(self).socket_timeout() == old(self).socket_timeout(),
            outcome.is_some() <==> 0 <= now + old(self).session_timeout() <= u32::MAX,
            creates_at(
                old(self).sessions(),
                old(self).generator(),
                old(self).session_timeout(),
                now,
                outcome,
                final(self).sessions(),
                final(self).generator(),
            ),
    {
        match expiry(now, self.session_timeout) {
            Some(_) => Some(self.create_session_at(now)),
            None => None,
        }
    }

    /// Creates a session at the system clock's time.
    ///
    /// The clock is read once, and the session is created under that reading
    /// as `create_session_if_timely` does it: a created session ends
    /// `session_timeout` seconds after the reading, and `None` is returned,
    /// with nothing done, where a `u32` cannot hold that time. Which reading
    /// it was is the clock's to say.
    pub fn create_session(&mut self) -> (outcome: Option<
        Result<(Session, Receiver<()>), CreateSessionError>,
    >)
        requires
            old(self).wf(),
        ensures
            final(self).wf(),
            final(self).session_timeout() == old(self).session_timeout(),
            final(self).socket_timeout() == old(self).socket_timeout(),
            exists|now: i64|
                creates_at(
                    old(self).sessions(),
                    old(self).generator(),
                    old(self).session_timeout(),
                    now,
                    outcome,
                    final(self).sessions(),
                    final(self).generator(),
                ),
    {
        let now: i64 = unix_time();
        let outcome = self.create_session_if_timely(now);
        assert(creates_at(
            old(self).sessions(),
            old(self).generator(),
            old(self).session_timeout(),
            now,
            outcome,
            self.sessions(),
            self.generator(),
        ));
        outcome
    }

    /// Takes in a socket that presents `token`.
    ///
    /// Without a live session under the token the socket is refused. The
    /// first socket of a session is held. The second ends the session: its
    /// expiry watcher is told so, and the held socket and the new one are
    /// handed back to be relayed for at most `socket_timeout` seconds.
    pub fn handle_connection(&mut self, token: u32, socket: S) -> (outcome: Result<
        Pairing<S>,
        ConnectionError,
    >)
        ensures
            final(self).session_timeout() == old(self).session_timeout(),
            final(self).socket_timeout() == old(self).socket_timeout(),
            final(self).generator() == old(self).generator(),
            (final(self).sessions(), outcome) == connect(old(self).sessions(), token, socket),
    {
        match self.connections.remove(&token) {
            None => {
                assert(self.sessions() =~= old(self).sessions());
                Err(ConnectionError::SessionNotFound)
            },
            Some(connection) => {
                let Connection { socket: held, cancel_tx } = connection;
                match held {
                    // If it is first connection with this token await for second connection
                    None => {
                        self.connections.insert(token, Connection { socket: Some(socket), cancel_tx });
                        assert(self.sessions() =~= old(self).sessions().insert(token, Some(socket)));
                        Ok(Pairing::Waiting)
                    },
                    Some(first) => {
                        let _ = cancel_tx.send(());
                        assert(self.sessions() =~= old(self).sessions().remove(token));
                        Ok(Pairing::Paired { first, second: socket })
                    },
                }
            },
        }
    }

    /// Ends the session of `token` because its time has run out. Where the
    /// session is already gone, paired or expired, nothing changes.
    pub fn expire_session(&mut self, token: u32) -> (removed: bool)
        ensures
            final(self).session_timeout() == old(self).session_timeout(),
            final(self).socket_timeout() == old(self).socket_timeout(),
            final(self).generator() == old(self).generator(),
            final(self).sessions() == expire(old(self).sessions(), token),
            removed == old(self).sessions().contains_key(token),
    {
        let removed = self.connections.remove(&token);
        assert(self.sessions() =~= old(self).sessions().remove(token));
        removed.is_some()
    }
}

} // verus!
