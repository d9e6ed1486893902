//! The session table: which session a datagram belongs to, and whether its
//! worker should see it as new.

use crate::error::SerializeError;
use crate::network::PackedHeader;
use crate::server::session::ChannelMessage;
use crate::server::session::ChannelMessageView;
use crate::server::session::Session;
use crate::server::Endpoint;
use std::collections::HashMap;
use vstd::prelude::*;
use vstd::slice::slice_to_vec;

verus! {

/// The most sessions that the table holds at a time.
pub const SESSIONS_MAX_COUNT: usize = 100;

/// Why a datagram did not reach a worker.
#[derive(PartialEq, Eq, Structural, Clone, Copy, Debug)]
pub enum ProcessingError {
    /// The datagram does not start with a header.
    DeserializeFailed(SerializeError),
    /// A new session was asked for and the table is full.
    TooManySessions { current: usize, limit: usize },
    /// The header names a session that the table does not hold.
    SessionsNotFound(u16),
    /// The worker of the session no longer takes messages.
    SessionClosed(u16),
}

/// The server's sessions, by id, and the last id given out.
pub struct State {
    last_session_id: u16,
    sessions: HashMap<u16, Session>,
}

/// The session table as a value.
pub struct StateView {
    pub last_session_id: u16,
    pub sessions: Map<u16, Session>,
}

/// A datagram that belongs to a session, on its way to the worker.
#[derive(Debug)]
pub struct Dispatch {
    /// The session that the datagram belongs to.
    pub session_id: u16,
    /// The session was opened for this datagram: it has no worker yet.
    pub created: bool,
    /// The sequence is above every one the session has seen. Otherwise the
    /// datagram repeats an earlier one.
    pub fresh: bool,
    /// What to hand to the worker.
    pub message: ChannelMessage,
}

/// Where a datagram goes, as a value: the table after it, and what the
/// dispatch says.
pub struct Routing {
    pub state: StateView,
    pub session_id: u16,
    pub created: bool,
    pub fresh: bool,
}

impl StateView {
    /// The table without sessions.
    pub open spec fn empty() -> StateView {
        StateView { last_session_id: 0, sessions: Map::empty() }
    }

    /// No session has the id zero, and there are no more sessions than the
    /// table may hold.
    pub open spec fn wf(self) -> bool {
        &&& self.sessions.dom().finite()
        &&& self.sessions.len() <= SESSIONS_MAX_COUNT
        &&& !self.sessions.contains_key(0)
    }

    /// How many places after the last id given out the first id lies that
    /// no session has, counted from `steps` on.
    pub open spec fn free_steps(self, steps: int) -> int
        decreases LAST_ID - steps,
    {
        if steps >= LAST_ID || !self.sessions.contains_key(
            id_after(self.last_session_id, steps),
        ) {
            steps
        } else {
            self.free_steps(steps + 1)
        }
    }

    /// The id of the next session: the first one after the last id given
    /// out that no session has. Ids rise by one while they are free, and
    /// start again at 1 after the highest.
    pub open spec fn next_id(self) -> u16 {
        id_after(self.last_session_id, self.free_steps(1))
    }

    /// Where a datagram with `header` that comes at `now` goes.
    ///
    /// Session id zero asks for a new session: it gets the next id, unless
    /// the table is full. Any other id must be that of a session in the
    /// table. A sequence above the session's last one is recorded with the
    /// time; any other sequence changes nothing.
    pub open spec fn route(self, header: PackedHeader, now: u64) -> Result<
        Routing,
        ProcessingError,
    > {
        if header.session_id == 0 {
            if self.sessions.len() >= SESSIONS_MAX_COUNT {
                Err(
                    ProcessingError::TooManySessions {
                        current: self.sessions.len() as usize,
                        limit: SESSIONS_MAX_COUNT,
                    },
                )
            } else {
                let session_id = self.next_id();
                let opened = StateView {
                    last_session_id: session_id,
                    sessions: self.sessions.insert(
                        session_id,
                        Session { last_sequence_id: 0, last_timestamp: now },
                    ),
                };
                Ok(opened.deliver(session_id, true, header.sequence, now))
            }
        } else if !self.sessions.contains_key(header.session_id) {
            Err(ProcessingError::SessionsNotFound(header.session_id))
        } else {
            Ok(self.deliver(header.session_id, false, header.sequence, now))
        }
    }

    /// Where a datagram with `sequence` goes that belongs to the session
    /// `session_id` of this table.
    pub open spec fn deliver(self, session_id: u16, created: bool, sequence: u16, now: u64) -> Routing {
        if self.sessions[session_id].last_sequence_id < sequence {
            Routing {
                state: StateView {
                    sessions: self.sessions.insert(
                        session_id,
                        Session { last_sequence_id: sequence, last_timestamp: now },
                    ),
                    ..self
                },
                session_id,
                created,
                fresh: true,
            }
        } else {
            Routing { state: self, session_id, created, fresh: false }
        }
    }

    /// Whether the session `id` of this table leaves it in a sweep at `now`:
    /// it has been silent for longer than `threshold`, or `closed` lists it.
    pub open spec fn evicts(self, id: u16, now: u64, threshold: u64, closed: Seq<u16>) -> bool {
        self.sessions.contains_key(id) && (idle(self.sessions[id], now, threshold)
            || closed.contains(id))
    }
}

/// The highest session id. Zero is no session's id: it asks for a new one.
pub const LAST_ID: u16 = 0xFFFF;

/// The id that lies `steps` places after `last` on the circle of the ids
/// from 1 to `LAST_ID`.
pub open spec fn id_after(last: u16, steps: int) -> u16 {
    ((last + steps - 1) % (LAST_ID as int) + 1) as u16
}

/// A set that holds the `count` ids after `last` holds at least `count` ids.
proof fn lemma_occupied(ids: Set<u16>, last: u16, count: int)
    requires
        ids.finite(),
        0 <= count < LAST_ID,
        forall|steps: int| 1 <= steps <= count ==> ids.contains(#[trigger] id_after(last, steps)),
    ensures
        ids.len() >= count,
    decreases count,
{
    if count > 0 {
        let rest = ids.remove(id_after(last, count));
        assert forall|steps: int| 1 <= steps <= count - 1 implies rest.contains(
            #[trigger] id_after(last, steps),
        ) by {
            assert(ids.contains(id_after(last, steps)));
            assert(id_after(last, steps) != id_after(last, count));
        }
        lemma_occupied(rest, last, count - 1);
    }
}

/// Where the ids before the `steps`-th after the last one all have
/// sessions and the table has room, the search from there ends on an id
/// that has none.
proof fn lemma_free_steps(table: StateView, steps: int)
    requires
        table.wf(),
        table.sessions.len() < SESSIONS_MAX_COUNT,
        1 <= steps <= SESSIONS_MAX_COUNT,
        forall|i: int|
            1 <= i < steps ==> table.sessions.contains_key(
                #[trigger] id_after(table.last_session_id, i),
            ),
    ensures
        steps <= table.free_steps(steps) <= SESSIONS_MAX_COUNT,
        !table.sessions.contains_key(
            id_after(table.last_session_id, table.free_steps(steps)),
        ),
    decreases SESSIONS_MAX_COUNT - steps,
{
    if table.sessions.contains_key(id_after(table.last_session_id, steps)) {
        lemma_occupied(table.sessions.dom(), table.last_session_id, steps);
        lemma_free_steps(table, steps + 1);
    }
}

impl StateView {
    /// The next id of a table that has room is the id of no session, and is
    /// not zero.
    pub proof fn lemma_next_id_free(self)
        requires
            self.wf(),
            self.sessions.len() < SESSIONS_MAX_COUNT,
        ensures
            self.next_id() != 0,
            !self.sessions.contains_key(self.next_id()),
    {
        lemma_free_steps(self, 1);
    }
}

/// Whether a session has been silent for longer than `threshold` at `now`.
pub open spec fn idle(session: Session, now: u64, threshold: u64) -> bool {
    now - session.last_timestamp > threshold
}

impl View for State {
    type V = StateView;

    closed spec fn view(&self) -> StateView {
        StateView { last_session_id: self.last_session_id, sessions: self.sessions@ }
    }
}

impl State {
    /// The table is well formed at all times.
    #[verifier::type_invariant]
    spec fn well_formed(self) -> bool {
        self@.wf()
    }

    /// Puts `session` under `session_id`, in place of the session of that id
    /// or where the table has room.
    fn put(&mut self, session_id: u16, session: Session)
        requires
            session_id != 0,
            old(self)@.sessions.contains_key(session_id) || old(self)@.sessions.len()
                < SESSIONS_MAX_COUNT,
        ensures
            final(self)@ == (StateView {
                sessions: old(self)@.sessions.insert(session_id, session),
                ..old(self)@
            }),
    {
        broadcast use vstd::std_specs::hash::group_hash_axioms;

        proof {
            use_type_invariant(&*self);
        }
        // the map changes outside the table, which is well formed meanwhile
        let mut sessions = HashMap::new();
        core::mem::swap(&mut self.sessions, &mut sessions);
        sessions.insert(session_id, session);
        core::mem::swap(&mut self.sessions, &mut sessions);
    }

    /// Takes the session `session_id` out of the table, if it is there.
    fn forget(&mut self, session_id: u16)
        ensures
            final(self)@ == (StateView {
                sessions: old(self)@.sessions.remove(session_id),
                ..old(self)@
            }),
    {
        broadcast use vstd::std_specs::hash::group_hash_axioms;

        proof {
            use_type_invariant(&*self);
        }
        // the map changes outside the table, which is well formed meanwhile
        let mut sessions = HashMap::new();
        core::mem::swap(&mut self.sessions, &mut sessions);
        sessions.remove(&session_id);
        core::mem::swap(&mut self.sessions, &mut sessions);
    }

    /// The table without sessions.
    pub fn new() -> (state: Self)
        ensures
            state@ == StateView::empty(),
            state@.wf(),
    {
        State { last_session_id: 0, sessions: HashMap::new() }
    }

    /// How many sessions the table holds.
    pub fn len(&self) -> (n: usize)
        ensures
            n == self@.sessions.len(),
    {
        broadcast use vstd::std_specs::hash::group_hash_axioms;

        self.sessions.len()
    }

    /// What the table keeps of the session `session_id`, if it holds it.
    pub fn session(&self, session_id: u16) -> (r: Option<Session>)
        ensures
            r == (if self@.sessions.contains_key(session_id) {
                Some(self@.sessions[session_id])
            } else {
                None
            }),
    {
        broadcast use vstd::std_specs::hash::group_hash_axioms;

        match self.sessions.get(&session_id) {
            Some(session) => Some(*session),
            None => None,
        }
    }

    /// Takes one datagram from the socket: reads its header, finds or opens
    /// its session, and says what to hand to the worker.
    pub fn process_received_message(&mut self, buffer: &[u8], socket_addr: Endpoint, now: u64) -> (r:
        Result<Dispatch, ProcessingError>)
        ensures
            final(self)@.wf(),
            match PackedHeader::parse(buffer@) {
                Err(e) => r == Err::<Dispatch, ProcessingError>(
                    ProcessingError::DeserializeFailed(e),
                ) && final(self)@ == old(self)@,
                Ok(header) => dispatched(
                    old(self)@,
                    ChannelMessageView {
                        addr: socket_addr,
                        header,
                        body: buffer@.subrange(14, buffer@.len() as int),
                    },
                    now,
                    final(self)@,
                    r,
                ),
            },
    {
        proof {
            use_type_invariant(&*self);
        }
        let (header, body) = match parse_request(buffer) {
            Ok(parsed) => parsed,
            Err(e) => {
                return Err(ProcessingError::DeserializeFailed(e));
            },
        };
        self.process_message(socket_addr, header, body, now)
    }

    /// Finds or opens the session of a datagram and says what to hand to the
    /// worker.
    pub fn process_message(&mut self, addr: Endpoint, header: PackedHeader, body: Vec<u8>, now: u64) -> (r:
        Result<Dispatch, ProcessingError>)
        ensures
            final(self)@.wf(),
            dispatched(
                old(self)@,
                ChannelMessageView { addr, header, body: body@ },
                now,
                final(self)@,
                r,
            ),
    {
        broadcast use vstd::std_specs::hash::group_hash_axioms;

        proof {
            use_type_invariant(&*self);
        }
        let created = header.session_id == 0;
        let session_id = if created {
            // keep the table bounded
            if self.sessions.len() >= SESSIONS_MAX_COUNT {
                return Err(
                    ProcessingError::TooManySessions {
                        current: self.sessions.len(),
                        limit: SESSIONS_MAX_COUNT,
                    },
                );
            }
            let session_id = self.free_id();
            self.last_session_id = session_id;
            self.put(session_id, Session { last_sequence_id: 0, last_timestamp: now });
            session_id
        } else {
            header.session_id
        };
        let ghost opened = self@;

        // find the session and record the request
        let last_sequence_id = match self.sessions.get(&session_id) {
            Some(session) => session.last_sequence_id,
            None => {
                return Err(ProcessingError::SessionsNotFound(session_id));
            },
        };
        let fresh = last_sequence_id < header.sequence;
        if fresh {
            self.put(session_id, Session { last_sequence_id: header.sequence, last_timestamp: now });
        }
        proof {
            use_type_invariant(&*self);
            assert(self@ == opened.deliver(session_id, created, header.sequence, now).state);
        }
        Ok(Dispatch { session_id, created, fresh, message: ChannelMessage { addr, header, body } })
    }

    /// The id for the next session of a table that has room: the first id
    /// after the last one given out that no session has.
    fn free_id(&self) -> (session_id: u16)
        requires
            self@.sessions.len() < SESSIONS_MAX_COUNT,
        ensures
            session_id == self@.next_id(),
            session_id != 0,
            !self@.sessions.contains_key(session_id),
    {
        broadcast use vstd::std_specs::hash::group_hash_axioms;

        proof {
            use_type_invariant(self);
        }
        let mut steps: usize = 1;
        let mut candidate: u16 = if self.last_session_id == LAST_ID {
            1
        } else {
            self.last_session_id + 1
        };
        while self.sessions.contains_key(&candidate)
            invariant
                self@.wf(),
                self@.sessions.len() < SESSIONS_MAX_COUNT,
                1 <= steps <= SESSIONS_MAX_COUNT,
                candidate == id_after(self@.last_session_id, steps as int),
                self@.free_steps(1) == self@.free_steps(steps as int),
                forall|i: int|
                    1 <= i < steps ==> self@.sessions.contains_key(
                        #[trigger] id_after(self@.last_session_id, i),
                    ),
            decreases SESSIONS_MAX_COUNT - steps,
        {
            proof {
                // the ids tried so far all have a session, and the table
                // has room: there are fewer of them than it may hold
                lemma_occupied(self@.sessions.dom(), self@.last_session_id, steps as int);
            }
            steps = steps + 1;
            candidate = if candidate == LAST_ID {
                1
            } else {
                candidate + 1
            };
        }
        candidate
    }

    /// Forgets the session `session_id`, whose worker no longer takes
    /// messages, and names the error to report.
    pub fn session_closed(&mut self, session_id: u16) -> (e: ProcessingError)
        ensures
            final(self)@.wf(),
            final(self)@ == (StateView {
                sessions: old(self)@.sessions.remove(session_id),
                ..old(self)@
            }),
            e == ProcessingError::SessionClosed(session_id),
    {
        self.forget(session_id);
        proof {
            use_type_invariant(&*self);
        }
        ProcessingError::SessionClosed(session_id)
    }
}

impl State {
    /// Sweeps the table at `now`: every session that has been silent for
    /// longer than `threshold`, or whose id `closed` lists because its worker
    /// has ended, leaves the table. Returns the ids that left, in rising
    /// order.
    pub fn cleanup(&mut self, now: u64, threshold: u64, closed: &[u16]) -> (removed: Vec<u16>)
        ensures
            final(self)@.wf(),
            final(self)@.last_session_id == old(self)@.last_session_id,
            final(self)@.sessions == old(self)@.sessions.remove_keys(
                Set::new(|id: u16| old(self)@.evicts(id, now, threshold, closed@)),
            ),
            forall|id: u16|
                removed@.contains(id) <==> old(self)@.evicts(id, now, threshold, closed@),
            forall|a: int, b: int| 0 <= a < b < removed@.len() ==> removed@[a] < removed@[b],
    {
        broadcast use vstd::std_specs::hash::group_hash_axioms;

        proof {
            use_type_invariant(&*self);
        }
        let ghost pre = self@;
        let mut removed: Vec<u16> = Vec::new();
        let mut id: u16 = 0;
        while id < LAST_ID
            invariant
                pre.wf(),
                self@.last_session_id == pre.last_session_id,
                self@.sessions.dom().finite(),
                self@.sessions.len() <= pre.sessions.len(),
                forall|k: u16|
                    self@.sessions.contains_key(k) <==> pre.sessions.contains_key(k) && !(k <= id
                        && pre.evicts(k, now, threshold, closed@)),
                forall|k: u16|
                    self@.sessions.contains_key(k) ==> self@.sessions[k] == pre.sessions[k],
                forall|k: u16|
                    removed@.contains(k) <==> k <= id && pre.evicts(k, now, threshold, closed@),
                forall|a: int| 0 <= a < removed@.len() ==> removed@[a] <= id,
                forall|a: int, b: int| 0 <= a < b < removed@.len() ==> removed@[a] < removed@[b],
            decreases LAST_ID - id,
        {
            id = id + 1;
            let evict = match self.sessions.get(&id) {
                Some(session) => (now > session.last_timestamp && now - session.last_timestamp
                    > threshold) || contains(closed, id),
                None => false,
            };
            if evict {
                let ghost before = removed@;
                self.forget(id);
                removed.push(id);
                assert(removed@.last() == id);
                assert forall|k: u16| removed@.contains(k) <==> k <= id && pre.evicts(
                    k,
                    now,
                    threshold,
                    closed@,
                ) by {
                    if before.contains(k) {
                        let at = choose|at: int| 0 <= at < before.len() && before[at] == k;
                        assert(removed@[at] == k);
                    }
                    if removed@.contains(k) && k != id {
                        let at = choose|at: int| 0 <= at < removed@.len() && removed@[at] == k;
                        assert(before[at] == k);
                    }
                }
            }
        }
        proof {
            use_type_invariant(&*self);
            assert(self@.sessions =~= pre.sessions.remove_keys(
                Set::new(|id: u16| pre.evicts(id, now, threshold, closed@)),
            ));
        }
        removed
    }
}

/// Whether `list` holds `id`.
fn contains(list: &[u16], id: u16) -> (found: bool)
    ensures
        found == list@.contains(id),
{
    let mut i: usize = 0;
    while i < list.len()
        invariant
            i <= list@.len(),
            forall|j: int| 0 <= j < i ==> list@[j] != id,
        decreases list@.len() - i,
    {
        if list[i] == id {
            return true;
        }
        i += 1;
    }
    false
}

/// The table after the datagrams with `headers`, which came at `times`, one
/// after the other, starting from the table without sessions. A datagram
/// that is refused changes nothing.
pub open spec fn after_all(headers: Seq<PackedHeader>, times: Seq<u64>) -> StateView
    decreases headers.len(),
{
    if headers.len() == 0 {
        StateView::empty()
    } else {
        let before = after_all(headers.drop_last(), times.drop_last());
        match before.route(headers.last(), times.last()) {
            Ok(routing) => routing.state,
            Err(_) => before,
        }
    }
}

/// After at most `SESSIONS_MAX_COUNT` datagrams that each ask for a new
/// session, the table holds one session for each, under the ids from 1 up.
proof fn lemma_openings(headers: Seq<PackedHeader>, times: Seq<u64>)
    requires
        headers.len() <= SESSIONS_MAX_COUNT,
        headers.len() == times.len(),
        forall|i: int| 0 <= i < headers.len() ==> headers[i].session_id == 0,
    ensures
        after_all(headers, times).last_session_id == headers.len(),
        after_all(headers, times).sessions.dom().finite(),
        after_all(headers, times).sessions.len() == headers.len(),
        forall|id: u16|
            after_all(headers, times).sessions.contains_key(id) <==> 0 < id <= headers.len(),
    decreases headers.len(),
{
    if headers.len() > 0 {
        lemma_openings(headers.drop_last(), times.drop_last());
        let before = after_all(headers.drop_last(), times.drop_last());
        let session_id = (before.last_session_id + 1) as u16;
        assert(!before.sessions.contains_key(session_id));
    }
}

/// Once `SESSIONS_MAX_COUNT` datagrams have each opened a session and no
/// session has left the table, the next datagram that asks for a new session
/// is refused with `TooManySessions`.
pub proof fn lemma_session_cap(headers: Seq<PackedHeader>, times: Seq<u64>, next: PackedHeader, now: u64)
    requires
        headers.len() == SESSIONS_MAX_COUNT,
        headers.len() == times.len(),
        forall|i: int| 0 <= i < headers.len() ==> headers[i].session_id == 0,
        next.session_id == 0,
    ensures
        after_all(headers, times).route(next, now) == Err::<Routing, ProcessingError>(
            ProcessingError::TooManySessions {
                current: SESSIONS_MAX_COUNT,
                limit: SESSIONS_MAX_COUNT,
            },
        ),
{
    lemma_openings(headers, times);
}

/// Whether a table in state `pre` that is handed `message` at `now` may end
/// in state `post` with the result `r`: as `StateView::route` says, and the
/// dispatch carries the message as it came.
pub open spec fn dispatched(
    pre: StateView,
    message: ChannelMessageView,
    now: u64,
    post: StateView,
    r: Result<Dispatch, ProcessingError>,
) -> bool {
    match pre.route(message.header, now) {
        Ok(routing) => {
            &&& r is Ok
            &&& post == routing.state
            &&& r->Ok_0.session_id == routing.session_id
            &&& r->Ok_0.created == routing.created
            &&& r->Ok_0.fresh == routing.fresh
            &&& r->Ok_0.message@ == message
        },
        Err(e) => r == Err::<Dispatch, ProcessingError>(e) && post == pre,
    }
}

/// Splits a datagram into its header and the bytes after it.
pub fn parse_request(buf: &[u8]) -> (r: Result<(PackedHeader, Vec<u8>), SerializeError>)
    ensures
        match PackedHeader::parse(buf@) {
            Ok(header) => r is Ok && r->Ok_0.0 == header && r->Ok_0.1@ == buf@.subrange(
                14,
                buf@.len() as int,
            ),
            Err(e) => r == Err::<(PackedHeader, Vec<u8>), SerializeError>(e),
        },
{
    let header: PackedHeader = match PackedHeader::try_deserialize(buf) {
        Ok(header) => header,
        Err(e) => {
            return Err(e);
        },
    };
    let buffer = slice_to_vec(&buf[PackedHeader::SIZE..buf.len()]);
    Ok((header, buffer))
}

} // verus!
