use vstd::prelude::*;
use crate::identity::{Identity, IdentityView};
use crate::ledger::{after_claim, after_credit, is_claimed, ScoreLedger};
use crate::protocol::{CellPosition, WsMessage};
use crate::registry::{
    after_register, after_unregister, delivery_targets, describes, members, without_conn, without_token,
    Connection, ConnectionRegistry, ConnectionView,
};
use crate::scoring::decay_score;
use crate::timer::{activated, idled, RoomTimer};

verus! {

/// An event and the connections it goes to; every target receives this one
/// payload.
#[derive(Debug)]
pub struct Broadcast {
    pub targets: Vec<u64>,
    pub message: WsMessage,
}

/// Fans `message` out to the connections of `room_id` as they are at the
/// call, leaving out `exclude`.
pub fn broadcast(reg: &ConnectionRegistry, room_id: i32, message: WsMessage, exclude: Option<u64>) -> (b:
    Broadcast)
    ensures
        b.targets@ == delivery_targets(members(reg@, room_id), exclude),
        b.message == message,
{
    Broadcast { targets: reg.recipients(room_id, exclude), message }
}

/// Whether a connection's own relayed events come back to it.
#[derive(Debug, Clone, Copy, PartialEq, Eq, Structural)]
pub enum RelayPolicy {
    EchoToSender,
    ExcludeSender,
}

/// Lifecycle of a room connection.
#[derive(Debug, Clone, Copy, PartialEq, Eq, Structural)]
pub enum SessionState {
    Connecting,
    Active,
    Closed,
}

/// What happens when a connection becomes active.
#[derive(Debug)]
pub struct OpenEffects {
    /// The participants already present, for the new connection only; none
    /// when nobody else is present.
    pub snapshot: Option<WsMessage>,
    /// The arrival, for the whole room.
    pub joined: Broadcast,
    /// The room was empty before: its timer starts or resumes.
    pub activate_timer: bool,
}

/// What happens when an active connection closes.
#[derive(Debug)]
pub struct CloseEffects {
    /// The departure, for the whole room as it was before the removal.
    pub left: Broadcast,
    /// This removal took the room from occupied to empty: its timer pauses.
    /// A connection already evicted from a room that has since emptied
    /// does not pause it a second time.
    pub idle_timer: bool,
}

/// Server-side handler of one room connection.
#[derive(Debug)]
pub struct RoomSession {
    pub room_id: i32,
    pub conn_id: u64,
    pub identity: Identity,
    pub policy: RelayPolicy,
    pub state: SessionState,
}

/// Whether going from `before` to `after` took `room` from at least one
/// connection to none.
pub open spec fn emptied(before: Map<i32, Seq<ConnectionView>>, after: Map<i32, Seq<ConnectionView>>, room: i32) -> bool {
    members(before, room).len() > 0 && members(after, room).len() == 0
}

/// Events that only the server emits; a client sending one is ignored.
pub open spec fn server_only(msg: WsMessage) -> bool {
    msg is PlayerJoined || msg is PlayerLeft || msg is PlayersList
}

/// `out` is `msg` as relayed from `sender`: identity fields carry the
/// sender's server-known identity, everything else is unchanged.
pub open spec fn restamped(msg: WsMessage, sender: IdentityView, out: WsMessage) -> bool {
    match msg {
        WsMessage::QuizAnswer { question_index, answer, .. } => match out {
            WsMessage::QuizAnswer { question_index: q, answer: a, player_id: p, player_name: n } => q
                == question_index && a@ == answer@ && p == sender.player_id && n@ == sender.display_name,
            _ => false,
        },
        WsMessage::QuizTimerSync { elapsed_time, .. } => out == WsMessage::QuizTimerSync {
            elapsed_time,
            player_id: sender.player_id,
        },
        WsMessage::QuizCurrentQuestion { question_index, .. } => out == WsMessage::QuizCurrentQuestion {
            question_index,
            player_id: sender.player_id,
        },
        WsMessage::QuizFinished { .. } => out == WsMessage::QuizFinished { player_id: sender.player_id },
        WsMessage::RoomReset { .. } => match out {
            WsMessage::RoomReset { reset_by } => reset_by@ == sender.display_name,
            _ => false,
        },
        WsMessage::OpenQuestionResponse { question_id, response_text, room_name, created_at, .. } => match out {
            WsMessage::OpenQuestionResponse {
                question_id: q,
                response_text: t,
                player_name: Some(n),
                room_name: r,
                created_at: c,
            } => q == question_id && t == response_text && n@ == sender.display_name && r == room_name && c
                == created_at,
            _ => false,
        },
        _ => out == msg,
    }
}

/// `out` announces that `holder` found `word` over `cells`, `elapsed`
/// seconds into the game.
pub open spec fn announces_find(
    out: WsMessage,
    word: Seq<char>,
    cells: Seq<CellPosition>,
    holder: IdentityView,
    elapsed: i32,
) -> bool {
    match out {
        WsMessage::WordFound { word: w, cells: c, player_id, player_color, player_name, found_at } => {
            &&& w@ == word
            &&& c@ == cells
            &&& player_id == Some(holder.player_id)
            &&& player_color is Some && player_color->0@ == holder.color
            &&& player_name is Some && player_name->0@ == holder.display_name
            &&& found_at == Some(elapsed)
        },
        _ => false,
    }
}

/// The upper-case form of a text.
pub uninterp spec fn upper_of(s: Seq<char>) -> Seq<char>;

/// Relies on str::to_uppercase: the result depends on the characters alone,
/// and an empty text stays empty.
#[verifier::external_body]
fn uppercase(s: &String) -> (r: String)
    ensures
        r@ == upper_of(s@),
        s@.len() == 0 ==> r@.len() == 0,
{
    s.to_uppercase()
}

/// Effects of handling a find of `word` over `cells`, keyed `key`, by
/// `session` at `elapsed` seconds: the ledger goes from `old` to `new` by
/// one claim of the session's participant, and `b` announces the item's
/// holder to the room under the session's relay policy.
pub open spec fn settles_find(
    session: RoomSession,
    rooms: Map<i32, Seq<ConnectionView>>,
    old: ScoreLedger,
    new: ScoreLedger,
    word: Seq<char>,
    cells: Seq<CellPosition>,
    key: Seq<char>,
    elapsed: i32,
    b: Broadcast,
) -> bool {
    let room = session.room_id;
    let who = session.identity@;
    &&& new.wf()
    &&& new.found_log() == after_claim(old.found_log(), room, key, who, elapsed)
    &&& is_claimed(old.found_log(), room, key) ==> new.totals() == old.totals() && exists|i: int|
        0 <= i < old.found_log().len() && #[trigger] old.found_log()[i].room_id == room
            && old.found_log()[i].item_key == key && announces_find(
            b.message,
            word,
            cells,
            old.found_log()[i].claimant,
            elapsed,
        )
    &&& !is_claimed(old.found_log(), room, key) ==> new.totals() == after_credit(
        old.totals(),
        room,
        who,
        decay_score(elapsed as int),
    ) && announces_find(b.message, word, cells, who, elapsed)
    &&& b.targets@ == delivery_targets(members(rooms, room), session.exclusion())
}

/// The item key of a found word: its upper-case form.
pub fn found_item_key(word: &String) -> (r: String)
    ensures
        r@ == upper_of(word@),
{
    uppercase(word)
}

impl RoomSession {
    /// A handler for connection `conn_id` of `identity` to `room_id`, not yet
    /// registered.
    pub fn new(room_id: i32, conn_id: u64, identity: Identity, policy: RelayPolicy) -> (s: RoomSession)
        ensures
            s.room_id == room_id,
            s.conn_id == conn_id,
            s.identity == identity,
            s.policy == policy,
            s.state == SessionState::Connecting,
    {
        RoomSession { room_id, conn_id, identity, policy, state: SessionState::Connecting }
    }

    /// The registry entry of this connection.
    pub open spec fn entry(&self) -> ConnectionView {
        ConnectionView {
            conn_id: self.conn_id,
            participant_id: self.identity.player_id,
            display_name: self.identity.display_name@,
            color: self.identity.color@,
            session_token: self.identity.session_token@,
        }
    }

    /// The connection that relays from this one leave out.
    pub open spec fn exclusion(&self) -> Option<u64> {
        match self.policy {
            RelayPolicy::EchoToSender => None,
            RelayPolicy::ExcludeSender => Some(self.conn_id),
        }
    }

    fn exclude(&self) -> (r: Option<u64>)
        ensures
            r == self.exclusion(),
    {
        match self.policy {
            RelayPolicy::EchoToSender => None,
            RelayPolicy::ExcludeSender => Some(self.conn_id),
        }
    }

    /// Enters the room: registers this connection (evicting an earlier one
    /// with the same session token), reports whether the room was empty,
    /// and prepares the snapshot for this connection and the arrival notice
    /// for the room.
    pub fn open(&mut self, reg: &mut ConnectionRegistry) -> (e: OpenEffects)
        requires
            old(self).state == SessionState::Connecting,
            old(reg).wf(),
        ensures
            final(reg).wf(),
            final(self).state == SessionState::Active,
            final(self).room_id == old(self).room_id,
            final(self).conn_id == old(self).conn_id,
            final(self).identity == old(self).identity,
            final(self).policy == old(self).policy,
            final(reg)@ == after_register(old(reg)@, old(self).room_id, old(self).entry()),
            e.activate_timer == (members(old(reg)@, old(self).room_id).len() == 0),
            ({
                let present = without_token(members(old(reg)@, old(self).room_id), old(self).entry().session_token);
                match e.snapshot {
                    None => present.len() == 0,
                    Some(WsMessage::PlayersList { players }) => present.len() > 0 && describes(players@, present),
                    Some(_) => false,
                }
            }),
            e.joined.targets@ == delivery_targets(members(final(reg)@, old(self).room_id), None),
            e.joined.message matches WsMessage::PlayerJoined { username, player_id }
                && username@ == old(self).identity.display_name@ && player_id == old(self).identity.player_id,
    {
        let conn = Connection {
            conn_id: self.conn_id,
            participant_id: self.identity.player_id,
            display_name: self.identity.display_name.clone(),
            color: self.identity.color.clone(),
            session_token: self.identity.session_token.clone(),
        };
        let (was_empty, existing) = reg.register(self.room_id, conn);
        let snapshot = if existing.len() > 0 {
            Some(WsMessage::PlayersList { players: existing })
        } else {
            None
        };
        let joined = broadcast(
            reg,
            self.room_id,
            WsMessage::PlayerJoined {
                username: self.identity.display_name.clone(),
                player_id: self.identity.player_id,
            },
            None,
        );
        self.state = SessionState::Active;
        OpenEffects { snapshot, joined, activate_timer: was_empty }
    }

    /// Leaves the room, once: an active connection announces its departure to
    /// the room as it stands, is removed, and reports whether this removal
    /// emptied the room.  Closing a connection that never became active, or closing a
    /// second time, has no effect.
    pub fn close(&mut self, reg: &mut ConnectionRegistry) -> (e: Option<CloseEffects>)
        requires
            old(reg).wf(),
        ensures
            final(reg).wf(),
            final(self).state == SessionState::Closed,
            final(self).room_id == old(self).room_id,
            final(self).conn_id == old(self).conn_id,
            final(self).identity == old(self).identity,
            final(self).policy == old(self).policy,
            e is Some <==> old(self).state == SessionState::Active,
            old(self).state != SessionState::Active ==> final(reg)@ == old(reg)@,
            match e {
                Some(fx) => {
                    &&& final(reg)@ == after_unregister(old(reg)@, old(self).room_id, old(self).conn_id)
                    &&& fx.idle_timer == emptied(old(reg)@, final(reg)@, old(self).room_id)
                    &&& fx.left.targets@ == delivery_targets(members(old(reg)@, old(self).room_id), None)
                    &&& fx.left.message matches WsMessage::PlayerLeft { username, player_id }
                        && username@ == old(self).identity.display_name@ && player_id == old(self).identity.player_id
                },
                None => true,
            },
    {
        if self.state != SessionState::Active {
            self.state = SessionState::Closed;
            return None;
        }
        let left = broadcast(
            reg,
            self.room_id,
            WsMessage::PlayerLeft {
                username: self.identity.display_name.clone(),
                player_id: self.identity.player_id,
            },
            None,
        );
        let before = reg.room_size(self.room_id);
        let remaining = reg.unregister(self.room_id, self.conn_id);
        self.state = SessionState::Closed;
        Some(CloseEffects { left, idle_timer: before > 0 && remaining == 0 })
    }

    /// Re-stamps a relayable event with this connection's identity; `None`
    /// for events that only the server emits and for finds, which go through
    /// scoring.
    fn stamp(&self, msg: WsMessage) -> (r: Option<WsMessage>)
        ensures
            (server_only(msg) || msg is WordFound) <==> r is None,
            r is Some ==> restamped(msg, self.identity@, r->0),
    {
        let who = &self.identity;
        match msg {
            WsMessage::QuizAnswer { question_index, answer, .. } => Some(
                WsMessage::QuizAnswer {
                    question_index,
                    answer,
                    player_id: who.player_id,
                    player_name: who.display_name.clone(),
                },
            ),
            WsMessage::QuizTimerSync { elapsed_time, .. } => Some(
                WsMessage::QuizTimerSync { elapsed_time, player_id: who.player_id },
            ),
            WsMessage::QuizCurrentQuestion { question_index, .. } => Some(
                WsMessage::QuizCurrentQuestion { question_index, player_id: who.player_id },
            ),
            WsMessage::QuizFinished { .. } => Some(WsMessage::QuizFinished { player_id: who.player_id }),
            WsMessage::RoomReset { .. } => Some(WsMessage::RoomReset { reset_by: who.display_name.clone() }),
            WsMessage::OpenQuestionResponse { question_id, response_text, room_name, created_at, .. } => Some(
                WsMessage::OpenQuestionResponse {
                    question_id,
                    response_text,
                    player_name: Some(who.display_name.clone()),
                    room_name,
                    created_at,
                },
            ),
            WsMessage::WordFound { .. } => None,
            WsMessage::PlayerJoined { .. } => None,
            WsMessage::PlayerLeft { .. } => None,
            WsMessage::PlayersList { .. } => None,
            other => Some(other),
        }
    }

    /// Handles a find of `word` over `cells` whose item key is `item_key`:
    /// claims the item for this connection `elapsed` seconds into the game
    /// and announces it to the room with the holder of the item, who is this
    /// connection's participant only if the claim was the first.
    pub fn on_item_found(
        &self,
        reg: &ConnectionRegistry,
        ledger: &mut ScoreLedger,
        word: String,
        cells: Vec<CellPosition>,
        item_key: &String,
        elapsed: i32,
    ) -> (b: Broadcast)
        requires
            old(ledger).wf(),
        ensures
            settles_find(*self, reg@, *old(ledger), *final(ledger), word@, cells@, item_key@, elapsed, b),
    {
        let outcome = ledger.record_found_item(self.room_id, item_key, &self.identity, elapsed);
        let holder = outcome.holder;
        let message = WsMessage::WordFound {
            word,
            cells,
            player_id: Some(holder.player_id),
            player_color: Some(holder.color),
            player_name: Some(holder.display_name),
            found_at: Some(elapsed),
        };
        broadcast(reg, self.room_id, message, self.exclude())
    }

    /// Handles an inbound event.  Events only the server emits are dropped.
    /// A find is keyed by its upper-cased word and goes through scoring
    /// (see `on_item_found`); any other event is re-stamped with this
    /// connection's identity and relayed to the room under the relay policy.
    /// Quiz control events (advance, timer sync, votes) are relayed from any
    /// participant: no presenter role is checked.
    pub fn on_event(
        &self,
        reg: &ConnectionRegistry,
        ledger: &mut ScoreLedger,
        msg: WsMessage,
        elapsed: i32,
    ) -> (r: Option<Broadcast>)
        requires
            old(ledger).wf(),
        ensures
            final(ledger).wf(),
            server_only(msg) <==> r is None,
            !(msg is WordFound) ==> *final(ledger) == *old(ledger),
            r is Some ==> r->0.targets@ == delivery_targets(members(reg@, self.room_id), self.exclusion()),
            r is Some && !(msg is WordFound) ==> restamped(msg, self.identity@, r->0.message),
            match msg {
                WsMessage::WordFound { word, cells, .. } => settles_find(
                    *self,
                    reg@,
                    *old(ledger),
                    *final(ledger),
                    word@,
                    cells@,
                    upper_of(word@),
                    elapsed,
                    r->0,
                ),
                _ => true,
            },
    {
        match msg {
            WsMessage::WordFound { word, cells, .. } => {
                let key = found_item_key(&word);
                Some(self.on_item_found(reg, ledger, word, cells, &key, elapsed))
            },
            other => match self.stamp(other) {
                Some(m) => Some(broadcast(reg, self.room_id, m, self.exclude())),
                None => None,
            },
        }
    }
}

/// A change of a room's presence: a connection joins, or one leaves.
pub enum PresenceEvent {
    Join(ConnectionView),
    Leave(u64),
}

/// The registry and timer after `e` at `now`, the timer moved only by the
/// transition flags that `open` and `close` report.
pub open spec fn presence_step(
    m: Map<i32, Seq<ConnectionView>>,
    t: RoomTimer,
    room: i32,
    e: PresenceEvent,
    now: i64,
) -> (Map<i32, Seq<ConnectionView>>, RoomTimer) {
    match e {
        PresenceEvent::Join(c) => {
            let m2 = after_register(m, room, c);
            (m2, if members(m, room).len() == 0 {
                activated(t, now)
            } else {
                t
            })
        },
        PresenceEvent::Leave(id) => {
            let m2 = after_unregister(m, room, id);
            (m2, if emptied(m, m2, room) {
                idled(t, now)
            } else {
                t
            })
        },
    }
}

/// A never-started timer belongs to a room nobody has entered; once started,
/// the timer is paused exactly when the room has no connection.
pub open spec fn presence_consistent(m: Map<i32, Seq<ConnectionView>>, t: RoomTimer, room: i32) -> bool {
    if t.started_at is None {
        members(m, room).len() == 0 && t.paused_at is None
    } else {
        t.paused_at is Some <==> members(m, room).len() == 0
    }
}

/// Driving the timer by the registry's transition flags keeps it paused
/// exactly while the room is empty.
pub proof fn lemma_presence_step(
    m: Map<i32, Seq<ConnectionView>>,
    t: RoomTimer,
    room: i32,
    e: PresenceEvent,
    now: i64,
)
    requires
        presence_consistent(m, t, room),
    ensures
        presence_consistent(presence_step(m, t, room, e, now).0, presence_step(m, t, room, e, now).1, room),
{
    reveal(Seq::filter);
    match e {
        PresenceEvent::Join(c) => {
            assert(members(after_register(m, room, c), room).len() > 0);
        },
        PresenceEvent::Leave(id) => {
            let rest = without_conn(members(m, room), id);
            let m2 = after_unregister(m, room, id);
            if rest.len() == 0 {
                assert(members(m2, room).len() == 0);
            } else {
                assert(members(m2, room) == rest);
            }
            if members(m, room).len() == 0 {
                assert(rest.len() == 0);
            }
        },
    }
}

} // verus!
