use vstd::prelude::*;
use std::collections::HashMap;
use crate::protocol::PlayerInfo;

verus! {

broadcast use vstd::std_specs::hash::group_hash_axioms;

/// One live connection of a room.  `conn_id` names the connection's outbound
/// channel, which the host keeps; the registry never sends anything itself.
#[derive(Debug)]
pub struct Connection {
    pub conn_id: u64,
    pub participant_id: i32,
    pub display_name: String,
    pub color: String,
    pub session_token: String,
}

/// What a connection is, with its strings seen as character sequences.
pub struct ConnectionView {
    pub conn_id: u64,
    pub participant_id: i32,
    pub display_name: Seq<char>,
    pub color: Seq<char>,
    pub session_token: Seq<char>,
}

impl View for Connection {
    type V = ConnectionView;

    open spec fn view(&self) -> ConnectionView {
        ConnectionView {
            conn_id: self.conn_id,
            participant_id: self.participant_id,
            display_name: self.display_name@,
            color: self.color@,
            session_token: self.session_token@,
        }
    }
}

impl Connection {
    /// A copy of this entry.
    pub fn duplicate(&self) -> (r: Connection)
        ensures
            r@ == self@,
    {
        Connection {
            conn_id: self.conn_id,
            participant_id: self.participant_id,
            display_name: self.display_name.clone(),
            color: self.color.clone(),
            session_token: self.session_token.clone(),
        }
    }
}

/// The connections of `room` in order of arrival; empty for an unknown room.
pub open spec fn members(m: Map<i32, Seq<ConnectionView>>, room: i32) -> Seq<ConnectionView> {
    if m.contains_key(room) {
        m[room]
    } else {
        Seq::empty()
    }
}

/// `s` without the entries that hold session token `token`.
pub open spec fn without_token(s: Seq<ConnectionView>, token: Seq<char>) -> Seq<ConnectionView> {
    s.filter(|c: ConnectionView| c.session_token != token)
}

/// `s` without the entries of connection `id`.
pub open spec fn without_conn(s: Seq<ConnectionView>, id: u64) -> Seq<ConnectionView> {
    s.filter(|c: ConnectionView| c.conn_id != id)
}

/// No two entries of `s` share a session token.
pub open spec fn tokens_unique(s: Seq<ConnectionView>) -> bool {
    forall|i: int, j: int| 0 <= i < j < s.len() ==> s[i].session_token != s[j].session_token
}

/// Every room that has an entry has at least one connection, and at most one
/// connection per session token.
pub open spec fn rooms_wf(m: Map<i32, Seq<ConnectionView>>) -> bool {
    forall|r: i32| #[trigger] m.contains_key(r) ==> m[r].len() > 0 && tokens_unique(m[r])
}

/// The rooms after `c` joins `room`: any entry with the same session token is
/// evicted, and `c` goes last.
pub open spec fn after_register(m: Map<i32, Seq<ConnectionView>>, room: i32, c: ConnectionView) -> Map<
    i32,
    Seq<ConnectionView>,
> {
    m.insert(room, without_token(members(m, room), c.session_token).push(c))
}

/// The rooms after connection `id` leaves `room`; a room left empty is dropped.
pub open spec fn after_unregister(m: Map<i32, Seq<ConnectionView>>, room: i32, id: u64) -> Map<
    i32,
    Seq<ConnectionView>,
> {
    let rest = without_conn(members(m, room), id);
    if rest.len() == 0 {
        m.remove(room)
    } else {
        m.insert(room, rest)
    }
}

/// The connections, in order, that a broadcast over `s` reaches when it
/// leaves out connection `exclude`.
pub open spec fn delivery_targets(s: Seq<ConnectionView>, exclude: Option<u64>) -> Seq<u64>
    decreases s.len(),
{
    if s.len() == 0 {
        Seq::empty()
    } else {
        let rest = delivery_targets(s.drop_last(), exclude);
        if exclude == Some(s.last().conn_id) {
            rest
        } else {
            rest.push(s.last().conn_id)
        }
    }
}

/// `infos` describes the connections `s`, one for one and in order.
pub open spec fn describes(infos: Seq<PlayerInfo>, s: Seq<ConnectionView>) -> bool {
    &&& infos.len() == s.len()
    &&& forall|i: int|
        0 <= i < s.len() ==> infos[i].player_id == s[i].participant_id && infos[i].username@
            == s[i].display_name
}

/// The live connections of every room, keyed by room id.
pub struct ConnectionRegistry {
    rooms: HashMap<i32, Vec<Connection>>,
}

/// The views of the connections `v`, in order.
pub open spec fn conn_views(v: Seq<Connection>) -> Seq<ConnectionView> {
    v.map_values(|c: Connection| c@)
}

impl View for ConnectionRegistry {
    type V = Map<i32, Seq<ConnectionView>>;

    closed spec fn view(&self) -> Map<i32, Seq<ConnectionView>> {
        self.rooms@.map_values(|v: Vec<Connection>| conn_views(v@))
    }
}

impl ConnectionRegistry {
    /// Rooms with an entry are occupied and hold each session token once.
    pub open spec fn wf(&self) -> bool {
        rooms_wf(self@)
    }

    /// A registry with no rooms.
    pub fn new() -> (r: ConnectionRegistry)
        ensures
            r.wf(),
            r@ == Map::<i32, Seq<ConnectionView>>::empty(),
    {
        let r = ConnectionRegistry { rooms: HashMap::new() };
        assert(r@ =~= Map::<i32, Seq<ConnectionView>>::empty());
        r
    }

    /// Adds `conn` to `room_id`, first evicting any connection of the room
    /// with the same session token.  Returns whether the room had no
    /// connection just before the call, and the participants already present
    /// after the eviction.
    pub fn register(&mut self, room_id: i32, conn: Connection) -> (r: (bool, Vec<PlayerInfo>))
        requires
            old(self).wf(),
        ensures
            final(self).wf(),
            final(self)@ == after_register(old(self)@, room_id, conn@),
            r.0 == (members(old(self)@, room_id).len() == 0),
            describes(r.1@, without_token(members(old(self)@, room_id), conn@.session_token)),
    {
        let ghost old_view = self@;
        let conns: Vec<Connection> = match self.rooms.remove(&room_id) {
            Some(v) => v,
            None => Vec::new(),
        };
        let ghost cv = conn_views(conns@);
        assert(cv == members(old_view, room_id));
        let was_empty = conns.len() == 0;
        let mut kept: Vec<Connection> = Vec::new();
        let mut infos: Vec<PlayerInfo> = Vec::new();
        let mut i: usize = 0;
        while i < conns.len()
            invariant
                i <= conns.len(),
                cv == conn_views(conns@),
                tokens_unique(cv),
                conn_views(kept@) == without_token(cv.subrange(0, i as int), conn@.session_token),
                describes(infos@, conn_views(kept@)),
                tokens_unique(conn_views(kept@)),
                forall|k: int, m: int|
                    0 <= k < kept.len() && i <= m < cv.len() ==> #[trigger] conn_views(
                        kept@,
                    )[k].session_token != #[trigger] cv[m].session_token,
            decreases conns.len() - i,
        {
            let ghost prev = conn_views(kept@);
            proof {
                reveal(Seq::filter);
            }
            assert(cv.subrange(0, i + 1).drop_last() =~= cv.subrange(0, i as int));
            if !(conns[i as usize].session_token == conn.session_token) {
                infos.push(
                    PlayerInfo {
                        player_id: conns[i].participant_id,
                        username: conns[i].display_name.clone(),
                    },
                );
                kept.push(conns[i].duplicate());
                assert(conn_views(kept@) =~= prev.push(cv[i as int]));
            }
            i += 1;
        }
        assert(cv.subrange(0, conns.len() as int) =~= cv);
        let ghost kept_view = conn_views(kept@);
        kept.push(conn);
        assert(conn_views(kept@) =~= kept_view.push(conn@));
        proof {
            let filtered = without_token(cv, conn@.session_token);
            assert forall|k: int| 0 <= k < filtered.len() implies filtered[k].session_token
                != conn@.session_token by {
                cv.lemma_filter_pred(|c: ConnectionView| c.session_token != conn@.session_token, k);
            }
            assert(tokens_unique(kept_view.push(conn@)));
        }
        self.rooms.insert(room_id, kept);
        assert(self@ =~= after_register(old_view, room_id, conn@));
        (was_empty, infos)
    }

    /// Removes connection `conn_id` from `room_id` and returns how many
    /// connections the room still has; a room left empty is dropped.
    pub fn unregister(&mut self, room_id: i32, conn_id: u64) -> (remaining: usize)
        requires
            old(self).wf(),
        ensures
            final(self).wf(),
            final(self)@ == after_unregister(old(self)@, room_id, conn_id),
            remaining == without_conn(members(old(self)@, room_id), conn_id).len(),
    {
        let ghost old_view = self@;
        let conns: Vec<Connection> = match self.rooms.remove(&room_id) {
            Some(v) => v,
            None => Vec::new(),
        };
        let ghost cv = conn_views(conns@);
        assert(cv == members(old_view, room_id));
        let mut kept: Vec<Connection> = Vec::new();
        let mut i: usize = 0;
        while i < conns.len()
            invariant
                i <= conns.len(),
                cv == conn_views(conns@),
                tokens_unique(cv),
                conn_views(kept@) == without_conn(cv.subrange(0, i as int), conn_id),
                tokens_unique(conn_views(kept@)),
                forall|k: int, m: int|
                    0 <= k < kept.len() && i <= m < cv.len() ==> #[trigger] conn_views(
                        kept@,
                    )[k].session_token != #[trigger] cv[m].session_token,
            decreases conns.len() - i,
        {
            let ghost prev = conn_views(kept@);
            proof {
                reveal(Seq::filter);
            }
            assert(cv.subrange(0, i + 1).drop_last() =~= cv.subrange(0, i as int));
            if conns[i].conn_id != conn_id {
                kept.push(conns[i].duplicate());
                assert(conn_views(kept@) =~= prev.push(cv[i as int]));
            }
            i += 1;
        }
        assert(cv.subrange(0, conns.len() as int) =~= cv);
        let remaining = kept.len();
        if remaining > 0 {
            self.rooms.insert(room_id, kept);
        }
        assert(self@ =~= after_unregister(old_view, room_id, conn_id));
        remaining
    }

    /// How many connections `room_id` has.
    pub fn room_size(&self, room_id: i32) -> (n: usize)
        ensures
            n == members(self@, room_id).len(),
    {
        match self.rooms.get(&room_id) {
            Some(v) => v.len(),
            None => 0,
        }
    }

    /// The connections that a broadcast to `room_id` reaches, in order of
    /// arrival, leaving out `exclude`.
    pub fn recipients(&self, room_id: i32, exclude: Option<u64>) -> (r: Vec<u64>)
        ensures
            r@ == delivery_targets(members(self@, room_id), exclude),
    {
        let mut out: Vec<u64> = Vec::new();
        match self.rooms.get(&room_id) {
            Some(conns) => {
                let ghost cv = conn_views(conns@);
                assert(cv == members(self@, room_id));
                let mut i: usize = 0;
                while i < conns.len()
                    invariant
                        i <= conns.len(),
                        cv == conn_views(conns@),
                        out@ == delivery_targets(cv.subrange(0, i as int), exclude),
                    decreases conns.len() - i,
                {
                    assert(cv.subrange(0, i + 1).drop_last() =~= cv.subrange(0, i as int));
                    let id = conns[i].conn_id;
                    let skip = match exclude {
                        Some(x) => x == id,
                        None => false,
                    };
                    if !skip {
                        out.push(id);
                    }
                    i += 1;
                }
                assert(cv.subrange(0, conns.len() as int) =~= cv);
            },
            None => {},
        }
        out
    }
}

/// The rooms after the connections `joins` register in `room`, in order.
pub open spec fn after_joins(m: Map<i32, Seq<ConnectionView>>, room: i32, joins: Seq<ConnectionView>) -> Map<
    i32,
    Seq<ConnectionView>,
>
    decreases joins.len(),
{
    if joins.len() == 0 {
        m
    } else {
        after_register(after_joins(m, room, joins.drop_last()), room, joins.last())
    }
}

/// How many of the registrations `joins` into `room` find the room empty.
pub open spec fn activations(m: Map<i32, Seq<ConnectionView>>, room: i32, joins: Seq<ConnectionView>) -> nat
    decreases joins.len(),
{
    if joins.len() == 0 {
        0
    } else {
        activations(m, room, joins.drop_last()) + if members(after_joins(m, room, joins.drop_last()), room).len()
            == 0 {
            1nat
        } else {
            0nat
        }
    }
}

/// However a burst of joins to an empty room is ordered by the registry's
/// lock, exactly one of them observes the room empty, so the timer is
/// started or resumed exactly once.
pub proof fn lemma_single_activation(m: Map<i32, Seq<ConnectionView>>, room: i32, joins: Seq<ConnectionView>)
    requires
        members(m, room).len() == 0,
        joins.len() > 0,
    ensures
        activations(m, room, joins) == 1,
    decreases joins.len(),
{
    if joins.len() > 1 {
        lemma_single_activation(m, room, joins.drop_last());
        assert(members(after_joins(m, room, joins.drop_last()), room).len() > 0);
    } else {
        assert(joins.drop_last().len() == 0);
        assert(after_joins(m, room, joins.drop_last()) == m);
        assert(activations(m, room, joins.drop_last()) == 0);
    }
}

/// Dropping the entries of one token keeps the other tokens distinct.
proof fn lemma_without_token_unique(s: Seq<ConnectionView>, t: Seq<char>)
    requires
        tokens_unique(s),
    ensures
        tokens_unique(without_token(s, t)),
        forall|i: int| 0 <= i < without_token(s, t).len() ==> #[trigger] without_token(s, t)[i].session_token != t,
    decreases s.len(),
{
    reveal(Seq::filter);
    let pred = |c: ConnectionView| c.session_token != t;
    if s.len() > 0 {
        let init = s.drop_last();
        assert(tokens_unique(init));
        lemma_without_token_unique(init, t);
        let rest = without_token(init, t);
        if pred(s.last()) {
            assert forall|i: int| 0 <= i < rest.len() implies #[trigger] rest[i].session_token
                != s.last().session_token by {
                init.lemma_filter_contains_rev(pred, rest[i]);
                let j = choose|j: int| 0 <= j < init.len() && init[j] == rest[i];
                assert(s[j] == init[j]);
            }
            assert(without_token(s, t) == rest.push(s.last()));
        }
    }
}

/// A registration evicts every earlier entry of the same session token: the
/// newcomer is the room's only entry with its token, it comes last, and the
/// registry stays well formed.
pub proof fn lemma_register_evicts(m: Map<i32, Seq<ConnectionView>>, room: i32, c: ConnectionView)
    requires
        rooms_wf(m),
    ensures
        rooms_wf(after_register(m, room, c)),
        members(after_register(m, room, c), room).last() == c,
        forall|i: int|
            0 <= i < members(after_register(m, room, c), room).len() - 1 ==> #[trigger] members(
                after_register(m, room, c),
                room,
            )[i].session_token != c.session_token,
{
    let old_members = members(m, room);
    assert(tokens_unique(old_members));
    lemma_without_token_unique(old_members, c.session_token);
    let kept = without_token(old_members, c.session_token);
    assert(members(after_register(m, room, c), room) == kept.push(c));
    assert(tokens_unique(kept.push(c)));
}

/// Number of entries of `s` that belong to connection `x`.
pub open spec fn count_conn(s: Seq<ConnectionView>, x: Option<u64>) -> nat
    decreases s.len(),
{
    if s.len() == 0 {
        0
    } else {
        count_conn(s.drop_last(), x) + if x == Some(s.last().conn_id) {
            1nat
        } else {
            0nat
        }
    }
}

/// A broadcast reaches every connection of the room but the excluded one,
/// each once per entry: with no exclusion all K entries, otherwise K less
/// the excluded connection's entries.
pub proof fn lemma_delivery_targets(s: Seq<ConnectionView>, exclude: Option<u64>)
    ensures
        delivery_targets(s, exclude).len() == s.len() - count_conn(s, exclude),
        count_conn(s, None) == 0,
        forall|id: u64|
            delivery_targets(s, exclude).contains(id) <==> (exclude != Some(id) && exists|i: int|
                0 <= i < s.len() && #[trigger] s[i].conn_id == id),
    decreases s.len(),
{
    if s.len() > 0 {
        let init = s.drop_last();
        lemma_delivery_targets(init, exclude);
        let rest = delivery_targets(init, exclude);
        assert forall|id: u64| delivery_targets(s, exclude).contains(id) <==> (exclude != Some(id) && exists|
            i: int,
        | 0 <= i < s.len() && #[trigger] s[i].conn_id == id) by {
            if delivery_targets(s, exclude).contains(id) {
                if rest.contains(id) {
                    let i = choose|i: int| 0 <= i < init.len() && #[trigger] init[i].conn_id == id;
                    assert(s[i] == init[i]);
                } else {
                    assert(s[s.len() - 1].conn_id == id);
                }
            }
            if exclude != Some(id) && exists|i: int| 0 <= i < s.len() && #[trigger] s[i].conn_id == id {
                let i = choose|i: int| 0 <= i < s.len() && #[trigger] s[i].conn_id == id;
                if i < s.len() - 1 {
                    assert(init[i].conn_id == id);
                    assert(rest.contains(id));
                    if exclude != Some(s.last().conn_id) {
                        assert(delivery_targets(s, exclude) == rest.push(s.last().conn_id));
                        assert(delivery_targets(s, exclude)[rest.len() as int] == s.last().conn_id);
                        let k = choose|k: int| 0 <= k < rest.len() && rest[k] == id;
                        assert(delivery_targets(s, exclude)[k] == id);
                    }
                } else {
                    assert(delivery_targets(s, exclude) == rest.push(s.last().conn_id));
                    assert(delivery_targets(s, exclude)[rest.len() as int] == id);
                }
            }
        }
    }
}

} // verus!
