use vstd::prelude::*;
use crate::identity::{Identity, IdentityView};
use crate::scoring::{credit_for_insert, decay_score};

verus! {

/// A one-time achievement of a room, credited to whoever claimed it first.
#[derive(Debug)]
pub struct FoundItem {
    pub room_id: i32,
    pub item_key: String,
    pub claimant: Identity,
    pub score: i32,
}

/// A found item with its strings seen as character sequences.
pub struct FoundItemView {
    pub room_id: i32,
    pub item_key: Seq<char>,
    pub claimant: IdentityView,
    pub score: i32,
}

impl View for FoundItem {
    type V = FoundItemView;

    open spec fn view(&self) -> FoundItemView {
        FoundItemView {
            room_id: self.room_id,
            item_key: self.item_key@,
            claimant: self.claimant@,
            score: self.score,
        }
    }
}

/// Running totals of one participant of a room; only ever incremented.
#[derive(Debug)]
pub struct PlayerScore {
    pub room_id: i32,
    pub participant: String,
    pub display_name: String,
    pub color: String,
    pub items_found: u64,
    pub total_score: u64,
}

/// Score totals with their strings seen as character sequences.
pub struct PlayerScoreView {
    pub room_id: i32,
    pub participant: Seq<char>,
    pub display_name: Seq<char>,
    pub color: Seq<char>,
    pub items_found: u64,
    pub total_score: u64,
}

impl View for PlayerScore {
    type V = PlayerScoreView;

    open spec fn view(&self) -> PlayerScoreView {
        PlayerScoreView {
            room_id: self.room_id,
            participant: self.participant@,
            display_name: self.display_name@,
            color: self.color@,
            items_found: self.items_found,
            total_score: self.total_score,
        }
    }
}

/// The result of a claim: whether it earned credit, what it earned, and who
/// holds the item afterwards (the caller when credited, else the first
/// claimant).
#[derive(Debug)]
pub struct FoundOutcome {
    pub credited: bool,
    pub score: i32,
    pub holder: Identity,
}

/// `x` capped at the largest `u64`.
pub open spec fn cap_u64(x: int) -> u64 {
    if x > u64::MAX {
        u64::MAX
    } else {
        x as u64
    }
}

/// Whether `room` already has an item under `key`.
pub open spec fn is_claimed(found: Seq<FoundItemView>, room: i32, key: Seq<char>) -> bool {
    exists|i: int| 0 <= i < found.len() && #[trigger] found[i].room_id == room && found[i].item_key == key
}

/// The found-item log after `who` claims `key` in `room` at `elapsed`
/// seconds: unchanged when the item is taken, else one record longer.
pub open spec fn after_claim(
    found: Seq<FoundItemView>,
    room: i32,
    key: Seq<char>,
    who: IdentityView,
    elapsed: i32,
) -> Seq<FoundItemView> {
    if is_claimed(found, room, key) {
        found
    } else {
        found.push(
            FoundItemView { room_id: room, item_key: key, claimant: who, score: decay_score(elapsed as int) as i32 },
        )
    }
}

/// `t` after one more item worth `s`.
pub open spec fn bumped(t: PlayerScoreView, s: int) -> PlayerScoreView {
    PlayerScoreView {
        items_found: cap_u64(t.items_found + 1),
        total_score: cap_u64(t.total_score + s),
        ..t
    }
}

/// Whether totals `t` belong to participant `who` of `room`.
pub open spec fn tally_of(t: PlayerScoreView, room: i32, who: IdentityView) -> bool {
    t.room_id == room && t.participant == who.session_token
}

/// The totals after `who` of `room` earns an item worth `s`: the
/// participant's row is incremented, or a row is opened for it.
pub open spec fn after_credit(scores: Seq<PlayerScoreView>, room: i32, who: IdentityView, s: int) -> Seq<
    PlayerScoreView,
> {
    if exists|j: int| 0 <= j < scores.len() && tally_of(#[trigger] scores[j], room, who) {
        let j = choose|j: int| 0 <= j < scores.len() && tally_of(#[trigger] scores[j], room, who);
        scores.update(j, bumped(scores[j], s))
    } else {
        scores.push(
            PlayerScoreView {
                room_id: room,
                participant: who.session_token,
                display_name: who.display_name,
                color: who.color,
                items_found: 1,
                total_score: s as u64,
            },
        )
    }
}

/// In-memory store of found items and score totals.  Items are keyed by room
/// and item key, totals by room and participant; neither key repeats.
pub struct ScoreLedger {
    found: Vec<FoundItem>,
    scores: Vec<PlayerScore>,
}

impl ScoreLedger {
    /// The found items, in order of claim.
    pub closed spec fn found_log(&self) -> Seq<FoundItemView> {
        self.found@.map_values(|f: FoundItem| f@)
    }

    /// The score totals, one row per participant of a room.
    pub closed spec fn totals(&self) -> Seq<PlayerScoreView> {
        self.scores@.map_values(|t: PlayerScore| t@)
    }

    /// No item and no participant row repeats its key.
    pub open spec fn wf(&self) -> bool {
        &&& forall|i: int, j: int|
            0 <= i < j < self.found_log().len() ==> !(self.found_log()[i].room_id == self.found_log()[j].room_id
                && self.found_log()[i].item_key == self.found_log()[j].item_key)
        &&& forall|i: int, j: int|
            0 <= i < j < self.totals().len() ==> !(self.totals()[i].room_id == self.totals()[j].room_id
                && self.totals()[i].participant == self.totals()[j].participant)
    }

    /// An empty ledger.
    pub fn new() -> (r: ScoreLedger)
        ensures
            r.wf(),
            r.found_log().len() == 0,
            r.totals().len() == 0,
    {
        ScoreLedger { found: Vec::new(), scores: Vec::new() }
    }

    /// Position of the item `key` of `room`, if claimed.
    fn find_item(&self, room_id: i32, key: &String) -> (r: Option<usize>)
        ensures
            match r {
                Some(i) => i < self.found_log().len() && self.found_log()[i as int].room_id == room_id
                    && self.found_log()[i as int].item_key == key@,
                None => !is_claimed(self.found_log(), room_id, key@),
            },
    {
        let mut i: usize = 0;
        while i < self.found.len()
            invariant
                i <= self.found@.len(),
                forall|k: int|
                    0 <= k < i ==> !(#[trigger] self.found_log()[k].room_id == room_id
                        && self.found_log()[k].item_key == key@),
            decreases self.found@.len() - i,
        {
            assert(self.found_log()[i as int] == self.found@[i as int]@);
            if self.found[i].room_id == room_id && self.found[i].item_key == *key {
                return Some(i);
            }
            i += 1;
        }
        None
    }

    /// Adds `s` to the totals of `who` in `room`.
    fn credit(&mut self, room_id: i32, who: &Identity, s: i32)
        requires
            old(self).wf(),
            10 <= s <= 100,
        ensures
            final(self).wf(),
            final(self).found_log() == old(self).found_log(),
            final(self).totals() == after_credit(old(self).totals(), room_id, who@, s as int),
    {
        let ghost before = self.totals();
        assert(before == old(self).totals());
        let mut i: usize = 0;
        while i < self.scores.len()
            invariant
                i <= self.scores@.len(),
                self.totals() == before,
                before == old(self).totals(),
                self.found_log() == old(self).found_log(),
                self.wf(),
                10 <= s <= 100,
                forall|k: int| 0 <= k < i ==> !tally_of(#[trigger] self.totals()[k], room_id, who@),
            decreases self.scores@.len() - i,
        {
            assert(self.totals()[i as int] == self.scores@[i as int]@);
            if self.scores[i].room_id == room_id && self.scores[i].participant == who.session_token {
                let items: u64 = if self.scores[i].items_found < u64::MAX {
                    self.scores[i].items_found + 1
                } else {
                    u64::MAX
                };
                let total: u64 = if self.scores[i].total_score <= u64::MAX - s as u64 {
                    self.scores[i].total_score + s as u64
                } else {
                    u64::MAX
                };
                let row = PlayerScore {
                    room_id,
                    participant: who.session_token.clone(),
                    display_name: self.scores[i].display_name.clone(),
                    color: self.scores[i].color.clone(),
                    items_found: items,
                    total_score: total,
                };
                proof {
                    assert(tally_of(before[i as int], room_id, who@));
                    let j = choose|j: int| 0 <= j < before.len() && tally_of(#[trigger] before[j], room_id, who@);
                    assert(j == i);
                }
                self.scores.set(i, row);
                assert(self.totals() =~= after_credit(before, room_id, who@, s as int));
                return;
            }
            i += 1;
        }
        self.scores.push(
            PlayerScore {
                room_id,
                participant: who.session_token.clone(),
                display_name: who.display_name.clone(),
                color: who.color.clone(),
                items_found: 1,
                total_score: s as u64,
            },
        );
        assert(self.totals() =~= after_credit(before, room_id, who@, s as int));
    }

    /// Claims item `item_key` of `room_id` for `claimant`, `elapsed` seconds
    /// into the game.  The first claim of an item wins it: the item is
    /// recorded, its time-decayed score is added to the claimant's totals and
    /// returned with `credited` set.  Any later claim changes nothing, earns
    /// 0, and reports the first claimant as the holder.
    pub fn record_found_item(&mut self, room_id: i32, item_key: &String, claimant: &Identity, elapsed: i32) -> (r:
        FoundOutcome)
        requires
            old(self).wf(),
        ensures
            final(self).wf(),
            r.credited == !is_claimed(old(self).found_log(), room_id, item_key@),
            final(self).found_log() == after_claim(old(self).found_log(), room_id, item_key@, claimant@, elapsed),
            r.credited ==> r.score == decay_score(elapsed as int) && r.holder@ == claimant@
                && final(self).totals() == after_credit(old(self).totals(), room_id, claimant@, r.score as int),
            !r.credited ==> r.score == 0 && final(self).totals() == old(self).totals() && exists|i: int|
                0 <= i < old(self).found_log().len() && #[trigger] old(self).found_log()[i].room_id == room_id
                    && old(self).found_log()[i].item_key == item_key@ && old(self).found_log()[i].claimant
                    == r.holder@,
    {
        match self.find_item(room_id, item_key) {
            Some(i) => {
                let holder = self.found[i].claimant.duplicate();
                FoundOutcome { credited: false, score: 0, holder }
            },
            None => {
                let (_, s) = credit_for_insert(true, elapsed);
                let ghost before = self.found_log();
                self.credit(room_id, claimant, s);
                self.found.push(
                    FoundItem { room_id, item_key: item_key.clone(), claimant: claimant.duplicate(), score: s },
                );
                assert(self.found_log() =~= after_claim(before, room_id, item_key@, claimant@, elapsed));
                FoundOutcome { credited: true, score: s, holder: claimant.duplicate() }
            },
        }
    }

    /// The holder of item `item_key` of `room_id`, if claimed.
    pub fn holder_of(&self, room_id: i32, item_key: &String) -> (r: Option<Identity>)
        ensures
            r is None <==> !is_claimed(self.found_log(), room_id, item_key@),
            match r {
                Some(h) => exists|i: int|
                    0 <= i < self.found_log().len() && #[trigger] self.found_log()[i].room_id == room_id
                        && self.found_log()[i].item_key == item_key@ && self.found_log()[i].claimant == h@,
                None => true,
            },
    {
        match self.find_item(room_id, item_key) {
            Some(i) => Some(self.found[i].claimant.duplicate()),
            None => None,
        }
    }

    /// Items found and total score of participant `participant` in `room_id`;
    /// zeros for one that has earned nothing.
    pub fn totals_of(&self, room_id: i32, participant: &String) -> (r: (u64, u64))
        requires
            self.wf(),
        ensures
            (forall|j: int| 0 <= j < self.totals().len() ==> !(#[trigger] self.totals()[j].room_id == room_id
                && self.totals()[j].participant == participant@)) ==> r == (0u64, 0u64),
            forall|j: int|
                0 <= j < self.totals().len() && #[trigger] self.totals()[j].room_id == room_id
                    && self.totals()[j].participant == participant@ ==> r == (
                    self.totals()[j].items_found,
                    self.totals()[j].total_score,
                ),
    {
        let mut i: usize = 0;
        while i < self.scores.len()
            invariant
                i <= self.scores@.len(),
                self.wf(),
                forall|k: int|
                    0 <= k < i ==> !(#[trigger] self.totals()[k].room_id == room_id
                        && self.totals()[k].participant == participant@),
            decreases self.scores@.len() - i,
        {
            assert(self.totals()[i as int] == self.scores@[i as int]@);
            if self.scores[i].room_id == room_id && self.scores[i].participant == *participant {
                assert(self.totals()[i as int].room_id == room_id);
                return (self.scores[i].items_found, self.scores[i].total_score);
            }
            i += 1;
        }
        (0, 0)
    }
}

/// The found-item log after the claims `claims` (claimant and elapsed
/// seconds) on item `key` of `room`, in order.
pub open spec fn after_claims(
    found: Seq<FoundItemView>,
    room: i32,
    key: Seq<char>,
    claims: Seq<(IdentityView, i32)>,
) -> Seq<FoundItemView>
    decreases claims.len(),
{
    if claims.len() == 0 {
        found
    } else {
        let prev = after_claims(found, room, key, claims.drop_last());
        after_claim(prev, room, key, claims.last().0, claims.last().1)
    }
}

/// How many of the claims `claims` on item `key` of `room` are credited.
pub open spec fn credited_claims(
    found: Seq<FoundItemView>,
    room: i32,
    key: Seq<char>,
    claims: Seq<(IdentityView, i32)>,
) -> nat
    decreases claims.len(),
{
    if claims.len() == 0 {
        0
    } else {
        credited_claims(found, room, key, claims.drop_last()) + if is_claimed(
            after_claims(found, room, key, claims.drop_last()),
            room,
            key,
        ) {
            0nat
        } else {
            1nat
        }
    }
}

/// After any claim the item is taken.
proof fn lemma_claimed_after(found: Seq<FoundItemView>, room: i32, key: Seq<char>, who: IdentityView, elapsed: i32)
    ensures
        is_claimed(after_claim(found, room, key, who, elapsed), room, key),
{
    if !is_claimed(found, room, key) {
        let next = after_claim(found, room, key, who, elapsed);
        assert(next[found.len() as int].room_id == room);
    }
}

/// However simultaneous claims of one unclaimed item by different
/// claimants are ordered by the store, exactly one is credited and all the
/// others earn nothing.
pub proof fn lemma_single_credit(
    found: Seq<FoundItemView>,
    room: i32,
    key: Seq<char>,
    claims: Seq<(IdentityView, i32)>,
)
    requires
        !is_claimed(found, room, key),
        claims.len() > 0,
    ensures
        credited_claims(found, room, key, claims) == 1,
    decreases claims.len(),
{
    let init = claims.drop_last();
    if claims.len() > 1 {
        lemma_single_credit(found, room, key, init);
        let before = after_claims(found, room, key, init.drop_last());
        lemma_claimed_after(before, room, key, init.last().0, init.last().1);
    } else {
        assert(init.len() == 0);
        assert(after_claims(found, room, key, init) == found);
        assert(credited_claims(found, room, key, init) == 0);
    }
}

} // verus!
