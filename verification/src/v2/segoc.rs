// SEGOC: Simultaneous Effects Go On Chain.
//
// When several trigger effects meet their activation condition from the
// same game event, they are collected and ordered into one chain:
//   1. turn player's mandatory triggers,
//   2. turn player's optional triggers,
//   3. non-turn player's mandatory triggers,
//   4. non-turn player's optional triggers,
// keeping the order in which they were pushed inside each group.

use vstd::prelude::*;
use super::compiler::CompiledEffectV2;
use super::constants as tm;

verus! {

/// A single trigger effect waiting to enter a SEGOC chain.
#[derive(Debug)]
pub struct PendingTrigger {
    /// The card that owns this effect (engine card id).
    pub card_id: u32,
    /// The player index (0 or 1) controlling the card.
    pub controller: u8,
    /// Mandatory (TRIGGER_F) or optional (TRIGGER_O).
    pub is_mandatory: bool,
    /// Display label for the effect.
    pub label: String,
    /// The event code this trigger responds to.
    pub event_code: u32,
}

impl Clone for PendingTrigger {
    fn clone(&self) -> (r: Self)
        ensures
            r == *self,
    {
        PendingTrigger {
            card_id: self.card_id,
            controller: self.controller,
            is_mandatory: self.is_mandatory,
            label: self.label.clone(),
            event_code: self.event_code,
        }
    }
}

impl PendingTrigger {
    /// Convenience constructor.
    pub fn new(card_id: u32, controller: u8, is_mandatory: bool, label: &str, event_code: u32) -> (r: Self)
        ensures
            r.card_id == card_id,
            r.controller == controller,
            r.is_mandatory == is_mandatory,
            r.label@ == label@,
            r.event_code == event_code,
    {
        PendingTrigger { card_id, controller, is_mandatory, label: label.to_owned(), event_code }
    }
}

/// The SEGOC group of a trigger, relative to the turn player:
/// 0 = turn player mandatory, 1 = turn player optional,
/// 2 = non-turn player mandatory, 3 = non-turn player optional.
pub open spec fn segoc_group(turn_player: u8, t: PendingTrigger) -> int {
    if t.controller == turn_player {
        if t.is_mandatory { 0 } else { 1 }
    } else {
        if t.is_mandatory { 2 } else { 3 }
    }
}

/// The triggers of `s` that fall in group `g`, in their original order.
pub open spec fn group_members(s: Seq<PendingTrigger>, turn_player: u8, g: int) -> Seq<PendingTrigger>
    decreases s.len(),
{
    if s.len() == 0 {
        Seq::empty()
    } else {
        let rest = group_members(s.drop_last(), turn_player, g);
        if segoc_group(turn_player, s.last()) == g {
            rest.push(s.last())
        } else {
            rest
        }
    }
}

/// The SEGOC chain built from `s`: the four groups one after the other.
pub open spec fn segoc_chain(s: Seq<PendingTrigger>, turn_player: u8) -> Seq<PendingTrigger> {
    group_members(s, turn_player, 0) + group_members(s, turn_player, 1) + group_members(
        s,
        turn_player,
        2,
    ) + group_members(s, turn_player, 3)
}

/// Collects pending triggers of one game event and orders them into a
/// chain according to SEGOC rules.
pub struct SegocQueue {
    turn_player: u8,
    pending: Vec<PendingTrigger>,
}

impl SegocQueue {
    /// The player whose turn it is.
    pub closed spec fn turn_player_spec(&self) -> u8 {
        self.turn_player
    }

    /// The triggers pushed so far, in push order.
    pub closed spec fn pending_spec(&self) -> Seq<PendingTrigger> {
        self.pending@
    }

    /// Create an empty queue for the given turn player.
    pub fn new(turn_player: u8) -> (q: Self)
        ensures
            q.turn_player_spec() == turn_player,
            q.pending_spec() == Seq::<PendingTrigger>::empty(),
    {
        SegocQueue { turn_player, pending: Vec::new() }
    }

    /// Add a trigger at the end of the queue.
    pub fn push(&mut self, trigger: PendingTrigger)
        ensures
            final(self).turn_player_spec() == old(self).turn_player_spec(),
            final(self).pending_spec() == old(self).pending_spec().push(trigger),
    {
        self.pending.push(trigger);
    }

    /// `true` when nothing has been pushed.
    pub fn is_empty(&self) -> (r: bool)
        ensures
            r == (self.pending_spec().len() == 0),
    {
        self.pending.len() == 0
    }

    /// The number of pending triggers.
    pub fn len(&self) -> (r: usize)
        ensures
            r == self.pending_spec().len(),
    {
        self.pending.len()
    }

    /// Build the SEGOC chain: turn-player mandatory, turn-player optional,
    /// non-turn-player mandatory, non-turn-player optional, each group in
    /// push order. Consumes the queue.
    pub fn build_chain(self) -> (chain: Vec<PendingTrigger>)
        ensures
            chain@ == segoc_chain(self.pending_spec(), self.turn_player_spec()),
    {
        let tp = self.turn_player;
        let pending = self.pending;
        let mut tp_mandatory: Vec<PendingTrigger> = Vec::new();
        let mut tp_optional: Vec<PendingTrigger> = Vec::new();
        let mut ntp_mandatory: Vec<PendingTrigger> = Vec::new();
        let mut ntp_optional: Vec<PendingTrigger> = Vec::new();
        let mut i: usize = 0;
        while i < pending.len()
            invariant
                i <= pending.len(),
                tp_mandatory@ == group_members(pending@.take(i as int), tp, 0),
                tp_optional@ == group_members(pending@.take(i as int), tp, 1),
                ntp_mandatory@ == group_members(pending@.take(i as int), tp, 2),
                ntp_optional@ == group_members(pending@.take(i as int), tp, 3),
            decreases pending.len() - i,
        {
            let t = pending[i].clone();
            proof {
                assert(pending@.take(i + 1).drop_last() =~= pending@.take(i as int));
                assert(pending@.take(i + 1).last() == pending@[i as int]);
            }
            if t.controller == tp {
                if t.is_mandatory {
                    tp_mandatory.push(t);
                } else {
                    tp_optional.push(t);
                }
            } else {
                if t.is_mandatory {
                    ntp_mandatory.push(t);
                } else {
                    ntp_optional.push(t);
                }
            }
            i += 1;
        }
        proof {
            assert(pending@.take(pending@.len() as int) =~= pending@);
        }
        let mut chain: Vec<PendingTrigger> = Vec::new();
        chain.append(&mut tp_mandatory);
        chain.append(&mut tp_optional);
        chain.append(&mut ntp_mandatory);
        chain.append(&mut ntp_optional);
        proof {
            assert(chain@ =~= segoc_chain(pending@, tp));
        }
        chain
    }

    /// Like `build_chain`, but leaves the queue as it is.
    pub fn peek_chain(&self) -> (chain: Vec<PendingTrigger>)
        ensures
            chain@ == segoc_chain(self.pending_spec(), self.turn_player_spec()),
    {
        let mut copy: Vec<PendingTrigger> = Vec::new();
        let mut i: usize = 0;
        while i < self.pending.len()
            invariant
                i <= self.pending.len(),
                copy@ == self.pending@.take(i as int),
            decreases self.pending.len() - i,
        {
            copy.push(self.pending[i].clone());
            i += 1;
            proof {
                assert(copy@ =~= self.pending@.take(i as int));
            }
        }
        proof {
            assert(copy@ =~= self.pending@);
        }
        let q = SegocQueue { turn_player: self.turn_player, pending: copy };
        q.build_chain()
    }
}

// ── Laws of the chain order ──────────────────────────────────

proof fn lemma_group_members_all_in_group(s: Seq<PendingTrigger>, tp: u8, g: int)
    ensures
        forall|k: int|
            0 <= k < group_members(s, tp, g).len() ==> segoc_group(tp, #[trigger] group_members(s, tp, g)[k]) == g,
    decreases s.len(),
{
    if s.len() > 0 {
        lemma_group_members_all_in_group(s.drop_last(), tp, g);
        let rest = group_members(s.drop_last(), tp, g);
        if segoc_group(tp, s.last()) == g {
            assert forall|k: int| 0 <= k < rest.len() + 1 implies segoc_group(
                tp,
                #[trigger] rest.push(s.last())[k],
            ) == g by {
                if k < rest.len() {
                    assert(rest.push(s.last())[k] == rest[k]);
                }
            }
        }
    }
}

proof fn lemma_group_members_outside(s: Seq<PendingTrigger>, tp: u8, g: int)
    requires
        !(0 <= g < 4),
    ensures
        group_members(s, tp, g) == Seq::<PendingTrigger>::empty(),
    decreases s.len(),
{
    if s.len() > 0 {
        lemma_group_members_outside(s.drop_last(), tp, g);
    }
}

proof fn lemma_group_members_concat(a: Seq<PendingTrigger>, b: Seq<PendingTrigger>, tp: u8, g: int)
    ensures
        group_members(a + b, tp, g) == group_members(a, tp, g) + group_members(b, tp, g),
    decreases b.len(),
{
    if b.len() == 0 {
        assert(a + b =~= a);
        assert(group_members(a, tp, g) + group_members(b, tp, g) =~= group_members(a, tp, g));
    } else {
        lemma_group_members_concat(a, b.drop_last(), tp, g);
        assert((a + b).drop_last() =~= a + b.drop_last());
        assert((a + b).last() == b.last());
        if segoc_group(tp, b.last()) == g {
            assert(group_members(a, tp, g) + group_members(b.drop_last(), tp, g).push(b.last())
                =~= (group_members(a, tp, g) + group_members(b.drop_last(), tp, g)).push(b.last()));
        }
    }
}

proof fn lemma_group_members_of_group(s: Seq<PendingTrigger>, tp: u8, g: int, h: int)
    ensures
        group_members(group_members(s, tp, h), tp, g) == (if g == h {
            group_members(s, tp, h)
        } else {
            Seq::<PendingTrigger>::empty()
        }),
    decreases s.len(),
{
    if s.len() > 0 {
        lemma_group_members_of_group(s.drop_last(), tp, g, h);
        let rest = group_members(s.drop_last(), tp, h);
        if segoc_group(tp, s.last()) == h {
            assert(rest.push(s.last()).drop_last() =~= rest);
        }
    }
}

proof fn lemma_groups_partition(s: Seq<PendingTrigger>, tp: u8)
    ensures
        segoc_chain(s, tp).to_multiset() == s.to_multiset(),
        segoc_chain(s, tp).len() == s.len(),
    decreases s.len(),
{
    broadcast use vstd::seq_lib::group_to_multiset_ensures;
    if s.len() == 0 {
        assert(segoc_chain(s, tp) =~= Seq::<PendingTrigger>::empty());
    } else {
        let d = s.drop_last();
        let x = s.last();
        lemma_groups_partition(d, tp);
        let g0 = group_members(d, tp, 0);
        let g1 = group_members(d, tp, 1);
        let g2 = group_members(d, tp, 2);
        let g3 = group_members(d, tp, 3);
        vstd::seq_lib::lemma_multiset_commutative(g0, g1);
        vstd::seq_lib::lemma_multiset_commutative(g0 + g1, g2);
        vstd::seq_lib::lemma_multiset_commutative(g0 + g1 + g2, g3);
        assert(d.push(x) =~= s);
        let n0 = group_members(s, tp, 0);
        let n1 = group_members(s, tp, 1);
        let n2 = group_members(s, tp, 2);
        let n3 = group_members(s, tp, 3);
        vstd::seq_lib::lemma_multiset_commutative(n0, n1);
        vstd::seq_lib::lemma_multiset_commutative(n0 + n1, n2);
        vstd::seq_lib::lemma_multiset_commutative(n0 + n1 + n2, n3);
        assert(segoc_chain(s, tp).to_multiset() =~= s.to_multiset());
    }
}

/// The chain holds exactly the pushed triggers: it is a permutation of
/// the queue, with the same length.
pub proof fn law_chain_is_permutation(q: SegocQueue)
    ensures
        segoc_chain(q.pending_spec(), q.turn_player_spec()).to_multiset()
            == q.pending_spec().to_multiset(),
        segoc_chain(q.pending_spec(), q.turn_player_spec()).len() == q.pending_spec().len(),
{
    lemma_groups_partition(q.pending_spec(), q.turn_player_spec());
}

/// Groups come in SEGOC order: turn-player mandatory triggers before
/// turn-player optional ones, before non-turn-player mandatory ones,
/// before non-turn-player optional ones.
pub proof fn law_chain_groups_in_order(q: SegocQueue, i: int, j: int)
    requires
        0 <= i < j < segoc_chain(q.pending_spec(), q.turn_player_spec()).len(),
    ensures
        segoc_group(q.turn_player_spec(), segoc_chain(q.pending_spec(), q.turn_player_spec())[i])
            <= segoc_group(q.turn_player_spec(), segoc_chain(q.pending_spec(), q.turn_player_spec())[j]),
{
    let s = q.pending_spec();
    let tp = q.turn_player_spec();
    let g0 = group_members(s, tp, 0);
    let g1 = group_members(s, tp, 1);
    let g2 = group_members(s, tp, 2);
    let g3 = group_members(s, tp, 3);
    lemma_group_members_all_in_group(s, tp, 0);
    lemma_group_members_all_in_group(s, tp, 1);
    lemma_group_members_all_in_group(s, tp, 2);
    lemma_group_members_all_in_group(s, tp, 3);
    let c = segoc_chain(s, tp);
    assert forall|k: int| 0 <= k < c.len() implies segoc_group(tp, #[trigger] c[k]) == (if k < g0.len() {
        0int
    } else if k < g0.len() + g1.len() {
        1int
    } else if k < g0.len() + g1.len() + g2.len() {
        2int
    } else {
        3int
    }) by {
        if k < g0.len() {
            assert(c[k] == g0[k]);
        } else if k < g0.len() + g1.len() {
            assert(c[k] == g1[k - g0.len()]);
        } else if k < g0.len() + g1.len() + g2.len() {
            assert(c[k] == g2[k - g0.len() - g1.len()]);
        } else {
            assert(c[k] == g3[k - g0.len() - g1.len() - g2.len()]);
        }
    }
    assert(segoc_group(tp, c[i]) <= segoc_group(tp, c[j]));
}

/// Within each group the chain keeps the push order: the members of a
/// group, read off the chain, are the members of that group read off the
/// queue.
pub proof fn law_chain_stable_within_group(q: SegocQueue, g: int)
    ensures
        group_members(segoc_chain(q.pending_spec(), q.turn_player_spec()), q.turn_player_spec(), g)
            == group_members(q.pending_spec(), q.turn_player_spec(), g),
{
    let s = q.pending_spec();
    let tp = q.turn_player_spec();
    let g0 = group_members(s, tp, 0);
    let g1 = group_members(s, tp, 1);
    let g2 = group_members(s, tp, 2);
    let g3 = group_members(s, tp, 3);
    lemma_group_members_concat(g0, g1, tp, g);
    lemma_group_members_concat(g0 + g1, g2, tp, g);
    lemma_group_members_concat(g0 + g1 + g2, g3, tp, g);
    lemma_group_members_of_group(s, tp, g, 0);
    lemma_group_members_of_group(s, tp, g, 1);
    lemma_group_members_of_group(s, tp, g, 2);
    lemma_group_members_of_group(s, tp, g, 3);
    let e = Seq::<PendingTrigger>::empty();
    if g == 0 {
        assert(g0 + e + e + e =~= g0);
    } else if g == 1 {
        assert(e + g1 + e + e =~= g1);
    } else if g == 2 {
        assert(e + e + g2 + e =~= g2);
    } else if g == 3 {
        assert(e + e + e + g3 =~= g3);
    } else {
        lemma_group_members_outside(s, tp, g);
        assert(e + e + e + e =~= e);
    }
}

// ── Collecting triggers from compiled effects ────────────────

/// Whether a compiled effect is a trigger effect answering `event_code`.
pub open spec fn answers_event(effect: CompiledEffectV2, event_code: u32) -> bool {
    effect.effect_type & (tm::EFFECT_TYPE_TRIGGER_O | tm::EFFECT_TYPE_TRIGGER_F) != 0 && effect.code == event_code
}

/// The (effect, card id) entries that answer `event_code`, in order.
pub open spec fn answering<'a, 'b>(effects: Seq<(&'b CompiledEffectV2<'a>, u32)>, event_code: u32) -> Seq<(&'b CompiledEffectV2<'a>, u32)>
    decreases effects.len(),
{
    if effects.len() == 0 {
        Seq::empty()
    } else {
        let rest = answering(effects.drop_last(), event_code);
        if answers_event(*effects.last().0, event_code) { rest.push(effects.last()) } else { rest }
    }
}

/// Whether a pending trigger was made from an (effect, card id) entry for
/// `event_code`, with a controller that `controller_for` can answer.
pub open spec fn made_from<'a, 'b, F: Fn(u32) -> u8>(
    t: PendingTrigger,
    entry: (&'b CompiledEffectV2<'a>, u32),
    event_code: u32,
    controller_for: F,
) -> bool {
    &&& t.card_id == entry.1
    &&& t.is_mandatory == (entry.0.effect_type & tm::EFFECT_TYPE_TRIGGER_F != 0)
    &&& t.label@ == entry.0.label@
    &&& t.event_code == event_code
    &&& controller_for.ensures((entry.1,), t.controller)
}

/// A queue holding one pending trigger per compiled trigger effect that
/// answers `event_code`, in the order of `effects`; `controller_for` tells
/// which player controls a card. Ignition and activated effects are left
/// out.
pub fn collect_simultaneous_triggers<'a, 'b, F: Fn(u32) -> u8>(
    effects: &[(&'b CompiledEffectV2<'a>, u32)],
    event_code: u32,
    turn_player: u8,
    controller_for: F,
) -> (q: SegocQueue)
    requires
        forall|id: u32| controller_for.requires((id,)),
    ensures
        q.turn_player_spec() == turn_player,
        q.pending_spec().len() == answering(effects@, event_code).len(),
        forall|k: int|
            0 <= k < q.pending_spec().len() ==> made_from(
                #[trigger] q.pending_spec()[k],
                answering(effects@, event_code)[k],
                event_code,
                controller_for,
            ),
{
    let mut queue = SegocQueue::new(turn_player);
    let mut i: usize = 0;
    while i < effects.len()
        invariant
            i <= effects@.len(),
            forall|id: u32| controller_for.requires((id,)),
            queue.turn_player_spec() == turn_player,
            queue.pending_spec().len() == answering(effects@.take(i as int), event_code).len(),
            forall|k: int|
                0 <= k < queue.pending_spec().len() ==> made_from(
                    #[trigger] queue.pending_spec()[k],
                    answering(effects@.take(i as int), event_code)[k],
                    event_code,
                    controller_for,
                ),
        decreases effects.len() - i,
    {
        proof {
            assert(effects@.take(i + 1).drop_last() =~= effects@.take(i as int));
            assert(effects@.take(i + 1).last() == effects@[i as int]);
        }
        let (effect, card_id) = effects[i];
        let is_trigger = effect.effect_type & (tm::EFFECT_TYPE_TRIGGER_O | tm::EFFECT_TYPE_TRIGGER_F) != 0;
        if is_trigger && effect.code == event_code {
            let is_mandatory = effect.effect_type & tm::EFFECT_TYPE_TRIGGER_F != 0;
            let controller = controller_for(card_id);
            let ghost before = queue.pending_spec();
            queue.push(PendingTrigger::new(card_id, controller, is_mandatory, effect.label.as_str(), event_code));
            proof {
                let m = answering(effects@.take(i + 1), event_code);
                assert forall|k: int| 0 <= k < queue.pending_spec().len() implies made_from(
                    #[trigger] queue.pending_spec()[k],
                    m[k],
                    event_code,
                    controller_for,
                ) by {
                    if k < before.len() {
                        assert(queue.pending_spec()[k] == before[k]);
                    }
                }
            }
        }
        i += 1;
    }
    proof {
        assert(effects@.take(effects@.len() as int) =~= effects@);
    }
    queue
}

} // verus!
