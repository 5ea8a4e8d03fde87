use vstd::prelude::*;

verus! {

use crate::address::Address;
use crate::accounts::{TokenAccount, TokenAccountV};
use crate::errors::FarmerHouseError;

// The custody model. An escrow record maps named slots to held tokens; a
// constraint model says, per slot, which collection may enter and how many
// units the slot may hold. Transfers in and out move exactly the requested
// amount between a holding account and a slot, or change nothing at all.

/// One held sub-asset inside an escrow slot.
#[derive(Debug)]
pub struct HeldToken {
    pub mint: Address,
    pub amount: u64,
}

#[verifier::ext_equal]
pub struct HeldTokenV {
    pub mint: Seq<u8>,
    pub amount: u64,
}

impl View for HeldToken {
    type V = HeldTokenV;

    open spec fn view(&self) -> HeldTokenV {
        HeldTokenV { mint: self.mint@, amount: self.amount }
    }
}

/// The views of a stored token list.
pub open spec fn held_view(tokens: Seq<HeldToken>) -> Seq<HeldTokenV> {
    Seq::new(tokens.len(), |i: int| tokens[i]@)
}

/// One named slot and what it holds.
#[derive(Debug)]
pub struct SlotBinding {
    pub name: String,
    pub tokens: Vec<HeldToken>,
}

#[verifier::ext_equal]
pub struct SlotBindingV {
    pub name: Seq<char>,
    pub tokens: Seq<HeldTokenV>,
}

impl View for SlotBinding {
    type V = SlotBindingV;

    open spec fn view(&self) -> SlotBindingV {
        SlotBindingV { name: self.name@, tokens: held_view(self.tokens@) }
    }
}

/// The views of an escrow record's stored bindings.
pub open spec fn bindings_view(slots: Seq<SlotBinding>) -> Seq<SlotBindingV> {
    Seq::new(slots.len(), |i: int| slots[i]@)
}

/// Slot names are pairwise distinct.
pub open spec fn unique_slot_names(slots: Seq<SlotBindingV>) -> bool {
    forall|i: int, j: int| 0 <= i < j < slots.len() ==> slots[i].name != slots[j].name
}

/// The mapping a sequence of slot bindings denotes.
pub open spec fn slots_as_map(slots: Seq<SlotBindingV>) -> Map<Seq<char>, Seq<HeldTokenV>>
    decreases slots.len(),
{
    if slots.len() == 0 {
        Map::empty()
    } else {
        slots_as_map(slots.drop_last()).insert(slots.last().name, slots.last().tokens)
    }
}

/// The per-asset custody record: named slots, each holding sub-assets.
/// Slots are stored in the order of their first use and addressed by name.
#[derive(Debug)]
pub struct EscrowRecord {
    /// Address of the custody record on the ledger.
    pub address: Address,
    /// The slot bindings, with pairwise distinct names.
    pub slots: Vec<SlotBinding>,
}

/// An escrow record is its address and the slot-name-to-holdings mapping.
#[verifier::ext_equal]
pub struct EscrowRecordV {
    pub address: Seq<u8>,
    pub slots: Map<Seq<char>, Seq<HeldTokenV>>,
}

impl View for EscrowRecord {
    type V = EscrowRecordV;

    open spec fn view(&self) -> EscrowRecordV {
        EscrowRecordV { address: self.address@, slots: slots_as_map(bindings_view(self.slots@)) }
    }
}

/// Total units held in one slot's token list.
pub open spec fn tokens_total(tokens: Seq<HeldTokenV>) -> int
    decreases tokens.len(),
{
    if tokens.len() == 0 {
        0
    } else {
        tokens_total(tokens.drop_last()) + tokens.last().amount
    }
}

/// Total units an escrow record holds in the named slot.
pub open spec fn slot_total(e: EscrowRecordV, name: Seq<char>) -> int {
    if e.slots.dom().contains(name) {
        tokens_total(e.slots[name])
    } else {
        0
    }
}

/// First position of a token of the given mint, or -1 where none is held.
pub open spec fn token_index(tokens: Seq<HeldTokenV>, mint: Seq<u8>) -> int
    decreases tokens.len(),
{
    if tokens.len() == 0 {
        -1
    } else if tokens[0].mint == mint {
        0
    } else {
        let r = token_index(tokens.drop_first(), mint);
        if r < 0 {
            -1
        } else {
            r + 1
        }
    }
}

pub proof fn lemma_token_index_props(tokens: Seq<HeldTokenV>, mint: Seq<u8>)
    ensures
        token_index(tokens, mint) == -1 ==> forall|j: int|
            0 <= j < tokens.len() ==> tokens[j].mint != mint,
        token_index(tokens, mint) != -1 ==> {
            let i = token_index(tokens, mint);
            &&& 0 <= i < tokens.len()
            &&& tokens[i].mint == mint
            &&& forall|j: int| 0 <= j < i ==> tokens[j].mint != mint
        },
    decreases tokens.len(),
{
    if tokens.len() > 0 && tokens[0].mint != mint {
        lemma_token_index_props(tokens.drop_first(), mint);
        assert(forall|j: int|
            1 <= j < tokens.len() ==> tokens[j] == tokens.drop_first()[j - 1]);
    }
}

/// A slot's total is never negative.
pub proof fn lemma_tokens_total_nonneg(tokens: Seq<HeldTokenV>)
    ensures
        tokens_total(tokens) >= 0,
    decreases tokens.len(),
{
    if tokens.len() > 0 {
        lemma_tokens_total_nonneg(tokens.drop_last());
    }
}

/// Appending a token raises the total by exactly its amount.
pub proof fn lemma_tokens_total_push(tokens: Seq<HeldTokenV>, t: HeldTokenV)
    ensures
        tokens_total(tokens.push(t)) == tokens_total(tokens) + t.amount,
{
    assert(tokens.push(t).drop_last() =~= tokens);
}

/// Removing a token lowers the total by exactly its amount.
pub proof fn lemma_tokens_total_remove(tokens: Seq<HeldTokenV>, i: int)
    requires
        0 <= i < tokens.len(),
    ensures
        tokens_total(tokens.remove(i)) == tokens_total(tokens) - tokens[i].amount,
    decreases tokens.len(),
{
    if i == tokens.len() - 1 {
        assert(tokens.remove(i) =~= tokens.drop_last());
    } else {
        assert(tokens.remove(i).drop_last() =~= tokens.drop_last().remove(i));
        lemma_tokens_total_remove(tokens.drop_last(), i);
        assert(tokens.remove(i).last() == tokens.last());
    }
}

// How the stored sequence of bindings relates to the mapping it denotes.

/// A name that no binding carries is not in the mapping's domain.
pub proof fn lemma_map_absent(slots: Seq<SlotBindingV>, name: Seq<char>)
    requires
        forall|j: int| 0 <= j < slots.len() ==> slots[j].name != name,
    ensures
        !slots_as_map(slots).dom().contains(name),
    decreases slots.len(),
{
    if slots.len() > 0 {
        lemma_map_absent(slots.drop_last(), name);
    }
}

/// Under distinct names, the binding at any position gives the mapping's
/// value at its name.
pub proof fn lemma_map_at(slots: Seq<SlotBindingV>, i: int)
    requires
        unique_slot_names(slots),
        0 <= i < slots.len(),
    ensures
        slots_as_map(slots).dom().contains(slots[i].name),
        slots_as_map(slots)[slots[i].name] == slots[i].tokens,
    decreases slots.len(),
{
    if i < slots.len() - 1 {
        assert(unique_slot_names(slots.drop_last()));
        lemma_map_at(slots.drop_last(), i);
        assert(slots[slots.len() - 1].name != slots[i].name);
    }
}

/// Replacing the binding at a position, keeping its name, denotes the
/// mapping with that name re-bound, and keeps names distinct.
pub proof fn lemma_map_update(slots: Seq<SlotBindingV>, i: int, b: SlotBindingV)
    requires
        unique_slot_names(slots),
        0 <= i < slots.len(),
        b.name == slots[i].name,
    ensures
        unique_slot_names(slots.update(i, b)),
        slots_as_map(slots.update(i, b)) == slots_as_map(slots).insert(b.name, b.tokens),
    decreases slots.len(),
{
    let updated = slots.update(i, b);
    if i == slots.len() - 1 {
        assert(updated.drop_last() =~= slots.drop_last());
        assert(slots_as_map(updated) =~= slots_as_map(slots).insert(b.name, b.tokens));
    } else {
        assert(unique_slot_names(slots.drop_last()));
        assert(updated.drop_last() =~= slots.drop_last().update(i, b));
        lemma_map_update(slots.drop_last(), i, b);
        assert(updated.last() == slots.last());
        assert(slots.last().name != b.name);
        assert(slots_as_map(updated) =~= slots_as_map(slots).insert(b.name, b.tokens));
    }
}

/// Appending a binding with a fresh name denotes the mapping with that name
/// bound, and keeps names distinct.
pub proof fn lemma_map_push(slots: Seq<SlotBindingV>, b: SlotBindingV)
    requires
        unique_slot_names(slots),
        forall|j: int| 0 <= j < slots.len() ==> slots[j].name != b.name,
    ensures
        unique_slot_names(slots.push(b)),
        slots_as_map(slots.push(b)) == slots_as_map(slots).insert(b.name, b.tokens),
{
    assert(slots.push(b).drop_last() =~= slots);
}

// The constraint model.

/// One named slot's policy: which collection may enter and how many units
/// the slot may hold at once.
#[derive(Debug)]
pub struct SlotConstraint {
    pub name: String,
    pub token_limit: u64,
    pub allowed_collection: Address,
    pub transfer_effects: u16,
}

#[verifier::ext_equal]
pub struct SlotConstraintV {
    pub token_limit: u64,
    pub allowed_collection: Seq<u8>,
    pub transfer_effects: u16,
}

impl View for SlotConstraint {
    type V = SlotConstraintV;

    open spec fn view(&self) -> SlotConstraintV {
        SlotConstraintV {
            token_limit: self.token_limit,
            allowed_collection: self.allowed_collection@,
            transfer_effects: self.transfer_effects,
        }
    }
}

/// The escrow policy object: who created it, who may change it, and the
/// per-slot constraints that custody transfers are checked against.
#[derive(Debug)]
pub struct EscrowConstraintModel {
    pub name: String,
    pub schema_uri: String,
    pub creator: Address,
    pub update_authority: Address,
    pub constraints: Vec<SlotConstraint>,
}

#[verifier::ext_equal]
pub struct EscrowConstraintModelV {
    pub name: Seq<char>,
    pub schema_uri: Seq<char>,
    pub creator: Seq<u8>,
    pub update_authority: Seq<u8>,
    pub constraints: Map<Seq<char>, SlotConstraintV>,
}

/// The mapping a sequence of slot constraints denotes.
pub open spec fn constraints_as_map(cs: Seq<SlotConstraint>) -> Map<Seq<char>, SlotConstraintV>
    decreases cs.len(),
{
    if cs.len() == 0 {
        Map::empty()
    } else {
        constraints_as_map(cs.drop_last()).insert(cs.last().name@, cs.last()@)
    }
}

impl View for EscrowConstraintModel {
    type V = EscrowConstraintModelV;

    open spec fn view(&self) -> EscrowConstraintModelV {
        EscrowConstraintModelV {
            name: self.name@,
            schema_uri: self.schema_uri@,
            creator: self.creator@,
            update_authority: self.update_authority@,
            constraints: constraints_as_map(self.constraints@),
        }
    }
}

impl EscrowConstraintModel {
    /// Constraint names never repeat.
    pub open spec fn wf(&self) -> bool {
        forall|i: int, j: int|
            0 <= i < j < self.constraints@.len() ==> self.constraints@[i].name@
                != self.constraints@[j].name@
    }

    /// First position of the constraint named `slot`, if any.
    fn find_constraint(&self, slot: &String) -> (r: Option<usize>)
        requires
            self.wf(),
        ensures
            match r {
                Some(i) => {
                    &&& i < self.constraints@.len()
                    &&& self.constraints@[i as int].name@ == slot@
                    &&& self@.constraints.dom().contains(slot@)
                    &&& self@.constraints[slot@] == self.constraints@[i as int]@
                },
                None => !self@.constraints.dom().contains(slot@),
            },
    {
        let n = self.constraints.len();
        let mut i: usize = 0;
        while i < n
            invariant
                i <= n,
                n == self.constraints@.len(),
                self.wf(),
                forall|j: int| 0 <= j < i ==> self.constraints@[j].name@ != slot@,
            decreases n - i,
        {
            if self.constraints[i].name == *slot {
                proof {
                    lemma_constraints_at(self.constraints@, i as int);
                }
                return Some(i);
            }
            i = i + 1;
        }
        proof {
            lemma_constraints_absent(self.constraints@, slot@);
        }
        None
    }
}

/// First position of a token of the given mint in a stored token list.
fn find_token(tokens: &Vec<HeldToken>, mint: &Address) -> (r: Option<usize>)
    ensures
        match r {
            Some(i) => i < tokens@.len() && token_index(held_view(tokens@), mint@) == i as int,
            None => token_index(held_view(tokens@), mint@) == -1,
        },
{
    let n = tokens.len();
    let mut i: usize = 0;
    while i < n
        invariant
            i <= n,
            n == tokens@.len(),
            forall|j: int| 0 <= j < i ==> held_view(tokens@)[j].mint != mint@,
        decreases n - i,
    {
        if tokens[i].mint.eq_address(mint) {
            proof {
                let s = held_view(tokens@);
                let t = token_index(s, mint@);
                lemma_token_index_props(s, mint@);
                assert(s[i as int].mint == mint@);
                assert(t != -1);
                if 0 <= t < i as int {
                    assert(s[t].mint != mint@);
                }
                if t > i as int {
                    assert(s[i as int].mint != mint@);
                }
            }
            return Some(i);
        }
        i = i + 1;
    }
    proof {
        lemma_token_index_props(held_view(tokens@), mint@);
    }
    None
}

/// A constraint name that no stored constraint carries is not in the
/// mapping's domain.
pub proof fn lemma_constraints_absent(cs: Seq<SlotConstraint>, name: Seq<char>)
    requires
        forall|j: int| 0 <= j < cs.len() ==> cs[j].name@ != name,
    ensures
        !constraints_as_map(cs).dom().contains(name),
    decreases cs.len(),
{
    if cs.len() > 0 {
        lemma_constraints_absent(cs.drop_last(), name);
    }
}

/// Under distinct names, the stored constraint at any position gives the
/// mapping's value at its name.
pub proof fn lemma_constraints_at(cs: Seq<SlotConstraint>, i: int)
    requires
        forall|p: int, q: int| 0 <= p < q < cs.len() ==> cs[p].name@ != cs[q].name@,
        0 <= i < cs.len(),
    ensures
        constraints_as_map(cs).dom().contains(cs[i].name@),
        constraints_as_map(cs)[cs[i].name@] == cs[i]@,
    decreases cs.len(),
{
    if i < cs.len() - 1 {
        lemma_constraints_at(cs.drop_last(), i);
        assert(cs[cs.len() - 1].name@ != cs[i].name@);
    }
}

// The two custody transitions.

/// What a transfer into custody does: checked against the constraint model,
/// it moves `amount` units of the asset from the source holding into the
/// named slot, or changes nothing.
pub open spec fn transfer_in_spec(
    e: EscrowRecordV,
    model: EscrowConstraintModelV,
    slot: Seq<char>,
    asset_mint: Seq<u8>,
    collection_key: Seq<u8>,
    src: TokenAccountV,
    amount: u64,
) -> Result<(EscrowRecordV, TokenAccountV), FarmerHouseError> {
    if !model.constraints.dom().contains(slot) {
        Err(FarmerHouseError::TrifleMismatch)
    } else if collection_key != model.constraints[slot].allowed_collection {
        Err(FarmerHouseError::CollectionMismatch)
    } else if src.mint != asset_mint {
        Err(FarmerHouseError::MintMismatch)
    } else if src.amount < amount {
        Err(FarmerHouseError::AmountMismatch)
    } else if slot_total(e, slot) + amount > model.constraints[slot].token_limit {
        Err(FarmerHouseError::TrifleMismatch)
    } else {
        let held = if e.slots.dom().contains(slot) {
            e.slots[slot]
        } else {
            Seq::<HeldTokenV>::empty()
        };
        let e2 = EscrowRecordV {
            address: e.address,
            slots: e.slots.insert(slot, held.push(HeldTokenV { mint: asset_mint, amount })),
        };
        let src2 = TokenAccountV { amount: (src.amount - amount) as u64, ..src };
        Ok((e2, src2))
    }
}

/// What a transfer out of custody does: it moves `amount` units of the asset
/// from the named slot into the destination holding, or changes nothing.
pub open spec fn transfer_out_spec(
    e: EscrowRecordV,
    slot: Seq<char>,
    asset_mint: Seq<u8>,
    dst: TokenAccountV,
    amount: u64,
) -> Result<(EscrowRecordV, TokenAccountV), FarmerHouseError> {
    if dst.mint != asset_mint {
        Err(FarmerHouseError::MintMismatch)
    } else if !e.slots.dom().contains(slot) {
        Err(FarmerHouseError::TrifleMismatch)
    } else {
        let held = e.slots[slot];
        let ti = token_index(held, asset_mint);
        if ti == -1 {
            Err(FarmerHouseError::TrifleMismatch)
        } else if held[ti].amount < amount {
            Err(FarmerHouseError::TrifleMismatch)
        } else {
            let held2 = if held[ti].amount == amount {
                held.remove(ti)
            } else {
                held.update(
                    ti,
                    HeldTokenV { mint: asset_mint, amount: (held[ti].amount - amount) as u64 },
                )
            };
            let e2 = EscrowRecordV { address: e.address, slots: e.slots.insert(slot, held2) };
            let dst2 = TokenAccountV { amount: (dst.amount + amount) as u64, ..dst };
            Ok((e2, dst2))
        }
    }
}

impl EscrowRecord {
    /// Slot names never repeat; the stored sequence and the mapping it
    /// denotes carry the same information.
    pub open spec fn wf(&self) -> bool {
        unique_slot_names(bindings_view(self.slots@))
    }

    /// A fresh custody record with no slots.
    pub fn new(address: Address) -> (r: EscrowRecord)
        ensures
            r@.address == address@,
            r@.slots == Map::<Seq<char>, Seq<HeldTokenV>>::empty(),
            r.wf(),
    {
        let r = EscrowRecord { address, slots: Vec::new() };
        proof {
            assert(bindings_view(r.slots@) =~= Seq::<SlotBindingV>::empty());
        }
        r
    }

    /// First position in the stored bindings whose name is `slot`, if any.
    fn find_slot(&self, slot: &String) -> (r: Option<usize>)
        requires
            self.wf(),
        ensures
            match r {
                Some(i) => {
                    &&& i < self.slots@.len()
                    &&& self.slots@[i as int]@.name == slot@
                    &&& self@.slots.dom().contains(slot@)
                    &&& self@.slots[slot@] == self.slots@[i as int]@.tokens
                },
                None => {
                    &&& !self@.slots.dom().contains(slot@)
                    &&& forall|j: int|
                        0 <= j < self.slots@.len() ==> bindings_view(self.slots@)[j].name != slot@
                },
            },
    {
        let n = self.slots.len();
        let mut i: usize = 0;
        while i < n
            invariant
                i <= n,
                n == self.slots@.len(),
                self.wf(),
                forall|j: int| 0 <= j < i ==> bindings_view(self.slots@)[j].name != slot@,
            decreases n - i,
        {
            if self.slots[i].name == *slot {
                proof {
                    lemma_map_at(bindings_view(self.slots@), i as int);
                }
                return Some(i);
            }
            i = i + 1;
        }
        proof {
            lemma_map_absent(bindings_view(self.slots@), slot@);
        }
        None
    }

    /// The first held token of the named slot, where the slot exists and
    /// holds anything.
    pub fn first_held(&self, slot: &String) -> (r: Option<&HeldToken>)
        requires
            self.wf(),
        ensures
            match r {
                Some(t) => {
                    &&& self@.slots.dom().contains(slot@)
                    &&& self@.slots[slot@].len() > 0
                    &&& t@ == self@.slots[slot@][0]
                },
                None => !self@.slots.dom().contains(slot@) || self@.slots[slot@].len() == 0,
            },
    {
        match self.find_slot(slot) {
            Some(i) => {
                if self.slots[i].tokens.len() > 0 {
                    Some(&self.slots[i].tokens[0])
                } else {
                    None
                }
            },
            None => None,
        }
    }

    /// Units currently held in the stored binding at one position.
    fn binding_units(&self, i: usize) -> (r: u128)
        requires
            i < self.slots@.len(),
        ensures
            r as int == tokens_total(self.slots@[i as int]@.tokens),
            r <= self.slots@[i as int]@.tokens.len() * 0xffff_ffff_ffff_ffffu64,
    {
        let ghost held = self.slots@[i as int]@.tokens;
        let m = self.slots[i].tokens.len();
        let mut total: u128 = 0;
        let mut k: usize = 0;
        while k < m
            invariant
                k <= m,
                i < self.slots@.len(),
                m == held.len(),
                held == self.slots@[i as int]@.tokens,
                total as int == tokens_total(held.subrange(0, k as int)),
                total <= k * 0xffff_ffff_ffff_ffffu64,
            decreases m - k,
        {
            proof {
                assert(held.subrange(0, k + 1).drop_last() =~= held.subrange(0, k as int));
                assert(held.subrange(0, k + 1).last() == held[k as int]);
            }
            total = total + self.slots[i].tokens[k].amount as u128;
            k = k + 1;
        }
        proof {
            assert(held.subrange(0, m as int) =~= held);
        }
        total
    }

    /// Transfer `amount` units of the asset from the source holding into the
    /// named slot, under the constraint model's slot policy. On any failing
    /// check, nothing changes. A missing or over-full slot policy is a
    /// custody mismatch; an asset outside the slot's allowed collection is a
    /// collection mismatch; a source holding of the wrong mint is a mint
    /// mismatch; a short source balance is an amount mismatch.
    pub fn transfer_in(
        &mut self,
        model: &EscrowConstraintModel,
        slot: &String,
        asset_mint: &Address,
        collection_key: &Address,
        src: &mut TokenAccount,
        amount: u64,
    ) -> (r: Result<(), FarmerHouseError>)
        requires
            old(self).wf(),
            model.wf(),
        ensures
            final(self).wf(),
            match r {
                Ok(()) => transfer_in_spec(
                    old(self)@,
                    model@,
                    slot@,
                    asset_mint@,
                    collection_key@,
                    old(src)@,
                    amount,
                ) == Ok::<(EscrowRecordV, TokenAccountV), FarmerHouseError>(
                    (final(self)@, final(src)@),
                ),
                Err(e) => {
                    &&& transfer_in_spec(
                        old(self)@,
                        model@,
                        slot@,
                        asset_mint@,
                        collection_key@,
                        old(src)@,
                        amount,
                    ) == Err::<(EscrowRecordV, TokenAccountV), FarmerHouseError>(e)
                    &&& final(self)@ == old(self)@
                    &&& final(src)@ == old(src)@
                },
            },
    {
        // The slot's policy.
        let ci = match model.find_constraint(slot) {
            Some(i) => i,
            None => {
                return Err(FarmerHouseError::TrifleMismatch);
            },
        };
        let constraint = &model.constraints[ci];
        if !collection_key.eq_address(&constraint.allowed_collection) {
            return Err(FarmerHouseError::CollectionMismatch);
        }
        if !src.mint.eq_address(asset_mint) {
            return Err(FarmerHouseError::MintMismatch);
        }
        if src.amount < amount {
            return Err(FarmerHouseError::AmountMismatch);
        }

        // The slot's current load against its limit.
        let slot_pos = self.find_slot(slot);
        let total: u128 = match slot_pos {
            Some(i) => self.binding_units(i),
            None => 0,
        };
        proof {
            if slot_pos is None {
                assert(slot_total(self@, slot@) == 0);
            }
        }
        let amt = amount as u128;
        let limit = constraint.token_limit as u128;
        if amt > limit || total > limit - amt {
            return Err(FarmerHouseError::TrifleMismatch);
        }

        // Move the units.
        src.amount = src.amount - amount;
        let token = HeldToken { mint: asset_mint.dup(), amount };
        let ghost old_bindings = bindings_view(self.slots@);
        let ghost old_map = slots_as_map(old_bindings);
        match slot_pos {
            Some(i) => {
                let mut b = self.slots.remove(i);
                let ghost old_tokens = held_view(b.tokens@);
                b.tokens.push(token);
                proof {
                    assert(held_view(b.tokens@) =~= old_tokens.push(
                        HeldTokenV { mint: asset_mint@, amount },
                    ));
                }
                self.slots.insert(i, b);
                proof {
                    assert(bindings_view(self.slots@) =~= old_bindings.update(
                        i as int,
                        SlotBindingV {
                            name: slot@,
                            tokens: old_tokens.push(HeldTokenV { mint: asset_mint@, amount }),
                        },
                    ));
                    lemma_map_update(
                        old_bindings,
                        i as int,
                        SlotBindingV {
                            name: slot@,
                            tokens: old_tokens.push(HeldTokenV { mint: asset_mint@, amount }),
                        },
                    );
                }
            },
            None => {
                let mut tokens: Vec<HeldToken> = Vec::new();
                tokens.push(token);
                let b = SlotBinding { name: slot.clone(), tokens };
                proof {
                    assert(b@.tokens =~= Seq::<HeldTokenV>::empty().push(
                        HeldTokenV { mint: asset_mint@, amount },
                    ));
                }
                self.slots.push(b);
                proof {
                    assert(bindings_view(self.slots@) =~= old_bindings.push(
                        SlotBindingV {
                            name: slot@,
                            tokens: Seq::<HeldTokenV>::empty().push(
                                HeldTokenV { mint: asset_mint@, amount },
                            ),
                        },
                    ));
                    lemma_map_push(
                        old_bindings,
                        SlotBindingV {
                            name: slot@,
                            tokens: Seq::<HeldTokenV>::empty().push(
                                HeldTokenV { mint: asset_mint@, amount },
                            ),
                        },
                    );
                }
            },
        }
        proof {
            assert(final(self)@ =~= (EscrowRecordV {
                address: old(self)@.address,
                slots: old_map.insert(
                    slot@,
                    (if old_map.dom().contains(slot@) {
                        old_map[slot@]
                    } else {
                        Seq::<HeldTokenV>::empty()
                    }).push(HeldTokenV { mint: asset_mint@, amount }),
                ),
            }));
            assert(final(src)@ =~= (TokenAccountV {
                amount: (old(src)@.amount - amount) as u64,
                ..old(src)@
            }));
        }
        Ok(())
    }

    /// Transfer `amount` units of the asset out of the named slot into the
    /// destination holding. On any failing check, nothing changes. A
    /// destination holding of the wrong mint is a mint mismatch; an absent
    /// slot, an absent asset or a short held amount is a custody mismatch.
    pub fn transfer_out(
        &mut self,
        slot: &String,
        asset_mint: &Address,
        dst: &mut TokenAccount,
        amount: u64,
    ) -> (r: Result<(), FarmerHouseError>)
        requires
            old(self).wf(),
            old(dst)@.amount + amount <= u64::MAX,
        ensures
            final(self).wf(),
            match r {
                Ok(()) => transfer_out_spec(old(self)@, slot@, asset_mint@, old(dst)@, amount)
                    == Ok::<(EscrowRecordV, TokenAccountV), FarmerHouseError>(
                    (final(self)@, final(dst)@),
                ),
                Err(e) => {
                    &&& transfer_out_spec(old(self)@, slot@, asset_mint@, old(dst)@, amount)
                        == Err::<(EscrowRecordV, TokenAccountV), FarmerHouseError>(e)
                    &&& final(self)@ == old(self)@
                    &&& final(dst)@ == old(dst)@
                },
            },
    {
        if !dst.mint.eq_address(asset_mint) {
            return Err(FarmerHouseError::MintMismatch);
        }
        let slot_pos = match self.find_slot(slot) {
            Some(i) => i,
            None => {
                return Err(FarmerHouseError::TrifleMismatch);
            },
        };
        let ghost held = self@.slots[slot@];

        // The first held token of the asset's mint.
        let ti = match find_token(&self.slots[slot_pos].tokens, asset_mint) {
            Some(i) => i,
            None => {
                return Err(FarmerHouseError::TrifleMismatch);
            },
        };
        proof {
            lemma_token_index_props(held, asset_mint@);
        }
        let held_amount = self.slots[slot_pos].tokens[ti].amount;
        if held_amount < amount {
            return Err(FarmerHouseError::TrifleMismatch);
        }

        // Move the units.
        let ghost old_bindings = bindings_view(self.slots@);
        let ghost old_map = slots_as_map(old_bindings);
        let mut b = self.slots.remove(slot_pos);
        let ghost old_tokens = held_view(b.tokens@);
        let t = b.tokens.remove(ti);
        let ghost held2 = if held[ti as int].amount == amount {
            held.remove(ti as int)
        } else {
            held.update(
                ti as int,
                HeldTokenV { mint: asset_mint@, amount: (held[ti as int].amount - amount) as u64 },
            )
        };
        if t.amount > amount {
            b.tokens.insert(ti, HeldToken { mint: t.mint, amount: t.amount - amount });
        }
        proof {
            assert(old_tokens =~= held);
            if held[ti as int].amount == amount {
                assert(held_view(b.tokens@) =~= held.remove(ti as int));
            } else {
                assert(held_view(b.tokens@) =~= held2);
            }
        }
        self.slots.insert(slot_pos, b);
        proof {
            assert(bindings_view(self.slots@) =~= old_bindings.update(
                slot_pos as int,
                SlotBindingV { name: slot@, tokens: held2 },
            ));
            lemma_map_update(
                old_bindings,
                slot_pos as int,
                SlotBindingV { name: slot@, tokens: held2 },
            );
        }
        dst.amount = dst.amount + amount;
        proof {
            assert(final(self)@ =~= (EscrowRecordV {
                address: old(self)@.address,
                slots: old_map.insert(slot@, held2),
            }));
            assert(final(dst)@ =~= (TokenAccountV {
                amount: (old(dst)@.amount + amount) as u64,
                ..old(dst)@
            }));
        }
        Ok(())
    }
}

/// Law: a custody round trip restores the holder. Transferring units into a
/// previously empty slot and then out of it again, to the same holding
/// account, leaves the holding exactly as it began and leaves the slot
/// empty.
pub proof fn lemma_custody_round_trip(
    e: EscrowRecordV,
    model: EscrowConstraintModelV,
    slot: Seq<char>,
    asset_mint: Seq<u8>,
    collection_key: Seq<u8>,
    src: TokenAccountV,
    amount: u64,
)
    requires
        !e.slots.dom().contains(slot) || e.slots[slot].len() == 0,
        transfer_in_spec(e, model, slot, asset_mint, collection_key, src, amount) is Ok,
    ensures
        ({
            let (e2, src2) = transfer_in_spec(
                e,
                model,
                slot,
                asset_mint,
                collection_key,
                src,
                amount,
            )->Ok_0;
            let out = transfer_out_spec(e2, slot, asset_mint, src2, amount);
            &&& out is Ok
            &&& out->Ok_0.1 == src
            &&& slot_total(out->Ok_0.0, slot) == 0
        }),
{
    let (e2, src2) = transfer_in_spec(e, model, slot, asset_mint, collection_key, src, amount)->Ok_0;
    let held0 = if e.slots.dom().contains(slot) {
        e.slots[slot]
    } else {
        Seq::<HeldTokenV>::empty()
    };
    assert(held0 =~= Seq::<HeldTokenV>::empty());
    let t = HeldTokenV { mint: asset_mint, amount };
    assert(e2.slots[slot] =~= seq![t]);
    assert(token_index(e2.slots[slot], asset_mint) == 0);
    let out = transfer_out_spec(e2, slot, asset_mint, src2, amount);
    assert(out is Ok);
    assert(out->Ok_0.1 =~= src);
    assert(out->Ok_0.0.slots[slot] =~= seq![t].remove(0));
    assert(tokens_total(seq![t].remove(0)) == 0);
}

} // verus!
