//! The library's laws: properties of the purchase state machine and the
//! allow-list consumption protocol, stated over the spec functions that the
//! operations' own contracts use, and proved once for all inputs.

use vstd::prelude::*;
use crate::accounts::{Identity, EMPTY_IDENTITY};
use crate::config::MAX_LEN;
use crate::errors::ErrorCode;
use crate::purchase::{gated_error, ungated_error, PurchaseMintToken, PurchaseMintTokenWhitelist};
use crate::whitelist::{accepted_total, cursor_after_append, cursor_after_appends, write_batch};

verus! {

/// Law: over any sequence of appends, the cursor advances by exactly the
/// total length of the accepted batches — a batch that would pass the
/// capacity moves it not at all — and the cursor never passes the
/// capacity.
pub proof fn lemma_cursor_accumulates(counter: int, lens: Seq<int>)
    requires
        0 <= counter <= MAX_LEN as int,
        forall|i: int| 0 <= i < lens.len() ==> lens[i] >= 0,
    ensures
        cursor_after_appends(counter, lens) == counter + accepted_total(counter, lens),
        0 <= cursor_after_appends(counter, lens) <= MAX_LEN as int,
    decreases lens.len(),
{
    if lens.len() > 0 {
        let advanced = cursor_after_append(counter, lens[0]);
        assert forall|i: int| 0 <= i < lens.drop_first().len() implies lens.drop_first()[i]
            >= 0 by {
            assert(lens.drop_first()[i] == lens[i + 1]);
        }
        lemma_cursor_accumulates(advanced, lens.drop_first());
    }
}

/// Law: with gating enabled, a gated purchase whose claimed slot does not
/// hold the caller's own identity is rejected — no identity other than the
/// one a slot was assigned to can consume it.
pub proof fn lemma_slot_mismatch_rejected(c: PurchaseMintTokenWhitelist, index: u16)
    requires
        c.config.whitelist_enabled,
        c.whitelist.addresses@[index as int] != c.payer.key,
    ensures
        gated_error(c, index) is Some,
{
}

/// Law: with gating enabled, a consumed slot — one holding the sentinel —
/// admits no further gated purchase by any real caller, whoever calls and
/// whatever the rest of the state. (The sentinel is no caller's identity:
/// the collaborator verifies the payer's signature, and no key stands
/// behind the sentinel.)
pub proof fn lemma_consumed_slot_rejected(c: PurchaseMintTokenWhitelist, index: u16)
    requires
        c.config.whitelist_enabled,
        c.whitelist.addresses@[index as int] == EMPTY_IDENTITY,
        c.payer.key != EMPTY_IDENTITY,
    ensures
        gated_error(c, index) is Some,
{
    lemma_slot_mismatch_rejected(c, index);
}

/// Law: with gating enabled, a live sale, a funded caller, a non-empty
/// vault, the right entities supplied, and the claimed slot in range and
/// holding the caller's identity, the gated purchase is accepted — success
/// is owed whenever every check passes.
pub proof fn lemma_gated_purchase_succeeds(c: PurchaseMintTokenWhitelist, index: u16)
    requires
        c.config.whitelist_enabled,
        c.clock >= c.config.go_live_date,
        c.payer.lamports >= c.config.cost_in_lamports,
        c.mint_token_vault.amount > 0,
        c.treasury.key == c.config.treasury,
        c.config.whitelist == c.whitelist_key,
        index < MAX_LEN as u16,
        index <= c.config.counter,
        c.whitelist.addresses@[index as int] == c.payer.key,
        c.mint_token_vault.key == c.config.mint_token_vault,
    ensures
        gated_error(c, index) is None,
{
}

/// Law: a valid unconsumed slot is consumed exactly once. The first gated
/// purchase at `index` is accepted, and against any later state whose
/// slot array is the accepted purchase's result — the slot cleared to the
/// sentinel — a second gated purchase at the same index by any real caller
/// is rejected.
pub proof fn lemma_slot_single_use(
    before: PurchaseMintTokenWhitelist,
    after: PurchaseMintTokenWhitelist,
    index: u16,
)
    requires
        before.config.whitelist_enabled,
        before.whitelist.wf(),
        index < MAX_LEN as u16,
        gated_error(before, index) is None,
        after.config.whitelist_enabled,
        after.whitelist.addresses@ == before.whitelist.addresses@.update(
            index as int,
            EMPTY_IDENTITY,
        ),
        after.payer.key != EMPTY_IDENTITY,
    ensures
        gated_error(after, index) is Some,
{
    assert(after.whitelist.addresses@[index as int] == EMPTY_IDENTITY);
    lemma_consumed_slot_rejected(after, index);
}

/// Law: with gating disabled, an ungated purchase is accepted exactly when
/// the non-gating checks pass — the sale is live, the caller funded, the
/// vault non-empty and the supplied treasury and vault the configured
/// ones; no allow-list takes any part in it.
pub proof fn lemma_ungated_purchase_succeeds(c: PurchaseMintToken)
    requires
        !c.config.whitelist_enabled,
        c.clock >= c.config.go_live_date,
        c.payer.lamports >= c.config.cost_in_lamports,
        c.mint_token_vault.amount > 0,
        c.treasury.key == c.config.treasury,
        c.mint_token_vault.key == c.config.mint_token_vault,
    ensures
        ungated_error(c) is None,
{
}

/// Law: a cursor reset followed by an append writes the batch over slots
/// `[0, L)`, whatever their prior assigned or consumed contents, and
/// leaves every slot from `L` up — in particular those below the old
/// cursor — exactly as it was. The reset contract puts the cursor at zero
/// while touching no slot, and the append contract makes the new slot
/// array `write_batch` of the old one at the cursor; this law pins what
/// that composition does to each slot.
pub proof fn lemma_reset_then_append(slots: Seq<Identity>, batch: Seq<Identity>)
    requires
        slots.len() == MAX_LEN as int,
        batch.len() <= MAX_LEN as int,
    ensures
        forall|j: int| 0 <= j < batch.len() ==> write_batch(slots, batch, 0)[j] == batch[j],
        forall|j: int| batch.len() <= j < slots.len() ==> write_batch(slots, batch, 0)[j]
            == slots[j],
{
}

/// Law: before the launch time every purchase is rejected as not live,
/// on either entry point, whatever the rest of the state — and a rejected
/// purchase leaves every balance unchanged, as each entry point's own
/// contract states of every rejection.
pub proof fn lemma_not_live_rejected(
    ungated: PurchaseMintToken,
    gated: PurchaseMintTokenWhitelist,
    index: u16,
)
    requires
        ungated.clock < ungated.config.go_live_date,
        gated.clock < gated.config.go_live_date,
    ensures
        ungated_error(ungated) == Some(ErrorCode::DoormanNotLiveYet),
        gated_error(gated, index) == Some(ErrorCode::DoormanNotLiveYet),
{
}

} // verus!
