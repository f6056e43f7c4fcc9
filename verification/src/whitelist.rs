//! The allow-list store: a fixed-capacity ordered sequence of buyer
//! identities with an external write cursor.
//!
//! Slots are populated left to right at the cursor held in the sale's
//! configuration. A successful gated purchase clears its slot back to the
//! sentinel in place, leaving a hole; the store is never compacted and
//! never resized.

use vstd::prelude::*;
use crate::accounts::{Identity, EMPTY_IDENTITY};
use crate::config::MAX_LEN;

verus! {

/// The fixed-size slot array. An unset or consumed slot holds
/// [`EMPTY_IDENTITY`]; an assigned slot holds the buyer it admits.
#[derive(Clone, Debug)]
pub struct Whitelist {
    pub addresses: Vec<Identity>,
}

impl Whitelist {
    /// The store's invariant: exactly `MAX_LEN` slots, always.
    pub open spec fn wf(self) -> bool {
        self.addresses.len() == MAX_LEN
    }

    /// A fresh store with every slot set to the sentinel.
    pub fn new() -> (wl: Whitelist)
        ensures
            wl.wf(),
            forall|j: int| 0 <= j < MAX_LEN ==> wl.addresses@[j] == EMPTY_IDENTITY,
    {
        let mut addresses: Vec<Identity> = Vec::new();
        while addresses.len() < MAX_LEN
            invariant
                addresses.len() <= MAX_LEN,
                forall|j: int| 0 <= j < addresses.len() ==> addresses@[j] == EMPTY_IDENTITY,
            decreases MAX_LEN - addresses.len(),
        {
            addresses.push(EMPTY_IDENTITY);
        }
        Whitelist { addresses }
    }
}

/// The slot contents after a batch is written at `start`: indices
/// `start .. start + batch.len()` take the batch in order, every other
/// slot keeps its prior contents.
pub open spec fn write_batch(slots: Seq<Identity>, batch: Seq<Identity>, start: int) -> Seq<Identity> {
    Seq::new(slots.len(), |j: int| if start <= j < start + batch.len() {
        batch[j - start]
    } else {
        slots[j]
    })
}

/// Whether a batch of `len` new slots fits at cursor position `counter`.
pub open spec fn append_accepted(counter: int, len: int) -> bool {
    counter + len <= MAX_LEN as int
}

/// The cursor after one append of `len` addresses: advanced when the batch
/// fits, untouched when the whole batch is rejected.
pub open spec fn cursor_after_append(counter: int, len: int) -> int {
    if append_accepted(counter, len) {
        counter + len
    } else {
        counter
    }
}

/// The cursor after a sequence of appends with the given batch lengths,
/// applied in order.
pub open spec fn cursor_after_appends(counter: int, lens: Seq<int>) -> int
    decreases lens.len(),
{
    if lens.len() == 0 {
        counter
    } else {
        cursor_after_appends(cursor_after_append(counter, lens[0]), lens.drop_first())
    }
}

/// The total length of the batches that are accepted when appends with the
/// given lengths run in order from cursor position `counter`.
pub open spec fn accepted_total(counter: int, lens: Seq<int>) -> int
    decreases lens.len(),
{
    if lens.len() == 0 {
        0
    } else {
        (if append_accepted(counter, lens[0]) {
            lens[0]
        } else {
            0
        }) + accepted_total(cursor_after_append(counter, lens[0]), lens.drop_first())
    }
}

} // verus!
