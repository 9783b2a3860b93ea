//! The shared payload cell: a holder of the latest outbound byte buffer.
//!
//! `publish` replaces the buffer wholesale and `current` returns the most
//! recently published one; no history is retained and there is no
//! per-consumer cursor, so delivery is strictly latest-wins.

use vstd::prelude::*;

verus! {

/// What publishing does to the cell's contents: the new buffer replaces the
/// old one wholesale, so readers never see a mixture of the two.
pub open spec fn publish_spec(state: Seq<u8>, buffer: Seq<u8>) -> Seq<u8> {
    buffer
}

/// The holder of the latest payload. Readers always observe one complete
/// buffer; a publication replaces it in a single step.
pub struct PayloadCell {
    data: Vec<u8>,
}

impl PayloadCell {
    /// The bytes a reader observes right now.
    pub closed spec fn contents(self) -> Seq<u8> {
        self.data@
    }

    /// A fresh cell holds the empty buffer.
    pub fn new() -> (cell: PayloadCell)
        ensures
            cell.contents() == Seq::<u8>::empty(),
    {
        PayloadCell { data: Vec::new() }
    }

    /// Install a new buffer, visible to all subsequent reads.
    pub fn publish(&mut self, buffer: Vec<u8>)
        ensures
            final(self).contents() == publish_spec(old(self).contents(), buffer@),
            final(self).contents() == buffer@,
    {
        self.data = buffer;
    }

    /// The most recently published buffer.
    pub fn current(&self) -> (buffer: &Vec<u8>)
        ensures
            buffer@ == self.contents(),
    {
        &self.data
    }
}

/// Latest wins: after publishing `first` and then `second`, every subsequent
/// read observes `second`; no trace of `first` remains, whatever the cell
/// held before.
pub proof fn lemma_latest_wins(state: Seq<u8>, first: Seq<u8>, second: Seq<u8>)
    ensures
        publish_spec(publish_spec(state, first), second) == second,
{
}

} // verus!
