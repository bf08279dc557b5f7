//! The single-slot channel through which a file-watch producer hands
//! newly edited script source to the frame-execution consumer.
//!
//! The slot holds at most one pending source text. A deposit overwrites
//! whatever is pending (last write wins, no queueing); a take atomically
//! removes and returns the pending text, leaving the slot empty.

use vstd::prelude::*;

verus! {

/// Single-slot mailbox state: at most one pending script source.
pub struct Mailbox {
    slot: Option<String>,
}

/// The pending text of an optional source string, as a sequence view.
pub open spec fn text_of(o: Option<String>) -> Option<Seq<char>> {
    match o {
        Some(s) => Some(s@),
        None => None,
    }
}

/// What a deposit leaves in the slot: the new text, whatever was there
/// before.
pub open spec fn deposit_spec(slot: Option<Seq<char>>, text: Seq<char>) -> Option<Seq<char>> {
    Some(text)
}

/// What a take yields and leaves: the pending text comes out, the slot
/// is left empty.
pub open spec fn take_spec(slot: Option<Seq<char>>) -> (Option<Seq<char>>, Option<Seq<char>>) {
    (slot, None)
}

impl View for Mailbox {
    type V = Option<Seq<char>>;

    closed spec fn view(&self) -> Option<Seq<char>> {
        text_of(self.slot)
    }
}

impl Mailbox {
    /// A fresh mailbox with nothing pending.
    pub fn new() -> (r: Mailbox)
        ensures
            r@ is None,
    {
        Mailbox { slot: None }
    }

    /// Overwrite any unconsumed pending text with the new text.
    /// Always succeeds.
    pub fn deposit(&mut self, text: String)
        ensures
            final(self)@ == deposit_spec(old(self)@, text@),
    {
        self.slot = Some(text);
    }

    /// Atomically remove and return the pending text, leaving the slot
    /// empty; nothing is returned if no edit is pending.
    pub fn take(&mut self) -> (r: Option<String>)
        ensures
            text_of(r) == take_spec(old(self)@).0,
            final(self)@ == take_spec(old(self)@).1,
    {
        self.slot.take()
    }
}

/// Last write wins: after two deposits, a take yields exactly the
/// second text, and a subsequent take yields nothing.
pub proof fn lemma_last_write_wins(slot0: Option<Seq<char>>, a: Seq<char>, b: Seq<char>)
    ensures
        take_spec(deposit_spec(deposit_spec(slot0, a), b)).0 == Some(b),
        take_spec(take_spec(deposit_spec(deposit_spec(slot0, a), b)).1).0 == Option::<Seq<char>>::None,
{
}

} // verus!
