//! Single-slot holder for the one in-flight PKCE verifier.
//!
//! At most one authorization attempt is live per process: `set`
//! unconditionally overwrites, `take` reads and clears atomically, and
//! `peek` reads without clearing.  The slot is an owned object so its
//! owner decides how to share it; no lock is held here.

use vstd::prelude::*;

verus! {

/// The slot's abstract content after `set(v)`.
pub open spec fn slot_after_set(v: Seq<char>) -> Option<Seq<char>> {
    Some(v)
}

/// What `take` returns when the slot holds `s`.
pub open spec fn take_returns(s: Option<Seq<char>>) -> Option<Seq<char>> {
    s
}

/// The slot's abstract content after `take`.
pub open spec fn slot_after_take(s: Option<Seq<char>>) -> Option<Seq<char>> {
    None
}

/// Holds zero or one verifier string.
pub struct VerifierStore {
    slot: Option<String>,
}

impl View for VerifierStore {
    type V = Option<Seq<char>>;

    closed spec fn view(&self) -> Option<Seq<char>> {
        match self.slot {
            Some(s) => Some(s@),
            None => None,
        }
    }
}

impl VerifierStore {
    /// A store holding no verifier.
    pub fn new() -> (r: VerifierStore)
        ensures
            r@ is None,
    {
        VerifierStore { slot: None }
    }

    /// Unconditionally overwrites any previously stored verifier.
    pub fn set(&mut self, v: String)
        ensures
            final(self)@ == slot_after_set(v@),
    {
        self.slot = Some(v);
    }

    /// Atomically reads and clears the stored value; empty if none was
    /// present.
    pub fn take(&mut self) -> (r: Option<String>)
        ensures
            final(self)@ == slot_after_take(old(self)@),
            match r {
                Some(s) => take_returns(old(self)@) == Some(s@),
                None => take_returns(old(self)@) is None,
            },
    {
        let r = match &self.slot {
            Some(s) => Some(s.clone()),
            None => None,
        };
        self.slot = None;
        r
    }

    /// Reads the stored value without clearing it.
    pub fn peek(&self) -> (r: Option<String>)
        ensures
            match r {
                Some(s) => self@ == Some(s@),
                None => self@ is None,
            },
    {
        match &self.slot {
            Some(s) => Some(s.clone()),
            None => None,
        }
    }
}

/// `take()` after `set(v)` returns exactly `v`; an immediate second
/// `take()` returns empty.
pub proof fn lemma_take_after_set(v: Seq<char>)
    ensures
        take_returns(slot_after_set(v)) == Some(v),
        take_returns(slot_after_take(slot_after_set(v))) is None,
{
}

} // verus!
