//! Single-slot holder for the most recently received deep-link URL on
//! mobile: the OS hands the redirect to the application as a URL, and the
//! host keeps the last one here until it is consumed or cleared.

use vstd::prelude::*;

verus! {

/// Holds zero or one deep-link URL.
pub struct DeepLinkSlot {
    slot: Option<String>,
}

impl View for DeepLinkSlot {
    type V = Option<Seq<char>>;

    closed spec fn view(&self) -> Option<Seq<char>> {
        match self.slot {
            Some(s) => Some(s@),
            None => None,
        }
    }
}

impl DeepLinkSlot {
    /// A slot holding no URL.
    pub fn new() -> (r: DeepLinkSlot)
        ensures
            r@ is None,
    {
        DeepLinkSlot { slot: None }
    }

    /// Records the most recent deep-link URL, replacing any earlier one.
    pub fn record(&mut self, url: String)
        ensures
            final(self)@ == Some(url@),
    {
        self.slot = Some(url);
    }

    /// The last recorded deep-link URL, if any.
    pub fn get_last_deep_link(&self) -> (r: Option<String>)
        ensures
            match r {
                Some(s) => self@ == Some(s@),
                None => self@ is None,
            },
    {
        match &self.slot {
            Some(s) => Some(s.clone()),
            None => None,
        }
    }

    /// Clears the stored deep link.
    pub fn clear_deep_link(&mut self)
        ensures
            final(self)@ is None,
    {
        self.slot = None;
    }
}

} // verus!
