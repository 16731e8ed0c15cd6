//! Font resource handles: opaque IDs for loaded fonts, minted monotonically
//! by the text system that owns the rasterized glyphs. Rasterization itself
//! happens outside the library.

use vstd::prelude::*;

verus! {

/// Opaque handle for one loaded font, minted by [`FontIds`], never reused.
#[derive(Debug, Clone, Copy, PartialEq, Eq, Hash, Structural)]
pub struct FontID(u32);

impl View for FontID {
    type V = nat;

    closed spec fn view(&self) -> nat {
        self.0 as nat
    }
}

/// The text system's ID counter.
pub struct FontIds {
    next_id: u32,
}

impl View for FontIds {
    type V = nat;

    closed spec fn view(&self) -> nat {
        self.next_id as nat
    }
}

impl FontIds {
    pub fn new() -> (r: FontIds)
        ensures
            r@ == 0,
    {
        FontIds { next_id: 0 }
    }

    /// Mints the next font ID; every call returns a fresh value.
    pub fn make_id(&mut self) -> (r: FontID)
        requires
            old(self)@ < u32::MAX,
        ensures
            r@ == old(self)@,
            final(self)@ == old(self)@ + 1,
    {
        let id = FontID(self.next_id);
        self.next_id = self.next_id + 1;
        id
    }
}

/// The fonts loaded at startup, by handle.
pub struct LoadedFonts {
    pub arial_16: FontID,
}

} // verus!
