//! Fullscreen toggling support: remembers the last windowed placement so that
//! leaving fullscreen can restore it. Reading and setting the actual window
//! happens outside the library; this keeps the state those calls need.

use vstd::prelude::*;

verus! {

pub struct FullscreenSystem {
    last_windowed_pos: (i32, i32),
    last_windowed_size: (u32, u32),
}

/// Mathematical model of the fullscreen bookkeeping.
#[verifier::ext_equal]
pub ghost struct FullscreenModel {
    pub last_windowed_pos: (i32, i32),
    pub last_windowed_size: (u32, u32),
}

impl View for FullscreenSystem {
    type V = FullscreenModel;

    closed spec fn view(&self) -> FullscreenModel {
        FullscreenModel {
            last_windowed_pos: self.last_windowed_pos,
            last_windowed_size: self.last_windowed_size,
        }
    }
}

impl FullscreenSystem {
    pub fn new() -> (r: FullscreenSystem)
        ensures
            r@ == (FullscreenModel { last_windowed_pos: (0, 0), last_windowed_size: (0, 0) }),
    {
        let r = FullscreenSystem { last_windowed_pos: (0, 0), last_windowed_size: (0, 0) };
        proof {
            assert(r@ =~= (FullscreenModel {
                last_windowed_pos: (0, 0),
                last_windowed_size: (0, 0),
            }));
        }
        r
    }

    /// One per-frame update with the window's current mode and placement:
    /// while the window is in windowed mode its placement is remembered, so
    /// that leaving fullscreen later can restore it.
    pub fn update(&mut self, windowed: bool, x: i32, y: i32, width: u32, height: u32)
        ensures
            final(self)@ == if windowed {
                FullscreenModel { last_windowed_pos: (x, y), last_windowed_size: (width, height) }
            } else {
                old(self)@
            },
    {
        if windowed {
            self.last_windowed_pos = (x, y);
            self.last_windowed_size = (width, height);
        }
        proof {
            assert(self@ =~= if windowed {
                FullscreenModel { last_windowed_pos: (x, y), last_windowed_size: (width, height) }
            } else {
                old(self)@
            });
        }
    }

    /// The placement to restore when leaving fullscreen.
    pub fn last_windowed_pos(&self) -> (r: (i32, i32))
        ensures
            r == self@.last_windowed_pos,
    {
        self.last_windowed_pos
    }

    pub fn last_windowed_size(&self) -> (r: (u32, u32))
        ensures
            r == self@.last_windowed_size,
    {
        self.last_windowed_size
    }
}

} // verus!
