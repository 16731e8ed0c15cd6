//! Audio resource handles: opaque IDs for sounds and music tracks, minted
//! monotonically by the audio system that owns the decoded buffers. The
//! playback device itself lives outside the library; these IDs are the keys
//! other systems hold long-term, for example across a hot reload.

use vstd::prelude::*;

verus! {

/// Opaque handle for one sound effect, minted by [`AudioIds`], never reused.
#[derive(Debug, Clone, Copy, PartialEq, Eq, Hash, Structural)]
pub struct SoundID(u32);

impl View for SoundID {
    type V = nat;

    closed spec fn view(&self) -> nat {
        self.0 as nat
    }
}

/// Opaque handle for one music track, minted by [`AudioIds`], never reused.
#[derive(Debug, Clone, Copy, PartialEq, Eq, Hash, Structural)]
pub struct MusicID(u32);

impl View for MusicID {
    type V = nat;

    closed spec fn view(&self) -> nat {
        self.0 as nat
    }
}

/// The audio system's ID counters: sound and music IDs are minted from
/// separate monotonically increasing counters and never reused.
pub struct AudioIds {
    next_sound_id: u32,
    next_music_id: u32,
}

#[verifier::ext_equal]
pub ghost struct AudioIdsModel {
    pub next_sound_id: nat,
    pub next_music_id: nat,
}

impl View for AudioIds {
    type V = AudioIdsModel;

    closed spec fn view(&self) -> AudioIdsModel {
        AudioIdsModel {
            next_sound_id: self.next_sound_id as nat,
            next_music_id: self.next_music_id as nat,
        }
    }
}

impl AudioIds {
    pub fn new() -> (r: AudioIds)
        ensures
            r@ == (AudioIdsModel { next_sound_id: 0nat, next_music_id: 0nat }),
    {
        let r = AudioIds { next_sound_id: 0, next_music_id: 0 };
        proof {
            assert(r@ =~= (AudioIdsModel { next_sound_id: 0nat, next_music_id: 0nat }));
        }
        r
    }

    /// Mints the next sound ID; every call returns a fresh value.
    pub fn generate_sound_id(&mut self) -> (r: SoundID)
        requires
            old(self)@.next_sound_id < u32::MAX,
        ensures
            r@ == old(self)@.next_sound_id,
            final(self)@ == (AudioIdsModel {
                next_sound_id: old(self)@.next_sound_id + 1,
                ..old(self)@
            }),
    {
        let id = SoundID(self.next_sound_id);
        self.next_sound_id = self.next_sound_id + 1;
        proof {
            assert(self@ =~= (AudioIdsModel {
                next_sound_id: old(self)@.next_sound_id + 1,
                ..old(self)@
            }));
        }
        id
    }

    /// Mints the next music ID; every call returns a fresh value.
    pub fn generate_music_id(&mut self) -> (r: MusicID)
        requires
            old(self)@.next_music_id < u32::MAX,
        ensures
            r@ == old(self)@.next_music_id,
            final(self)@ == (AudioIdsModel {
                next_music_id: old(self)@.next_music_id + 1,
                ..old(self)@
            }),
    {
        let id = MusicID(self.next_music_id);
        self.next_music_id = self.next_music_id + 1;
        proof {
            assert(self@ =~= (AudioIdsModel {
                next_music_id: old(self)@.next_music_id + 1,
                ..old(self)@
            }));
        }
        id
    }
}

} // verus!
