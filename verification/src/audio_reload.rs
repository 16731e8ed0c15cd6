//! Audio hot reload: a map from registered sound IDs to the file paths their
//! buffers were decoded from. When watched files change, the reloader names
//! the sounds whose backing file is the changed one (by filesystem identity),
//! so the audio system can decode them again in place under the same ID.

use vstd::prelude::*;

use crate::audio::SoundID;
use crate::file_watch::is_same_file;

verus! {

/// The registered sounds and their backing paths.
pub struct AudioReloader {
    sounds: Vec<(SoundID, String)>,
}

impl View for AudioReloader {
    type V = Seq<(SoundID, Seq<char>)>;

    closed spec fn view(&self) -> Seq<(SoundID, Seq<char>)> {
        self.sounds@.map_values(|p: (SoundID, String)| (p.0, p.1@))
    }
}

impl AudioReloader {
    /// Whether a sound is already registered.
    pub open spec fn spec_registered(self, id: SoundID) -> bool {
        exists|i: int| 0 <= i < self@.len() && self@[i].0 == id
    }

    pub fn new() -> (r: AudioReloader)
        ensures
            r@ == Seq::<(SoundID, Seq<char>)>::empty(),
    {
        let r = AudioReloader { sounds: Vec::new() };
        proof {
            assert(r@ =~= Seq::<(SoundID, Seq<char>)>::empty());
        }
        r
    }

    pub fn is_registered(&self, id: SoundID) -> (r: bool)
        ensures
            r == self.spec_registered(id),
    {
        let mut i: usize = 0;
        let mut found: bool = false;
        while i < self.sounds.len()
            invariant
                i <= self@.len(),
                self.sounds@.len() == self@.len(),
                found <==> exists|k: int| 0 <= k < i && self@[k].0 == id,
            decreases self@.len() - i,
        {
            if self.sounds[i].0 == id {
                found = true;
                proof {
                    assert(self@[i as int].0 == id);
                }
            }
            i += 1;
        }
        found
    }

    /// Binds a sound ID to the path its buffer comes from; each ID is
    /// registered once.
    pub fn register_sound(&mut self, id: SoundID, path: &str)
        requires
            !old(self).spec_registered(id),
        ensures
            final(self)@ == old(self)@.push((id, path@)),
    {
        self.sounds.push((id, path.to_owned()));
        proof {
            assert(self@ =~= old(self)@.push((id, path@)));
        }
    }

    /// Names the registered sounds whose backing file is one of the changed
    /// files, by filesystem identity. Every returned pair is a registered
    /// entry, and an empty batch of changed files names no sound at all;
    /// which entries a nonempty batch matches depends on what is on disk.
    pub fn update(&self, updated_files: &Vec<String>) -> (r: Vec<(SoundID, String)>)
        ensures
            forall|k: int|
                0 <= k < r@.len() ==> self@.contains(((#[trigger] r@[k]).0, r@[k].1@)),
            updated_files@.len() == 0 ==> r@.len() == 0,
    {
        let mut out: Vec<(SoundID, String)> = Vec::new();
        let mut f: usize = 0;
        while f < updated_files.len()
            invariant
                forall|k: int|
                    0 <= k < out@.len() ==> self@.contains(((#[trigger] out@[k]).0, out@[k].1@)),
                out@.len() > 0 ==> updated_files@.len() > 0,
            decreases updated_files@.len() - f,
        {
            let updated_file = &updated_files[f];
            let mut i: usize = 0;
            while i < self.sounds.len()
                invariant
                    self.sounds@.len() == self@.len(),
                    i <= self@.len(),
                    f < updated_files@.len(),
                    forall|k: int|
                        0 <= k < out@.len() ==> self@.contains(
                            ((#[trigger] out@[k]).0, out@[k].1@),
                        ),
                decreases self@.len() - i,
            {
                let entry = &self.sounds[i];
                if is_same_file(updated_file.as_str(), entry.1.as_str()) {
                    let pair = (entry.0, clone_string(&entry.1));
                    proof {
                        assert(self@[i as int] == (pair.0, pair.1@));
                        assert(self@.contains((pair.0, pair.1@)));
                    }
                    out.push(pair);
                }
                i += 1;
            }
            f += 1;
        }
        out
    }
}

/// Clones a string, keeping its characters.
fn clone_string(s: &String) -> (r: String)
    ensures
        r@ == s@,
{
    s.clone()
}

} // verus!
