//! Sprite-sheet hot reload: each watched record binds a sheet-metadata path
//! to its companion image path, the texture and sprite-sheet IDs minted at
//! startup, and the animations cut from the sheet's frame tags. When watched
//! files change, matching records are flagged; applying a reload pushes fresh
//! pixel data, clip rectangles and timelines into the renderer, sprite and
//! animation systems under the same IDs, all or nothing per record, and
//! restarts the reloaded animations so playback resumes seamlessly.

use vstd::prelude::*;

use crate::animation::{AnimationID, AnimationModel, AnimationSystem};
use crate::aseprite_data::{
    aseprite_sprite_sheet_frames, reload_aseperite_sprite_sheet_animation, spec_find_tag,
    spec_tag_animation_ok, tag_animation_ok, AsepriteFrame, AsepriteSheetData, SheetDataModel,
};
use crate::file_watch::is_same_file;
use crate::geometry::Rect;
use crate::renderer::{Renderer, RendererModel, TextureID};
use crate::sprites::{SpriteSheetID, SpriteSheetModel, SpriteSystem, SpriteSystemModel};

verus! {

/// One animation cut from a watched sheet: the ID it was registered under and
/// the frame tag it comes from.
#[derive(Debug)]
pub struct AsepriteAnimationData {
    pub animation_id: AnimationID,
    pub frame_tag_name: String,
}

#[verifier::ext_equal]
pub ghost struct AnimationBindingModel {
    pub animation_id: AnimationID,
    pub frame_tag_name: Seq<char>,
}

impl View for AsepriteAnimationData {
    type V = AnimationBindingModel;

    open spec fn view(&self) -> AnimationBindingModel {
        AnimationBindingModel {
            animation_id: self.animation_id,
            frame_tag_name: self.frame_tag_name@,
        }
    }
}

/// One watched sprite sheet.
#[derive(Debug)]
pub struct AsepriteWatchData {
    pub texture_path: String,
    pub texture_id: TextureID,
    pub sprite_sheet_id: SpriteSheetID,
    pub animations: Vec<AsepriteAnimationData>,
    pub should_update: bool,
}

#[verifier::ext_equal]
pub ghost struct WatchDataModel {
    pub texture_path: Seq<char>,
    pub texture_id: TextureID,
    pub sprite_sheet_id: SpriteSheetID,
    pub animations: Seq<AnimationBindingModel>,
    pub should_update: bool,
}

impl View for AsepriteWatchData {
    type V = WatchDataModel;

    open spec fn view(&self) -> WatchDataModel {
        WatchDataModel {
            texture_path: self.texture_path@,
            texture_id: self.texture_id,
            sprite_sheet_id: self.sprite_sheet_id,
            animations: self.animations@.map_values(|a: AsepriteAnimationData| a@),
            should_update: self.should_update,
        }
    }
}

/// The watched sprite sheets, keyed by their metadata path.
pub struct AsepriteReloader {
    watched_sprite_sheets: Vec<(String, AsepriteWatchData)>,
}

impl View for AsepriteReloader {
    type V = Seq<(Seq<char>, WatchDataModel)>;

    closed spec fn view(&self) -> Seq<(Seq<char>, WatchDataModel)> {
        self.watched_sprite_sheets@.map_values(|p: (String, AsepriteWatchData)| (p.0@, p.1@))
    }
}

/// Whether some record carries the given key.
pub open spec fn spec_has_key(s: Seq<(Seq<char>, WatchDataModel)>, key: Seq<char>) -> bool {
    exists|i: int| 0 <= i < s.len() && s[i].0 == key
}

/// The index of the first record with the given key.
pub open spec fn spec_key_index(s: Seq<(Seq<char>, WatchDataModel)>, key: Seq<char>) -> int
    decreases s.len(),
{
    if s.len() == 0 {
        0
    } else if s[0].0 == key {
        0
    } else {
        1 + spec_key_index(s.skip(1), key)
    }
}

/// The clip rectangles of a sheet's frames.
pub open spec fn spec_frames_to_rects(frames: Seq<AsepriteFrame>) -> Seq<Rect> {
    frames.map_values(
        |f: AsepriteFrame| Rect { x: f.x as i32, y: f.y as i32, w: f.w, h: f.h },
    )
}

/// The animation table after reloading every binding of a record in order:
/// each bound animation gets the fresh timeline of its frame tag and is
/// restarted, so it plays from the new first frame.
pub open spec fn spec_reload_animations(
    animations: Seq<AnimationModel>,
    bindings: Seq<AnimationBindingModel>,
    sheet: SheetDataModel,
) -> Seq<AnimationModel>
    decreases bindings.len(),
{
    if bindings.len() == 0 {
        animations
    } else {
        let prev = spec_reload_animations(animations, bindings.drop_last(), sheet);
        let binding = bindings.last();
        let tag = spec_find_tag(sheet.frame_tags, binding.frame_tag_name);
        prev.update(
            binding.animation_id@ as int,
            AnimationModel {
                is_playing: true,
                ..AnimationModel::fresh(
                    tag.from,
                    tag.to,
                    crate::aseprite_data::spec_tag_durations(
                        sheet.frames,
                        tag.from as int,
                        tag.to as int,
                    ),
                )
            },
        )
    }
}

/// Whether a reload of `record` from the given sheet and image data can be
/// applied: the image data is well formed, every ID the record holds is
/// valid, every frame's position fits the clip coordinates, and every bound
/// frame tag names a clip the animation system can take.
pub open spec fn spec_reload_applicable(
    record: WatchDataModel,
    renderer: RendererModel,
    sprites: SpriteSystemModel,
    animations: Seq<AnimationModel>,
    sheet: SheetDataModel,
    rgba_len: nat,
    width: nat,
    height: nat,
) -> bool {
    &&& renderer.valid_texture(record.texture_id)
    &&& rgba_len == 4 * width * height
    &&& width <= i32::MAX
    &&& height <= i32::MAX
    &&& record.sprite_sheet_id@ < sprites.sprite_sheets.len()
    &&& forall|i: int|
        0 <= i < sheet.frames.len() ==> (#[trigger] sheet.frames[i]).x <= i32::MAX
            && sheet.frames[i].y <= i32::MAX
    &&& forall|i: int|
        0 <= i < record.animations.len() ==> (#[trigger] record.animations[i]).animation_id@
            < animations.len() && spec_tag_animation_ok(sheet, record.animations[i].frame_tag_name)
}

impl AsepriteReloader {
    /// Well-formedness: each metadata path is registered at most once.
    pub open spec fn wf(self) -> bool {
        forall|i: int, j: int| 0 <= i < j < self@.len() ==> self@[i].0 != self@[j].0
    }

    /// Whether a record with this key exists.
    pub open spec fn spec_registered(self, json_path: Seq<char>) -> bool {
        spec_has_key(self@, json_path)
    }

    pub fn new() -> (r: AsepriteReloader)
        ensures
            r@ == Seq::<(Seq<char>, WatchDataModel)>::empty(),
            r.wf(),
    {
        let r = AsepriteReloader { watched_sprite_sheets: Vec::new() };
        proof {
            assert(r@ =~= Seq::<(Seq<char>, WatchDataModel)>::empty());
        }
        r
    }

    pub fn is_registered(&self, json_path: &str) -> (r: bool)
        ensures
            r == self.spec_registered(json_path@),
    {
        let mut i: usize = 0;
        let mut found: bool = false;
        while i < self.watched_sprite_sheets.len()
            invariant
                i <= self@.len(),
                self.watched_sprite_sheets@.len() == self@.len(),
                found <==> exists|k: int| 0 <= k < i && (#[trigger] self@[k]).0 == json_path@,
            decreases self@.len() - i,
        {
            if str_eq(self.watched_sprite_sheets[i].0.as_str(), json_path) {
                found = true;
                proof {
                    assert(self@[i as int].0 == json_path@);
                }
            }
            i += 1;
        }
        found
    }

    /// Binds a metadata path to its companion image path and the two IDs the
    /// sheet was registered under; each path is registered once.
    pub fn register_aseprite_sprite_sheet(
        &mut self,
        texture_path: &str,
        json_path: &str,
        texture_id: TextureID,
        sprite_sheet_id: SpriteSheetID,
    )
        requires
            old(self).wf(),
            !old(self).spec_registered(json_path@),
        ensures
            final(self).wf(),
            final(self)@ == old(self)@.push(
                (
                    json_path@,
                    WatchDataModel {
                        texture_path: texture_path@,
                        texture_id,
                        sprite_sheet_id,
                        animations: Seq::empty(),
                        should_update: false,
                    },
                ),
            ),
    {
        let data = AsepriteWatchData {
            texture_path: texture_path.to_owned(),
            texture_id,
            sprite_sheet_id,
            animations: Vec::new(),
            should_update: false,
        };
        self.watched_sprite_sheets.push((json_path.to_owned(), data));
        proof {
            assert(self@ =~~= old(self)@.push(
                (
                    json_path@,
                    WatchDataModel {
                        texture_path: texture_path@,
                        texture_id,
                        sprite_sheet_id,
                        animations: Seq::empty(),
                        should_update: false,
                    },
                ),
            ));
            assert forall|i: int, j: int|
                0 <= i < j < self@.len() implies (#[trigger] self@[i]).0 != (
                #[trigger] self@[j]).0 by {
                if j == self@.len() - 1 {
                    assert(!spec_has_key(old(self)@, json_path@));
                    assert(old(self)@[i].0 != json_path@);
                }
            }
        }
    }

    /// Attaches one named animation to an already registered sheet record.
    pub fn register_aseprite_animation(
        &mut self,
        json_path: &str,
        animation_id: AnimationID,
        frame_tag_name: &str,
    )
        requires
            old(self).wf(),
            old(self).spec_registered(json_path@),
        ensures
            final(self).wf(),
            ({
                let idx = spec_key_index(old(self)@, json_path@);
                let record = old(self)@[idx].1;
                final(self)@ == old(self)@.update(
                    idx,
                    (
                        old(self)@[idx].0,
                        WatchDataModel {
                            animations: record.animations.push(
                                AnimationBindingModel {
                                    animation_id,
                                    frame_tag_name: frame_tag_name@,
                                },
                            ),
                            ..record
                        },
                    ),
                )
            }),
    {
        let idx = self.find_record(json_path);
        let slot = &mut self.watched_sprite_sheets[idx];
        slot.1.animations.push(
            AsepriteAnimationData {
                animation_id,
                frame_tag_name: frame_tag_name.to_owned(),
            },
        );
        proof {
            let i = spec_key_index(old(self)@, json_path@);
            let record = old(self)@[i].1;
            assert(self@ =~~= old(self)@.update(
                i,
                (
                    old(self)@[i].0,
                    WatchDataModel {
                        animations: record.animations.push(
                            AnimationBindingModel { animation_id, frame_tag_name: frame_tag_name@ },
                        ),
                        ..record
                    },
                ),
            ));
        }
    }

    /// Flags every record whose image path or metadata path is one of the
    /// changed files, by filesystem identity. Nothing but the flags changes,
    /// and a flag already set stays set.
    pub fn mark_updated(&mut self, updated_files: &Vec<String>)
        requires
            old(self).wf(),
        ensures
            final(self).wf(),
            final(self)@.len() == old(self)@.len(),
            forall|k: int|
                0 <= k < old(self)@.len() ==> (#[trigger] final(self)@[k]).0 == old(self)@[k].0
                    && final(self)@[k].1 == (WatchDataModel {
                    should_update: final(self)@[k].1.should_update,
                    ..old(self)@[k].1
                }) && (old(self)@[k].1.should_update ==> final(self)@[k].1.should_update),
            forall|k: int|
                0 <= k < old(self)@.len() ==> ((#[trigger] final(self)@[k]).1.should_update && !old(
                    self,
                )@[k].1.should_update ==> updated_files@.len() > 0),
            updated_files@.len() == 0 ==> final(self)@ == old(self)@,
    {
        let ghost orig = self@;
        let mut k: usize = 0;
        while k < self.watched_sprite_sheets.len()
            invariant
                self.watched_sprite_sheets@.len() == orig.len(),
                orig == old(self)@,
                k <= orig.len(),
                forall|q: int|
                    0 <= q < orig.len() ==> (#[trigger] self@[q]).0 == orig[q].0 && self@[q].1
                        == (WatchDataModel {
                        should_update: self@[q].1.should_update,
                        ..orig[q].1
                    }) && (orig[q].1.should_update ==> self@[q].1.should_update),
                forall|q: int|
                    0 <= q < orig.len() ==> ((#[trigger] self@[q]).1.should_update
                        && !orig[q].1.should_update ==> updated_files@.len() > 0),
            decreases orig.len() - k,
        {
            let mut matched: bool = false;
            let mut f: usize = 0;
            while f < updated_files.len()
                invariant
                    k < self.watched_sprite_sheets@.len(),
                    matched ==> updated_files@.len() > 0,
                decreases updated_files@.len() - f,
            {
                let updated_file = &updated_files[f];
                let entry = &self.watched_sprite_sheets[k];
                if is_same_file(updated_file.as_str(), entry.1.texture_path.as_str())
                    || is_same_file(updated_file.as_str(), entry.0.as_str()) {
                    matched = true;
                }
                f += 1;
            }
            if matched {
                let ghost before = self@;
                let slot = &mut self.watched_sprite_sheets[k];
                slot.1.should_update = true;
                proof {
                    assert(self@[k as int].0 == before[k as int].0);
                    assert(self@[k as int].1 =~~= (WatchDataModel {
                        should_update: true,
                        ..before[k as int].1
                    }));
                    assert forall|q: int|
                        0 <= q < orig.len() implies (#[trigger] self@[q]).0 == orig[q].0
                        && self@[q].1 == (WatchDataModel {
                        should_update: self@[q].1.should_update,
                        ..orig[q].1
                    }) && (orig[q].1.should_update ==> self@[q].1.should_update) && (
                    self@[q].1.should_update && !orig[q].1.should_update
                        ==> updated_files@.len() > 0) by {
                        if q != k as int {
                            assert(self@[q] == before[q]);
                        }
                    }
                }
            }
            k += 1;
        }
        proof {
            assert forall|i: int, j: int|
                0 <= i < j < self@.len() implies (#[trigger] self@[i]).0 != (
                #[trigger] self@[j]).0 by {
                assert(self@[i].0 == orig[i].0);
                assert(self@[j].0 == orig[j].0);
            }
            if updated_files@.len() == 0 {
                assert forall|q: int|
                    0 <= q < orig.len() implies (#[trigger] self@[q]).1.should_update
                    == orig[q].1.should_update by {}
                assert(self@ =~~= orig);
            }
        }
    }

    /// The registered image path of the record with the given metadata path;
    /// the reload decodes exactly this file.
    pub fn texture_path(&self, json_path: &str) -> (r: String)
        requires
            self.wf(),
            self.spec_registered(json_path@),
        ensures
            r@ == self@[spec_key_index(self@, json_path@)].1.texture_path,
    {
        let idx = self.find_record(json_path);
        clone_string(&self.watched_sprite_sheets[idx].1.texture_path)
    }

    /// The metadata paths of the records currently flagged for reload, in
    /// registration order.
    pub fn pending_sheets(&self) -> (r: Vec<String>)
        ensures
            r@.map_values(|s: String| s@) == spec_flagged_keys(self@),
    {
        let mut out: Vec<String> = Vec::new();
        let mut k: usize = 0;
        while k < self.watched_sprite_sheets.len()
            invariant
                k <= self@.len(),
                self.watched_sprite_sheets@.len() == self@.len(),
                out@.map_values(|s: String| s@) == spec_flagged_keys(self@.take(k as int)),
            decreases self@.len() - k,
        {
            let ghost prefix = self@.take(k as int);
            proof {
                assert(self@.take(k as int + 1).drop_last() =~= prefix);
                assert(self@.take(k as int + 1).last() == self@[k as int]);
            }
            let entry = &self.watched_sprite_sheets[k];
            if entry.1.should_update {
                out.push(clone_string(&entry.0));
                proof {
                    assert(out@.map_values(|s: String| s@) =~= spec_flagged_keys(
                        self@.take(k as int + 1),
                    ));
                }
            } else {
                proof {
                    assert(out@.map_values(|s: String| s@) =~= spec_flagged_keys(
                        self@.take(k as int + 1),
                    ));
                }
            }
            k += 1;
        }
        proof {
            assert(self@.take(self@.len() as int) =~= self@);
        }
        out
    }

    /// Clears every record's flag; everything else is unchanged.
    pub fn clear_flags(&mut self)
        requires
            old(self).wf(),
        ensures
            final(self).wf(),
            final(self)@.len() == old(self)@.len(),
            forall|k: int|
                0 <= k < old(self)@.len() ==> (#[trigger] final(self)@[k]).0 == old(self)@[k].0
                    && final(self)@[k].1 == (WatchDataModel {
                    should_update: false,
                    ..old(self)@[k].1
                }),
    {
        let ghost orig = self@;
        let mut k: usize = 0;
        while k < self.watched_sprite_sheets.len()
            invariant
                self.watched_sprite_sheets@.len() == orig.len(),
                orig == old(self)@,
                k <= orig.len(),
                forall|q: int|
                    0 <= q < k ==> (#[trigger] self@[q]).0 == orig[q].0 && self@[q].1
                        == (WatchDataModel { should_update: false, ..orig[q].1 }),
                forall|q: int| k <= q < orig.len() ==> #[trigger] self@[q] == orig[q],
            decreases orig.len() - k,
        {
            let ghost before = self@;
            let slot = &mut self.watched_sprite_sheets[k];
            slot.1.should_update = false;
            proof {
                assert(before[k as int] == orig[k as int]);
                assert(self@[k as int].0 == before[k as int].0);
                assert(self@[k as int].1 =~~= (WatchDataModel {
                    should_update: false,
                    ..before[k as int].1
                }));
                assert forall|q: int| 0 <= q < orig.len() && q != k as int implies self@[q]
                    == before[q] by {}
                assert forall|q: int|
                    0 <= q < k + 1 implies (#[trigger] self@[q]).0 == orig[q].0 && self@[q].1
                    == (WatchDataModel { should_update: false, ..orig[q].1 }) by {
                    if q != k as int {
                        assert(self@[q] == before[q]);
                        assert((before[q]).0 == orig[q].0);
                    } else {
                        assert(before[k as int] == orig[k as int]);
                    }
                }
                assert forall|q: int|
                    k + 1 <= q < orig.len() implies #[trigger] self@[q] == orig[q] by {
                    assert(self@[q] == before[q]);
                    assert(before[q] == orig[q]);
                }
            }
            k += 1;
        }
        proof {
            assert forall|i: int, j: int|
                0 <= i < j < self@.len() implies (#[trigger] self@[i]).0 != (
                #[trigger] self@[j]).0 by {
                assert(self@[i].0 == orig[i].0);
                assert(self@[j].0 == orig[j].0);
            }
        }
    }

    /// Applies one record's reload from freshly parsed sheet metadata and
    /// freshly decoded image bytes. When everything the record refers to
    /// checks out, the texture, the sprite sheet and every bound animation
    /// are replaced in place under their existing IDs and the animations are
    /// restarted; otherwise nothing at all is changed, so a failed reload
    /// never corrupts the previously valid state. Returns whether the reload
    /// was applied.
    pub fn apply_reload(
        &self,
        json_path: &str,
        renderer: &mut Renderer,
        sprite_system: &mut SpriteSystem,
        animation_system: &mut AnimationSystem,
        sprite_sheet_data: &AsepriteSheetData,
        rgba_data: &[u8],
        width: u32,
        height: u32,
    ) -> (applied: bool)
        requires
            self.wf(),
            self.spec_registered(json_path@),
            old(renderer).wf(),
            old(sprite_system).wf(),
            old(animation_system).wf(),
        ensures
            final(renderer).wf(),
            final(sprite_system).wf(),
            final(animation_system).wf(),
            ({
                let record = self@[spec_key_index(self@, json_path@)].1;
                let ok = spec_reload_applicable(
                    record,
                    old(renderer)@,
                    old(sprite_system)@,
                    old(animation_system)@,
                    sprite_sheet_data@,
                    rgba_data@.len(),
                    width as nat,
                    height as nat,
                );
                &&& applied == ok
                &&& if ok {
                    &&& final(renderer)@ == old(renderer)@.spec_reload_texture(
                        record.texture_id,
                        rgba_data@,
                        width as nat,
                        height as nat,
                    )
                    &&& final(sprite_system)@ == (SpriteSystemModel {
                        sprite_sheets: old(sprite_system)@.sprite_sheets.update(
                            record.sprite_sheet_id@ as int,
                            SpriteSheetModel {
                                texture_id: record.texture_id,
                                sprites: spec_frames_to_rects(sprite_sheet_data@.frames),
                                color_key: None,
                            },
                        ),
                        ..old(sprite_system)@
                    })
                    &&& final(animation_system)@ == spec_reload_animations(
                        old(animation_system)@,
                        record.animations,
                        sprite_sheet_data@,
                    )
                } else {
                    &&& final(renderer)@ == old(renderer)@
                    &&& final(sprite_system)@ == old(sprite_system)@
                    &&& final(animation_system)@ == old(animation_system)@
                }
            }),
    {
        let idx = self.find_record(json_path);
        let record = &self.watched_sprite_sheets[idx].1;
        let ghost record_model = self@[spec_key_index(self@, json_path@)].1;
        proof {
            assert(record@ == record_model);
        }

        // check everything the reload needs before touching any state
        let texture_ok = renderer.has_texture(record.texture_id);
        let dims_ok = width <= i32::MAX as u32 && height <= i32::MAX as u32;
        let mut data_ok: bool = false;
        if dims_ok {
            proof {
                assert(0 <= 4 * (width as int) * (height as int) < 0x1_0000_0000_0000_0000)
                    by (nonlinear_arith)
                    requires
                        0 <= width as int <= 0x7fff_ffff,
                        0 <= height as int <= 0x7fff_ffff,
                ;
            }
            data_ok = rgba_data.len() as u64 == 4 * (width as u64) * (height as u64);
        }
        let sheet_ok = sprite_system.has_sheet(record.sprite_sheet_id);
        let frames_ok = frames_in_range(sprite_sheet_data);
        let mut bindings_ok: bool = true;
        let mut b: usize = 0;
        while b < record.animations.len()
            invariant
                record_model == record@,
                b <= record.animations@.len(),
                animation_system@ == old(animation_system)@,
                animation_system.wf(),
                bindings_ok == (forall|i: int|
                    0 <= i < b ==> (#[trigger] record_model.animations[i]).animation_id@ < old(
                        animation_system,
                    )@.len() && spec_tag_animation_ok(
                        sprite_sheet_data@,
                        record_model.animations[i].frame_tag_name,
                    )),
            decreases record.animations@.len() - b,
        {
            let binding = &record.animations[b];
            proof {
                assert(record_model.animations[b as int] == record.animations@[b as int]@);
            }
            if !animation_system.has_animation(binding.animation_id) || !tag_animation_ok(
                sprite_sheet_data,
                binding.frame_tag_name.as_str(),
            ) {
                bindings_ok = false;
            }
            b += 1;
        }

        let ok = texture_ok && dims_ok && data_ok && sheet_ok && frames_ok && bindings_ok;
        proof {
            assert(ok == spec_reload_applicable(
                record_model,
                old(renderer)@,
                old(sprite_system)@,
                old(animation_system)@,
                sprite_sheet_data@,
                rgba_data@.len(),
                width as nat,
                height as nat,
            ));
        }
        if !ok {
            return false;
        }

        // everything checked out: replace texture, sheet and timelines in place
        renderer.reload_texture(record.texture_id, rgba_data, width, height);

        let frames = aseprite_sprite_sheet_frames(sprite_sheet_data);
        proof {
            assert(frames@ =~= spec_frames_to_rects(sprite_sheet_data@.frames));
        }
        sprite_system.reload_sprite_sheet(
            record.sprite_sheet_id,
            record.texture_id,
            frames.as_slice(),
            None,
        );

        let mut b: usize = 0;
        while b < record.animations.len()
            invariant
                record_model.animations.len() == record.animations@.len(),
                forall|i: int|
                    0 <= i < record_model.animations.len() ==> record_model.animations[i] == (
                    #[trigger] record.animations@[i])@,
                b <= record.animations@.len(),
                forall|i: int|
                    0 <= i < record_model.animations.len() ==> (
                    #[trigger] record_model.animations[i]).animation_id@ < old(
                        animation_system,
                    )@.len() && spec_tag_animation_ok(
                        sprite_sheet_data@,
                        record_model.animations[i].frame_tag_name,
                    ),
                animation_system.wf(),
                animation_system@ == spec_reload_animations(
                    old(animation_system)@,
                    record_model.animations.take(b as int),
                    sprite_sheet_data@,
                ),
                animation_system@.len() == old(animation_system)@.len(),
            decreases record.animations@.len() - b,
        {
            let binding = &record.animations[b];
            proof {
                assert(record_model.animations[b as int] == record.animations@[b as int]@);
                assert(record_model.animations.take(b as int + 1).drop_last()
                    =~= record_model.animations.take(b as int));
                assert(record_model.animations.take(b as int + 1).last()
                    == record_model.animations[b as int]);
            }
            reload_aseperite_sprite_sheet_animation(
                binding.animation_id,
                animation_system,
                sprite_sheet_data,
                binding.frame_tag_name.as_str(),
            );
            animation_system.restart_animation(binding.animation_id);
            proof {
                let tag = spec_find_tag(sprite_sheet_data@.frame_tags, binding.frame_tag_name@);
                let fresh = AnimationModel::fresh(
                    tag.from,
                    tag.to,
                    crate::aseprite_data::spec_tag_durations(
                        sprite_sheet_data@.frames,
                        tag.from as int,
                        tag.to as int,
                    ),
                );
                let prev = spec_reload_animations(
                    old(animation_system)@,
                    record_model.animations.take(b as int),
                    sprite_sheet_data@,
                );
                let id = binding.animation_id@ as int;
                assert(animation_system@ =~= prev.update(id, fresh).update(
                    id,
                    AnimationModel {
                        is_playing: true,
                        current_frame: fresh.from,
                        playback_pos_ms: 0nat,
                        ..fresh
                    },
                ));
                assert(prev.update(id, fresh).update(
                    id,
                    AnimationModel {
                        is_playing: true,
                        current_frame: fresh.from,
                        playback_pos_ms: 0nat,
                        ..fresh
                    },
                ) =~= spec_reload_animations(
                    old(animation_system)@,
                    record_model.animations.take(b as int + 1),
                    sprite_sheet_data@,
                ));
            }
            b += 1;
        }
        proof {
            assert(record_model.animations.take(record_model.animations.len() as int)
                =~= record_model.animations);
        }
        true
    }

    /// The index of the record registered under `json_path`.
    fn find_record(&self, json_path: &str) -> (r: usize)
        requires
            self.wf(),
            self.spec_registered(json_path@),
        ensures
            r == spec_key_index(self@, json_path@),
            r < self@.len(),
            self@[r as int].0 == json_path@,
    {
        let num = self.watched_sprite_sheets.len();
        proof {
            assert(self@.skip(0) =~= self@);
        }
        let mut j: usize = 0;
        loop
            invariant
                num == self@.len(),
                j < num,
                self.watched_sprite_sheets@.len() == self@.len(),
                spec_has_key(self@, json_path@),
                forall|k: int| 0 <= k < j ==> (#[trigger] self@[k]).0 != json_path@,
                spec_key_index(self@, json_path@) == j + spec_key_index(
                    self@.skip(j as int),
                    json_path@,
                ),
            ensures
                j < self@.len(),
                self@[j as int].0 == json_path@,
                j == spec_key_index(self@, json_path@),
            decreases self@.len() - j,
        {
            let entry = &self.watched_sprite_sheets[j];
            if str_eq(entry.0.as_str(), json_path) {
                proof {
                    let tail = self@.skip(j as int);
                    assert(tail[0] == self@[j as int]);
                }
                break ;
            }
            proof {
                let tail = self@.skip(j as int);
                assert(tail[0] == self@[j as int]);
                assert(tail.skip(1) =~= self@.skip(j as int + 1));
                let w = choose|i: int| 0 <= i < self@.len() && (#[trigger] self@[i]).0 == json_path@;
                assert(w > j);
                assert(j + 1 < self@.len());
            }
            j += 1;
        }
        j
    }
}

/// The keys of the flagged records, in order.
pub open spec fn spec_flagged_keys(s: Seq<(Seq<char>, WatchDataModel)>) -> Seq<Seq<char>>
    decreases s.len(),
{
    if s.len() == 0 {
        Seq::empty()
    } else {
        let rest = spec_flagged_keys(s.drop_last());
        if s.last().1.should_update {
            rest.push(s.last().0)
        } else {
            rest
        }
    }
}

/// Every frame's clip position fits the signed clip coordinates.
fn frames_in_range(sheet: &AsepriteSheetData) -> (r: bool)
    ensures
        r == (forall|i: int|
            0 <= i < sheet@.frames.len() ==> (#[trigger] sheet@.frames[i]).x <= i32::MAX
                && sheet@.frames[i].y <= i32::MAX),
{
    let mut i: usize = 0;
    let mut ok: bool = true;
    while i < sheet.frames.len()
        invariant
            i <= sheet@.frames.len(),
            ok == (forall|k: int|
                0 <= k < i ==> (#[trigger] sheet@.frames[k]).x <= i32::MAX && sheet@.frames[k].y
                    <= i32::MAX),
        decreases sheet@.frames.len() - i,
    {
        let frame = sheet.frames[i];
        if frame.x > i32::MAX as u32 || frame.y > i32::MAX as u32 {
            ok = false;
        }
        i += 1;
    }
    ok
}

/// Compares two string slices character for character.
fn str_eq(a: &str, b: &str) -> (r: bool)
    ensures
        r == (a@ == b@),
{
    let owned: String = a.to_owned();
    owned == b.to_owned()
}

/// Clones a string, keeping its characters.
fn clone_string(s: &String) -> (r: String)
    ensures
        r@ == s@,
{
    s.clone()
}

} // verus!
