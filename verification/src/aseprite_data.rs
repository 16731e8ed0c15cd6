//! Sprite-sheet metadata as exported by a sprite editor: one clip rectangle
//! and display duration per frame, plus named frame tags that slice the frame
//! list into animation clips. The loader that parses the JSON hands the data
//! over in this form; everything here works on these plain values.

use vstd::prelude::*;

use crate::animation::{
    lemma_sum_take_le, lemma_sum_take_mono, lemma_sum_take_succ, sum_of, AnimationID,
    AnimationModel, AnimationSystem,
};
use crate::geometry::Rect;

verus! {

/// One frame of a sprite sheet: its clip rectangle in the texture and how
/// long it is displayed.
#[derive(Debug, Clone, Copy, PartialEq, Eq, Structural)]
pub struct AsepriteFrame {
    pub x: u32,
    pub y: u32,
    pub w: u32,
    pub h: u32,
    pub duration: u32,
}

/// A named range of frames forming one animation clip.
#[derive(Debug)]
pub struct AsepriteFrameTag {
    pub name: String,
    pub from: u32,
    pub to: u32,
}

#[verifier::ext_equal]
pub ghost struct FrameTagModel {
    pub name: Seq<char>,
    pub from: nat,
    pub to: nat,
}

impl View for AsepriteFrameTag {
    type V = FrameTagModel;

    open spec fn view(&self) -> FrameTagModel {
        FrameTagModel { name: self.name@, from: self.from as nat, to: self.to as nat }
    }
}

/// The metadata of one sprite sheet.
#[derive(Debug)]
pub struct AsepriteSheetData {
    pub frames: Vec<AsepriteFrame>,
    pub frame_tags: Vec<AsepriteFrameTag>,
}

#[verifier::ext_equal]
pub ghost struct SheetDataModel {
    pub frames: Seq<AsepriteFrame>,
    pub frame_tags: Seq<FrameTagModel>,
}

impl View for AsepriteSheetData {
    type V = SheetDataModel;

    open spec fn view(&self) -> SheetDataModel {
        SheetDataModel {
            frames: self.frames@,
            frame_tags: self.frame_tags@.map_values(|t: AsepriteFrameTag| t@),
        }
    }
}

/// Whether some tag carries the given name.
pub open spec fn spec_has_tag(tags: Seq<FrameTagModel>, name: Seq<char>) -> bool {
    exists|i: int| 0 <= i < tags.len() && tags[i].name == name
}

/// The first tag with the given name.
pub open spec fn spec_find_tag(tags: Seq<FrameTagModel>, name: Seq<char>) -> FrameTagModel
    decreases tags.len(),
{
    if tags.len() == 0 {
        FrameTagModel { name: Seq::empty(), from: 0, to: 0 }
    } else if tags[0].name == name {
        tags[0]
    } else {
        spec_find_tag(tags.skip(1), name)
    }
}

/// The per-frame display durations of the frames `from ..= to`.
pub open spec fn spec_tag_durations(frames: Seq<AsepriteFrame>, from: int, to: int) -> Seq<u32> {
    frames.subrange(from, to + 1).map_values(|f: AsepriteFrame| f.duration)
}

/// Maps every frame of the sheet to its clip rectangle, in order.
pub fn aseprite_sprite_sheet_frames(sprite_sheet_data: &AsepriteSheetData) -> (r: Vec<Rect>)
    requires
        forall|i: int|
            0 <= i < sprite_sheet_data@.frames.len() ==> (#[trigger] sprite_sheet_data@.frames[i]).x
                <= i32::MAX && sprite_sheet_data@.frames[i].y <= i32::MAX,
    ensures
        r@.len() == sprite_sheet_data@.frames.len(),
        forall|i: int|
            0 <= i < r@.len() ==> #[trigger] r@[i] == (Rect {
                x: sprite_sheet_data@.frames[i].x as i32,
                y: sprite_sheet_data@.frames[i].y as i32,
                w: sprite_sheet_data@.frames[i].w,
                h: sprite_sheet_data@.frames[i].h,
            }),
{
    let mut out: Vec<Rect> = Vec::new();
    let mut i: usize = 0;
    while i < sprite_sheet_data.frames.len()
        invariant
            i <= sprite_sheet_data@.frames.len(),
            forall|k: int|
                0 <= k < sprite_sheet_data@.frames.len() ==> (
                #[trigger] sprite_sheet_data@.frames[k]).x <= i32::MAX
                    && sprite_sheet_data@.frames[k].y <= i32::MAX,
            out@.len() == i,
            forall|k: int|
                0 <= k < i ==> #[trigger] out@[k] == (Rect {
                    x: sprite_sheet_data@.frames[k].x as i32,
                    y: sprite_sheet_data@.frames[k].y as i32,
                    w: sprite_sheet_data@.frames[k].w,
                    h: sprite_sheet_data@.frames[k].h,
                }),
        decreases sprite_sheet_data@.frames.len() - i,
    {
        let frame = sprite_sheet_data.frames[i];
        out.push(
            Rect { x: frame.x as i32, y: frame.y as i32, w: frame.w, h: frame.h },
        );
        i += 1;
    }
    out
}

/// The first frame tag with the given name; the tag must exist.
pub fn sprite_sheet_frame_tag(sprite_sheet: &AsepriteSheetData, frame_tag_name: &str) -> (r:
    AsepriteFrameTag)
    requires
        spec_has_tag(sprite_sheet@.frame_tags, frame_tag_name@),
    ensures
        r@ == spec_find_tag(sprite_sheet@.frame_tags, frame_tag_name@),
{
    let want: String = frame_tag_name.to_owned();
    let num_tags = sprite_sheet.frame_tags.len();
    proof {
        assert(sprite_sheet@.frame_tags.skip(0) =~= sprite_sheet@.frame_tags);
    }
    let mut j: usize = 0;
    loop
        invariant
            num_tags == sprite_sheet@.frame_tags.len(),
            j < num_tags,
            want@ == frame_tag_name@,
            spec_has_tag(sprite_sheet@.frame_tags, frame_tag_name@),
            forall|k: int| 0 <= k < j ==> (#[trigger] sprite_sheet@.frame_tags[k]).name
                != frame_tag_name@,
            spec_find_tag(sprite_sheet@.frame_tags, frame_tag_name@) == spec_find_tag(
                sprite_sheet@.frame_tags.skip(j as int),
                frame_tag_name@,
            ),
        ensures
            j < sprite_sheet@.frame_tags.len(),
            sprite_sheet@.frame_tags[j as int] == spec_find_tag(
                sprite_sheet@.frame_tags,
                frame_tag_name@,
            ),
        decreases sprite_sheet@.frame_tags.len() - j,
    {
        let tag = &sprite_sheet.frame_tags[j];
        if tag.name == want {
            proof {
                let tail = sprite_sheet@.frame_tags.skip(j as int);
                assert(tail[0] == sprite_sheet@.frame_tags[j as int]);
            }
            break ;
        }
        proof {
            let tail = sprite_sheet@.frame_tags.skip(j as int);
            assert(tail[0] == sprite_sheet@.frame_tags[j as int]);
            assert(tail.skip(1) =~= sprite_sheet@.frame_tags.skip(j as int + 1));
            let w = choose|i: int|
                0 <= i < sprite_sheet@.frame_tags.len() && sprite_sheet@.frame_tags[i].name
                    == frame_tag_name@;
            assert(w > j);
            assert(j + 1 < sprite_sheet@.frame_tags.len());
        }
        j += 1;
    }
    let tag = &sprite_sheet.frame_tags[j];
    AsepriteFrameTag { name: clone_string(&tag.name), from: tag.from, to: tag.to }
}

/// Clones a string, keeping its characters.
fn clone_string(s: &String) -> (r: String)
    ensures
        r@ == s@,
{
    s.clone()
}

/// The preconditions under which a named tag of a sheet can feed the
/// animation system: the tag exists, its frame range lies inside the sheet,
/// and the durations of that range sum within the millisecond counter.
pub open spec fn spec_tag_animation_ok(sheet: SheetDataModel, name: Seq<char>) -> bool {
    let tag = spec_find_tag(sheet.frame_tags, name);
    &&& spec_has_tag(sheet.frame_tags, name)
    &&& tag.from <= tag.to
    &&& tag.to < sheet.frames.len()
    &&& sum_of(spec_tag_durations(sheet.frames, tag.from as int, tag.to as int)) <= u32::MAX
}

/// Registers the animation clip of one named frame tag: frames
/// `tag.from ..= tag.to` with their durations, as a fresh animation.
pub fn add_asperite_sprite_sheet_animation(
    animation_system: &mut AnimationSystem,
    sprite_sheet: &AsepriteSheetData,
    frame_tag_name: &str,
) -> (r: AnimationID)
    requires
        old(animation_system).wf(),
        old(animation_system)@.len() < u32::MAX,
        spec_tag_animation_ok(sprite_sheet@, frame_tag_name@),
    ensures
        final(animation_system).wf(),
        r@ == old(animation_system)@.len(),
        ({
            let tag = spec_find_tag(sprite_sheet@.frame_tags, frame_tag_name@);
            final(animation_system)@ == old(animation_system)@.push(
                AnimationModel::fresh(
                    tag.from,
                    tag.to,
                    spec_tag_durations(sprite_sheet@.frames, tag.from as int, tag.to as int),
                ),
            )
        }),
{
    let frame_tag = sprite_sheet_frame_tag(sprite_sheet, frame_tag_name);
    let from = frame_tag.from as usize;
    let to = frame_tag.to as usize;
    let frame_periods_ms = tag_durations(sprite_sheet, from, to);

    animation_system.add_animation(from, to, frame_periods_ms.as_slice())
}

/// Replaces the timeline of an existing animation with one named frame tag's
/// clip; used by hot reload. The ID stays valid and the animation is left
/// stopped at the clip's first frame.
pub fn reload_aseperite_sprite_sheet_animation(
    id: AnimationID,
    animation_system: &mut AnimationSystem,
    sprite_sheet: &AsepriteSheetData,
    frame_tag_name: &str,
)
    requires
        old(animation_system).wf(),
        old(animation_system).valid_id(id),
        spec_tag_animation_ok(sprite_sheet@, frame_tag_name@),
    ensures
        final(animation_system).wf(),
        ({
            let tag = spec_find_tag(sprite_sheet@.frame_tags, frame_tag_name@);
            final(animation_system)@ == old(animation_system)@.update(
                id@ as int,
                AnimationModel::fresh(
                    tag.from,
                    tag.to,
                    spec_tag_durations(sprite_sheet@.frames, tag.from as int, tag.to as int),
                ),
            )
        }),
{
    let frame_tag = sprite_sheet_frame_tag(sprite_sheet, frame_tag_name);
    let from = frame_tag.from as usize;
    let to = frame_tag.to as usize;
    let frame_periods_ms = tag_durations(sprite_sheet, from, to);

    animation_system.reload_animation(id, from, to, frame_periods_ms.as_slice());
}

/// Decides whether a named tag of a sheet can feed the animation system:
/// the tag exists, its frame range lies inside the sheet, and the durations
/// of that range sum within the millisecond counter.
#[verifier::loop_isolation(false)]
pub fn tag_animation_ok(sprite_sheet: &AsepriteSheetData, frame_tag_name: &str) -> (r: bool)
    ensures
        r == spec_tag_animation_ok(sprite_sheet@, frame_tag_name@),
{
    // does the tag exist at all?
    let want: String = frame_tag_name.to_owned();
    let mut any: bool = false;
    let mut j: usize = 0;
    while j < sprite_sheet.frame_tags.len()
        invariant
            j <= sprite_sheet@.frame_tags.len(),
            sprite_sheet.frame_tags@.len() == sprite_sheet@.frame_tags.len(),
            want@ == frame_tag_name@,
            any <==> exists|k: int|
                0 <= k < j && (#[trigger] sprite_sheet@.frame_tags[k]).name == frame_tag_name@,
        decreases sprite_sheet@.frame_tags.len() - j,
    {
        let tag = &sprite_sheet.frame_tags[j];
        if tag.name == want {
            any = true;
            proof {
                assert(sprite_sheet@.frame_tags[j as int].name == frame_tag_name@);
            }
        }
        j += 1;
    }
    if !any {
        return false;
    }

    let tag = sprite_sheet_frame_tag(sprite_sheet, frame_tag_name);
    if tag.from > tag.to {
        return false;
    }
    let num_frames = sprite_sheet.frames.len();
    if tag.to as usize >= num_frames {
        return false;
    }

    // the durations of the clip must sum within the millisecond counter
    let from = tag.from as usize;
    let to = tag.to as usize;
    let ghost durs = spec_tag_durations(sprite_sheet@.frames, from as int, to as int);
    let mut total: u64 = 0;
    let mut i: usize = from;
    while i <= to
        invariant
            num_frames == sprite_sheet@.frames.len(),
            from <= i <= to + 1,
            to < num_frames,
            durs == spec_tag_durations(sprite_sheet@.frames, from as int, to as int),
            durs.len() == to - from + 1,
            total == sum_of(durs.take(i - from)),
            total <= u32::MAX,
        decreases to + 1 - i,
    {
        proof {
            lemma_sum_take_succ(durs, i - from);
            assert(durs[i - from] == sprite_sheet@.frames[i as int].duration);
        }
        total = total + sprite_sheet.frames[i].duration as u64;
        if total > u32::MAX as u64 {
            proof {
                lemma_sum_take_le(durs, i + 1 - from);
            }
            return false;
        }
        i += 1;
    }
    proof {
        assert(durs.take(durs.len() as int) =~= durs);
        assert(spec_tag_animation_ok(sprite_sheet@, frame_tag_name@));
    }
    true
}

/// The durations of the frames `from ..= to` of a sheet.
fn tag_durations(sprite_sheet: &AsepriteSheetData, from: usize, to: usize) -> (r: Vec<u32>)
    requires
        from <= to < sprite_sheet@.frames.len(),
    ensures
        r@ == spec_tag_durations(sprite_sheet@.frames, from as int, to as int),
{
    let mut out: Vec<u32> = Vec::new();
    let num_frames = sprite_sheet.frames.len();
    let mut i: usize = from;
    while i <= to
        invariant
            num_frames == sprite_sheet@.frames.len(),
            from <= i <= to + 1,
            to < num_frames,
            out@.len() == i - from,
            forall|k: int|
                0 <= k < out@.len() ==> out@[k] == sprite_sheet@.frames[from + k].duration,
        decreases to + 1 - i,
    {
        out.push(sprite_sheet.frames[i].duration);
        i += 1;
    }
    proof {
        assert(out@ =~= spec_tag_durations(sprite_sheet@.frames, from as int, to as int));
    }
    out
}

} // verus!
