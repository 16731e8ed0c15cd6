//! Animation timelines: each animation turns a list of per-frame display
//! durations into cumulative frame start times, advances a playback position
//! with wraparound, and reports the current frame as a function of that
//! position. Reloading a timeline in place keeps the `AnimationID` valid and
//! always leaves the animation stopped at its first frame.

use vstd::prelude::*;

verus! {

/// Opaque handle for one animation, minted by [`AnimationSystem::add_animation`],
/// never reused and valid for the life of the system.
#[derive(Debug, Clone, Copy, PartialEq, Eq, Hash, Structural)]
pub struct AnimationID(u32);

impl View for AnimationID {
    type V = nat;

    closed spec fn view(&self) -> nat {
        self.0 as nat
    }
}

#[derive(Debug)]
pub struct AnimationData {
    pub from: usize,
    pub to: usize,
    pub is_playing: bool,
    pub current_frame: usize,
    pub playback_pos_ms: u32,
    pub frame_times_ms: Vec<u32>,
    pub total_length_ms: u32,
}

/// Mathematical model of one animation timeline.
#[verifier::ext_equal]
pub ghost struct AnimationModel {
    pub from: nat,
    pub to: nat,
    pub is_playing: bool,
    pub current_frame: nat,
    pub playback_pos_ms: nat,
    pub frame_times_ms: Seq<int>,
    pub total_length_ms: nat,
}

impl View for AnimationData {
    type V = AnimationModel;

    open spec fn view(&self) -> AnimationModel {
        AnimationModel {
            from: self.from as nat,
            to: self.to as nat,
            is_playing: self.is_playing,
            current_frame: self.current_frame as nat,
            playback_pos_ms: self.playback_pos_ms as nat,
            frame_times_ms: self.frame_times_ms@.map_values(|t: u32| t as int),
            total_length_ms: self.total_length_ms as nat,
        }
    }
}

/// Sum of a sequence of durations.
pub open spec fn sum_of(periods: Seq<u32>) -> int
    decreases periods.len(),
{
    if periods.len() == 0 {
        0
    } else {
        sum_of(periods.drop_last()) + periods.last()
    }
}

/// Cumulative start time of each frame: entry `i` is the sum of the first `i`
/// durations.
pub open spec fn spec_frame_times(periods: Seq<u32>) -> Seq<int> {
    Seq::new(periods.len(), |i: int| sum_of(periods.take(i)))
}

/// Index of the frame shown at playback position `pos`: the largest `i` with
/// `times[i] <= pos`.
pub open spec fn frame_sel(times: Seq<int>, pos: int) -> int
    decreases times.len(),
{
    if times.len() <= 1 {
        0
    } else if times.last() <= pos {
        times.len() - 1
    } else {
        frame_sel(times.drop_last(), pos)
    }
}

impl AnimationModel {
    /// Well-formedness: the timeline has one start time per frame of the
    /// `[from, to]` range, starts at zero, is sorted, and the current frame
    /// lies in range.
    pub open spec fn wf(self) -> bool {
        &&& self.from <= self.to
        &&& self.frame_times_ms.len() == self.to - self.from + 1
        &&& self.frame_times_ms[0] == 0
        &&& forall|i: int, j: int|
            0 <= i <= j < self.frame_times_ms.len() ==> self.frame_times_ms[i]
                <= self.frame_times_ms[j]
        &&& forall|i: int|
            0 <= i < self.frame_times_ms.len() ==> 0 <= #[trigger] self.frame_times_ms[i]
                <= u32::MAX
        &&& self.from <= self.current_frame <= self.to
        &&& self.total_length_ms <= u32::MAX
        &&& self.playback_pos_ms <= u32::MAX
    }

    /// The timeline built from `from`, `to` and per-frame durations, stopped
    /// at its first frame with the playback position reset.
    pub open spec fn fresh(from: nat, to: nat, periods: Seq<u32>) -> AnimationModel {
        AnimationModel {
            from,
            to,
            is_playing: false,
            current_frame: from,
            playback_pos_ms: 0,
            frame_times_ms: spec_frame_times(periods),
            total_length_ms: sum_of(periods) as nat,
        }
    }

    /// One tick of `delta` milliseconds: a playing animation with a positive
    /// cycle length advances its position modulo the cycle length and selects
    /// the frame whose start time it has reached; anything else is unchanged.
    pub open spec fn ticked(self, delta: nat) -> AnimationModel {
        if self.is_playing && self.total_length_ms > 0 {
            let pos = (self.playback_pos_ms + delta) as int % self.total_length_ms as int;
            AnimationModel {
                playback_pos_ms: pos as nat,
                current_frame: (self.from + frame_sel(self.frame_times_ms, pos)) as nat,
                ..self
            }
        } else {
            self
        }
    }

    /// Manual stepping: the next frame, wrapping from `to` back to `from`.
    pub open spec fn stepped_frame(self) -> nat {
        spec_step_frame(self.current_frame, self.from, self.to)
    }
}

/// The next frame after `current` in the range `[from, to]`, wrapping from
/// `to` back to `from`.
pub open spec fn spec_step_frame(current: nat, from: nat, to: nat) -> nat {
    if current + 1 > to {
        from
    } else {
        current + 1
    }
}

/// Owns every animation timeline, keyed by `AnimationID`.
pub struct AnimationSystem {
    animations: Vec<AnimationData>,
}

impl View for AnimationSystem {
    type V = Seq<AnimationModel>;

    closed spec fn view(&self) -> Seq<AnimationModel> {
        self.animations@.map_values(|a: AnimationData| a@)
    }
}

impl AnimationSystem {
    pub open spec fn wf(self) -> bool {
        forall|k: int| 0 <= k < self@.len() ==> (#[trigger] self@[k]).wf()
    }

    /// An ID is valid when its animation exists.
    pub open spec fn valid_id(self, id: AnimationID) -> bool {
        id@ < self@.len()
    }

    pub fn new() -> (r: AnimationSystem)
        ensures
            r@ == Seq::<AnimationModel>::empty(),
            r.wf(),
    {
        AnimationSystem { animations: Vec::new() }
    }

    /// Builds the cumulative timeline of the given durations and registers it
    /// under a fresh ID. Frames `from..=to` must match the durations one for
    /// one, and the cycle length must fit the millisecond counter.
    pub fn add_animation(&mut self, from: usize, to: usize, frame_periods_ms: &[u32]) -> (r:
        AnimationID)
        requires
            old(self).wf(),
            from <= to,
            to - from + 1 == frame_periods_ms@.len(),
            sum_of(frame_periods_ms@) <= u32::MAX,
            old(self)@.len() < u32::MAX,
        ensures
            final(self).wf(),
            r@ == old(self)@.len(),
            final(self)@ == old(self)@.push(
                AnimationModel::fresh(from as nat, to as nat, frame_periods_ms@),
            ),
    {
        let id = AnimationID(self.animations.len() as u32);
        let data = build_animation_data(from, to, frame_periods_ms);
        self.animations.push(data);
        proof {
            assert(self@ =~= old(self)@.push(
                AnimationModel::fresh(from as nat, to as nat, frame_periods_ms@),
            ));
        }
        id
    }

    /// Replaces the timeline registered under `id` in place: the ID stays
    /// valid, the new timeline starts stopped at its new first frame with the
    /// playback position reset, whatever state the animation was in before.
    pub fn reload_animation(
        &mut self,
        id: AnimationID,
        from: usize,
        to: usize,
        frame_periods_ms: &[u32],
    )
        requires
            old(self).wf(),
            old(self).valid_id(id),
            from <= to,
            to - from + 1 == frame_periods_ms@.len(),
            sum_of(frame_periods_ms@) <= u32::MAX,
        ensures
            final(self).wf(),
            final(self)@ == old(self)@.update(
                id@ as int,
                AnimationModel::fresh(from as nat, to as nat, frame_periods_ms@),
            ),
    {
        let data = build_animation_data(from, to, frame_periods_ms);
        let slot = vstd::std_specs::vec::vec_index_mut(&mut self.animations, id.0 as usize);
        *slot = data;
        proof {
            assert(self@ =~= old(self)@.update(
                id@ as int,
                AnimationModel::fresh(from as nat, to as nat, frame_periods_ms@),
            ));
        }
    }

    pub fn start_animation(&mut self, animation_id: AnimationID)
        requires
            old(self).wf(),
            old(self).valid_id(animation_id),
        ensures
            final(self).wf(),
            final(self)@ == old(self)@.update(
                animation_id@ as int,
                AnimationModel { is_playing: true, ..old(self)@[animation_id@ as int] },
            ),
    {
        let slot = vstd::std_specs::vec::vec_index_mut(&mut self.animations, animation_id.0 as usize);
        slot.is_playing = true;
        proof {
            assert(self@ =~= old(self)@.update(
                animation_id@ as int,
                AnimationModel { is_playing: true, ..old(self)@[animation_id@ as int] },
            ));
        }
    }

    /// Stopping freezes the current frame and playback position; nothing is
    /// reset.
    pub fn stop_animation(&mut self, animation_id: AnimationID)
        requires
            old(self).wf(),
            old(self).valid_id(animation_id),
        ensures
            final(self).wf(),
            final(self)@ == old(self)@.update(
                animation_id@ as int,
                AnimationModel { is_playing: false, ..old(self)@[animation_id@ as int] },
            ),
    {
        let slot = vstd::std_specs::vec::vec_index_mut(&mut self.animations, animation_id.0 as usize);
        slot.is_playing = false;
        proof {
            assert(self@ =~= old(self)@.update(
                animation_id@ as int,
                AnimationModel { is_playing: false, ..old(self)@[animation_id@ as int] },
            ));
        }
    }

    /// Rewinds to the first frame and resets the position; the playing flag
    /// is kept as it is, then the animation is started.
    pub fn restart_animation(&mut self, animation_id: AnimationID)
        requires
            old(self).wf(),
            old(self).valid_id(animation_id),
        ensures
            final(self).wf(),
            final(self)@ == old(self)@.update(
                animation_id@ as int,
                AnimationModel {
                    is_playing: true,
                    current_frame: old(self)@[animation_id@ as int].from,
                    playback_pos_ms: 0,
                    ..old(self)@[animation_id@ as int]
                },
            ),
    {
        self.reset_animation(animation_id);
        self.start_animation(animation_id);
        proof {
            assert(self@ =~= old(self)@.update(
                animation_id@ as int,
                AnimationModel {
                    is_playing: true,
                    current_frame: old(self)@[animation_id@ as int].from,
                    playback_pos_ms: 0,
                    ..old(self)@[animation_id@ as int]
                },
            ));
        }
    }

    /// Rewinds to the first frame and resets the position; the playing flag
    /// is left untouched.
    pub fn reset_animation(&mut self, animation_id: AnimationID)
        requires
            old(self).wf(),
            old(self).valid_id(animation_id),
        ensures
            final(self).wf(),
            final(self)@ == old(self)@.update(
                animation_id@ as int,
                AnimationModel {
                    current_frame: old(self)@[animation_id@ as int].from,
                    playback_pos_ms: 0,
                    ..old(self)@[animation_id@ as int]
                },
            ),
    {
        let slot = vstd::std_specs::vec::vec_index_mut(&mut self.animations, animation_id.0 as usize);
        slot.current_frame = slot.from;
        slot.playback_pos_ms = 0;
        proof {
            assert(self@ =~= old(self)@.update(
                animation_id@ as int,
                AnimationModel {
                    current_frame: old(self)@[animation_id@ as int].from,
                    playback_pos_ms: 0,
                    ..old(self)@[animation_id@ as int]
                },
            ));
        }
    }

    /// Advances the current frame by one, wrapping from `to` back to `from`;
    /// independent of the playing flag and of timing.
    pub fn step_to_next_frame(&mut self, animation_id: AnimationID)
        requires
            old(self).wf(),
            old(self).valid_id(animation_id),
        ensures
            final(self).wf(),
            final(self)@ == old(self)@.update(
                animation_id@ as int,
                AnimationModel {
                    current_frame: old(self)@[animation_id@ as int].stepped_frame(),
                    ..old(self)@[animation_id@ as int]
                },
            ),
    {
        let slot = vstd::std_specs::vec::vec_index_mut(&mut self.animations, animation_id.0 as usize);
        slot.current_frame = if slot.current_frame >= slot.to {
            slot.from
        } else {
            slot.current_frame + 1
        };
        proof {
            assert(self@ =~= old(self)@.update(
                animation_id@ as int,
                AnimationModel {
                    current_frame: old(self)@[animation_id@ as int].stepped_frame(),
                    ..old(self)@[animation_id@ as int]
                },
            ));
        }
    }

    /// One tick for every animation: each playing animation with a positive
    /// cycle length advances by `delta_time_ms` modulo its cycle length and
    /// selects the last frame whose start time is not past the new position;
    /// stopped animations are left exactly as they are.
    pub fn update(&mut self, delta_time_ms: u32)
        requires
            old(self).wf(),
        ensures
            final(self).wf(),
            final(self)@.len() == old(self)@.len(),
            forall|k: int|
                0 <= k < old(self)@.len() ==> final(self)@[k] == old(self)@[k].ticked(
                    delta_time_ms as nat,
                ),
    {
        let ghost old_view = self@;
        let mut k: usize = 0;
        while k < self.animations.len()
            invariant
                self.animations@.len() == old_view.len(),
                old_view == old(self)@,
                k <= old_view.len(),
                forall|j: int|
                    0 <= j < k ==> (#[trigger] self.animations@[j])@ == old_view[j].ticked(
                        delta_time_ms as nat,
                    ),
                forall|j: int|
                    k <= j < old_view.len() ==> (#[trigger] self.animations@[j])@ == old_view[j],
                forall|j: int| 0 <= j < old_view.len() ==> (#[trigger] old_view[j]).wf(),
            decreases old_view.len() - k,
        {
            let ghost m = old_view[k as int];
            proof {
                assert(self.animations@[k as int]@ == m);
                assert(m.wf());
            }
            let anim = &mut self.animations[k];
            if anim.is_playing && anim.total_length_ms > 0 {
                let next_pos = ((anim.playback_pos_ms as u64 + delta_time_ms as u64) % (
                anim.total_length_ms as u64)) as u32;
                anim.playback_pos_ms = next_pos;
                proof {
                    assert(next_pos as int == (m.playback_pos_ms + delta_time_ms as nat) as int
                        % m.total_length_ms as int);
                    assert(anim@ =~= (AnimationModel { playback_pos_ms: next_pos as nat, ..m }));
                }

                let times_len = anim.frame_times_ms.len();
                let mut i: usize = times_len - 1;
                while anim.frame_times_ms[i] > next_pos
                    invariant
                        m.wf(),
                        anim@ == (AnimationModel { playback_pos_ms: next_pos as nat, ..m }),
                        anim.frame_times_ms@.len() == times_len,
                        times_len == m.frame_times_ms.len(),
                        0 <= i < times_len,
                        forall|j: int| i < j < times_len ==> m.frame_times_ms[j] > next_pos,
                    decreases i,
                {
                    assert(m.frame_times_ms[i as int] > next_pos);
                    assert(m.frame_times_ms[0] == 0);
                    assert(i > 0);
                    i -= 1;
                }
                proof {
                    assert(m.frame_times_ms[i as int] <= next_pos);
                    lemma_frame_sel_characterization(m.frame_times_ms, next_pos as int, i as int);
                    assert(frame_sel(m.frame_times_ms, next_pos as int) == i);
                }
                let new_frame = anim.from + i;
                anim.current_frame = new_frame;
                proof {
                    assert(anim@ =~= m.ticked(delta_time_ms as nat));
                }
            } else {
                proof {
                    assert(anim@ =~= m.ticked(delta_time_ms as nat));
                }
            }
            proof {
                assert(self.animations@[k as int]@ == m.ticked(delta_time_ms as nat));
                lemma_ticked_wf(m, delta_time_ms as nat);
            }
            k += 1;
        }
        proof {
            assert forall|k2: int|
                0 <= k2 < old(self)@.len() implies self@[k2] == old(self)@[k2].ticked(
                delta_time_ms as nat,
            ) by {
                assert(self.animations@[k2]@ == old_view[k2].ticked(delta_time_ms as nat));
            }
            assert forall|k2: int| 0 <= k2 < self@.len() implies (#[trigger] self@[k2]).wf() by {
                lemma_ticked_wf(old_view[k2], delta_time_ms as nat);
            }
        }
    }

    /// The playback position of one animation, in milliseconds into its cycle.
    pub fn playback_pos_ms(&self, animation_id: AnimationID) -> (r: u32)
        requires
            self.valid_id(animation_id),
        ensures
            r as nat == self@[animation_id@ as int].playback_pos_ms,
    {
        self.animations[animation_id.0 as usize].playback_pos_ms
    }

    /// Whether one animation is currently playing.
    pub fn is_playing(&self, animation_id: AnimationID) -> (r: bool)
        requires
            self.valid_id(animation_id),
        ensures
            r == self@[animation_id@ as int].is_playing,
    {
        self.animations[animation_id.0 as usize].is_playing
    }

    /// Whether an animation ID is registered.
    pub fn has_animation(&self, id: AnimationID) -> (r: bool)
        ensures
            r == self.valid_id(id),
    {
        (id.0 as usize) < self.animations.len()
    }

    pub fn current_frame(&mut self, animation_id: AnimationID) -> (r: usize)
        requires
            old(self).wf(),
            old(self).valid_id(animation_id),
        ensures
            final(self).wf(),
            final(self)@ == old(self)@,
            r as nat == old(self)@[animation_id@ as int].current_frame,
    {
        self.animations[animation_id.0 as usize].current_frame
    }
}

/// Builds the stored timeline for `add_animation` / `reload_animation`.
fn build_animation_data(from: usize, to: usize, frame_periods_ms: &[u32]) -> (r: AnimationData)
    requires
        from <= to,
        to - from + 1 == frame_periods_ms@.len(),
        sum_of(frame_periods_ms@) <= u32::MAX,
    ensures
        r@ == AnimationModel::fresh(from as nat, to as nat, frame_periods_ms@),
        r@.wf(),
{
    let mut total_length_ms: u32 = 0;
    let mut frame_times_ms: Vec<u32> = Vec::new();
    let mut idx: usize = 0;
    while idx < frame_periods_ms.len()
        invariant
            idx <= frame_periods_ms@.len(),
            frame_times_ms@.len() == idx,
            forall|i: int|
                0 <= i < idx ==> frame_times_ms@[i] == sum_of(frame_periods_ms@.take(i)),
            total_length_ms == sum_of(frame_periods_ms@.take(idx as int)),
            sum_of(frame_periods_ms@) <= u32::MAX,
        decreases frame_periods_ms@.len() - idx,
    {
        proof {
            lemma_sum_take_succ(frame_periods_ms@, idx as int);
            lemma_sum_take_le(frame_periods_ms@, idx as int + 1);
        }
        let period = frame_periods_ms[idx];
        frame_times_ms.push(total_length_ms);
        total_length_ms = total_length_ms + period;
        idx += 1;
    }
    proof {
        assert(frame_periods_ms@.take(frame_periods_ms@.len() as int) =~= frame_periods_ms@);
    }
    let r = AnimationData {
        from,
        to,
        is_playing: false,
        current_frame: from,
        playback_pos_ms: 0,
        frame_times_ms,
        total_length_ms,
    };
    proof {
        assert(r@.frame_times_ms =~= spec_frame_times(frame_periods_ms@));
        assert(r@ =~= AnimationModel::fresh(from as nat, to as nat, frame_periods_ms@));
        lemma_fresh_wf(from as nat, to as nat, frame_periods_ms@);
    }
    r
}

/// The sum of one more element extends the sum of a prefix.
pub proof fn lemma_sum_take_succ(s: Seq<u32>, i: int)
    requires
        0 <= i < s.len(),
    ensures
        sum_of(s.take(i + 1)) == sum_of(s.take(i)) + s[i],
{
    assert(s.take(i + 1).drop_last() =~= s.take(i));
    assert(s.take(i + 1).last() == s[i]);
}

/// Every prefix sum is bounded by the total sum.
pub proof fn lemma_sum_take_le(s: Seq<u32>, i: int)
    requires
        0 <= i <= s.len(),
    ensures
        sum_of(s.take(i)) <= sum_of(s),
    decreases s.len() - i,
{
    if i == s.len() {
        assert(s.take(i) =~= s);
    } else {
        lemma_sum_take_succ(s, i);
        lemma_sum_take_le(s, i + 1);
    }
}

/// Every sum of durations is nonnegative.
pub proof fn lemma_sum_nonneg(s: Seq<u32>)
    ensures
        sum_of(s) >= 0,
    decreases s.len(),
{
    if s.len() > 0 {
        lemma_sum_nonneg(s.drop_last());
    }
}

/// Prefix sums are monotone.
pub proof fn lemma_sum_take_mono(s: Seq<u32>, i: int, j: int)
    requires
        0 <= i <= j <= s.len(),
    ensures
        0 <= sum_of(s.take(i)) <= sum_of(s.take(j)),
    decreases j - i,
{
    lemma_sum_nonneg(s.take(i));
    if i < j {
        lemma_sum_take_succ(s, i);
        lemma_sum_take_mono(s, i + 1, j);
    }
}

/// A freshly built timeline is well formed.
proof fn lemma_fresh_wf(from: nat, to: nat, periods: Seq<u32>)
    requires
        from <= to,
        to - from + 1 == periods.len(),
        sum_of(periods) <= u32::MAX,
    ensures
        AnimationModel::fresh(from, to, periods).wf(),
{
    let m = AnimationModel::fresh(from, to, periods);
    assert(periods.take(0) =~= Seq::<u32>::empty());
    assert forall|i: int, j: int|
        0 <= i <= j < m.frame_times_ms.len() implies m.frame_times_ms[i] <= m.frame_times_ms[j] by {
        lemma_sum_take_mono(periods, i, j);
    }
    assert forall|i: int|
        0 <= i < m.frame_times_ms.len() implies 0 <= #[trigger] m.frame_times_ms[i]
        <= u32::MAX by {
        lemma_sum_take_mono(periods, 0, i);
        lemma_sum_take_le(periods, i);
    }
    lemma_sum_take_mono(periods, 0, periods.len() as int);
    assert(periods.take(periods.len() as int) =~= periods);
}

/// One tick keeps a well-formed animation well formed.
proof fn lemma_ticked_wf(m: AnimationModel, delta: nat)
    requires
        m.wf(),
    ensures
        m.ticked(delta).wf(),
{
    if m.is_playing && m.total_length_ms > 0 {
        lemma_frame_sel_in_range(
            m.frame_times_ms,
            (m.playback_pos_ms + delta) as int % m.total_length_ms as int,
        );
    }
}

/// `frame_sel` returns exactly the index whose start time has been reached
/// while every later start time lies in the future.
proof fn lemma_frame_sel_characterization(times: Seq<int>, pos: int, i: int)
    requires
        0 <= i < times.len(),
        times[i] <= pos,
        forall|j: int| i < j < times.len() ==> times[j] > pos,
    ensures
        frame_sel(times, pos) == i,
    decreases times.len(),
{
    if times.len() <= 1 {
    } else if times.last() <= pos {
        assert(i == times.len() - 1);
    } else {
        lemma_frame_sel_characterization(times.drop_last(), pos, i);
    }
}

/// `frame_sel` always lands inside the timeline.
pub proof fn lemma_frame_sel_in_range(times: Seq<int>, pos: int)
    requires
        times.len() > 0,
    ensures
        0 <= frame_sel(times, pos) < times.len(),
    decreases times.len(),
{
    if times.len() > 1 && times.last() > pos {
        lemma_frame_sel_in_range(times.drop_last(), pos);
    }
}

/// Law: frame selection is time-monotonic within a cycle. For one timeline, a
/// later playback position never selects an earlier frame.
pub proof fn lemma_frame_selection_monotonic(times: Seq<int>, pos1: int, pos2: int)
    requires
        times.len() > 0,
        pos1 <= pos2,
    ensures
        frame_sel(times, pos1) <= frame_sel(times, pos2),
    decreases times.len(),
{
    lemma_frame_sel_in_range(times, pos1);
    lemma_frame_sel_in_range(times, pos2);
    if times.len() > 1 && !(times.last() <= pos2) {
        lemma_frame_selection_monotonic(times.drop_last(), pos1, pos2);
    }
}

/// Law: update wraps the playback position. One tick of a playing animation
/// lands the position at the old position plus the delta, modulo the cycle
/// length, and therefore always strictly inside the cycle.
pub proof fn lemma_update_wraps_playback(m: AnimationModel, delta: nat)
    requires
        m.wf(),
        m.is_playing,
        m.total_length_ms > 0,
    ensures
        m.ticked(delta).playback_pos_ms == (m.playback_pos_ms + delta) as int % (
        m.total_length_ms as int),
        m.ticked(delta).playback_pos_ms < m.total_length_ms,
{
    vstd::arithmetic::div_mod::lemma_mod_bound(
        (m.playback_pos_ms + delta) as int,
        m.total_length_ms as int,
    );
}

/// Law: stopped animations are time-invariant. A tick of any delta leaves an
/// animation that is not playing exactly as it is, whatever the delta.
pub proof fn lemma_stopped_animation_time_invariant(m: AnimationModel, delta: nat)
    requires
        !m.is_playing,
    ensures
        m.ticked(delta) == m,
{
}

/// Law: reload resets and requires explicit resume. Whatever state an
/// animation was in, the timeline a reload installs is stopped at its new
/// first frame with the playback position reset; playing resumes only when
/// the animation is explicitly started again.
pub proof fn lemma_reload_resets_and_stops(from: nat, to: nat, periods: Seq<u32>)
    ensures
        !AnimationModel::fresh(from, to, periods).is_playing,
        AnimationModel::fresh(from, to, periods).current_frame == from,
        AnimationModel::fresh(from, to, periods).playback_pos_ms == 0,
{
}

/// `n` manual steps in a row, as a single spec value.
pub open spec fn spec_step_frame_n(current: nat, from: nat, to: nat, n: nat) -> nat
    decreases n,
{
    if n == 0 {
        current
    } else {
        spec_step_frame_n(spec_step_frame(current, from, to), from, to, (n - 1) as nat)
    }
}

/// Stepping splits: `a + b` steps are `a` steps followed by `b` steps.
proof fn lemma_step_n_add(current: nat, from: nat, to: nat, a: nat, b: nat)
    ensures
        spec_step_frame_n(current, from, to, a + b) == spec_step_frame_n(
            spec_step_frame_n(current, from, to, a),
            from,
            to,
            b,
        ),
    decreases a,
{
    if a > 0 {
        lemma_step_n_add(spec_step_frame(current, from, to), from, to, (a - 1) as nat, b);
    }
}

/// Stepping without hitting the end of the range just advances the frame.
proof fn lemma_step_n_advance(current: nat, from: nat, to: nat, n: nat)
    requires
        from <= current,
        current + n <= to,
    ensures
        spec_step_frame_n(current, from, to, n) == current + n,
    decreases n,
{
    if n > 0 {
        lemma_step_n_advance(current + 1, from, to, (n - 1) as nat);
    }
}

/// Law: manual stepping wraps. From any frame of the range, stepping
/// `to - from + 1` times returns the current frame to its original value.
pub proof fn lemma_step_to_next_frame_wraps(current: nat, from: nat, to: nat)
    requires
        from <= current <= to,
    ensures
        spec_step_frame_n(current, from, to, (to - from + 1) as nat) == current,
{
    let up = (to - current) as nat;
    let rest = (current - from) as nat;
    lemma_step_n_advance(current, from, to, up);
    lemma_step_n_add(current, from, to, up, rest + 1);
    assert(spec_step_frame_n(to, from, to, rest + 1) == spec_step_frame_n(from, from, to, rest));
    lemma_step_n_advance(from, from, to, rest);
}

} // verus!
