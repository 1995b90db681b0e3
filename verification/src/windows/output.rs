//! Orientation, scale and mode of the output.

use vstd::prelude::*;

use crate::action::{Action, Area, Target};
use crate::app_id::AppIdMatcher;
use crate::geometry::{FloatBits, Rectangle, Size};
use crate::lists::{collect_all, collected};
use crate::windows::scene::{Canvas, Layout, Mode, Orientation, Output};
use crate::windows::state::{start_transaction, ScaleOverride, WindowScale, Windows};

verus! {

/// Resize of a window to the entire output.
pub open spec fn fill_window(key: Option<u64>, size: Size) -> Seq<Action> {
    match key {
        Some(key) => seq![
            Action::SetDimensions {
                target: Target::Layout(key),
                area: Area::Fixed(Rectangle::of_size(size)),
            },
        ],
        None => Seq::empty(),
    }
}

/// Resize of a layout's windows to the entire output.
pub open spec fn fill_layout(size: Size) -> spec_fn(Layout) -> Seq<Action> {
    |l: Layout| fill_window(l.primary, size) + fill_window(l.secondary, size)
}

/// Announcement of the output's orientation to a window.
pub open spec fn transform_update(orientation: Orientation) -> spec_fn(Target) -> Seq<Action> {
    |target: Target| seq![Action::UpdateTransform { target, orientation }]
}

/// Announcement of the output's scale to a window.
pub open spec fn scale_update(scale: FloatBits) -> spec_fn(Target) -> Seq<Action> {
    |target: Target| seq![Action::UpdateScale { target, scale }]
}

/// Application of the per-window scales to a window.
pub open spec fn window_scaling() -> spec_fn(Target) -> Seq<Action> {
    |target: Target| seq![Action::SetWindowScale { target }]
}

/// A scale for another pattern than a given one.
pub open spec fn other_scale(base: Seq<char>) -> spec_fn(ScaleOverride) -> Seq<ScaleOverride> {
    |s: ScaleOverride|
        if s.app_id.base@ != base {
            seq![s]
        } else {
            Seq::empty()
        }
}

/// Whether a scale leaves the output's scale as it is.
pub open spec fn is_neutral(scale: WindowScale) -> bool {
    match scale {
        WindowScale::Additive(scale) | WindowScale::Subtractive(scale) => scale.equals(
            FloatBits::zero(),
        ),
        WindowScale::Multiplicative(scale) | WindowScale::Divisive(scale) => scale.equals(
            FloatBits::one(),
        ),
        WindowScale::Fixed(_) => false,
    }
}

/// Check if a scale leaves the output's scale as it is.
fn check_neutral(scale: WindowScale) -> (r: bool)
    ensures
        r == is_neutral(scale),
{
    match scale {
        WindowScale::Additive(scale) | WindowScale::Subtractive(scale) => scale.same(
            FloatBits { bits: 0 },
        ),
        WindowScale::Multiplicative(scale) | WindowScale::Divisive(scale) => scale.same(
            FloatBits { bits: crate::geometry::ONE_BITS },
        ),
        WindowScale::Fixed(_) => false,
    }
}

/// Resize a window to the entire output.
fn push_fill(key: Option<u64>, size: Size, out: &mut Vec<Action>)
    ensures
        final(out)@ == old(out)@ + fill_window(key, size),
{
    if let Some(key) = key {
        out.push(
            Action::SetDimensions {
                target: Target::Layout(key),
                area: Area::Fixed(Rectangle::from_size(size)),
            },
        );
    }
}

impl Windows {
    /// State after the output was switched to another mode.
    pub open spec fn with_mode(self, canvas: Canvas) -> Windows {
        Windows { output: Output { canvas: canvas }, canvas: canvas, dirty: true, ..self }
    }

    /// Work needed to switch the output to another mode.
    pub open spec fn mode_switch(&self, mode: Mode, size: Size) -> Seq<Action> {
        seq![Action::SetOutputMode(mode)] + collect_all(self.layouts.layouts@, fill_layout(size))
    }

    /// Switch the output to another mode.
    ///
    /// `canvas` is that of the output in the new mode.
    pub fn update_mode(&mut self, mode: Mode, canvas: Canvas, out: &mut Vec<Action>)
        ensures
            *final(self) == old(self).with_mode(canvas),
            final(out)@ == old(out)@ + old(self).mode_switch(mode, canvas.size),
            *final(self) == (Windows {
                output: Output { canvas: canvas },
                canvas: canvas,
                dirty: true,
                ..*old(self)
            }),
            final(out)@ == old(out)@.push(Action::SetOutputMode(mode)) + collect_all(
                old(self).layouts.layouts@,
                fill_layout(canvas.size),
            ),
    {
        let ghost first = out@;
        let ghost before = *self;
        out.push(Action::SetOutputMode(mode));
        self.output = Output { canvas };
        self.canvas = canvas;
        let ghost start = out@;
        let mut i: usize = 0;
        while i < self.layouts.layouts.len()
            invariant
                i <= self.layouts.layouts.len(),
                out@ == start + collected(
                    self.layouts.layouts@,
                    fill_layout(canvas.size),
                    i as int,
                ),
            decreases self.layouts.layouts.len() - i,
        {
            let layout = self.layouts.layouts[i];
            let ghost before = out@;
            push_fill(layout.primary, canvas.size, out);
            push_fill(layout.secondary, canvas.size, out);
            assert(out@ == before + fill_layout(canvas.size)(layout));
            i += 1;
        }
        self.dirty = true;
        assert(out@ =~= first + before.mode_switch(mode, canvas.size));
    }

    /// Work needed after the output's orientation was changed.
    pub open spec fn reorientation(&self, orientation: Orientation) -> Seq<Action> {
        seq![Action::SetOrientation(orientation)] + collect_all(
            self.all_targets(),
            transform_update(orientation),
        ) + self.full_resize()
    }

    /// State after the output's orientation was changed, which gave it a size.
    pub open spec fn with_orientation(self, orientation: Orientation, size: Size, now: u64) -> Windows {
        Windows {
            timer: self.timer.started(now),
            output: Output {
                canvas: Canvas { orientation: orientation, size: size, ..self.output.canvas },
            },
            ..self
        }
    }

    proof fn lemma_same_resizes(&self, other: Windows, n: int)
        requires
            self.layouts == other.layouts,
            self.layers == other.layers,
            self.pending() == other.pending(),
        ensures
            self.layout_resizes(n) == other.layout_resizes(n),
        decreases n,
    {
        if n > 0 {
            self.lemma_same_resizes(other, n - 1);
        }
    }

    /// Resizes depend on the windows and the pending view alone.
    proof fn lemma_same_resize(&self, other: Windows)
        requires
            self.layouts == other.layouts,
            self.layers == other.layers,
            self.pending() == other.pending(),
        ensures
            self.full_resize() == other.full_resize(),
            self.resizable() == other.resizable(),
            self.all_targets() == other.all_targets(),
    {
        self.lemma_same_resizes(other, self.layouts.layouts.len() as int);
        assert forall|l: Layout| self.comparable(l) == other.comparable(l) by {}
    }

    /// Set output orientation, completely bypassing locking logic.
    ///
    /// `size` is that of the output in the new orientation.
    pub fn set_orientation(
        &mut self,
        orientation: Orientation,
        size: Size,
        now: u64,
        out: &mut Vec<Action>,
    )
        requires
            old(self).resizable(),
        ensures
            *final(self) == old(self).with_orientation(orientation, size, now),
            final(out)@ == old(out)@ + old(self).reorientation(orientation),
    {
        let ghost before = *self;
        let ghost start = out@;
        // Start transaction to ensure output transaction will be applied.
        start_transaction(&mut self.timer, now);

        // Update output orientation.
        self.output = Output {
            canvas: Canvas {
                orientation,
                scale: self.output.canvas.scale,
                size,
            },
        };
        out.push(Action::SetOrientation(orientation));
        proof {
            self.lemma_same_resize(before);
        }

        // Update window transform.
        let targets = self.all_windows();
        let ghost base = out@;
        let mut i: usize = 0;
        while i < targets.len()
            invariant
                i <= targets.len(),
                out@ == base + collected(targets@, transform_update(orientation), i as int),
            decreases targets.len() - i,
        {
            out.push(Action::UpdateTransform { target: targets[i], orientation });
            i += 1;
        }

        // Resize all windows to new output size.
        self.resize_all(out);
        assert(out@ == start + before.reorientation(orientation));
    }

    /// State after the device was turned.
    pub open spec fn with_turned(self, orientation: Orientation, size: Size, now: u64) -> Windows {
        let remembered = Windows { unlocked_orientation: orientation, ..self };
        if self.orientation_locked {
            remembered
        } else {
            remembered.with_orientation(orientation, size, now)
        }
    }

    /// Work needed after the device was turned.
    pub open spec fn turning(&self, orientation: Orientation) -> Seq<Action> {
        if self.orientation_locked {
            Seq::empty()
        } else {
            self.reorientation(orientation)
        }
    }

    /// Update output orientation.
    ///
    /// This is remembered but not applied during orientation lock. `size` is
    /// that of the output in the new orientation.
    pub fn update_orientation(
        &mut self,
        orientation: Orientation,
        size: Size,
        now: u64,
        out: &mut Vec<Action>,
    )
        requires
            !old(self).orientation_locked ==> old(self).resizable(),
        ensures
            *final(self) == old(self).with_turned(orientation, size, now),
            final(out)@ == old(out)@ + old(self).turning(orientation),
            final(out)@ == old(out)@ + (if old(self).orientation_locked {
                Seq::empty()
            } else {
                old(self).reorientation(orientation)
            }),
    {
        let ghost before = *self;
        self.unlocked_orientation = orientation;

        // Ignore orientation changes during orientation lock.
        if self.orientation_locked {
            return;
        }
        proof {
            self.lemma_same_resize(before);
        }
        self.set_orientation(orientation, size, now, out);
    }

    /// State after the orientation was locked.
    pub open spec fn with_orientation_lock(
        self,
        orientation: Option<Orientation>,
        size: Size,
        now: u64,
    ) -> Windows {
        let turned = match orientation {
            Some(orientation) => self.with_orientation(orientation, size, now),
            None => self,
        };
        Windows { orientation_locked: true, ..turned }
    }

    /// Work needed after the orientation was locked.
    pub open spec fn orientation_locking(&self, orientation: Option<Orientation>) -> Seq<Action> {
        match orientation {
            Some(orientation) => self.reorientation(orientation),
            None => Seq::empty(),
        }
    }

    /// Lock the output's orientation.
    ///
    /// `size` is that of the output in the new orientation, if there is one.
    pub fn lock_orientation(
        &mut self,
        orientation: Option<Orientation>,
        size: Size,
        now: u64,
        out: &mut Vec<Action>,
    )
        requires
            orientation is Some ==> old(self).resizable(),
        ensures
            *final(self) == old(self).with_orientation_lock(orientation, size, now),
            final(out)@ == old(out)@ + old(self).orientation_locking(orientation),
    {
        // Change to the new locked orientation.
        if let Some(orientation) = orientation {
            self.set_orientation(orientation, size, now, out);
        }
        self.orientation_locked = true;
    }

    /// State after the orientation was unlocked.
    pub open spec fn with_orientation_unlock(self, size: Size, now: u64) -> Windows {
        Windows { orientation_locked: false, ..self }.with_turned(
            self.unlocked_orientation,
            size,
            now,
        )
    }

    /// Unlock the output's orientation.
    ///
    /// The output turns to the orientation which was remembered last, and
    /// `size` is its size there.
    pub fn unlock_orientation(&mut self, size: Size, now: u64, out: &mut Vec<Action>)
        requires
            old(self).resizable(),
        ensures
            *final(self) == old(self).with_orientation_unlock(size, now),
            final(out)@ == old(out)@ + old(self).reorientation(old(self).unlocked_orientation),
    {
        let ghost before = *self;
        self.orientation_locked = false;
        proof {
            self.lemma_same_resize(before);
        }
        let orientation = self.unlocked_orientation;
        self.update_orientation(orientation, size, now, out);
    }

    /// Get orientation lock state.
    pub fn orientation_locked(&self) -> (r: bool)
        ensures
            r == self.orientation_locked,
    {
        self.orientation_locked
    }

    /// Per-window scales after one was added.
    pub open spec fn scales_with(&self, app_id: AppIdMatcher, scale: WindowScale) -> Seq<
        ScaleOverride,
    > {
        let others = collect_all(self.window_scales@, other_scale(app_id.base@));
        if is_neutral(scale) {
            others
        } else {
            others.push(ScaleOverride { app_id, scale })
        }
    }

    /// Add a per-window scale override.
    ///
    /// This replaces the previous scale for exactly the same pattern. A scale
    /// which would not change anything is not stored.
    pub fn add_window_scale(
        &mut self,
        app_id: AppIdMatcher,
        scale: WindowScale,
        out: &mut Vec<Action>,
    )
        ensures
            final(self).window_scales@ == old(self).scales_with(app_id, scale),
            *final(self) == (Windows { window_scales: final(self).window_scales, ..*old(self) }),
            final(out)@ == old(out)@ + collect_all(old(self).all_targets(), window_scaling()),
    {
        let ghost before = *self;
        let ghost f = other_scale(app_id.base@);
        let ghost old_scales = self.window_scales@;

        // Remove previous scale assignments for this EXACT regex.
        let mut i: usize = 0;
        let ghost mut seen: int = 0;
        assert(old_scales.skip(0) == old_scales);
        while i < self.window_scales.len()
            invariant
                0 <= seen <= old_scales.len(),
                i <= self.window_scales.len(),
                f == other_scale(app_id.base@),
                before.window_scales@ == old_scales,
                *self == (Windows { window_scales: self.window_scales, ..before }),
                collected(old_scales, f, seen).len() == i,
                self.window_scales@ == collected(old_scales, f, seen) + old_scales.skip(seen),
            decreases old_scales.len() - seen,
        {
            assert(self.window_scales@[i as int] == old_scales[seen]);
            let ghost current = self.window_scales@;
            if self.window_scales[i].app_id.base == app_id.base {
                self.window_scales.remove(i);
                proof {
                    assert(f(old_scales[seen]) == Seq::<ScaleOverride>::empty());
                    assert(self.window_scales@ =~= collected(old_scales, f, seen + 1)
                        + old_scales.skip(seen + 1));
                }
            } else {
                i += 1;
                proof {
                    assert(f(old_scales[seen]) == seq![old_scales[seen]]);
                    assert(self.window_scales@ =~= collected(old_scales, f, seen + 1)
                        + old_scales.skip(seen + 1));
                }
            }
            proof {
                seen = seen + 1;
            }
        }
        assert(old_scales.skip(seen).len() == 0);
        assert(self.window_scales@ == collect_all(old_scales, f));

        // Add scale if it is transformative to the output scale.
        if !check_neutral(scale) {
            self.window_scales.push(ScaleOverride { app_id, scale });
        }

        // Update existing window scales.
        let targets = self.all_windows();
        assert(targets@ == before.all_targets());
        let ghost base = out@;
        let mut i: usize = 0;
        while i < targets.len()
            invariant
                i <= targets.len(),
                out@ == base + collected(targets@, window_scaling(), i as int),
            decreases targets.len() - i,
        {
            out.push(Action::SetWindowScale { target: targets[i] });
            i += 1;
        }
    }

    /// State with another output.
    pub open spec fn with_output(self, output: Output) -> Windows {
        Windows { canvas: output.canvas, output: output, ..self }
    }

    /// Update the window manager's current output.
    pub fn set_output(&mut self, output: Output)
        ensures
            *final(self) == old(self).with_output(output),
            *final(self) == (Windows { canvas: output.canvas, output: output, ..*old(self) }),
    {
        self.canvas = output.canvas;
        self.output = output;
    }

    /// Get access to the current canvas.
    ///
    /// This is different from the output's own canvas by being cached while
    /// transactions are processed.
    pub fn canvas(&self) -> (r: &Canvas)
        ensures
            *r == self.canvas,
    {
        &self.canvas
    }

    /// State after the output's scale was changed, which gave it a size.
    pub open spec fn with_scale(self, scale: FloatBits, size: Size, now: u64) -> Windows {
        Windows {
            output: Output { canvas: Canvas { scale: scale, size: size, ..self.output.canvas } },
            ..self.with_transaction(now)
        }
    }

    /// Work needed after the output's scale was changed.
    pub open spec fn rescaling(&self, scale: FloatBits) -> Seq<Action> {
        seq![Action::SetOutputScale(scale)] + collect_all(self.all_targets(), scale_update(scale))
            + self.full_resize()
    }

    /// Update the output's scale.
    ///
    /// `size` is that of the output with the new scale.
    pub fn set_scale(&mut self, scale: FloatBits, size: Size, now: u64, out: &mut Vec<Action>)
        requires
            old(self).resizable(),
        ensures
            *final(self) == old(self).with_scale(scale, size, now),
            final(out)@ == old(out)@ + old(self).rescaling(scale),
    {
        let ghost before = *self;
        let ghost start = out@;
        self.start_transaction(now);
        self.output = Output {
            canvas: Canvas {
                orientation: self.output.canvas.orientation,
                scale,
                size,
            },
        };
        out.push(Action::SetOutputScale(scale));
        proof {
            self.lemma_same_resize(before);
        }

        // Update surfaces' preferred fractional and buffer scale.
        let targets = self.all_windows();
        let ghost base = out@;
        let mut i: usize = 0;
        while i < targets.len()
            invariant
                i <= targets.len(),
                out@ == base + collected(targets@, scale_update(scale), i as int),
            decreases targets.len() - i,
        {
            out.push(Action::UpdateScale { target: targets[i], scale });
            i += 1;
        }
        self.resize_all(out);
        assert(out@ == start + before.rescaling(scale));
    }
}

} // verus!
