//! What clients and windows are told about the output.

use vstd::prelude::*;

use crate::action::{Action, Area, Target};
use crate::app_id::AppIdMatcher;
use crate::geometry::{FloatBits, Point, Rectangle, Size};
use crate::lists::{collect_all, lemma_collect_single, lemma_collected};
use crate::windows::output::{
    fill_layout, fill_window, is_neutral, other_scale, scale_update, transform_update,
    window_scaling,
};
use crate::windows::scene::{Canvas, Mode, Orientation, Output};
use crate::windows::state::{ScaleOverride, WindowScale, Windows};

verus! {

/// A turned output is told first, then every window, and everything is resized at the end.
pub proof fn law_everyone_is_told_the_orientation(s: Windows, orientation: Orientation)
    ensures
        ({
            let all = s.reorientation(orientation);
            let targets = s.all_targets();
            &&& all.len() == 1 + targets.len() + s.full_resize().len()
            &&& all[0] == Action::SetOrientation(orientation)
            &&& forall|i: int|
                0 <= i < targets.len() ==> all[i + 1] == Action::UpdateTransform {
                    target: #[trigger] targets[i],
                    orientation,
                }
            &&& all.skip(1 + targets.len() as int) == s.full_resize()
        }),
{
    let targets = s.all_targets();
    lemma_collect_single(targets, transform_update(orientation), targets.len() as int);
    assert(s.reorientation(orientation).skip(1 + targets.len() as int) =~= s.full_resize());
}

/// A scaled output is told first, then every window, and everything is resized at the end.
pub proof fn law_everyone_is_told_the_scale(s: Windows, scale: FloatBits)
    ensures
        ({
            let all = s.rescaling(scale);
            let targets = s.all_targets();
            &&& all.len() == 1 + targets.len() + s.full_resize().len()
            &&& all[0] == Action::SetOutputScale(scale)
            &&& forall|i: int|
                0 <= i < targets.len() ==> all[i + 1] == Action::UpdateScale {
                    target: #[trigger] targets[i],
                    scale,
                }
            &&& all.skip(1 + targets.len() as int) == s.full_resize()
        }),
{
    let targets = s.all_targets();
    lemma_collect_single(targets, scale_update(scale), targets.len() as int);
    assert(s.rescaling(scale).skip(1 + targets.len() as int) =~= s.full_resize());
}

/// A changed output has its new orientation or scale, and takes effect with a transaction.
///
/// What is drawn stays the same until then.
pub proof fn law_output_changes_wait_for_a_transaction(
    s: Windows,
    orientation: Orientation,
    scale: FloatBits,
    size: Size,
    now: u64,
)
    ensures
        ({
            let t = s.with_orientation(orientation, size, now);
            &&& t.output.canvas.orientation == orientation
            &&& t.output.canvas.size == size
            &&& t.output.canvas.scale == s.output.canvas.scale
            &&& t.canvas == s.canvas
            &&& s.timer.start == 0 ==> t.timer.start == now
            &&& s.timer.start != 0 ==> t.timer == s.timer
            &&& t == (Windows { output: t.output, timer: t.timer, ..s })
        }),
        ({
            let t = s.with_scale(scale, size, now);
            &&& t.output.canvas.scale == scale
            &&& t.output.canvas.size == size
            &&& t.output.canvas.orientation == s.output.canvas.orientation
            &&& t.canvas == s.canvas
            &&& t.pending() == s.pending()
            &&& t.transaction is Some
            &&& s.timer.start == 0 ==> t.timer.start == now
            &&& s.timer.start != 0 ==> t.timer == s.timer
            &&& t == (Windows { output: t.output, timer: t.timer, transaction: t.transaction, ..s })
        }),
{
}

/// While the orientation is locked, turning the device is only remembered.
///
/// Unlocking turns the output to what was remembered last.
pub proof fn law_turns_are_remembered(
    s: Windows,
    orientation: Orientation,
    size: Size,
    later_size: Size,
    now: u64,
    later: u64,
)
    ensures
        s.with_turned(orientation, size, now).unlocked_orientation == orientation,
        s.orientation_locked ==> s.with_turned(orientation, size, now) == (Windows {
            unlocked_orientation: orientation,
            ..s
        }),
        !s.orientation_locked ==> s.with_turned(orientation, size, now).output.canvas.orientation
            == orientation,
        s.with_orientation_lock(Some(orientation), size, now).orientation_locked,
        s.with_orientation_lock(Some(orientation), size, now).output.canvas.orientation
            == orientation,
        s.with_orientation_lock(Some(orientation), size, now).unlocked_orientation
            == s.unlocked_orientation,
        s.with_orientation_lock(None, size, now) == (Windows { orientation_locked: true, ..s }),
        s.orientation_locking(None).len() == 0,
        s.orientation_locking(Some(orientation)) == s.reorientation(orientation),
        !s.with_orientation_unlock(size, now).orientation_locked,
        s.with_orientation_unlock(size, now).output.canvas.orientation == s.unlocked_orientation,
        s.with_orientation_lock(None, size, now).with_turned(
            orientation,
            size,
            now,
        ).with_orientation_unlock(later_size, later).output.canvas.orientation == orientation,
{
}

/// In a new mode, every window in a layout fills the entire output.
pub proof fn law_new_modes_fill_the_output(s: Windows, size: Size, key: u64, area: Area)
    ensures
        collect_all(s.layouts.layouts@, fill_layout(size)).contains(
            Action::SetDimensions { target: Target::Layout(key), area },
        ) <==> {
            &&& area == Area::Fixed(Rectangle { loc: Point { x: 0, y: 0 }, size })
            &&& exists|i: int|
                0 <= i < s.layouts.layouts.len() && ((#[trigger] s.layouts.layouts[i]).primary
                    == Some(key) || s.layouts.layouts[i].secondary == Some(key))
        },
{
    let layouts = s.layouts.layouts@;
    let f = fill_layout(size);
    let action = Action::SetDimensions { target: Target::Layout(key), area };
    let all = collect_all(layouts, f);
    lemma_collected(layouts, f, layouts.len() as int);
    if all.contains(action) {
        let i = choose|i: int| 0 <= i < layouts.len() && f(#[trigger] layouts[i]).contains(action);
        let part = f(layouts[i]);
        let k = choose|k: int| 0 <= k < part.len() && part[k] == action;
        assert(layouts[i] == s.layouts.layouts[i]);
        assert(part.len() <= 2);
    }
    if area == Area::Fixed(Rectangle { loc: Point { x: 0, y: 0 }, size }) && exists|i: int|
        0 <= i < s.layouts.layouts.len() && ((#[trigger] s.layouts.layouts[i]).primary == Some(key)
            || s.layouts.layouts[i].secondary == Some(key)) {
        let i = choose|i: int|
            0 <= i < s.layouts.layouts.len() && ((#[trigger] s.layouts.layouts[i]).primary == Some(
                key,
            ) || s.layouts.layouts[i].secondary == Some(key));
        let part = f(layouts[i]);
        if layouts[i].primary == Some(key) {
            assert(part[0] == action);
        } else {
            let n = fill_window(layouts[i].primary, size).len() as int;
            assert(part[n] == action);
        }
        assert(part.contains(action));
        assert(all.contains(action));
    }
}

/// A scale of nothing leaves the output's scale as it is, and so does a factor of one.
///
/// Zero has two signs. A fixed scale is never neutral.
pub proof fn law_neutral_scales(bits: u64)
    ensures
        is_neutral(WindowScale::Additive(FloatBits { bits })) <==> bits == 0 || bits
            == 0x8000_0000_0000_0000,
        is_neutral(WindowScale::Subtractive(FloatBits { bits })) <==> bits == 0 || bits
            == 0x8000_0000_0000_0000,
        is_neutral(WindowScale::Multiplicative(FloatBits { bits })) <==> bits
            == 0x3ff0_0000_0000_0000,
        is_neutral(WindowScale::Divisive(FloatBits { bits })) <==> bits == 0x3ff0_0000_0000_0000,
        !is_neutral(WindowScale::Fixed(FloatBits { bits })),
{
}

/// A new scale replaces the one for exactly the same pattern and keeps all others.
///
/// It comes last, unless it would change nothing.
pub proof fn law_scales_replace_each_other(
    s: Windows,
    app_id: AppIdMatcher,
    scale: WindowScale,
    other: ScaleOverride,
)
    ensures
        other.app_id.base@ != app_id.base@ ==> (s.scales_with(app_id, scale).contains(other)
            <==> s.window_scales@.contains(other)),
        !is_neutral(scale) ==> s.scales_with(app_id, scale).len() > 0 && s.scales_with(
            app_id,
            scale,
        ).last() == (ScaleOverride { app_id, scale }),
        is_neutral(scale) && other.app_id.base@ == app_id.base@ ==> !s.scales_with(
            app_id,
            scale,
        ).contains(other),
        !is_neutral(scale) && other.app_id.base@ == app_id.base@ && s.scales_with(
            app_id,
            scale,
        ).contains(other) ==> other == (ScaleOverride { app_id, scale }),
{
    let f = other_scale(app_id.base@);
    let scales = s.window_scales@;
    lemma_collected(scales, f, scales.len() as int);
    let kept = collect_all(scales, f);
    let all = s.scales_with(app_id, scale);
    if kept.contains(other) {
        let i = choose|i: int| 0 <= i < scales.len() && f(#[trigger] scales[i]).contains(other);
        assert(scales[i] == other);
        let k = choose|k: int| 0 <= k < kept.len() && kept[k] == other;
        assert(all[k] == other);
    }
    if scales.contains(other) && other.app_id.base@ != app_id.base@ {
        let i = choose|i: int| 0 <= i < scales.len() && scales[i] == other;
        assert(f(scales[i])[0] == other);
        assert(f(scales[i]).contains(other));
        assert(kept.contains(other));
    }
    if all.contains(other) {
        let k = choose|k: int| 0 <= k < all.len() && all[k] == other;
        if k < kept.len() {
            assert(kept[k] == other);
            assert(kept.contains(other));
        }
    }
}

/// Per-window scales are applied to every window.
pub proof fn law_scales_are_applied_everywhere(targets: Seq<Target>, at: int)
    requires
        0 <= at < targets.len(),
    ensures
        collect_all(targets, window_scaling()).len() == targets.len(),
        collect_all(targets, window_scaling())[at] == (Action::SetWindowScale {
            target: targets[at],
        }),
{
    lemma_collect_single(targets, window_scaling(), targets.len() as int);
}

/// Numbers are equal if their bits are, unless they are no numbers, and zeros are equal anyway.
pub proof fn law_equal_numbers(a: FloatBits, b: FloatBits)
    ensures
        a.equals(b) == b.equals(a),
        a.bits != b.bits && a.equals(b) ==> (a.bits == 0 || a.bits == 0x8000_0000_0000_0000) && (
        b.bits == 0 || b.bits == 0x8000_0000_0000_0000),
        a.bits <= 0x7ff0_0000_0000_0000 || 0x8000_0000_0000_0000 <= a.bits <= 0xfff0_0000_0000_0000
            ==> a.equals(a),
        0x7ff0_0000_0000_0000 < a.bits < 0x8000_0000_0000_0000 || a.bits > 0xfff0_0000_0000_0000
            ==> !a.equals(b),
        (FloatBits { bits: 0 }).equals(FloatBits { bits: 0x8000_0000_0000_0000 }),
{
}

/// A new mode takes effect at once, is announced first and has to be drawn.
pub proof fn law_modes_take_effect_at_once(s: Windows, mode: Mode, canvas: Canvas)
    ensures
        s.with_mode(canvas).canvas == canvas,
        s.with_mode(canvas).output.canvas == canvas,
        s.with_mode(canvas).dirty,
        s.with_mode(canvas).layouts == s.layouts,
        s.with_mode(canvas).view == s.view,
        s.with_mode(canvas).timer == s.timer,
        s.with_mode(canvas).transaction == s.transaction,
        s.mode_switch(mode, canvas.size).len() > 0,
        s.mode_switch(mode, canvas.size)[0] == Action::SetOutputMode(mode),
        s.mode_switch(mode, canvas.size).skip(1) == collect_all(
            s.layouts.layouts@,
            fill_layout(canvas.size),
        ),
{
    assert(s.mode_switch(mode, canvas.size).skip(1) =~= collect_all(
        s.layouts.layouts@,
        fill_layout(canvas.size),
    ));
}

/// Turning the device turns the output unless the orientation is locked.
pub proof fn law_turned_devices_turn_the_output(s: Windows, orientation: Orientation)
    ensures
        s.orientation_locked ==> s.turning(orientation).len() == 0,
        !s.orientation_locked ==> s.turning(orientation) == s.reorientation(orientation),
{
}

/// Another output is used with its own canvas.
pub proof fn law_outputs_bring_their_canvas(s: Windows, output: Output)
    ensures
        s.with_output(output).output == output,
        s.with_output(output).canvas == output.canvas,
        s.with_output(output).layouts == s.layouts,
        s.with_output(output).layers == s.layers,
        s.with_output(output).view == s.view,
        s.with_output(output).dirty == s.dirty,
{
}

} // verus!
