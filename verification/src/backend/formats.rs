//! Buffer formats for rendering and direct scanout.

use indexmap::IndexSet;
use vstd::prelude::*;

verus! {

/// Buffer format: its color code and its modifier.
pub type Format = (u32, u64);

/// Modifier of buffers without any tiling or compression.
pub const LINEAR: u64 = 0;

/// Set which keeps the order of insertion.
#[verifier::external_type_specification]
#[verifier::external_body]
#[verifier::reject_recursive_types(T)]
#[verifier::reject_recursive_types(S)]
pub struct ExIndexSet<T, S>(indexmap::IndexSet<T, S>);

/// Formats in a set, in the order of their insertion.
pub uninterp spec fn contents(set: IndexSet<(u32, u64)>) -> Seq<(u32, u64)>;

/// Condition on formats to be in a list.
pub open spec fn within(list: Seq<Format>) -> spec_fn(Format) -> bool {
    |format: Format| list.contains(format)
}

/// First occurrences among the first `n` formats.
pub open spec fn distinct(list: Seq<Format>, n: int) -> Seq<Format>
    decreases n,
{
    if n <= 0 {
        Seq::empty()
    } else {
        let before = distinct(list, n - 1);
        if before.contains(list[n - 1]) {
            before
        } else {
            before.push(list[n - 1])
        }
    }
}

/// Formats of a list which satisfy a condition, among the first `n`.
pub open spec fn chosen(list: Seq<Format>, p: spec_fn(Format) -> bool, n: int) -> Seq<Format>
    decreases n,
{
    if n <= 0 {
        Seq::empty()
    } else if p(list[n - 1]) {
        chosen(list, p, n - 1).push(list[n - 1])
    } else {
        chosen(list, p, n - 1)
    }
}

/// Collect formats with `IndexSet::from_iter`.
///
/// It is claimed that the set holds every format once, in the order of the
/// first occurrences.
#[verifier::external_body]
fn collect_set(list: Vec<(u32, u64)>) -> (r: IndexSet<(u32, u64)>)
    ensures
        contents(r) == distinct(list@, list.len() as int),
{
    list.into_iter().collect()
}

/// Get the formats of a set with `IndexSet::iter`.
///
/// It is claimed that every format comes once, in the order of insertion.
#[verifier::external_body]
fn list_set(set: &IndexSet<(u32, u64)>) -> (r: Vec<(u32, u64)>)
    ensures
        r@ == contents(*set),
{
    set.iter().copied().collect()
}

/// Check if a set holds a format with `IndexSet::contains`.
///
/// It is claimed that this is the case for exactly the formats in the set.
#[verifier::external_body]
fn holds_format(set: &IndexSet<(u32, u64)>, format: &(u32, u64)) -> (r: bool)
    ensures
        r == contents(*set).contains(*format),
{
    set.contains(format)
}

/// Get the formats in two sets with `IndexSet::intersection`.
///
/// It is claimed that the formats of the first set come in its order, as long
/// as the second set holds them too.
#[verifier::external_body]
fn intersect_sets(a: &IndexSet<(u32, u64)>, b: &IndexSet<(u32, u64)>) -> (r: Vec<(u32, u64)>)
    ensures
        r@ == chosen(contents(*a), within(contents(*b)), contents(*a).len() as int),
{
    a.intersection(b).copied().collect()
}

/// Copy a set with `IndexSet::clone`.
///
/// It is claimed that the copy holds the same formats in the same order.
#[verifier::external_body]
fn copy_set(set: &IndexSet<(u32, u64)>) -> (r: IndexSet<(u32, u64)>)
    ensures
        contents(r) == contents(*set),
{
    set.clone()
}

/// Formats that a plane can scan out.
pub struct Plane {
    pub formats: IndexSet<(u32, u64)>,
}

/// Condition on formats to be supported by all planes.
pub open spec fn common(planes: Seq<Plane>) -> spec_fn(Format) -> bool {
    |format: Format|
        forall|i: int|
            0 <= i < planes.len() ==> contents((#[trigger] planes[i]).formats).contains(format)
}

/// Check if all planes support a format.
pub fn supported_by_all(planes: &Vec<Plane>, format: &(u32, u64)) -> (r: bool)
    ensures
        r == common(planes@)(*format),
{
    let mut i: usize = 0;
    while i < planes.len()
        invariant
            i <= planes.len(),
            forall|j: int|
                0 <= j < i ==> contents((#[trigger] planes@[j]).formats).contains(*format),
        decreases planes.len() - i,
    {
        if !holds_format(&planes[i].formats, format) {
            assert(!contents(planes@[i as int].formats).contains(*format));
            return false;
        }
        i += 1;
    }
    true
}

/// Remove formats which are not supported by all planes with `IndexSet::retain`.
///
/// It is claimed that the others stay, in their order.
#[verifier::external_body]
fn retain_common(set: &mut IndexSet<(u32, u64)>, planes: &Vec<Plane>)
    ensures
        contents(*final(set)) == chosen(
            contents(*old(set)),
            common(planes@),
            contents(*old(set)).len() as int,
        ),
{
    set.retain(|format| supported_by_all(planes, format));
}

/// Formats of the first `n` planes, one plane after the other.
pub open spec fn plane_formats(planes: Seq<Plane>, n: int) -> Seq<Format>
    decreases n,
{
    if n <= 0 {
        Seq::empty()
    } else {
        plane_formats(planes, n - 1) + contents(planes[n - 1].formats)
    }
}

/// Collect the formats supported by any plane.
fn any_formats(planes: &Vec<Plane>) -> (r: IndexSet<(u32, u64)>)
    ensures
        contents(r) == distinct(
            plane_formats(planes@, planes.len() as int),
            plane_formats(planes@, planes.len() as int).len() as int,
        ),
{
    let mut all: Vec<(u32, u64)> = Vec::new();
    let mut i: usize = 0;
    while i < planes.len()
        invariant
            i <= planes.len(),
            all@ == plane_formats(planes@, i as int),
        decreases planes.len() - i,
    {
        let formats = list_set(&planes[i].formats);
        let ghost before = all@;
        let mut j: usize = 0;
        while j < formats.len()
            invariant
                j <= formats.len(),
                all@ == before + formats@.take(j as int),
            decreases formats.len() - j,
        {
            all.push(formats[j]);
            j += 1;
        }
        assert(formats@.take(formats.len() as int) == formats@);
        i += 1;
    }
    collect_set(all)
}

/// Condition on formats to be without tiling and compression.
pub open spec fn linear() -> spec_fn(Format) -> bool {
    |format: Format| format.1 == LINEAR
}

/// Formats for rendering: the linear ones, or all of them without any.
pub open spec fn render_formats(list: Seq<Format>) -> Seq<Format> {
    let linear_formats = chosen(list, linear(), list.len() as int);
    if linear_formats.len() > 0 {
        linear_formats
    } else {
        list
    }
}

/// Formats selected for rendering, if there are any.
pub open spec fn selected(list: Seq<Format>) -> Option<Seq<Format>> {
    if list.len() > 0 {
        Some(render_formats(list))
    } else {
        None
    }
}

/// Select the formats for rendering.
///
/// Compressed formats are avoided wherever possible, since drivers fail on
/// them. Without any format there is nothing to select.
pub fn select_formats(formats: Vec<(u32, u64)>) -> (r: Option<Vec<(u32, u64)>>)
    ensures
        match r {
            Some(list) => selected(formats@) == Some(list@),
            None => selected(formats@) is None,
        },
        match r {
            Some(selected) => formats.len() > 0 && selected@ == render_formats(formats@),
            None => formats.len() == 0,
        },
{
    let mut linear_formats: Vec<(u32, u64)> = Vec::new();
    let mut i: usize = 0;
    while i < formats.len()
        invariant
            i <= formats.len(),
            linear_formats@ == chosen(formats@, linear(), i as int),
        decreases formats.len() - i,
    {
        if formats[i].1 == LINEAR {
            linear_formats.push(formats[i]);
        }
        i += 1;
    }
    if formats.len() == 0 {
        None
    } else if linear_formats.len() > 0 {
        Some(linear_formats)
    } else {
        Some(formats)
    }
}

/// Formats in the order of preference for direct scanout.
pub struct Tranches {
    /// Formats supported by the renderer.
    pub renderer: Vec<(u32, u64)>,
    /// Formats which can be scanned out on ALL overlay planes.
    pub all_overlay: Vec<(u32, u64)>,
    /// Formats which can be scanned out on ANY overlay plane.
    pub any_overlay: Vec<(u32, u64)>,
    /// Formats which can be scanned out on ANY primary plane.
    pub primary: Vec<(u32, u64)>,
}

/// Formats supported by any plane and by the renderer.
pub open spec fn any_plane(planes: Seq<Plane>, renderer: Seq<Format>) -> Seq<Format> {
    let all = plane_formats(planes, planes.len() as int);
    let once = distinct(all, all.len() as int);
    chosen(once, within(renderer), once.len() as int)
}

/// Formats supported by all planes and by the renderer.
pub open spec fn all_planes(planes: Seq<Plane>, renderer: Seq<Format>) -> Seq<Format> {
    chosen(renderer, common(planes), renderer.len() as int)
}

/// What is chosen satisfies the condition, and nothing else is left out.
pub proof fn lemma_chosen(list: Seq<Format>, p: spec_fn(Format) -> bool, n: int)
    requires
        0 <= n <= list.len(),
    ensures
        forall|f: Format|
            #![trigger chosen(list, p, n).contains(f)]
            chosen(list, p, n).contains(f) <==> p(f) && list.take(n).contains(f),
    decreases n,
{
    if n > 0 {
        lemma_chosen(list, p, n - 1);
        let before = chosen(list, p, n - 1);
        let after = chosen(list, p, n);
        assert forall|f: Format|
            #![trigger after.contains(f)]
            after.contains(f) <==> p(f) && list.take(n).contains(f) by {
            if after.contains(f) {
                let k = choose|k: int| 0 <= k < after.len() && after[k] == f;
                if k < before.len() {
                    assert(before[k] == f);
                    assert(before.contains(f));
                    let head = list.take(n - 1);
                    let i = choose|i: int| 0 <= i < head.len() && head[i] == f;
                    assert(list.take(n)[i] == f);
                } else {
                    assert(list.take(n)[n - 1] == f);
                }
            }
            if p(f) && list.take(n).contains(f) {
                let head = list.take(n);
                let i = choose|i: int| 0 <= i < head.len() && head[i] == f;
                if i < n - 1 {
                    assert(list.take(n - 1)[i] == f);
                    assert(before.contains(f));
                    let k = choose|k: int| 0 <= k < before.len() && before[k] == f;
                    assert(after[k] == f);
                } else {
                    assert(after[before.len() as int] == f);
                }
            }
        }
    }
}

/// Only formats of the renderer are preferred, and a format which all overlay
/// planes support is supported by each of them.
pub proof fn law_tranches_are_renderable(planes: Seq<Plane>, renderer: Seq<Format>, format: Format)
    ensures
        any_plane(planes, renderer).contains(format) ==> renderer.contains(format),
        all_planes(planes, renderer).contains(format) <==> renderer.contains(format) && forall|
            i: int,
        |
            0 <= i < planes.len() ==> contents((#[trigger] planes[i]).formats).contains(format),
{
    let all = plane_formats(planes, planes.len() as int);
    let once = distinct(all, all.len() as int);
    lemma_chosen(once, within(renderer), once.len() as int);
    lemma_chosen(renderer, common(planes), renderer.len() as int);
    assert(renderer.take(renderer.len() as int) =~= renderer);
    assert(all_planes(planes, renderer).contains(format) <==> common(planes)(format)
        && renderer.contains(format));
}

/// Compressed formats are used only if there is no other one, and some format
/// is used whenever there is any.
pub proof fn law_compression_is_avoided(list: Seq<Format>, format: Format)
    ensures
        render_formats(list).contains(format) ==> list.contains(format),
        list.len() > 0 ==> render_formats(list).len() > 0,
        (exists|f: Format| list.contains(f) && f.1 == LINEAR) && render_formats(list).contains(format)
            ==> format.1 == LINEAR,
{
    let chosen_formats = chosen(list, linear(), list.len() as int);
    lemma_chosen(list, linear(), list.len() as int);
    assert(list.take(list.len() as int) =~= list);
    if exists|f: Format| list.contains(f) && f.1 == LINEAR {
        let f = choose|f: Format| list.contains(f) && f.1 == LINEAR;
        assert(chosen_formats.contains(f));
    }
}

/// Sort the renderer's formats by what the planes can scan out.
pub fn scanout_tranches(
    renderer: &IndexSet<(u32, u64)>,
    primary: &Vec<Plane>,
    overlay: &Vec<Plane>,
) -> (r: Tranches)
    ensures
        r.renderer@ == contents(*renderer),
        r.all_overlay@ == all_planes(overlay@, contents(*renderer)),
        r.any_overlay@ == any_plane(overlay@, contents(*renderer)),
        r.primary@ == any_plane(primary@, contents(*renderer)),
{
    // Get formats supported by ANY primary plane and the renderer.
    let primary_formats = intersect_sets(&any_formats(primary), renderer);

    // Get formats supported by ANY overlay plane and the renderer.
    let any_overlay_formats = intersect_sets(&any_formats(overlay), renderer);

    // Get formats supported by ALL overlay planes and the renderer.
    let mut all_overlay_formats = copy_set(renderer);
    retain_common(&mut all_overlay_formats, overlay);

    Tranches {
        renderer: list_set(renderer),
        all_overlay: list_set(&all_overlay_formats),
        any_overlay: any_overlay_formats,
        primary: primary_formats,
    }
}

} // verus!
