//! Display modes.

use vstd::prelude::*;

use crate::backend::sorting::sort_indices;
use crate::backend::sorting::{precedes, stable_order};
use crate::geometry::Size;
use crate::lists::{first, first_index};
use crate::windows::scene::Mode;

verus! {

/// Flag of modes which are transmitted with reduced chroma only.
pub const YCBCR420_ONLY: u32 = 0x8000;

/// Type bit of modes preferred by the display.
pub const PREFERRED: u32 = 8;

/// Refresh rate from which on 4K modes need reduced chroma, in hertz.
pub const FAST_REFRESH: u32 = 50;

/// Hardware display mode.
#[derive(Clone, Copy, Debug, PartialEq, Eq)]
pub struct DrmMode {
    pub clock: u32,
    pub hdisplay: u16,
    pub hsync_start: u16,
    pub hsync_end: u16,
    pub htotal: u16,
    pub hskew: u16,
    pub vdisplay: u16,
    pub vsync_start: u16,
    pub vsync_end: u16,
    pub vtotal: u16,
    pub vscan: u16,
    /// Refresh rate in hertz.
    pub vrefresh: u32,
    pub flags: u32,
    pub mode_type: u32,
    pub name: [u8; 32],
}

/// A number read as a signed one.
pub open spec fn signed(number: u32) -> int {
    if number <= 0x7fff_ffff {
        number as int
    } else {
        number - 0x1_0000_0000
    }
}

/// Read a number as a signed one.
pub fn to_signed(number: u32) -> (r: i32)
    ensures
        r == signed(number),
{
    if number <= 0x7fff_ffff {
        number as i32
    } else {
        -((0xffff_ffff - number) as i32) - 1
    }
}

fn same_name(a: &[u8; 32], b: &[u8; 32]) -> (r: bool)
    ensures
        r == (*a == *b),
{
    let mut i: usize = 0;
    while i < 32
        invariant
            i <= 32,
            forall|j: int| 0 <= j < i ==> a[j] == b[j],
        decreases 32 - i,
    {
        if a[i] != b[i] {
            assert(a[i as int] != b[i as int]);
            return false;
        }
        i += 1;
    }
    assert(*a =~= *b);
    true
}

impl DrmMode {
    /// Whether the mode is preferred by the display.
    pub open spec fn preferred(self) -> bool {
        self.mode_type & PREFERRED != 0
    }

    /// Whether the mode is as large as Ultra HD.
    pub open spec fn ultra_hd(self) -> bool {
        self.hdisplay == 3840 && self.vdisplay == 2160
    }

    /// Whether the mode is one of the 4K modes.
    pub open spec fn four_k(self) -> bool {
        (self.hdisplay == 3840 || self.hdisplay == 4096) && self.vdisplay == 2160
    }

    /// The mode with reduced chroma.
    pub open spec fn reduced(self) -> DrmMode {
        DrmMode { flags: self.flags | YCBCR420_ONLY, ..self }
    }

    /// Whether the refresh rate can be represented in millihertz.
    pub open spec fn refresh_fits(self) -> bool {
        -2_147_483 <= signed(self.vrefresh) <= 2_147_483
    }

    /// Refresh rate in millihertz.
    pub open spec fn refresh(self) -> int {
        signed(self.vrefresh) * 1000
    }

    /// Output mode of the display mode.
    pub open spec fn as_output(self) -> Mode {
        Mode {
            size: Size { w: self.hdisplay as i32, h: self.vdisplay as i32 },
            refresh: self.refresh() as i32,
        }
    }

    /// Compare two modes.
    pub fn same(&self, other: &DrmMode) -> (r: bool)
        ensures
            r == (*self == *other),
    {
        self.clock == other.clock && self.hdisplay == other.hdisplay && self.hsync_start
            == other.hsync_start && self.hsync_end == other.hsync_end && self.htotal
            == other.htotal && self.hskew == other.hskew && self.vdisplay == other.vdisplay
            && self.vsync_start == other.vsync_start && self.vsync_end == other.vsync_end
            && self.vtotal == other.vtotal && self.vscan == other.vscan && self.vrefresh
            == other.vrefresh && self.flags == other.flags && self.mode_type == other.mode_type
            && same_name(&self.name, &other.name)
    }

    /// Check if the mode is preferred by the display.
    pub fn is_preferred(&self) -> (r: bool)
        ensures
            r == self.preferred(),
    {
        self.mode_type & PREFERRED != 0
    }

    /// Reduce the chroma, unless this was done before.
    fn reduce(&mut self)
        ensures
            *final(self) == old(self).reduced(),
    {
        let flags: u32 = self.flags;
        if flags & YCBCR420_ONLY == 0 {
            self.flags = flags | YCBCR420_ONLY;
        } else {
            assert(flags & 0x8000 != 0 ==> flags | 0x8000 == flags) by (bit_vector);
        }
    }

    /// Check if the refresh rate can be represented in millihertz.
    pub fn is_refresh_representable(&self) -> (r: bool)
        ensures
            r == self.refresh_fits(),
    {
        let refresh: i32 = to_signed(self.vrefresh);
        -2_147_483 <= refresh && refresh <= 2_147_483
    }

    /// Get the output mode of the display mode.
    pub fn output_mode(&self) -> (r: Mode)
        requires
            self.refresh_fits(),
        ensures
            r == self.as_output(),
    {
        Mode {
            size: Size { w: self.hdisplay as i32, h: self.vdisplay as i32 },
            refresh: to_signed(self.vrefresh) * 1000,
        }
    }
}

/// Mode with its chroma reduced where the bandwidth would not suffice otherwise.
pub open spec fn within_bandwidth(mode: DrmMode) -> DrmMode {
    if mode.four_k() && mode.vrefresh >= FAST_REFRESH {
        mode.reduced()
    } else {
        mode
    }
}

/// Reduce the chroma of all modes whose bandwidth would not suffice otherwise.
pub fn fit_bandwidth(modes: &mut Vec<DrmMode>)
    ensures
        final(modes)@ == old(modes)@.map_values(|m: DrmMode| within_bandwidth(m)),
{
    let ghost before = modes@;
    let mut i: usize = 0;
    while i < modes.len()
        invariant
            i <= modes.len(),
            modes.len() == before.len(),
            forall|j: int| 0 <= j < i ==> modes@[j] == within_bandwidth(before[j]),
            forall|j: int| i <= j < before.len() ==> modes@[j] == before[j],
        decreases modes.len() - i,
    {
        let mut mode = modes[i];
        // Check for 4K resolution (3840x2160 or 4096x2160) with a high refresh rate.
        if (mode.hdisplay == 3840 || mode.hdisplay == 4096) && mode.vdisplay == 2160
            && mode.vrefresh >= FAST_REFRESH {
            mode.reduce();
            modes.set(i, mode);
        }
        i += 1;
    }
    assert(modes@ =~= before.map_values(|m: DrmMode| within_bandwidth(m)));
}

/// Number by which modes are sorted: preferred first, then by descending refresh rate.
pub open spec fn mode_key(mode: DrmMode) -> i64 {
    if mode.preferred() {
        (0 - mode.vrefresh) as i64
    } else {
        (0x2_0000_0000 - mode.vrefresh) as i64
    }
}

/// Numbers by which modes are sorted.
pub open spec fn mode_keys(modes: Seq<DrmMode>) -> Seq<i64> {
    modes.map_values(|m: DrmMode| mode_key(m))
}

/// Whether a mode has to be tried before another one.
pub open spec fn tried_before(a: DrmMode, b: DrmMode) -> bool {
    (a.preferred() && !b.preferred()) || (a.preferred() == b.preferred() && a.vrefresh > b.vrefresh)
}

/// Modes in another order.
pub open spec fn reordered(modes: Seq<DrmMode>, order: Seq<usize>) -> Seq<DrmMode> {
    Seq::new(order.len(), |i: int| modes[order[i] as int])
}

/// First occurrences among the first `n` modes.
pub open spec fn unique_modes(modes: Seq<DrmMode>, n: int) -> Seq<DrmMode>
    decreases n,
{
    if n <= 0 {
        Seq::empty()
    } else {
        let before = unique_modes(modes, n - 1);
        if before.contains(modes[n - 1]) {
            before
        } else {
            before.push(modes[n - 1])
        }
    }
}

/// Whether modes are listed in the order in which they are tried.
///
/// The order of equally good modes is kept, and no mode comes twice.
pub open spec fn trial_order(modes: Seq<DrmMode>, trials: Seq<DrmMode>) -> bool {
    exists|order: Seq<usize>| #[trigger]
        stable_order(mode_keys(modes), order) && trials == unique_modes(
            reordered(modes, order),
            modes.len() as int,
        )
}

fn holds_mode(modes: &Vec<DrmMode>, mode: &DrmMode) -> (r: bool)
    ensures
        r == modes@.contains(*mode),
{
    let mut i: usize = 0;
    while i < modes.len()
        invariant
            i <= modes.len(),
            forall|j: int| 0 <= j < i ==> modes@[j] != *mode,
        decreases modes.len() - i,
    {
        if modes[i].same(mode) {
            assert(modes@[i as int] == *mode);
            return true;
        }
        i += 1;
    }
    false
}

/// List the modes in the order in which they are tried.
///
/// Preferred modes come first, then those with a higher refresh rate.
pub fn candidate_modes(modes: &Vec<DrmMode>) -> (r: Vec<DrmMode>)
    ensures
        trial_order(modes@, r@),
{
    let mut keys: Vec<i64> = Vec::new();
    let mut i: usize = 0;
    while i < modes.len()
        invariant
            i <= modes.len(),
            keys.len() == i,
            forall|j: int| 0 <= j < i ==> keys@[j] == mode_key(modes@[j]),
        decreases modes.len() - i,
    {
        let base: i64 = if modes[i].is_preferred() {
            0
        } else {
            0x2_0000_0000
        };
        keys.push(base - modes[i].vrefresh as i64);
        i += 1;
    }
    assert(keys@ =~= mode_keys(modes@));
    let order = sort_indices(&keys);
    let ghost sorted = reordered(modes@, order@);
    let mut unique: Vec<DrmMode> = Vec::new();
    let mut i: usize = 0;
    while i < order.len()
        invariant
            i <= order.len(),
            order.len() == modes.len(),
            stable_order(keys@, order@),
            keys.len() == modes.len(),
            sorted == reordered(modes@, order@),
            unique@ == unique_modes(sorted, i as int),
        decreases order.len() - i,
    {
        let mode: DrmMode = modes[order[i]];
        assert(sorted[i as int] == mode);
        if !holds_mode(&unique, &mode) {
            unique.push(mode);
        }
        i += 1;
    }
    assert(stable_order(mode_keys(modes@), order@) && unique@ == unique_modes(
        sorted,
        modes.len() as int,
    ));
    unique
}

/// Mode set on the hardware to try a candidate.
pub open spec fn hardware_mode(candidate: DrmMode) -> DrmMode {
    if candidate.ultra_hd() {
        candidate.reduced()
    } else {
        candidate
    }
}

/// Get the mode set on the hardware to try a candidate.
///
/// Ultra HD modes have their chroma reduced whatever their refresh rate is.
pub fn prepare_mode(candidate: &DrmMode) -> (r: DrmMode)
    ensures
        r == hardware_mode(*candidate),
        r == (DrmMode { flags: r.flags, ..*candidate }),
        !(candidate.hdisplay == 3840 && candidate.vdisplay == 2160) ==> r.flags == candidate.flags,
        candidate.hdisplay == 3840 && candidate.vdisplay == 2160 ==> r.flags == candidate.flags
            | 0x8000,
{
    let mut mode = *candidate;
    if mode.hdisplay == 3840 && mode.vdisplay == 2160 {
        mode.reduce();
    }
    mode
}

/// Whether a mode has the size of an output mode.
pub open spec fn has_size(mode: DrmMode, wanted: Mode) -> bool {
    mode.hdisplay as int == wanted.size.w && mode.vdisplay as int == wanted.size.h
}

/// Condition on modes to have the size and refresh rate of an output mode.
pub open spec fn is_wanted(wanted: Mode) -> spec_fn(DrmMode) -> bool {
    |m: DrmMode| has_size(m, wanted) && m.refresh() == wanted.refresh
}

/// Whether the modes up to the wanted one can be compared with it.
pub open spec fn modes_comparable(modes: Seq<DrmMode>, wanted: Mode) -> bool {
    forall|i: int|
        0 <= i < modes.len() && has_size(#[trigger] modes[i], wanted) && (forall|j: int|
            0 <= j < i ==> !is_wanted(wanted)(modes[j])) ==> modes[i].refresh_fits()
}

/// Check if the modes up to the wanted one can be compared with it.
pub fn are_comparable(modes: &Vec<DrmMode>, wanted: Mode) -> (r: bool)
    ensures
        r == modes_comparable(modes@, wanted),
{
    let ghost p = is_wanted(wanted);
    let mut i: usize = 0;
    while i < modes.len()
        invariant
            i <= modes.len(),
            p == is_wanted(wanted),
            forall|j: int| 0 <= j < i ==> !p(modes@[j]),
            forall|j: int|
                0 <= j < i && has_size(#[trigger] modes@[j], wanted) ==> modes@[j].refresh_fits(),
        decreases modes.len() - i,
    {
        let mode: DrmMode = modes[i];
        if mode.hdisplay as i32 == wanted.size.w && mode.vdisplay as i32 == wanted.size.h {
            assert(has_size(modes@[i as int], wanted));
            if !mode.is_refresh_representable() {
                assert(!modes_comparable(modes@, wanted));
                return false;
            }
            if to_signed(mode.vrefresh) * 1000 == wanted.refresh {
                assert(p(modes@[i as int]));
                return true;
            }
        }
        i += 1;
    }
    true
}

/// The display has no mode like the one asked for.
#[derive(Clone, Copy, Debug, PartialEq, Eq, Structural)]
pub struct ModeNotFound;

/// Hardware mode for an output mode.
pub open spec fn wanted_mode(modes: Seq<DrmMode>, wanted: Mode) -> Result<DrmMode, ModeNotFound> {
    match first(modes, is_wanted(wanted)) {
        Some(mode) => if mode.four_k() {
            Ok(mode.reduced())
        } else {
            Ok(mode)
        },
        None => Err(ModeNotFound),
    }
}

/// Find the hardware mode for an output mode.
///
/// 4K modes have their chroma reduced, since some displays support them in no
/// other way.
pub fn find_mode(modes: &Vec<DrmMode>, wanted: Mode) -> (r: Result<DrmMode, ModeNotFound>)
    requires
        modes_comparable(modes@, wanted),
    ensures
        r == wanted_mode(modes@, wanted),
        match first(modes@, is_wanted(wanted)) {
            Some(mode) => r == Ok::<DrmMode, ModeNotFound>(
                if mode.four_k() {
                    mode.reduced()
                } else {
                    mode
                },
            ),
            None => r == Err::<DrmMode, ModeNotFound>(ModeNotFound),
        },
{
    let ghost p = is_wanted(wanted);
    let mut i: usize = 0;
    while i < modes.len()
        invariant
            i <= modes.len(),
            modes_comparable(modes@, wanted),
            p == is_wanted(wanted),
            forall|j: int| 0 <= j < i ==> !p(modes@[j]),
            first_index(modes@, p, 0) == first_index(modes@, p, i as int),
        decreases modes.len() - i,
    {
        let mut mode: DrmMode = modes[i];
        if mode.hdisplay as i32 == wanted.size.w && mode.vdisplay as i32 == wanted.size.h {
            assert(has_size(modes@[i as int], wanted));
            assert(mode.refresh_fits());
            if to_signed(mode.vrefresh) * 1000 == wanted.refresh {
                if (mode.hdisplay == 3840 || mode.hdisplay == 4096) && mode.vdisplay == 2160 {
                    mode.reduce();
                }
                return Ok(mode);
            }
        }
        i += 1;
    }
    Err(ModeNotFound)
}

/// Modes are sorted exactly by preference and refresh rate.
pub proof fn lemma_mode_key(a: DrmMode, b: DrmMode)
    ensures
        mode_key(a) < mode_key(b) <==> tried_before(a, b),
{
}

proof fn lemma_unique_modes(modes: Seq<DrmMode>, n: int)
    requires
        0 <= n <= modes.len(),
    ensures
        unique_modes(modes, n).len() <= n,
        forall|i: int, j: int|
            0 <= i < j < unique_modes(modes, n).len() ==> unique_modes(modes, n)[i]
                != unique_modes(modes, n)[j],
        forall|i: int| 0 <= i < n ==> unique_modes(modes, n).contains(#[trigger] modes[i]),
        forall|k: int|
            0 <= k < unique_modes(modes, n).len() ==> exists|i: int|
                0 <= i < n && #[trigger] modes[i] == #[trigger] unique_modes(modes, n)[k],
    decreases n,
{
    if n > 0 {
        lemma_unique_modes(modes, n - 1);
        let before = unique_modes(modes, n - 1);
        let after = unique_modes(modes, n);
        assert forall|i: int| 0 <= i < n implies after.contains(#[trigger] modes[i]) by {
            if i < n - 1 {
                assert(before.contains(modes[i]));
                let k = choose|k: int| 0 <= k < before.len() && before[k] == modes[i];
                assert(after[k] == before[k]);
            } else if !before.contains(modes[n - 1]) {
                assert(after[before.len() as int] == modes[n - 1]);
            }
        }
        assert forall|k: int| 0 <= k < after.len() implies exists|i: int|
            0 <= i < n && #[trigger] modes[i] == #[trigger] after[k] by {
            if k < before.len() {
                let i = choose|i: int|
                    0 <= i < n - 1 && #[trigger] modes[i] == #[trigger] before[k];
                assert(modes[i] == after[k]);
            } else {
                assert(modes[n - 1] == after[k]);
            }
        }
    }
}

/// Sorted values stay sorted without their repetitions.
proof fn lemma_unique_sorted(modes: Seq<DrmMode>, n: int)
    requires
        0 <= n <= modes.len(),
        forall|i: int, j: int|
            0 <= i < j < modes.len() ==> !tried_before(#[trigger] modes[j], #[trigger] modes[i]),
    ensures
        forall|i: int, j: int|
            0 <= i < j < unique_modes(modes, n).len() ==> !tried_before(
                #[trigger] unique_modes(modes, n)[j],
                #[trigger] unique_modes(modes, n)[i],
            ),
    decreases n,
{
    if n > 0 {
        lemma_unique_sorted(modes, n - 1);
        lemma_unique_modes(modes, n - 1);
        let before = unique_modes(modes, n - 1);
        let after = unique_modes(modes, n);
        assert forall|i: int, j: int| 0 <= i < j < after.len() implies !tried_before(
            #[trigger] after[j],
            #[trigger] after[i],
        ) by {
            if j < before.len() {
                assert(after[i] == before[i]);
                assert(after[j] == before[j]);
            } else {
                assert(after[i] == before[i]);
                let k = choose|k: int|
                    0 <= k < n - 1 && #[trigger] modes[k] == #[trigger] before[i];
                assert(!tried_before(modes[n - 1], modes[k]));
            }
        }
    }
}

/// The modes tried are those of the display, each of them once, and no mode is
/// tried while a better one is left.
pub proof fn law_trials_cover_all_modes(modes: Seq<DrmMode>, trials: Seq<DrmMode>)
    requires
        modes.len() <= usize::MAX,
        trial_order(modes, trials),
    ensures
        forall|m: DrmMode| #[trigger] modes.contains(m) <==> trials.contains(m),
        forall|i: int, j: int| 0 <= i < j < trials.len() ==> trials[i] != trials[j],
        forall|i: int, j: int|
            0 <= i < j < trials.len() ==> !tried_before(#[trigger] trials[j], #[trigger] trials[i]),
{
    let keys = mode_keys(modes);
    let order = choose|order: Seq<usize>| #[trigger]
        stable_order(keys, order) && trials == unique_modes(
            reordered(modes, order),
            modes.len() as int,
        );
    let sorted = reordered(modes, order);
    let n = modes.len() as int;
    assert(sorted.len() == n);
    lemma_unique_modes(sorted, n);
    crate::backend::sorting::lemma_order_is_complete(keys, order);
    assert forall|m: DrmMode| #[trigger] modes.contains(m) <==> trials.contains(m) by {
        if modes.contains(m) {
            let i = choose|i: int| 0 <= i < modes.len() && modes[i] == m;
            assert(order.contains(i as usize));
            let k = choose|k: int| 0 <= k < order.len() && order[k] == i as usize;
            assert(sorted[k] == m);
            assert(trials.contains(sorted[k]));
        }
        if trials.contains(m) {
            let k = choose|k: int| 0 <= k < trials.len() && trials[k] == m;
            let i = choose|i: int| 0 <= i < n && #[trigger] sorted[i] == #[trigger] trials[k];
            assert(modes[order[i] as int] == m);
        }
    }
    assert forall|i: int, j: int| 0 <= i < j < sorted.len() implies !tried_before(
        #[trigger] sorted[j],
        #[trigger] sorted[i],
    ) by {
        assert(precedes(keys, order[i] as int, order[j] as int));
        assert(keys[order[i] as int] == mode_key(sorted[i]));
        assert(keys[order[j] as int] == mode_key(sorted[j]));
        lemma_mode_key(sorted[j], sorted[i]);
    }
    lemma_unique_sorted(sorted, n);
}

/// Reducing the chroma twice is the same as doing it once.
pub proof fn law_bandwidth_fits_once(mode: DrmMode)
    ensures
        within_bandwidth(within_bandwidth(mode)) == within_bandwidth(mode),
{
    let flags = mode.flags;
    assert((flags | 0x8000) | 0x8000 == flags | 0x8000) by (bit_vector);
}

/// Reducing the chroma sets one flag and changes nothing else.
pub proof fn law_reduced_modes_differ_in_one_flag(mode: DrmMode)
    ensures
        mode.reduced().flags & 0x8000 == 0x8000,
        mode.reduced().flags & !0x8000u32 == mode.flags & !0x8000u32,
        mode.reduced() == (DrmMode { flags: mode.reduced().flags, ..mode }),
        mode.flags & 0x8000 == 0x8000 ==> mode.reduced() == mode,
{
    let flags = mode.flags;
    assert((flags | 0x8000) & 0x8000 == 0x8000) by (bit_vector);
    assert((flags | 0x8000) & !0x8000u32 == flags & !0x8000u32) by (bit_vector);
    assert(flags & 0x8000 == 0x8000 ==> flags | 0x8000 == flags) by (bit_vector);
}

/// The mode set on the hardware is the candidate itself, unless that is exactly 3840x2160.
///
/// In that case it has reduced chroma, which is all that differs.
pub proof fn law_only_ultra_hd_is_tried_with_reduced_chroma(candidate: DrmMode)
    ensures
        candidate.hdisplay != 3840 || candidate.vdisplay != 2160 ==> hardware_mode(candidate)
            == candidate,
        candidate.hdisplay == 3840 && candidate.vdisplay == 2160 ==> {
            let mode = hardware_mode(candidate);
            &&& mode.flags & 0x8000 == 0x8000
            &&& mode.flags & !0x8000u32 == candidate.flags & !0x8000u32
            &&& mode == (DrmMode { flags: mode.flags, ..candidate })
        },
        hardware_mode(candidate).hdisplay == candidate.hdisplay,
        hardware_mode(candidate).vdisplay == candidate.vdisplay,
        hardware_mode(candidate).vrefresh == candidate.vrefresh,
{
    law_reduced_modes_differ_in_one_flag(candidate);
}

/// Bandwidth is saved for 4K modes of at least 50 hertz alone, whichever of both widths they have.
pub proof fn law_only_fast_4k_modes_save_bandwidth(mode: DrmMode)
    ensures
        mode.vdisplay != 2160 ==> within_bandwidth(mode) == mode,
        mode.hdisplay != 3840 && mode.hdisplay != 4096 ==> within_bandwidth(mode) == mode,
        mode.vrefresh < 50 ==> within_bandwidth(mode) == mode,
        (mode.hdisplay == 3840 || mode.hdisplay == 4096) && mode.vdisplay == 2160 && mode.vrefresh
            >= 50 ==> {
            let fitted = within_bandwidth(mode);
            &&& fitted.flags & 0x8000 == 0x8000
            &&& fitted.flags & !0x8000u32 == mode.flags & !0x8000u32
            &&& fitted == (DrmMode { flags: fitted.flags, ..mode })
        },
{
    law_reduced_modes_differ_in_one_flag(mode);
}

/// A mode is found by its exact size and refresh rate, and the first such mode is taken.
pub proof fn law_modes_are_found_exactly(modes: Seq<DrmMode>, wanted: Mode, at: int)
    requires
        0 <= at < modes.len(),
    ensures
        ({
            let fits = modes[at].hdisplay == wanted.size.w && modes[at].vdisplay == wanted.size.h
                && signed(modes[at].vrefresh) * 1000 == wanted.refresh;
            &&& first(modes, is_wanted(wanted)) is None ==> !fits
            &&& fits && (forall|i: int|
                0 <= i < at ==> (#[trigger] modes[i]).hdisplay != wanted.size.w || modes[i].vdisplay
                    != wanted.size.h || signed(modes[i].vrefresh) * 1000 != wanted.refresh)
                ==> first(modes, is_wanted(wanted)) == Some(modes[at])
        }),
        first(modes, is_wanted(wanted)) matches Some(mode) ==> mode.hdisplay == wanted.size.w
            && mode.vdisplay == wanted.size.h && signed(mode.vrefresh) * 1000 == wanted.refresh,
        modes[at].four_k() <==> (modes[at].hdisplay == 3840 || modes[at].hdisplay == 4096)
            && modes[at].vdisplay == 2160,
{
    let p = is_wanted(wanted);
    crate::lists::lemma_first_index(modes, p, 0);
    assert forall|i: int| 0 <= i < modes.len() implies p(modes[i]) == ((
    #[trigger] modes[i]).hdisplay == wanted.size.w && modes[i].vdisplay == wanted.size.h && signed(
        modes[i].vrefresh,
    ) * 1000 == wanted.refresh) by {}
}

/// Preferred modes are tried first, and faster ones before slower ones.
pub proof fn law_better_modes_are_tried_first(
    modes: Seq<DrmMode>,
    trials: Seq<DrmMode>,
    i: int,
    j: int,
)
    requires
        modes.len() <= usize::MAX,
        trial_order(modes, trials),
        0 <= i < j < trials.len(),
    ensures
        trials[j].mode_type & 8 != 0 ==> trials[i].mode_type & 8 != 0,
        (trials[i].mode_type & 8 != 0) == (trials[j].mode_type & 8 != 0) ==> trials[i].vrefresh
            >= trials[j].vrefresh,
        trials[i] != trials[j],
{
    law_trials_cover_all_modes(modes, trials);
    assert(!tried_before(trials[j], trials[i]));
}

/// Numbers keep their value if they can be read as signed ones, and wrap around otherwise.
pub proof fn law_signed_numbers_wrap_around(number: u32)
    ensures
        number < 0x8000_0000 ==> signed(number) == number,
        number >= 0x8000_0000 ==> signed(number) == number - 0x1_0000_0000,
        i32::MIN <= signed(number) <= i32::MAX,
{
}

/// An output mode has the size of its display mode and the thousandfold refresh rate.
pub proof fn law_output_modes_count_millihertz(mode: DrmMode)
    requires
        mode.vrefresh <= 2_147_483,
    ensures
        mode.refresh_fits(),
        mode.as_output().refresh == mode.vrefresh * 1000,
        mode.as_output().size.w == mode.hdisplay,
        mode.as_output().size.h == mode.vdisplay,
{
}

/// Modes can be compared with a wanted one if their refresh rates are representable.
///
/// That matters for modes of the wanted size alone, up to the first which fits.
pub proof fn law_representable_modes_are_comparable(modes: Seq<DrmMode>, wanted: Mode, at: int)
    ensures
        (forall|i: int| 0 <= i < modes.len() ==> (#[trigger] modes[i]).vrefresh <= 2_147_483)
            ==> modes_comparable(modes, wanted),
        modes_comparable(modes, wanted) && 0 <= at < modes.len() && modes[at].hdisplay
            == wanted.size.w && modes[at].vdisplay == wanted.size.h && (forall|i: int|
            0 <= i < at ==> (#[trigger] modes[i]).hdisplay != wanted.size.w || modes[i].vdisplay
                != wanted.size.h || signed(modes[i].vrefresh) * 1000 != wanted.refresh)
            ==> modes[at].refresh_fits(),
        (forall|i: int|
            0 <= i < modes.len() ==> (#[trigger] modes[i]).hdisplay != wanted.size.w
                || modes[i].vdisplay != wanted.size.h) ==> modes_comparable(modes, wanted),
{
    let p = is_wanted(wanted);
    assert forall|i: int| 0 <= i < modes.len() implies p(modes[i]) == ((
    #[trigger] modes[i]).hdisplay == wanted.size.w && modes[i].vdisplay == wanted.size.h && signed(
        modes[i].vrefresh,
    ) * 1000 == wanted.refresh) by {}
    if modes_comparable(modes, wanted) && 0 <= at < modes.len() {
        assert(has_size(modes[at], wanted) == (modes[at].hdisplay == wanted.size.w
            && modes[at].vdisplay == wanted.size.h));
    }
}

/// A refresh rate in hertz is representable in millihertz as long as it fits 32 bits.
pub proof fn law_representable_refresh_rates(mode: DrmMode)
    ensures
        mode.refresh_fits() <==> i32::MIN <= mode.refresh() <= i32::MAX,
        mode.refresh() == signed(mode.vrefresh) * 1000,
{
}

} // verus!
