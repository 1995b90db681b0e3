//! Setup of an output device.

use vstd::prelude::*;

use crate::backend::drm::{
    after_phase, saving_value, usable_in, ConnectorInfo, SearchPhase, SearchStep,
};
use crate::backend::drm::{bandwidth_setting, search_connector};
use crate::backend::formats::render_formats;
use crate::backend::formats::select_formats;
use crate::backend::modes::{
    candidate_modes, fit_bandwidth, prepare_mode, DrmMode,
};
use crate::backend::modes::{
    hardware_mode, law_trials_cover_all_modes, trial_order, within_bandwidth,
};
use crate::lists::{first_index, lemma_first_index};
use crate::trials::Trials;

verus! {

/// Phase in the setup of an output device.
#[derive(Debug, PartialEq, Eq)]
pub enum SetupPhase {
    /// Look for a connector.
    Search(SearchPhase),
    /// Tune the connector.
    Tune(ConnectorInfo),
    /// Try modes on the connector.
    Try { connector: ConnectorInfo, trials: Trials<DrmMode> },
    /// A mode works on the connector.
    Done { connector: ConnectorInfo, attempt: ModeAttempt },
    /// No connector or none of its modes can be used.
    Failed,
}

/// Mode to be tried.
#[derive(Clone, Copy, Debug, PartialEq, Eq)]
pub struct ModeAttempt {
    /// Mode of the display.
    pub candidate: DrmMode,
    /// Mode set on the hardware.
    pub hardware: DrmMode,
}

/// Attempt for a mode of the display.
pub open spec fn attempt_of(candidate: DrmMode) -> ModeAttempt {
    ModeAttempt { candidate, hardware: hardware_mode(candidate) }
}

/// Property which is changed on a connector.
#[derive(Clone, Copy, Debug, PartialEq, Eq, Structural)]
pub struct Tuning {
    pub property: u32,
    pub value: u64,
}

/// Property of a connector, by its name.
#[derive(Debug, PartialEq, Eq)]
pub struct NamedProperty {
    pub handle: u32,
    pub name: String,
}

/// Changes for the first `n` properties.
pub open spec fn tunings(properties: Seq<NamedProperty>, n: int) -> Seq<Tuning>
    decreases n,
{
    if n <= 0 {
        Seq::empty()
    } else {
        match saving_value(properties[n - 1].name@) {
            Some(value) => tunings(properties, n - 1).push(
                Tuning { property: properties[n - 1].handle, value },
            ),
            None => tunings(properties, n - 1),
        }
    }
}

/// Setup of an output device.
///
/// The setup finds a connector, tunes it for high resolutions and tries its
/// modes until one of them works.
#[derive(Debug, PartialEq, Eq)]
pub struct DrmSetup {
    /// Buffer formats for rendering.
    pub formats: Vec<(u32, u64)>,
    pub phase: SetupPhase,
}

impl DrmSetup {
    /// Whether the setup starts with the formats supported by the renderer.
    pub open spec fn starts_with(&self, formats: Seq<(u32, u64)>) -> bool {
        &&& self.formats@ == render_formats(formats)
        &&& self.phase == SetupPhase::Search(SearchPhase::HighResolution(1))
    }

    /// Start the setup with the formats supported by the renderer.
    ///
    /// There is no setup without any format.
    pub fn create_drm_compositor(formats: Vec<(u32, u64)>) -> (r: Option<DrmSetup>)
        ensures
            r matches Some(setup) ==> setup.starts_with(formats@),
            match r {
                Some(setup) => {
                    &&& formats.len() > 0
                    &&& setup.formats@ == render_formats(formats@)
                    &&& setup.phase == SetupPhase::Search(SearchPhase::HighResolution(1))
                },
                None => formats.len() == 0,
            },
    {
        match select_formats(formats) {
            Some(formats) => Some(
                DrmSetup {
                    formats,
                    phase: SetupPhase::Search(SearchPhase::HighResolution(1)),
                },
            ),
            None => None,
        }
    }

    /// Phase after the connectors were read during a search.
    pub open spec fn phase_after_search(
        phase: SearchPhase,
        connectors: Seq<Option<ConnectorInfo>>,
    ) -> SetupPhase {
        match first_index(connectors, usable_in(phase), 0) {
            Some(i) => SetupPhase::Tune(connectors[i]->0),
            None => match after_phase(phase) {
                SearchStep::Continue { phase: next, pause } => SetupPhase::Search(next),
                _ => SetupPhase::Failed,
            },
        }
    }

    /// Milliseconds to wait before the connectors are read again.
    pub open spec fn search_pause(
        phase: SearchPhase,
        connectors: Seq<Option<ConnectorInfo>>,
    ) -> Option<u64> {
        match first_index(connectors, usable_in(phase), 0) {
            Some(_) => None,
            None => match after_phase(phase) {
                SearchStep::Continue { phase: next, pause } => Some(pause),
                _ => None,
            },
        }
    }

    /// Go on after the connectors were read.
    ///
    /// Connectors whose state could not be read are missing. Returns the
    /// milliseconds to wait before the connectors are read again, unless the
    /// search is over.
    pub fn connectors_read(&mut self, connectors: Vec<Option<ConnectorInfo>>) -> (r: Option<u64>)
        requires
            old(self).phase is Search,
        ensures
            final(self).formats == old(self).formats,
            final(self).phase == Self::phase_after_search(old(self).phase->Search_0, connectors@),
            r == Self::search_pause(old(self).phase->Search_0, connectors@),
            ({
                let phase = old(self).phase->Search_0;
                match first_index(connectors@, usable_in(phase), 0) {
                    Some(i) => {
                        &&& r is None
                        &&& connectors@[i] matches Some(info) && final(self).phase
                            == SetupPhase::Tune(info)
                    },
                    None => match after_phase(phase) {
                        SearchStep::Continue { phase: next, pause } => {
                            &&& r == Some(pause)
                            &&& final(self).phase == SetupPhase::Search(next)
                        },
                        _ => r is None && final(self).phase == SetupPhase::Failed,
                    },
                }
            }),
    {
        let phase = match &self.phase {
            SetupPhase::Search(phase) => *phase,
            _ => {
                return None;
            },
        };
        proof {
            lemma_first_index(connectors@, usable_in(phase), 0);
        }
        match search_connector(phase, &connectors) {
            SearchStep::Found(index) => {
                let mut connectors = connectors;
                if let Some(info) = connectors.swap_remove(index) {
                    self.phase = SetupPhase::Tune(info);
                }
                None
            },
            SearchStep::Continue { phase, pause } => {
                self.phase = SetupPhase::Search(phase);
                Some(pause)
            },
            SearchStep::Failed => {
                self.phase = SetupPhase::Failed;
                None
            },
        }
    }

    /// Get the changes which tune the connector for high resolutions.
    ///
    /// Properties which could not be read are left out.
    pub fn tune(&self, properties: &Vec<NamedProperty>) -> (r: Vec<Tuning>)
        ensures
            r@ == tunings(properties@, properties.len() as int),
    {
        let mut r: Vec<Tuning> = Vec::new();
        let mut i: usize = 0;
        while i < properties.len()
            invariant
                i <= properties.len(),
                r@ == tunings(properties@, i as int),
            decreases properties.len() - i,
        {
            if let Some(value) = bandwidth_setting(&properties[i].name) {
                r.push(Tuning { property: properties[i].handle, value });
            }
            i += 1;
        }
        r
    }

    /// What is known of a connector after it was read again.
    pub open spec fn latest_info(
        previous: ConnectorInfo,
        refreshed: Option<ConnectorInfo>,
    ) -> ConnectorInfo {
        match refreshed {
            Some(info) => info,
            None => previous,
        }
    }

    /// Whether the modes of a connector are tried after it was read again.
    pub open spec fn tries_modes(after: SetupPhase, info: ConnectorInfo) -> bool {
        if info.modes.len() == 0 {
            after == SetupPhase::Failed
        } else {
            &&& after matches SetupPhase::Try { connector, trials }
            &&& connector == (ConnectorInfo { modes: connector.modes, ..info })
            &&& connector.modes@ == info.modes@.map_values(|m: DrmMode| within_bandwidth(m))
            &&& trial_order(connector.modes@, trials.items@)
            &&& trials.failed == 0
            &&& !trials.worked
        }
    }

    /// Go on after the connector was read again.
    ///
    /// Without new information, the previous one is used. A connector without
    /// any mode cannot be used.
    pub fn connector_refreshed(&mut self, refreshed: Option<ConnectorInfo>)
        requires
            old(self).phase is Tune,
        ensures
            final(self).formats == old(self).formats,
            Self::tries_modes(
                final(self).phase,
                Self::latest_info(old(self).phase->Tune_0, refreshed),
            ),
            ({
                let info = match refreshed {
                    Some(info) => info,
                    None => old(self).phase->Tune_0,
                };
                if info.modes.len() == 0 {
                    final(self).phase == SetupPhase::Failed
                } else {
                    &&& final(self).phase matches SetupPhase::Try { connector, trials }
                    &&& connector == (ConnectorInfo { modes: connector.modes, ..info })
                    &&& connector.modes@ == info.modes@.map_values(
                        |m: DrmMode| within_bandwidth(m),
                    )
                    &&& trial_order(connector.modes@, trials.items@)
                    &&& trials.upcoming() == Some(trials.items[0])
                }
            }),
    {
        let mut phase = SetupPhase::Failed;
        std::mem::swap(&mut phase, &mut self.phase);
        if let SetupPhase::Tune(previous) = phase {
            let info = match refreshed {
                Some(info) => info,
                None => previous,
            };
            if info.modes.len() == 0 {
                return;
            }
            let mut modes = info.modes;
            fit_bandwidth(&mut modes);
            let candidates = candidate_modes(&modes);
            proof {
                law_trials_cover_all_modes(modes@, candidates@);
                assert(modes@.contains(modes@[0]));
                assert(candidates@.contains(modes@[0]));
            }
            self.phase = SetupPhase::Try {
                connector: ConnectorInfo {
                    handle: info.handle,
                    connected: info.connected,
                    interface: info.interface,
                    modes,
                    size: info.size,
                },
                trials: Trials::new(candidates),
            };
        }
    }

    /// Mode which is tried next.
    pub open spec fn upcoming(&self) -> Option<ModeAttempt> {
        match self.phase {
            SetupPhase::Try { connector, trials } => match trials.upcoming() {
                Some(candidate) => Some(attempt_of(candidate)),
                None => None,
            },
            _ => None,
        }
    }

    /// Get the next mode to try, until the setup is over.
    pub fn next_attempt(&self) -> (r: Option<ModeAttempt>)
        ensures
            r == self.upcoming(),
    {
        match &self.phase {
            SetupPhase::Try { connector, trials } => match trials.next() {
                Some(candidate) => Some(
                    ModeAttempt { candidate, hardware: prepare_mode(&candidate) },
                ),
                None => None,
            },
            _ => None,
        }
    }

    /// State after a mode was tried.
    pub open spec fn with_attempt_done(self, worked: bool) -> DrmSetup {
        match self.phase {
            SetupPhase::Try { connector, trials } => {
                let after = trials.with_outcome(worked);
                DrmSetup {
                    phase: if worked {
                        SetupPhase::Done { connector, attempt: self.upcoming()->0 }
                    } else if after.upcoming() is Some {
                        SetupPhase::Try { connector, trials: after }
                    } else {
                        SetupPhase::Failed
                    },
                    ..self
                }
            },
            _ => self,
        }
    }

    /// Go on after a mode was tried.
    ///
    /// The first mode which works ends the setup. It has failed when no mode is
    /// left.
    pub fn attempt_done(&mut self, worked: bool)
        requires
            old(self).upcoming() is Some,
        ensures
            *final(self) == old(self).with_attempt_done(worked),
    {
        let attempt = self.next_attempt();
        let mut phase = SetupPhase::Failed;
        std::mem::swap(&mut phase, &mut self.phase);
        if let SetupPhase::Try { connector, trials } = phase {
            let mut trials = trials;
            trials.outcome(worked);
            if worked {
                if let Some(attempt) = attempt {
                    self.phase = SetupPhase::Done { connector, attempt };
                }
            } else if trials.next().is_some() {
                self.phase = SetupPhase::Try { connector, trials };
            }
        }
    }

    /// State at the end of the setup, given which attempts work.
    pub open spec fn settled(self, works: spec_fn(ModeAttempt) -> bool) -> DrmSetup
        decreases self.attempts_left(),
    {
        match self.upcoming() {
            Some(attempt) => self.with_attempt_done(works(attempt)).settled(works),
            None => self,
        }
    }

    /// Number of attempts which might still be made.
    pub open spec fn attempts_left(&self) -> int {
        match self.phase {
            SetupPhase::Try { connector, trials } => trials.items.len() - trials.failed,
            _ => 0,
        }
    }
}

/// Condition on modes to work when they are tried.
pub open spec fn works_as_attempt(works: spec_fn(ModeAttempt) -> bool) -> spec_fn(DrmMode) -> bool {
    |m: DrmMode| works(attempt_of(m))
}

/// The setup ends with the first of the modes which works, and it fails only
/// after all of them did.
pub proof fn law_first_working_mode_is_used(setup: DrmSetup, works: spec_fn(ModeAttempt) -> bool)
    requires
        setup.upcoming() is Some,
    ensures
        setup.phase matches SetupPhase::Try { connector, trials } && match first_index(
            trials.items@,
            works_as_attempt(works),
            trials.failed as int,
        ) {
            Some(i) => setup.settled(works).phase == (SetupPhase::Done {
                connector,
                attempt: attempt_of(trials.items[i]),
            }),
            None => setup.settled(works).phase == SetupPhase::Failed,
        },
        setup.settled(works).formats == setup.formats,
    decreases setup.attempts_left(),
{
    let attempt = setup.upcoming()->0;
    let next = setup.with_attempt_done(works(attempt));
    assert(setup.settled(works) == next.settled(works));
    if let SetupPhase::Try { connector, trials } = setup.phase {
        let p = works_as_attempt(works);
        let at = trials.failed as int;
        assert(p(trials.items@[at]) == works(attempt));
        assert(!works(attempt) ==> first_index(trials.items@, p, at) == first_index(
            trials.items@,
            p,
            at + 1,
        ));
        assert(at + 1 >= trials.items.len() ==> first_index(trials.items@, p, at + 1) is None);
    }
    if next.upcoming() is Some {
        law_first_working_mode_is_used(next, works);
    } else {
        assert(next.settled(works) == next);
    }
}

} // verus!
