//! Which pots are running, by what the jail-listing tool said of each.
use crate::error::PotError;
use vstd::prelude::*;

verus! {

/// A pot's name with how a run of the jail-listing tool for it ended: whether
/// the tool reported success, or nothing where the tool could not be run.
#[derive(Debug)]
pub struct PotProbe {
    pub name: String,
    pub status: Option<bool>,
}

/// The mathematical model of a `PotProbe`.
pub struct PotProbeView {
    pub name: Seq<char>,
    pub status: Option<bool>,
}

impl View for PotProbe {
    type V = PotProbeView;

    open spec fn view(&self) -> PotProbeView {
        PotProbeView { name: self.name@, status: self.status }
    }
}

impl DeepView for PotProbe {
    type V = PotProbeView;

    open spec fn deep_view(&self) -> PotProbeView {
        self@
    }
}

/// What a run of the jail-listing tool says of a pot: the pot runs where the
/// tool reported success, and does not where it reported failure. That the
/// tool could not be run is an error.
pub open spec fn running_state(status: Option<bool>) -> Result<bool, PotError> {
    match status {
        Some(success) => Ok(success),
        None => Err(PotError::JlsError),
    }
}

/// The names of the pots that run, in the order of the probes. A pot whose
/// probe failed counts as not running.
pub open spec fn running_names(probes: Seq<PotProbeView>) -> Seq<Seq<char>>
    decreases probes.len(),
{
    if probes.len() == 0 {
        Seq::empty()
    } else if running_state(probes.last().status) == Ok::<bool, PotError>(true) {
        running_names(probes.drop_last()).push(probes.last().name)
    } else {
        running_names(probes.drop_last())
    }
}

/// Whether a pot runs, by how the run of the jail-listing tool for it ended.
pub fn is_pot_running(status: Option<bool>) -> (r: Result<bool, PotError>)
    ensures
        r == running_state(status),
{
    match status {
        Some(success) => Ok(success),
        None => Err(PotError::JlsError),
    }
}

/// The names of the pots that run.
pub fn get_running_pot_list(probes: &Vec<PotProbe>) -> (r: Vec<String>)
    ensures
        r.deep_view() == running_names(probes.deep_view()),
{
    let mut r: Vec<String> = Vec::new();
    let n = probes.len();
    for i in 0..n
        invariant
            n == probes.len(),
            r.deep_view() == running_names(probes.deep_view().take(i as int)),
    {
        let probe = &probes[i];
        assert(probes.deep_view().take(i + 1).drop_last() == probes.deep_view().take(i as int));
        if let Ok(running) = is_pot_running(probe.status) {
            if running {
                r.push(probe.name.clone());
            }
        }
    }
    assert(probes.deep_view().take(n as int) == probes.deep_view());
    r
}

} // verus!
