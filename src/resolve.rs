use vstd::prelude::*;

use crate::archive::{archive_job, download_supported, job_format, job_url, ArchiveJob};
use crate::backend::{backend_vendor_path, Backend};
use crate::platform::{system_prefix_of, TargetArch, TargetOs};

verus! {

/// The candidate sources of an installation, in the order they are tried.
#[derive(Debug, Clone, Copy, PartialEq, Eq, Structural)]
pub enum Rank {
    /// A path named by the backend's environment variable.
    Override,
    /// The conventional system-wide prefix.
    System,
    /// The repository-local vendor directory.
    Vendor,
    /// A fresh installation, downloaded into the system-wide prefix.
    Download,
}

/// Why resolution of a backend failed.
#[derive(Debug, Clone, Copy, PartialEq, Eq, Structural)]
pub enum ResolveFailure {
    /// No candidate validated and no download is offered for the platform: an explicit
    /// override is needed.
    UnsupportedPlatform,
    /// The freshly installed prefix still fails validation.
    InvalidAfterInstall,
}

/// The next thing resolution asks of its caller.
#[derive(Debug, Clone, Copy, PartialEq, Eq, Structural)]
pub enum Step {
    /// Validate the candidate of this rank and report the answer.
    Probe(Rank),
    /// Download and install the archive into the system prefix, then validate it as
    /// the [`Rank::Download`] candidate.
    Acquire,
    /// Use the candidate of this rank.
    Accept(Rank),
    /// Stop: the backend cannot be resolved.
    Fail(ResolveFailure),
}

pub open spec fn rank_index(r: Rank) -> nat {
    match r {
        Rank::Override => 1,
        Rank::System => 2,
        Rank::Vendor => 3,
        Rank::Download => 4,
    }
}

/// The first step: the override where one is given, else the system prefix.
pub open spec fn first_step(has_override: bool) -> Step {
    if has_override {
        Step::Probe(Rank::Override)
    } else {
        Step::Probe(Rank::System)
    }
}

/// The step after the candidate of `rank` was validated with answer `valid`.
pub open spec fn step_after(os: TargetOs, arch: TargetArch, rank: Rank, valid: bool) -> Step {
    if valid {
        Step::Accept(rank)
    } else {
        match rank {
            Rank::Override => Step::Probe(Rank::System),
            Rank::System => Step::Probe(Rank::Vendor),
            Rank::Vendor => if download_supported(os, arch) {
                Step::Acquire
            } else {
                Step::Fail(ResolveFailure::UnsupportedPlatform)
            },
            Rank::Download => Step::Fail(ResolveFailure::InvalidAfterInstall),
        }
    }
}

/// The steps resolution takes from `step` when the candidate of each rank `r` validates
/// exactly when `valid(r)`; `fuel` bounds the length (five suffices for a whole run).
pub open spec fn chain_from(os: TargetOs, arch: TargetArch, step: Step, valid: spec_fn(Rank) -> bool, fuel: nat) -> Seq<Step>
    decreases fuel,
{
    if fuel == 0 {
        seq![step]
    } else {
        match step {
            Step::Probe(r) => seq![step] + chain_from(os, arch, step_after(os, arch, r, valid(r)), valid, (fuel - 1) as nat),
            Step::Acquire => seq![step] + chain_from(
                os,
                arch,
                step_after(os, arch, Rank::Download, valid(Rank::Download)),
                valid,
                (fuel - 1) as nat,
            ),
            _ => seq![step],
        }
    }
}

/// Step `i` of `steps` probes a candidate that validates.
pub open spec fn validated_at(steps: Seq<Step>, i: int, valid: spec_fn(Rank) -> bool) -> bool {
    steps[i] is Probe && valid(steps[i]->Probe_0)
}

/// Step `i` of `steps` is the last, or is followed only by the acceptance of the
/// candidate it probed.
pub open spec fn ends_with_accept_after(steps: Seq<Step>, i: int) -> bool {
    i == steps.len() - 1 || (i == steps.len() - 2 && steps[i + 1] == Step::Accept(steps[i]->Probe_0))
}

/// The inputs of one backend's resolution.
#[derive(Debug)]
pub struct Resolution {
    pub kind: Backend,
    pub os: TargetOs,
    pub arch: TargetArch,
    /// The explicit override, where the environment names one.
    pub override_path: Option<String>,
    pub system_path: String,
    pub vendor_path: String,
}

impl Resolution {
    /// The resolution of `kind`, with the system prefix placed under `home` where a home
    /// directory is known.
    pub fn new(kind: Backend, os: TargetOs, arch: TargetArch, override_path: Option<String>, home: Option<&str>) -> (r: Resolution)
        ensures
            r.kind == kind,
            r.os == os,
            r.arch == arch,
            r.override_path == override_path,
            r.system_path@ == system_prefix_of(kind, os, match home {
                Some(h) => Some(h@),
                None => None,
            }),
            r.vendor_path@ == backend_vendor_path(kind),
    {
        let system_path = os.system_prefix(kind, home);
        let vendor_path = String::from_str(kind.vendor_path());
        Resolution { kind, os, arch, override_path, system_path, vendor_path }
    }

    /// The first step of the chain.
    pub fn start(&self) -> (r: Step)
        ensures
            r == first_step(self.override_path is Some),
    {
        match self.override_path {
            Some(_) => Step::Probe(Rank::Override),
            None => Step::Probe(Rank::System),
        }
    }

    /// The step after the candidate of `rank` was validated: accept it when valid, else
    /// move to the next rank; past the vendor path comes a download where the platform
    /// offers one, and a fresh installation that does not validate ends resolution.
    pub fn after_probe(&self, rank: Rank, valid: bool) -> (r: Step)
        ensures
            r == step_after(self.os, self.arch, rank, valid),
    {
        if valid {
            return Step::Accept(rank);
        }
        match rank {
            Rank::Override => Step::Probe(Rank::System),
            Rank::System => Step::Probe(Rank::Vendor),
            Rank::Vendor => {
                if archive_job(self.kind, self.os, self.arch).is_some() {
                    Step::Acquire
                } else {
                    Step::Fail(ResolveFailure::UnsupportedPlatform)
                }
            },
            Rank::Download => Step::Fail(ResolveFailure::InvalidAfterInstall),
        }
    }

    /// The directory that stands for `rank`; a download installs into the system prefix.
    pub fn candidate(&self, rank: Rank) -> (r: Option<&str>)
        ensures
            match rank {
                Rank::Override => match self.override_path {
                    Some(p) => r matches Some(s) && s@ == p@,
                    None => r is None,
                },
                Rank::System | Rank::Download => r matches Some(s) && s@ == self.system_path@,
                Rank::Vendor => r matches Some(s) && s@ == self.vendor_path@,
            },
    {
        match rank {
            Rank::Override => match &self.override_path {
                Some(p) => Some(p.as_str()),
                None => None,
            },
            Rank::System | Rank::Download => Some(self.system_path.as_str()),
            Rank::Vendor => Some(self.vendor_path.as_str()),
        }
    }

    /// The archive to acquire, where the platform offers one.
    pub fn job(&self) -> (r: Option<ArchiveJob>)
        ensures
            r.is_some() == download_supported(self.os, self.arch),
            r matches Some(j) ==> j.url@ == job_url(self.kind, self.os) && j.format == job_format(self.kind, self.os),
    {
        archive_job(self.kind, self.os, self.arch)
    }
}

/// Whether accepting a candidate of `rank` records it in the environment: an override
/// was set by whoever configured it, the other ranks are recorded.
pub fn configures_environment(rank: Rank) -> (r: bool)
    ensures
        r == (rank != Rank::Override),
{
    match rank {
        Rank::Override => false,
        _ => true,
    }
}

/// A candidate that validates ends the chain: it is accepted, and neither a later rank
/// nor a download is tried.
pub proof fn lemma_valid_candidate_accepted(os: TargetOs, arch: TargetArch, rank: Rank)
    ensures
        step_after(os, arch, rank, true) == Step::Accept(rank),
{
}

/// The candidate of a rank is probed only right after the candidate of the rank before it
/// failed validation.
pub proof fn lemma_probe_follows_failure(os: TargetOs, arch: TargetArch, rank: Rank, valid: bool, next: Rank)
    requires
        step_after(os, arch, rank, valid) == Step::Probe(next),
    ensures
        !valid,
        rank_index(next) == rank_index(rank) + 1,
{
}

/// Along any run of the chain, whatever the validator answers, a probe that validates is
/// followed only by the acceptance of that candidate, which ends the run.
pub proof fn lemma_chain_stops_at_valid(os: TargetOs, arch: TargetArch, step: Step, valid: spec_fn(Rank) -> bool, fuel: nat)
    ensures
        forall|i: int|
            0 <= i < chain_from(os, arch, step, valid, fuel).len() && #[trigger] validated_at(
                chain_from(os, arch, step, valid, fuel),
                i,
                valid,
            ) ==> ends_with_accept_after(chain_from(os, arch, step, valid, fuel), i),
    decreases fuel,
{
    let c = chain_from(os, arch, step, valid, fuel);
    if fuel > 0 {
        let next = match step {
            Step::Probe(r) => step_after(os, arch, r, valid(r)),
            _ => step_after(os, arch, Rank::Download, valid(Rank::Download)),
        };
        if step is Probe || step is Acquire {
            let rest = chain_from(os, arch, next, valid, (fuel - 1) as nat);
            lemma_chain_stops_at_valid(os, arch, next, valid, (fuel - 1) as nat);
            assert(c == seq![step] + rest);
            assert forall|i: int| 0 <= i < c.len() && #[trigger] validated_at(c, i, valid) implies ends_with_accept_after(c, i) by {
                if i == 0 {
                    let r = step->Probe_0;
                    assert(next == Step::Accept(r));
                    assert(rest == seq![Step::Accept(r)]);
                } else {
                    assert(c[i] == rest[i - 1]);
                    assert(validated_at(rest, i - 1, valid));
                    assert(ends_with_accept_after(rest, i - 1));
                    if i - 1 != rest.len() - 1 {
                        assert(c[i + 1] == rest[i]);
                    }
                }
            }
        }
    }
}

/// Where the platform offers no download, no run of the chain ever acquires one, whatever
/// the validator answers.
pub proof fn lemma_unsupported_never_acquires(os: TargetOs, arch: TargetArch, step: Step, valid: spec_fn(Rank) -> bool, fuel: nat)
    requires
        !download_supported(os, arch),
        step != Step::Acquire,
    ensures
        forall|i: int| 0 <= i < chain_from(os, arch, step, valid, fuel).len()
            ==> #[trigger] chain_from(os, arch, step, valid, fuel)[i] != Step::Acquire,
    decreases fuel,
{
    let c = chain_from(os, arch, step, valid, fuel);
    if fuel > 0 {
        if let Step::Probe(r) = step {
            let next = step_after(os, arch, r, valid(r));
            let rest = chain_from(os, arch, next, valid, (fuel - 1) as nat);
            lemma_unsupported_never_acquires(os, arch, next, valid, (fuel - 1) as nat);
            assert(c == seq![step] + rest);
            assert forall|i: int| 0 <= i < c.len() implies #[trigger] c[i] != Step::Acquire by {
                if i > 0 {
                    assert(c[i] == rest[i - 1]);
                }
            }
        }
    }
}

} // verus!
