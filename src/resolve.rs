use vstd::prelude::*;

use crate::cache::{plan_install, InstallPlan, VersionedCache};
use crate::error::ResolveError;
use crate::platform::{Arch, ArchiveKind, Os};
use crate::release::{expected_asset_name, has_asset_named, Release};

verus! {

/// Where a binary resolution stands, between two pieces of outside work.
#[derive(Debug)]
pub enum Phase {
    /// Nothing done yet.
    Idle,
    /// The memoized path is being probed.
    CheckCache,
    /// The latest release is being fetched.
    AwaitRelease,
    /// The version directory is being created.
    AwaitDir(InstallPlan),
    /// The binary path inside the version directory is being probed.
    AwaitBinaryProbe(InstallPlan),
    /// The asset is being downloaded and unpacked.
    AwaitDownload(InstallPlan),
    /// The unpacked binary is being probed.
    AwaitUnpacked(InstallPlan),
    /// The binary is being marked executable.
    AwaitExecutable(InstallPlan),
    /// Stale version directories are being removed.
    AwaitPrune(InstallPlan),
    /// Resolution ended.
    Done,
}

/// What the outside work reported.
#[derive(Debug)]
pub enum Event {
    Start,
    /// Whether the probed path is a regular file.
    Probed(bool),
    /// The release feed's answer.
    Fetched(Result<Release, String>),
    /// The outcome of creating, downloading, marking executable or pruning.
    Outcome(Result<(), String>),
}

/// The outside work to do next, or the end of resolution.
#[derive(Debug)]
pub enum Action {
    ProbeFile(String),
    FetchRelease,
    CreateDir(String),
    Download { url: String, dir: String, archive: ArchiveKind },
    MakeExecutable(String),
    /// Remove every entry of the cache root but `keep`; failures are ignored.
    Prune { keep: String },
    Finish(String),
    Fail(ResolveError),
}

/// The event that each phase waits for.
pub open spec fn event_fits(phase: Phase, event: Event) -> bool {
    match phase {
        Phase::Idle => event is Start,
        Phase::CheckCache | Phase::AwaitBinaryProbe(_) | Phase::AwaitUnpacked(_) => event is Probed,
        Phase::AwaitRelease => event is Fetched,
        Phase::AwaitDir(_) | Phase::AwaitDownload(_) | Phase::AwaitExecutable(_) | Phase::AwaitPrune(
            _,
        ) => event is Outcome,
        Phase::Done => false,
    }
}

impl VersionedCache {
    /// One step of resolution: from the phase and what the last outside work reported,
    /// the next phase and the outside work to do. Pruning is asked for only once the
    /// binary is confirmed present, and a finished resolution is memoized.
    pub fn advance(&mut self, phase: Phase, event: Event, os: Os, arch: Arch) -> (r: (Phase, Action))
        requires
            event_fits(phase, event),
        ensures
            (r.1 is Finish || r.1 is Fail) <==> r.0 is Done,
            r.1 is Finish ==> final(self)@ == Some(r.1->Finish_0@),
            !(r.1 is Finish) ==> final(self)@ == old(self)@,
            // starting: probe the memoized path if there is one, else fetch
            phase is Idle && old(self)@ is Some ==> r.0 is CheckCache && r.1 == Action::ProbeFile(
                old(self).cached_binary_path->Some_0,
            ),
            phase is Idle && old(self)@ is None ==> r.0 is AwaitRelease && r.1 is FetchRelease,
            // the fast path: a memoized path that is still a file ends resolution at once
            phase is CheckCache && event == Event::Probed(true) && old(self)@ is Some ==> r.1
                == Action::Finish(old(self).cached_binary_path->Some_0),
            phase is CheckCache && (event == Event::Probed(false) || old(self)@ is None) ==> r.0
                is AwaitRelease && r.1 is FetchRelease,
            // the release decides the plan
            phase is AwaitRelease && event is Fetched && event->Fetched_0 is Err ==> r.1
                == Action::Fail(ResolveError::FeedUnavailable(event->Fetched_0->Err_0)),
            phase is AwaitRelease && event is Fetched && event->Fetched_0 is Ok ==> (r.1 is Fail
                <==> !has_asset_named(
                event->Fetched_0->Ok_0.assets@,
                expected_asset_name(os, arch),
            )),
            phase is AwaitRelease && r.1 is Fail && event->Fetched_0 is Ok ==> (r.1->Fail_0 matches ResolveError::AssetNotFound(n)
                && n@ == expected_asset_name(os, arch)),
            phase is AwaitRelease && !(r.1 is Fail) ==> r.0 is AwaitDir && r.1 == Action::CreateDir(
                r.0->AwaitDir_0.version_dir,
            ),
            // creating the directory
            phase is AwaitDir && event->Outcome_0 is Err ==> r.1 == Action::Fail(
                ResolveError::DirectoryCreateFailed(phase->AwaitDir_0.version_dir, event->Outcome_0->Err_0),
            ),
            phase is AwaitDir && event->Outcome_0 is Ok ==> r.0 == Phase::AwaitBinaryProbe(
                phase->AwaitDir_0,
            ) && r.1 == Action::ProbeFile(phase->AwaitDir_0.binary_path),
            // a binary already present is kept, else it is downloaded
            phase is AwaitBinaryProbe && event == Event::Probed(true) ==> r.0 == Phase::AwaitPrune(
                phase->AwaitBinaryProbe_0,
            ) && r.1 == (Action::Prune { keep: phase->AwaitBinaryProbe_0.version_dir }),
            phase is AwaitBinaryProbe && event == Event::Probed(false) ==> r.0 == Phase::AwaitDownload(
                phase->AwaitBinaryProbe_0,
            ) && r.1 == (Action::Download {
                url: phase->AwaitBinaryProbe_0.download_url,
                dir: phase->AwaitBinaryProbe_0.version_dir,
                archive: phase->AwaitBinaryProbe_0.archive,
            }),
            phase is AwaitDownload && event->Outcome_0 is Err ==> r.1 == Action::Fail(
                ResolveError::DownloadFailed(event->Outcome_0->Err_0),
            ),
            phase is AwaitDownload && event->Outcome_0 is Ok ==> r.0 == Phase::AwaitUnpacked(
                phase->AwaitDownload_0,
            ) && r.1 == Action::ProbeFile(phase->AwaitDownload_0.binary_path),
            phase is AwaitUnpacked && event == Event::Probed(false) ==> r.1 == Action::Fail(
                ResolveError::DecompressFailed(phase->AwaitUnpacked_0.binary_path),
            ),
            phase is AwaitUnpacked && event == Event::Probed(true) ==> r.0 == Phase::AwaitExecutable(
                phase->AwaitUnpacked_0,
            ) && r.1 == Action::MakeExecutable(phase->AwaitUnpacked_0.binary_path),
            phase is AwaitExecutable && event->Outcome_0 is Err ==> r.1 == Action::Fail(
                ResolveError::MakeExecutableFailed(event->Outcome_0->Err_0),
            ),
            phase is AwaitExecutable && event->Outcome_0 is Ok ==> r.0 == Phase::AwaitPrune(
                phase->AwaitExecutable_0,
            ) && r.1 == (Action::Prune { keep: phase->AwaitExecutable_0.version_dir }),
            // pruning never fails a resolution
            phase is AwaitPrune ==> r.1 == Action::Finish(phase->AwaitPrune_0.binary_path),
            // pruning is asked for only right after the binary was confirmed present
            r.1 is Prune ==> (phase is AwaitBinaryProbe && event == Event::Probed(true)) || (
            phase is AwaitExecutable && event->Outcome_0 is Ok),
            r.0 is AwaitPrune ==> r.1 == (Action::Prune { keep: r.0->AwaitPrune_0.version_dir }),
    {
        match phase {
            Phase::Idle => match self.cached_path() {
                Some(p) => (Phase::CheckCache, Action::ProbeFile(p)),
                None => (Phase::AwaitRelease, Action::FetchRelease),
            },
            Phase::CheckCache => {
                let is_file = match event {
                    Event::Probed(b) => b,
                    _ => false,
                };
                match self.fast_path(is_file) {
                    Some(p) => (Phase::Done, Action::Finish(p)),
                    None => (Phase::AwaitRelease, Action::FetchRelease),
                }
            },
            Phase::AwaitRelease => match event {
                Event::Fetched(Ok(release)) => match plan_install(&release, os, arch) {
                    Ok(plan) => {
                        let dir = plan.version_dir.clone();
                        (Phase::AwaitDir(plan), Action::CreateDir(dir))
                    },
                    Err(e) => (Phase::Done, Action::Fail(e)),
                },
                Event::Fetched(Err(m)) => (Phase::Done, Action::Fail(ResolveError::FeedUnavailable(m))),
                _ => (Phase::Done, Action::Fail(ResolveError::FeedUnavailable(String::new()))),
            },
            Phase::AwaitDir(plan) => match event {
                Event::Outcome(Err(m)) => (
                    Phase::Done,
                    Action::Fail(ResolveError::DirectoryCreateFailed(plan.version_dir, m)),
                ),
                _ => {
                    let path = plan.binary_path.clone();
                    (Phase::AwaitBinaryProbe(plan), Action::ProbeFile(path))
                },
            },
            Phase::AwaitBinaryProbe(plan) => match event {
                Event::Probed(true) => {
                    let keep = plan.version_dir.clone();
                    (Phase::AwaitPrune(plan), Action::Prune { keep })
                },
                _ => {
                    let a = Action::Download {
                        url: plan.download_url.clone(),
                        dir: plan.version_dir.clone(),
                        archive: plan.archive,
                    };
                    (Phase::AwaitDownload(plan), a)
                },
            },
            Phase::AwaitDownload(plan) => match event {
                Event::Outcome(Err(m)) => (Phase::Done, Action::Fail(ResolveError::DownloadFailed(m))),
                _ => {
                    let path = plan.binary_path.clone();
                    (Phase::AwaitUnpacked(plan), Action::ProbeFile(path))
                },
            },
            Phase::AwaitUnpacked(plan) => match event {
                Event::Probed(true) => {
                    let path = plan.binary_path.clone();
                    (Phase::AwaitExecutable(plan), Action::MakeExecutable(path))
                },
                _ => (Phase::Done, Action::Fail(ResolveError::DecompressFailed(plan.binary_path))),
            },
            Phase::AwaitExecutable(plan) => match event {
                Event::Outcome(Err(m)) => (
                    Phase::Done,
                    Action::Fail(ResolveError::MakeExecutableFailed(m)),
                ),
                _ => {
                    let keep = plan.version_dir.clone();
                    (Phase::AwaitPrune(plan), Action::Prune { keep })
                },
            },
            Phase::AwaitPrune(plan) => {
                let p = self.remember(plan.binary_path);
                (Phase::Done, Action::Finish(p))
            },
            Phase::Done => (Phase::Done, Action::Fail(ResolveError::FeedUnavailable(String::new()))),
        }
    }
}

} // verus!
