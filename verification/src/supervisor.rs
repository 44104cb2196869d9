//! The controller's process supervisor: the state machine that owns the one
//! worker handle. It decides which media source a start request launches
//! with (the requested path, or a fixed fallback asset, or a fatal failure
//! when neither is available), records the handle of the spawned worker, and
//! clears it again on stop. Spawning and killing the child process are I/O
//! and happen outside; the supervisor is handed their plain results.

use vstd::prelude::*;

verus! {

/// The arguments a worker is launched with: the media source path and the
/// requested display dimensions.
pub struct LaunchArgs {
    pub video_path: String,
    pub width: u32,
    pub height: u32,
}

/// The supervisor's record of a live worker: the child process identity and
/// the arguments it was launched with. At most one exists at a time.
pub struct WorkerHandle {
    pub process_id: u64,
    pub args: LaunchArgs,
}

/// Why a start request fails. Both are fatal to the requested action:
/// starting while a worker is live is a caller error, and a start with no
/// source path and no fallback asset has nothing to launch.
#[derive(Clone, Copy, PartialEq, Eq, Structural, Debug)]
pub enum StartError {
    AlreadyStarted,
    MissingFallback,
}

/// The supervisor: the one optional worker handle, plus the `started` flag
/// the user interface observes, kept equal to the handle's presence.
pub struct Supervisor {
    pub handle: Option<WorkerHandle>,
    pub started: bool,
}

impl Supervisor {
    /// Well-formedness: the observed flag agrees with the handle.
    pub open spec fn wf(self) -> bool {
        self.started == (self.handle is Some)
    }

    /// A fresh supervisor: no worker, not started.
    pub fn new() -> (r: Supervisor)
        ensures
            r.handle is None,
            !r.started,
            r.wf(),
    {
        Supervisor { handle: None, started: false }
    }

    /// Whether a worker is currently live.
    pub fn is_started(&self) -> (r: bool)
        ensures
            r == self.started,
    {
        self.started
    }

    /// Recomputes the observed flag from the handle, as after every handle
    /// change.
    pub fn update_running_state(&mut self)
        ensures
            final(self).handle == old(self).handle,
            final(self).started == (old(self).handle is Some),
            final(self).wf(),
    {
        self.started = self.handle.is_some();
    }

    /// Which source path a start request launches with: starting while a
    /// worker is live is refused; a non-empty requested path wins; an empty
    /// one falls back to the fixed asset, if it is present; otherwise the
    /// start fails fatally.
    pub open spec fn spec_choose_source(
        self,
        requested: Seq<char>,
        fallback: Seq<char>,
        fallback_exists: bool,
    ) -> Result<Seq<char>, StartError> {
        if self.handle is Some {
            Err(StartError::AlreadyStarted)
        } else if requested.len() != 0 {
            Ok(requested)
        } else if fallback_exists {
            Ok(fallback)
        } else {
            Err(StartError::MissingFallback)
        }
    }

    /// Decides the source path for a start request. `fallback_exists` is the
    /// caller's answer to whether the fallback asset is present on disk.
    pub fn choose_source(
        &self,
        requested: &String,
        fallback: &String,
        fallback_exists: bool,
    ) -> (r: Result<String, StartError>)
        ensures
            (match r {
                Ok(p) => self.spec_choose_source(requested@, fallback@, fallback_exists)
                    == Ok::<Seq<char>, StartError>(p@),
                Err(e) => self.spec_choose_source(requested@, fallback@, fallback_exists)
                    == Err::<Seq<char>, StartError>(e),
            }),
    {
        if self.handle.is_some() {
            Err(StartError::AlreadyStarted)
        } else if !requested.as_str().is_empty() {
            Ok(requested.clone())
        } else if fallback_exists {
            Ok(fallback.clone())
        } else {
            Err(StartError::MissingFallback)
        }
    }

    /// The supervisor after a successful start: exactly the given handle.
    pub open spec fn spec_start(self, handle: WorkerHandle) -> Supervisor {
        Supervisor { handle: Some(handle), started: true }
    }

    /// Records the handle of a worker the caller has just spawned. Only
    /// legal while no worker is live.
    pub fn start(&mut self, handle: WorkerHandle)
        requires
            old(self).handle is None,
        ensures
            *final(self) == old(self).spec_start(handle),
            final(self).wf(),
    {
        self.handle = Some(handle);
        self.update_running_state();
    }

    /// The supervisor after a stop: no worker, not started.
    pub open spec fn spec_stop(self) -> Supervisor {
        Supervisor { handle: None, started: false }
    }

    /// Clears the handle of the live worker and returns it so the caller
    /// can terminate the child process. Only legal while a worker is live.
    pub fn stop(&mut self) -> (h: WorkerHandle)
        requires
            old(self).handle is Some,
        ensures
            *final(self) == old(self).spec_stop(),
            final(self).wf(),
            Some(h) == old(self).handle,
    {
        let taken = self.handle.take();
        self.update_running_state();
        match taken {
            Some(h) => h,
            None => vstd::pervasive::unreached(),
        }
    }
}

/// Builds the fixed fallback asset path: the sample file in the given home
/// directory.
pub fn fallback_asset_path(home_dir: &String) -> (r: String)
    ensures
        r@ == home_dir@ + "sample.mp4"@,
{
    home_dir.clone().concat("sample.mp4")
}

} // verus!
