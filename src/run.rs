use crate::deploy::{
    binary_name_of, clone_list, clone_opt_list, clone_opt_text, name_from_path, opt_text,
    plan_outcome, ArchivePlan, Deploy, DeployError,
};
use crate::output::OutputFormat;
use crate::retry::{RetryPolicy, RetryStrategy};
use crate::tags::{chosen_tags, opt_texts, resolve_tags, tag_map, texts, TagSet};
use vstd::prelude::*;

verus! {

/// Where a deployment stands.
#[derive(Clone, Copy, Debug, PartialEq, Eq, Structural)]
pub enum Phase {
    /// Nothing done yet.
    Start,
    /// Waiting to learn whether the explicit binary path is a directory.
    CheckingPath,
    /// Waiting for the manifest's primary binary name.
    ResolvingName,
    /// Waiting for the archive to be packaged or found.
    Loading,
    /// Waiting for the remote session.
    Connecting,
    /// Waiting for the archive's bytes.
    Reading,
    /// Waiting for the remote deployment.
    Deploying,
    /// Waiting for the result to be printed.
    Rendering,
    /// Finished, with success or an error.
    Done,
}

/// The state of one deployment between two steps.
pub struct RunState {
    /// Where the deployment stands.
    pub phase: Phase,
    /// Whether the progress indicator is shown.
    pub progress: bool,
    /// The deployed name, once known.
    pub name: Option<String>,
}

/// What the outside work reports back.
pub enum RunEvent {
    /// The deployment is asked for.
    Begin,
    /// Whether the explicit binary path is a directory.
    PathKind(bool),
    /// The manifest's primary binary name, or why it could not be had.
    ManifestBinary(Result<String, String>),
    /// The archive was packaged or found, or why not.
    ArchiveLoaded(Result<(), String>),
    /// The remote session is ready.
    SessionReady,
    /// The archive's bytes were read, or why not.
    ArchiveRead(Result<(), String>),
    /// The remote deployment finished, or why it failed.
    Deployed(Result<(), String>),
    /// The result was printed, or why it could not be serialised.
    Rendered(Result<(), String>),
}

/// Why a deployment failed.
#[derive(Clone, Debug, PartialEq, Eq)]
pub enum RunError {
    /// The options were refused.
    Invalid(DeployError),
    /// The manifest's primary binary could not be resolved.
    Manifest(String),
    /// The archive could not be packaged or found.
    Archive(String),
    /// The archive's bytes could not be read.
    Read(String),
    /// The remote deployment failed.
    Remote(String),
    /// The result could not be serialised.
    Render(String),
    /// An event came that the current phase does not wait for.
    UnexpectedEvent,
}

/// The outside work to do next.
pub enum RunAction {
    /// Tell whether this path is a directory.
    CheckPath(String),
    /// Resolve the primary binary of this manifest.
    ResolveManifest(String),
    /// Package the binary at an explicit path.
    Package(ArchivePlan),
    /// Find the archive that the build left for this binary.
    Discover {
        binary_name: String,
        manifest_path: String,
        lambda_dir: Option<String>,
        extension: bool,
        internal: bool,
        extra_paths: Option<Vec<String>>,
    },
    /// Build the remote session with this retry policy.
    BuildSession(RetryPolicy),
    /// Read the archive's bytes.
    ReadArchive,
    /// Deploy an extension.
    DeployExtension {
        name: String,
        compatible_runtimes: Vec<String>,
        tags: Option<TagSet>,
    },
    /// Deploy a function.
    DeployFunction { name: String, binary_name: String, tags: Option<TagSet> },
    /// Print the result in this format.
    Render(OutputFormat),
    /// Stop with this outcome.
    Finish(Result<(), RunError>),
}

/// The action stops the deployment with this error.
pub open spec fn is_finish_err(a: RunAction, e: RunError) -> bool {
    match a {
        RunAction::Finish(r) => r == Err::<(), RunError>(e),
        _ => false,
    }
}

/// The action runs one of the two remote deployment paths.
pub open spec fn is_deploy_action(a: RunAction) -> bool {
    a is DeployExtension || a is DeployFunction
}

/// The tags handed to a deployment path.
pub open spec fn tags_match(t: Option<TagSet>, d: Deploy) -> bool {
    match chosen_tags(opt_texts(d.tag), opt_texts(d.tags)) {
        Some(l) => t is Some && t->0.wf() && t->0@ == tag_map(l),
        None => t is None,
    }
}

/// The action finds the archive of the binary deployed as `name`, with the request's
/// manifest, search directory, flags and extra paths.
pub open spec fn discovers(a: RunAction, d: Deploy, name: Seq<char>) -> bool {
    match a {
        RunAction::Discover { binary_name, manifest_path, lambda_dir, extension, internal, extra_paths } => {
            &&& binary_name@ == binary_name_of(d.binary_name, name)
            &&& manifest_path@ == d.manifest_path@
            &&& opt_text(lambda_dir) == opt_text(d.lambda_dir)
            &&& extension == d.extension
            &&& internal == d.internal
            &&& opt_texts(extra_paths) == opt_texts(d.extra_paths)
        },
        _ => false,
    }
}

fn stop(e: RunError) -> (r: (RunState, RunAction))
    ensures
        r.0.phase == Phase::Done,
        !r.0.progress,
        r.0.name is None,
        is_finish_err(r.1, e),
{
    (RunState { phase: Phase::Done, progress: false, name: None }, RunAction::Finish(Err(e)))
}

impl Deploy {
    fn discover_action(&self, name: &String) -> (r: RunAction)
        ensures
            discovers(r, *self, name@),
    {
        let extra_paths = clone_opt_list(&self.extra_paths);
        RunAction::Discover {
            binary_name: self.binary_name_for(name),
            manifest_path: self.manifest_path.clone(),
            lambda_dir: clone_opt_text(&self.lambda_dir),
            extension: self.extension,
            internal: self.internal,
            extra_paths,
        }
    }
}

impl RunState {
    /// The progress indicator is shown exactly while outside work for the deployment
    /// is under way, and the name is known from loading on.
    pub open spec fn wf(&self) -> bool {
        &&& self.progress <==> match self.phase {
            Phase::Start | Phase::Rendering | Phase::Done => false,
            _ => true,
        }
        &&& match self.phase {
            Phase::Loading | Phase::Connecting | Phase::Reading | Phase::Deploying => self.name is Some,
            _ => true,
        }
    }

    /// The state before anything is done.
    pub fn start() -> (r: RunState)
        ensures
            r.phase == Phase::Start,
            r.wf(),
    {
        RunState { phase: Phase::Start, progress: false, name: None }
    }
}

/// A finished deployment never leaves the progress indicator shown, whichever way it
/// ended.
pub proof fn lemma_done_clears_progress(s: RunState)
    requires
        s.wf(),
        s.phase == Phase::Done,
    ensures
        !s.progress,
{
}

/// The phase that an event answers.
pub open spec fn answers(e: RunEvent) -> Phase {
    match e {
        RunEvent::Begin => Phase::Start,
        RunEvent::PathKind(_) => Phase::CheckingPath,
        RunEvent::ManifestBinary(_) => Phase::ResolvingName,
        RunEvent::ArchiveLoaded(_) => Phase::Loading,
        RunEvent::SessionReady => Phase::Connecting,
        RunEvent::ArchiveRead(_) => Phase::Reading,
        RunEvent::Deployed(_) => Phase::Deploying,
        RunEvent::Rendered(_) => Phase::Rendering,
    }
}

fn with_name(phase: Phase, name: String, action: RunAction) -> (r: (RunState, RunAction))
    ensures
        r.0.phase == phase,
        r.0.progress,
        r.0.name == Some(name),
        r.1 == action,
{
    (RunState { phase, progress: true, name: Some(name) }, action)
}

impl Deploy {
    /// One step of a deployment: from the current state and what the last outside
    /// work reported, the next state and the outside work to do next.
    pub fn step(&self, state: &RunState, event: RunEvent) -> (r: (RunState, RunAction))
        requires
            state.wf(),
        ensures
            r.0.wf(),
            r.0.phase == Phase::Done <==> r.1 is Finish,
            // an event that the phase does not wait for ends the deployment
            answers(event) != state.phase ==> is_finish_err(r.1, RunError::UnexpectedEvent),
            // the options are checked before anything else
            state.phase == Phase::Start && event is Begin ==> if self.enable_function_url
                && self.disable_function_url {
                is_finish_err(r.1, RunError::Invalid(DeployError::ConflictingFunctionUrl))
            } else {
                match self.binary_path {
                    Some(bp) => r.0.phase == Phase::CheckingPath && r.1 == RunAction::CheckPath(bp),
                    None => match self.name {
                        Some(n) => r.0.phase == Phase::Loading && r.0.name == Some(n) && discovers(
                            r.1,
                            *self,
                            n@,
                        ),
                        None => r.0.phase == Phase::ResolvingName && r.1
                            == RunAction::ResolveManifest(self.manifest_path),
                    },
                }
            },
            state.phase == Phase::CheckingPath && event is PathKind && self.binary_path is Some
                ==> match r.1 {
                RunAction::Package(p) => {
                    let bp = self.binary_path->0@;
                    &&& plan_outcome(*self, event->PathKind_0, Ok(p))
                    &&& r.0.phase == Phase::Loading
                    &&& opt_text(r.0.name) == name_from_path(self.name, bp)
                },
                RunAction::Finish(res) => res is Err && res->Err_0 is Invalid && plan_outcome(
                    *self,
                    event->PathKind_0,
                    Err(res->Err_0->Invalid_0),
                ),
                _ => false,
            },
            state.phase == Phase::ResolvingName && event is ManifestBinary ==> match event->ManifestBinary_0 {
                Ok(n) => r.0.phase == Phase::Loading && r.0.name == Some(n) && discovers(r.1, *self, n@),
                Err(m) => is_finish_err(r.1, RunError::Manifest(m)),
            },
            state.phase == Phase::Loading && event is ArchiveLoaded ==> match event->ArchiveLoaded_0 {
                Ok(_) => r.0.phase == Phase::Connecting && r.0.name == state.name && r.1
                    == RunAction::BuildSession(
                    RetryPolicy { mode: RetryStrategy::Adaptive, max_attempts: 3, initial_backoff_secs: 5 },
                ),
                Err(m) => is_finish_err(r.1, RunError::Archive(m)),
            },
            state.phase == Phase::Connecting && event is SessionReady ==> r.0.phase == Phase::Reading
                && r.0.name == state.name && r.1 is ReadArchive,
            // exactly one deployment path, chosen by the extension flag alone
            is_deploy_action(r.1) ==> state.phase == Phase::Reading && event is ArchiveRead,
            state.phase == Phase::Reading && event is ArchiveRead ==> match event->ArchiveRead_0 {
                Ok(_) => r.0.phase == Phase::Deploying && r.0.name == state.name && match r.1 {
                    RunAction::DeployExtension { name, compatible_runtimes, tags } => {
                        &&& self.extension
                        &&& Some(name) == state.name
                        &&& texts(compatible_runtimes@) == texts(self.compatible_runtimes@)
                        &&& tags_match(tags, *self)
                    },
                    RunAction::DeployFunction { name, binary_name, tags } => {
                        &&& !self.extension
                        &&& Some(name) == state.name
                        &&& binary_name@ == binary_name_of(self.binary_name, name@)
                        &&& tags_match(tags, *self)
                    },
                    _ => false,
                },
                Err(m) => is_finish_err(r.1, RunError::Read(m)),
            },
            state.phase == Phase::Deploying && event is Deployed ==> match event->Deployed_0 {
                Ok(_) => r.0.phase == Phase::Rendering && r.1 == RunAction::Render(self.output_format),
                Err(m) => is_finish_err(r.1, RunError::Remote(m)),
            },
            state.phase == Phase::Rendering && event is Rendered ==> match event->Rendered_0 {
                Ok(_) => r.1 == RunAction::Finish(Ok(())),
                Err(m) => is_finish_err(r.1, RunError::Render(m)),
            },
    {
        match event {
            RunEvent::Begin => {
                if state.phase != Phase::Start {
                    return stop(RunError::UnexpectedEvent);
                }
                if let Err(e) = self.validate() {
                    return stop(RunError::Invalid(e));
                }
                match &self.binary_path {
                    Some(bp) => (
                        RunState { phase: Phase::CheckingPath, progress: true, name: None },
                        RunAction::CheckPath(bp.clone()),
                    ),
                    None => match &self.name {
                        Some(n) => with_name(Phase::Loading, n.clone(), self.discover_action(n)),
                        None => (
                            RunState { phase: Phase::ResolvingName, progress: true, name: None },
                            RunAction::ResolveManifest(self.manifest_path.clone()),
                        ),
                    },
                }
            },
            RunEvent::PathKind(is_dir) => {
                if state.phase != Phase::CheckingPath {
                    return stop(RunError::UnexpectedEvent);
                }
                match self.plan_archive(is_dir) {
                    Err(e) => stop(RunError::Invalid(e)),
                    Ok(plan) => {
                        let name = match &plan {
                            ArchivePlan::Package { name, .. } => name.clone(),
                            ArchivePlan::Discover { .. } => {
                                return stop(RunError::UnexpectedEvent);
                            },
                        };
                        with_name(Phase::Loading, name, RunAction::Package(plan))
                    },
                }
            },
            RunEvent::ManifestBinary(res) => {
                if state.phase != Phase::ResolvingName {
                    return stop(RunError::UnexpectedEvent);
                }
                match res {
                    Ok(n) => {
                        let action = self.discover_action(&n);
                        with_name(Phase::Loading, n, action)
                    },
                    Err(m) => stop(RunError::Manifest(m)),
                }
            },
            RunEvent::ArchiveLoaded(res) => {
                if state.phase != Phase::Loading {
                    return stop(RunError::UnexpectedEvent);
                }
                match (res, &state.name) {
                    (Ok(()), Some(n)) => with_name(
                        Phase::Connecting,
                        n.clone(),
                        RunAction::BuildSession(RetryPolicy::for_deploy()),
                    ),
                    (Err(m), _) => stop(RunError::Archive(m)),
                    _ => stop(RunError::UnexpectedEvent),
                }
            },
            RunEvent::SessionReady => {
                if state.phase != Phase::Connecting {
                    return stop(RunError::UnexpectedEvent);
                }
                match &state.name {
                    Some(n) => with_name(Phase::Reading, n.clone(), RunAction::ReadArchive),
                    None => stop(RunError::UnexpectedEvent),
                }
            },
            RunEvent::ArchiveRead(res) => {
                if state.phase != Phase::Reading {
                    return stop(RunError::UnexpectedEvent);
                }
                match (res, &state.name) {
                    (Ok(()), Some(n)) => {
                        let tags = resolve_tags(&self.tag, &self.tags);
                        let action = if self.extension {
                            RunAction::DeployExtension {
                                name: n.clone(),
                                compatible_runtimes: clone_list(&self.compatible_runtimes),
                                tags,
                            }
                        } else {
                            RunAction::DeployFunction {
                                name: n.clone(),
                                binary_name: self.binary_name_for(n),
                                tags,
                            }
                        };
                        with_name(Phase::Deploying, n.clone(), action)
                    },
                    (Err(m), _) => stop(RunError::Read(m)),
                    _ => stop(RunError::UnexpectedEvent),
                }
            },
            RunEvent::Deployed(res) => {
                if state.phase != Phase::Deploying {
                    return stop(RunError::UnexpectedEvent);
                }
                match res {
                    Ok(()) => (
                        RunState { phase: Phase::Rendering, progress: false, name: None },
                        RunAction::Render(self.output_format),
                    ),
                    Err(m) => stop(RunError::Remote(m)),
                }
            },
            RunEvent::Rendered(res) => {
                if state.phase != Phase::Rendering {
                    return stop(RunError::UnexpectedEvent);
                }
                match res {
                    Ok(()) => (
                        RunState { phase: Phase::Done, progress: false, name: None },
                        RunAction::Finish(Ok(())),
                    ),
                    Err(m) => stop(RunError::Render(m)),
                }
            },
        }
    }
}

} // verus!
