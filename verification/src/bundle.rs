//! Bundling: from an entry file to the bytes and assets of a deployment.
//!
//! The build tool is a program of its own. This module says how it is to be
//! called and what its result is worth; the caller runs it.

use vstd::prelude::*;
use vstd::string::StringExecFns;
use crate::assets::{AssetSet, StoredAsset};
use crate::collect::{
    collect_action, collect_step, AssetCollector, CollectAction, CollectEvent, CollectPhase,
};
use crate::error::DeployError;
use crate::limits::Limits;
use crate::paths::{file_stem, stem_of};

verus! {

/// How the attempt to start the build tool ended.
pub enum ToolProbe {
    /// The tool started.
    Found,
    /// There is no such program.
    NotFound,
    /// The tool could not be started for another reason.
    Failed(String),
}

/// What one run of the build tool left behind.
pub struct BuildOutput {
    /// Whether the tool reported success.
    pub success: bool,
    /// The exit code, where the tool ended with one.
    pub code: Option<i32>,
    /// Everything the tool wrote to its standard output.
    pub stdout: Vec<u8>,
    /// What the tool wrote to its standard error, where that is text.
    pub stderr: Option<String>,
}

/// Whether the build tool is at hand: fails with `ToolMissing` where there is
/// no such program and with `ToolInvocationError` where it could not be
/// started for another reason.
pub fn check_available(probe: ToolProbe) -> (available: Result<(), DeployError>)
    ensures
        match probe {
            ToolProbe::Found => available is Ok,
            ToolProbe::NotFound => available matches Err(DeployError::ToolMissing),
            ToolProbe::Failed(reason) => available matches Err(
                DeployError::ToolInvocationError(text),
            ) && text@ == reason@,
        },
{
    match probe {
        ToolProbe::Found => Ok(()),
        ToolProbe::NotFound => Err(DeployError::ToolMissing),
        ToolProbe::Failed(reason) => Err(DeployError::ToolInvocationError(reason)),
    }
}

/// The arguments that the build tool is called with for `file`: one ES
/// module for a browser-like target, in production mode, resolved under the
/// platform's own condition, with WebAssembly files loaded as bytes.
pub open spec fn build_arguments(file: Seq<char>) -> Seq<Seq<char>> {
    seq![
        file,
        "--define:process.env.NODE_ENV=\"production\""@,
        "--bundle"@,
        "--format=esm"@,
        "--target=esnext"@,
        "--platform=browser"@,
        "--conditions=lagon"@,
        "--loader:.wasm=binary"@,
    ]
}

/// The arguments that the build tool is called with for `file`.
pub fn esbuild_arguments(file: &str) -> (arguments: Vec<String>)
    ensures
        arguments@.len() == build_arguments(file@).len(),
        forall|i: int|
            0 <= i < arguments@.len() ==> #[trigger] arguments@[i]@ == build_arguments(file@)[i],
{
    let mut arguments: Vec<String> = Vec::new();
    arguments.push(String::from_str(file));
    arguments.push(String::from_str("--define:process.env.NODE_ENV=\"production\""));
    arguments.push(String::from_str("--bundle"));
    arguments.push(String::from_str("--format=esm"));
    arguments.push(String::from_str("--target=esnext"));
    arguments.push(String::from_str("--platform=browser"));
    arguments.push(String::from_str("--conditions=lagon"));
    arguments.push(String::from_str("--loader:.wasm=binary"));
    arguments
}

/// The text that stands for a failed build's standard error.
pub open spec fn build_complaint(output: BuildOutput) -> Seq<char> {
    match output.stderr {
        Some(text) => text@,
        None => "Unknown error."@,
    }
}

/// Whether `error` is what a build result is refused with: `BuildFailed`
/// with the exit code and the complaint where the tool reported failure,
/// `FunctionTooLarge` where its output reaches the maximum.
pub open spec fn build_refusal(output: BuildOutput, limits: Limits, error: DeployError) -> bool {
    if !output.success {
        error matches DeployError::BuildFailed { code, stderr } && code == (match output.code {
            Some(code) => code,
            None => 0i32,
        }) && stderr@ == build_complaint(output)
    } else {
        output.stdout@.len() >= limits.max_function_size && (error matches DeployError::FunctionTooLarge {
            limit,
        } && limit == limits.max_function_size)
    }
}

/// Whether a build result is accepted: the tool reported success and its
/// output stays below the maximum size of a function.
pub open spec fn build_accepted(output: BuildOutput, limits: Limits) -> bool {
    output.success && output.stdout@.len() < limits.max_function_size
}

/// The bundle that one run of the build tool produced: its standard output,
/// unless the tool reported failure or the output is too large.
pub fn esbuild(output: BuildOutput, limits: &Limits) -> (bundle: Result<Vec<u8>, DeployError>)
    ensures
        match bundle {
            Ok(bytes) => build_accepted(output, *limits) && bytes@ == output.stdout@,
            Err(error) => !build_accepted(output, *limits) && build_refusal(output, *limits, error),
        },
{
    if output.success {
        if output.stdout.len() >= limits.max_function_size {
            return Err(DeployError::FunctionTooLarge { limit: limits.max_function_size });
        }
        return Ok(output.stdout);
    }
    let code = match output.code {
        Some(code) => code,
        None => 0,
    };
    let stderr = match output.stderr {
        Some(text) => text,
        None => String::from_str("Unknown error."),
    };
    Err(DeployError::BuildFailed { code, stderr })
}

/// What is to be bundled, and under which limits.
pub struct Job {
    /// The entry file of the function.
    pub index: String,
    /// The entry file of the client bundle, where there is one.
    pub client: Option<String>,
    /// The directory whose files become assets.
    pub public_dir: String,
    /// The limits that the result is held to.
    pub limits: Limits,
}

/// The bundling of one function, step by step.
pub enum Bundle {
    /// Waiting to hear whether the build tool is at hand.
    Probing { job: Job },
    /// Waiting for the build of the entry file.
    BuildingIndex { job: Job },
    /// Waiting for the build of the client file.
    BuildingClient { job: Job, code: Vec<u8>, source: String },
    /// Waiting to hear whether there is a public directory to write the
    /// client bundle into.
    LocatingPreview { job: Job, code: Vec<u8>, client: StoredAsset },
    /// Waiting for the client bundle to be written into the public directory.
    WritingPreview { job: Job, code: Vec<u8>, client: StoredAsset },
    /// Collecting the assets of the public directory.
    Collecting { code: Vec<u8>, collector: AssetCollector },
    /// The tool is missing, a build was refused or the outside work failed.
    Failed { error: DeployError },
}

/// What a bundling is told.
pub enum BundleEvent {
    /// How the attempt to start the build tool ended.
    ToolProbed(ToolProbe),
    /// What the build that was asked for left behind.
    Built(BuildOutput),
    /// Whether the public directory exists and is a directory.
    PreviewLocated(bool),
    /// The client bundle is written.
    PreviewWritten,
    /// What the collector of the assets is told.
    Collected(CollectEvent),
    /// The outside work that was asked for failed.
    Failed(DeployError),
}

/// What a bundling asks for.
pub enum BundleAction {
    /// Start the build tool to see whether it is there.
    ProbeTool,
    /// Run the build tool on `file`, with the arguments of `esbuild_arguments`.
    Build { file: String },
    /// Find out whether `dir` exists and is a directory.
    LocatePreview { dir: String },
    /// Write `content` to the file `file_name` in `dir`.
    WritePreview { dir: String, file_name: String, content: Vec<u8> },
    /// Do what the collector of the assets asks for.
    Collect(CollectAction),
    /// Nothing more: the bundle is complete.
    Finish,
    /// Nothing more: the bundling failed.
    Abort,
}

/// Whether a collector has just been set up for `job` over `base`.
pub open spec fn collector_started(
    collector: AssetCollector,
    job: Job,
    base: Map<Seq<char>, Seq<u8>>,
) -> bool {
    &&& collector.wf()
    &&& collector.phase() is Locating
    &&& collector.root() == job.public_dir@
    &&& collector.limits() == job.limits
    &&& collector.base() == base
    &&& collector.assets() == base
    &&& collector.entries().len() == 0
}

/// The assets that a client bundle alone makes up.
pub open spec fn client_assets(client: StoredAsset) -> Map<Seq<char>, Seq<u8>> {
    Map::<Seq<char>, Seq<u8>>::empty().insert(client.name@, client.content@)
}

/// The name that the bundle of a client file is published under: the file's
/// stem with the extension of a script.
pub open spec fn client_asset_name(client: Seq<char>) -> Option<Seq<char>> {
    match stem_of(client) {
        Some(stem) => Some(stem + ".js"@),
        None => None,
    }
}

impl Bundle {
    /// What holds of a bundling at every step.
    pub open spec fn wf(&self) -> bool {
        match *self {
            Bundle::Collecting { collector, .. } => collector.wf(),
            _ => true,
        }
    }

    /// Whether the bundle is complete.
    pub open spec fn is_done(&self) -> bool {
        *self matches Bundle::Collecting { collector, .. } && collector.phase() is Done
    }

    /// Whether the bundling failed.
    pub open spec fn is_failed(&self) -> bool {
        ||| *self is Failed
        ||| *self matches Bundle::Collecting { collector, .. } && collector.phase() is Failed
    }

    /// A bundling that has not begun.
    pub fn new(index: String, client: Option<String>, public_dir: String, limits: Limits) -> (bundle:
        Bundle)
        ensures
            bundle.wf(),
            bundle matches Bundle::Probing { job } && job.index == index && job.client == client
                && job.public_dir == public_dir && job.limits == limits,
    {
        Bundle::Probing { job: Job { index, client, public_dir, limits } }
    }
}

/// Whether `post` is what `pre` becomes when it is told `event`.
///
/// The tool is probed first. The entry file is built, then the client file
/// where there is one; a refused build ends the bundling. A client bundle
/// becomes an asset named after the client file, and is written into the
/// public directory where that exists. Then the public directory is
/// collected over it. A failure of the outside work is kept as it came. An
/// event that the state does not wait for changes nothing.
pub open spec fn bundle_step(pre: Bundle, event: BundleEvent, post: Bundle) -> bool {
    match (pre, event) {
        (Bundle::Probing { job }, BundleEvent::ToolProbed(probe)) => match probe {
            ToolProbe::Found => post == (Bundle::BuildingIndex { job }),
            ToolProbe::NotFound => post matches Bundle::Failed { error: DeployError::ToolMissing },
            ToolProbe::Failed(reason) => post matches Bundle::Failed {
                error: DeployError::ToolInvocationError(text),
            } && text@ == reason@,
        },
        (Bundle::BuildingIndex { job }, BundleEvent::Built(output)) => {
            if !build_accepted(output, job.limits) {
                post matches Bundle::Failed { error } && build_refusal(output, job.limits, error)
            } else if job.client is Some {
                post matches Bundle::BuildingClient { job: kept, code, source } && kept == job
                    && code@ == output.stdout@ && source@ == job.client.unwrap()@
            } else {
                post matches Bundle::Collecting { code, collector } && code@ == output.stdout@
                    && collector_started(collector, job, Map::empty())
            }
        },
        (Bundle::BuildingClient { job, code, source }, BundleEvent::Built(output)) => {
            if !build_accepted(output, job.limits) {
                post matches Bundle::Failed { error } && build_refusal(output, job.limits, error)
            } else if client_asset_name(source@) is Some {
                post matches Bundle::LocatingPreview { job: kept, code: same, client } && kept
                    == job && same == code && Some(client.name@) == client_asset_name(source@)
                    && client.content@ == output.stdout@
            } else {
                post matches Bundle::Failed { error: DeployError::InvalidPath(refused) }
                    && refused@ == source@
            }
        },
        (Bundle::LocatingPreview { job, code, client }, BundleEvent::PreviewLocated(found)) => {
            if found {
                post == (Bundle::WritingPreview { job, code, client })
            } else {
                post matches Bundle::Collecting { code: same, collector } && same == code
                    && collector_started(collector, job, client_assets(client))
            }
        },
        (Bundle::WritingPreview { job, code, client }, BundleEvent::PreviewWritten) => {
            post matches Bundle::Collecting { code: same, collector } && same == code
                && collector_started(collector, job, client_assets(client))
        },
        (Bundle::Collecting { code, collector }, BundleEvent::Collected(told)) => {
            post matches Bundle::Collecting { code: same, collector: next } && same == code
                && collect_step(collector, told, next)
        },
        (Bundle::Collecting { code, collector }, BundleEvent::Failed(error)) => {
            post matches Bundle::Collecting { code: same, collector: next } && same == code
                && collect_step(collector, CollectEvent::Failed(error), next)
        },
        (Bundle::Failed { .. }, _) => post == pre,
        (_, BundleEvent::Failed(error)) => post == (Bundle::Failed { error }),
        _ => post == pre,
    }
}

/// Whether `action` is what a bundling in this state asks for.
pub open spec fn bundle_action(bundle: Bundle, action: BundleAction) -> bool {
    match bundle {
        Bundle::Probing { .. } => action is ProbeTool,
        Bundle::BuildingIndex { job } => action matches BundleAction::Build { file } && file@
            == job.index@,
        Bundle::BuildingClient { source, .. } => action matches BundleAction::Build { file }
            && file@ == source@,
        Bundle::LocatingPreview { job, .. } => action matches BundleAction::LocatePreview { dir }
            && dir@ == job.public_dir@,
        Bundle::WritingPreview { job, client, .. } => action matches BundleAction::WritePreview {
            dir,
            file_name,
            content,
        } && dir@ == job.public_dir@ && file_name@ == client.name@ && content@ == client.content@,
        Bundle::Collecting { collector, .. } => match collector.phase() {
            CollectPhase::Done => action is Finish,
            CollectPhase::Failed => action is Abort,
            _ => action matches BundleAction::Collect(wanted) && collect_action(collector, wanted),
        },
        Bundle::Failed { .. } => action is Abort,
    }
}

impl Bundle {
    /// Hands the public directory of `job` to a collector that starts from
    /// `base`.
    fn start_collecting(job: Job, code: Vec<u8>, base: AssetSet) -> (bundle: Bundle)
        requires
            base.wf(),
        ensures
            bundle.wf(),
            bundle matches Bundle::Collecting { code: same, collector } && same == code
                && collector_started(collector, job, base@),
    {
        let collector = AssetCollector::new(job.public_dir, job.limits, base);
        Bundle::Collecting { code, collector }
    }

    /// The assets that a client bundle alone makes up.
    fn only_client(client: StoredAsset) -> (assets: AssetSet)
        ensures
            assets.wf(),
            assets@ == client_assets(client),
    {
        let mut assets = AssetSet::new();
        assets.insert(client.name, client.content);
        assets
    }

    /// What the bundling becomes when it is told `event`.
    pub fn step(self, event: BundleEvent) -> (post: Bundle)
        requires
            self.wf(),
        ensures
            post.wf(),
            bundle_step(self, event, post),
    {
        match (self, event) {
            (Bundle::Probing { job }, BundleEvent::ToolProbed(probe)) => {
                match check_available(probe) {
                    Ok(()) => Bundle::BuildingIndex { job },
                    Err(error) => Bundle::Failed { error },
                }
            },
            (Bundle::BuildingIndex { job }, BundleEvent::Built(output)) => {
                match esbuild(output, &job.limits) {
                    Ok(code) => {
                        let client = match &job.client {
                            Some(source) => Some(source.clone()),
                            None => None,
                        };
                        match client {
                            Some(source) => Bundle::BuildingClient { job, code, source },
                            None => Bundle::start_collecting(job, code, AssetSet::new()),
                        }
                    },
                    Err(error) => Bundle::Failed { error },
                }
            },
            (Bundle::BuildingClient { job, code, source }, BundleEvent::Built(output)) => {
                match esbuild(output, &job.limits) {
                    Ok(content) => match file_stem(source.as_str()) {
                        Some(stem) => Bundle::LocatingPreview {
                            job,
                            code,
                            client: StoredAsset { name: stem.concat(".js"), content },
                        },
                        None => Bundle::Failed { error: DeployError::InvalidPath(source) },
                    },
                    Err(error) => Bundle::Failed { error },
                }
            },
            (Bundle::LocatingPreview { job, code, client }, BundleEvent::PreviewLocated(found)) => {
                if found {
                    Bundle::WritingPreview { job, code, client }
                } else {
                    Bundle::start_collecting(job, code, Bundle::only_client(client))
                }
            },
            (Bundle::WritingPreview { job, code, client }, BundleEvent::PreviewWritten) => {
                Bundle::start_collecting(job, code, Bundle::only_client(client))
            },
            (Bundle::Collecting { code, collector }, BundleEvent::Collected(told)) => {
                Bundle::Collecting { code, collector: collector.step(told) }
            },
            (Bundle::Collecting { code, collector }, BundleEvent::Failed(error)) => {
                Bundle::Collecting { code, collector: collector.step(CollectEvent::Failed(error)) }
            },
            (Bundle::Failed { error }, _) => Bundle::Failed { error },
            (_, BundleEvent::Failed(error)) => Bundle::Failed { error },
            (unmoved, _) => unmoved,
        }
    }

    /// What the bundling asks for in the state it is in.
    pub fn action(&self) -> (action: BundleAction)
        requires
            self.wf(),
        ensures
            bundle_action(*self, action),
    {
        match self {
            Bundle::Probing { .. } => BundleAction::ProbeTool,
            Bundle::BuildingIndex { job } => BundleAction::Build { file: job.index.clone() },
            Bundle::BuildingClient { source, .. } => BundleAction::Build { file: source.clone() },
            Bundle::LocatingPreview { job, .. } => BundleAction::LocatePreview {
                dir: job.public_dir.clone(),
            },
            Bundle::WritingPreview { job, client, .. } => BundleAction::WritePreview {
                dir: job.public_dir.clone(),
                file_name: client.name.clone(),
                content: client.content.clone(),
            },
            Bundle::Collecting { collector, .. } => match collector.current_phase() {
                CollectPhase::Done => BundleAction::Finish,
                CollectPhase::Failed => BundleAction::Abort,
                _ => BundleAction::Collect(collector.action()),
            },
            Bundle::Failed { .. } => BundleAction::Abort,
        }
    }

    /// The bytes and the assets of a complete bundle, the error of a failed
    /// one, and nothing while the bundling is under way.
    pub fn outcome(self) -> (outcome: Option<Result<(Vec<u8>, AssetSet), DeployError>>)
        requires
            self.wf(),
        ensures
            match outcome {
                Some(Ok((code, assets))) => self matches Bundle::Collecting {
                    code: built,
                    collector,
                } && collector.phase() is Done && code == built && assets@ == collector.assets()
                    && assets.wf(),
                Some(Err(error)) => match self {
                    Bundle::Failed { error: kept } => error == kept,
                    Bundle::Collecting { collector, .. } => collector.phase() is Failed
                        && collector.error() == Some(error),
                    _ => false,
                },
                None => !self.is_done() && !self.is_failed(),
            },
    {
        match self {
            Bundle::Failed { error } => Some(Err(error)),
            Bundle::Collecting { code, collector } => match collector.outcome() {
                Some(Ok(assets)) => Some(Ok((code, assets))),
                Some(Err(error)) => Some(Err(error)),
                None => None,
            },
            _ => None,
        }
    }
}

/// Tells a bundling the outcome of what it asked for, and returns the
/// bundling with what it asks for next.
pub fn bundle_function(bundle: Bundle, event: BundleEvent) -> (next: (Bundle, BundleAction))
    requires
        bundle.wf(),
    ensures
        next.0.wf(),
        bundle_step(bundle, event, next.0),
        bundle_action(next.0, next.1),
{
    let post = bundle.step(event);
    let action = post.action();
    (post, action)
}

} // verus!
