//! Deploying a function: the stored link to the remote function, and the
//! sequence of remote calls and uploads that publishes a bundle.

use vstd::prelude::*;
use vstd::string::StringExecFns;
use crate::assets::{Asset, AssetSet};
use crate::error::DeployError;
use crate::paths::{file_name, final_component};

verus! {

/// The link between an entry file and the remote function it deploys to.
#[derive(Debug)]
pub struct DeploymentConfig {
    pub function_id: String,
    pub organization_id: String,
}

/// Where the link of an entry file is stored: in the project's hidden
/// directory, in a JSON file named after the entry file.
pub open spec fn config_path(file: Seq<char>) -> Option<Seq<char>> {
    match final_component(file) {
        Some(name) => Some(".lagon/"@ + name + ".json"@),
        None => None,
    }
}

/// Whether `error` refuses `file` as a path without a final component.
pub open spec fn unnamed(file: Seq<char>, error: DeployError) -> bool {
    config_path(file) is None && (error matches DeployError::InvalidPath(refused) && refused@
        == file)
}

/// Where the link of the entry file `file` is stored.
pub fn function_config_path(file: &str) -> (path: Result<String, DeployError>)
    ensures
        match path {
            Ok(path) => config_path(file@) == Some(path@),
            Err(error) => unnamed(file@, error),
        },
{
    match file_name(file) {
        Some(name) => {
            let mut path = String::from_str(".lagon/");
            path.append(name.as_str());
            path.append(".json");
            Ok(path)
        },
        None => Err(DeployError::InvalidPath(String::from_str(file))),
    }
}

/// What is to be written to store a link.
pub struct ConfigWrite {
    /// The directory to create first, where the file does not exist yet.
    pub create_dir: Option<String>,
    /// The file to write.
    pub path: String,
    /// What to write into it, as a JSON object.
    pub config: DeploymentConfig,
}

/// The file to read the link of `file` from, or nothing where no link is
/// stored. `exists` says whether the file at `function_config_path(file)`
/// exists.
pub fn get_function_config(file: &str, exists: bool) -> (read: Result<Option<String>, DeployError>)
    ensures
        match read {
            Ok(Some(path)) => exists && config_path(file@) == Some(path@),
            Ok(None) => !exists && config_path(file@) is Some,
            Err(error) => unnamed(file@, error),
        },
{
    let path = function_config_path(file)?;
    if exists {
        Ok(Some(path))
    } else {
        Ok(None)
    }
}

/// What is to be written to store `config` as the link of `file`. The hidden
/// directory is created first where the file does not exist yet. `exists`
/// says whether the file at `function_config_path(file)` exists.
pub fn write_function_config(file: &str, exists: bool, config: DeploymentConfig) -> (write: Result<
    ConfigWrite,
    DeployError,
>)
    ensures
        match write {
            Ok(write) => {
                &&& config_path(file@) == Some(write.path@)
                &&& write.config == config
                &&& if exists {
                    write.create_dir is None
                } else {
                    write.create_dir matches Some(dir) && dir@ == ".lagon"@
                }
            },
            Err(error) => unnamed(file@, error),
        },
{
    let path = function_config_path(file)?;
    let create_dir = if exists {
        None
    } else {
        Some(String::from_str(".lagon"))
    };
    Ok(ConfigWrite { create_dir, path, config })
}

/// The file to remove to forget the link of `file`. Fails with
/// `ConfigNotFound`, and names no file, where no link is stored. `exists`
/// says whether the file at `function_config_path(file)` exists.
pub fn delete_function_config(file: &str, exists: bool) -> (remove: Result<String, DeployError>)
    ensures
        match remove {
            Ok(path) => exists && config_path(file@) == Some(path@),
            Err(error) => if config_path(file@) is None {
                unnamed(file@, error)
            } else {
                !exists && error is ConfigNotFound
            },
        },
{
    let path = function_config_path(file)?;
    if !exists {
        return Err(DeployError::ConfigNotFound);
    }
    Ok(path)
}

/// What the remote is asked when a deployment is created.
#[derive(Debug)]
pub struct CreateDeploymentRequest {
    pub function_id: String,
    pub function_size: usize,
    pub assets: Vec<Asset>,
}

/// Where the remote wants one asset sent.
#[derive(Debug)]
pub struct AssetUrl {
    pub name: String,
    pub url: String,
}

/// What the remote answers when a deployment is created.
#[derive(Debug)]
pub struct CreateDeploymentResponse {
    pub deployment_id: String,
    pub code_url: String,
    pub assets_urls: Vec<AssetUrl>,
}

/// What the remote is asked when a deployment is published.
#[derive(Debug)]
pub struct DeployDeploymentRequest {
    pub function_id: String,
    pub deployment_id: String,
    pub is_production: bool,
}

/// What the remote answers when a deployment is published.
#[derive(Debug)]
pub struct DeployDeploymentResponse {
    pub url: String,
}

/// The deployment of one function, step by step.
pub enum Deployment {
    /// Waiting for the bundle and the assets.
    Bundling { function_id: String, prod: bool },
    /// Waiting for the remote to create the deployment.
    CreatingDeployment { function_id: String, prod: bool, code: Vec<u8>, assets: AssetSet },
    /// Waiting for the bundle to be uploaded.
    UploadingCode {
        function_id: String,
        prod: bool,
        code: Vec<u8>,
        assets: AssetSet,
        deployment_id: String,
        code_url: String,
        targets: Vec<AssetUrl>,
    },
    /// Waiting for the asset at `cursor` among the targets to be uploaded.
    UploadingAssets {
        function_id: String,
        prod: bool,
        assets: AssetSet,
        deployment_id: String,
        targets: Vec<AssetUrl>,
        cursor: usize,
    },
    /// Waiting for the remote to publish the deployment.
    Publishing { function_id: String, prod: bool, deployment_id: String },
    /// The deployment is live at `url`.
    Done { url: String },
    /// The deployment stopped at its first error.
    Failed { error: DeployError },
}

/// What a deployment is told.
pub enum DeployEvent {
    /// The bundle and the assets are there.
    Bundled { code: Vec<u8>, assets: AssetSet },
    /// The remote created the deployment.
    Created(CreateDeploymentResponse),
    /// The upload that was asked for went through.
    Uploaded,
    /// The remote published the deployment.
    Published(DeployDeploymentResponse),
    /// The outside work that was asked for failed.
    Failed(DeployError),
}

/// What a deployment asks for.
pub enum DeployAction {
    /// Bundle the function and collect its assets.
    Bundle,
    /// Call the remote procedure that creates a deployment.
    Create(CreateDeploymentRequest),
    /// Send `content` to `url` with a plain binary PUT.
    Upload { url: String, content: Vec<u8> },
    /// Call the remote procedure that publishes a deployment.
    Publish(DeployDeploymentRequest),
    /// Nothing more: hand `url` to the user.
    Finish { url: String },
    /// Nothing more: the deployment failed.
    Abort,
}

/// Whether `post` is where a deployment stands once the targets before
/// `cursor` are served: publishing when none is left, uploading the asset at
/// `cursor` when it was collected, and failed with `ProtocolMismatch` when
/// the remote named an asset that was not.
pub open spec fn uploads_settled(
    function_id: String,
    prod: bool,
    assets: AssetSet,
    deployment_id: String,
    targets: Vec<AssetUrl>,
    cursor: int,
    post: Deployment,
) -> bool {
    if cursor >= targets@.len() {
        post == (Deployment::Publishing { function_id, prod, deployment_id })
    } else if assets@.contains_key(targets@[cursor].name@) {
        post matches Deployment::UploadingAssets {
            function_id: f,
            prod: p,
            assets: a,
            deployment_id: d,
            targets: t,
            cursor: c,
        } && f == function_id && p == prod && a == assets && d == deployment_id && t == targets
            && c == cursor
    } else {
        post matches Deployment::Failed { error: DeployError::ProtocolMismatch(name) } && name@
            == targets@[cursor].name@
    }
}

/// Whether `post` is what `pre` becomes when it is told `event`.
///
/// The bundle leads to the call that creates the deployment; its answer to
/// the upload of the bundle; that to the upload of each asset the remote
/// named, one at a time in the remote's order; the last upload to the call
/// that publishes; its answer to the end. A failure of the outside work is
/// kept as it came and ends the deployment. An event that the state does not
/// wait for changes nothing.
pub open spec fn deploy_step(pre: Deployment, event: DeployEvent, post: Deployment) -> bool {
    match (pre, event) {
        (Deployment::Bundling { function_id, prod }, DeployEvent::Bundled { code, assets }) => {
            post == (Deployment::CreatingDeployment { function_id, prod, code, assets })
        },
        (
            Deployment::CreatingDeployment { function_id, prod, code, assets },
            DeployEvent::Created(response),
        ) => {
            post == (Deployment::UploadingCode {
                function_id,
                prod,
                code,
                assets,
                deployment_id: response.deployment_id,
                code_url: response.code_url,
                targets: response.assets_urls,
            })
        },
        (
            Deployment::UploadingCode { function_id, prod, assets, deployment_id, targets, .. },
            DeployEvent::Uploaded,
        ) => uploads_settled(function_id, prod, assets, deployment_id, targets, 0, post),
        (
            Deployment::UploadingAssets { function_id, prod, assets, deployment_id, targets, cursor },
            DeployEvent::Uploaded,
        ) => uploads_settled(function_id, prod, assets, deployment_id, targets, cursor + 1, post),
        (Deployment::Publishing { .. }, DeployEvent::Published(response)) => {
            post == (Deployment::Done { url: response.url })
        },
        (Deployment::Done { .. }, _) => post == pre,
        (Deployment::Failed { .. }, _) => post == pre,
        (_, DeployEvent::Failed(error)) => post == (Deployment::Failed { error }),
        _ => post == pre,
    }
}

/// Whether `action` is what a deployment in this state asks for.
pub open spec fn deploy_action(deployment: Deployment, action: DeployAction) -> bool {
    match deployment {
        Deployment::Bundling { .. } => action is Bundle,
        Deployment::CreatingDeployment { function_id, code, assets, .. } => {
            action matches DeployAction::Create(request) && request.function_id@ == function_id@
                && request.function_size == code@.len() && assets.manifest_is(request.assets@)
        },
        Deployment::UploadingCode { code, code_url, .. } => {
            action matches DeployAction::Upload { url, content } && url@ == code_url@ && content@
                == code@
        },
        Deployment::UploadingAssets { assets, targets, cursor, .. } => {
            action matches DeployAction::Upload { url, content } && url@ == targets@[cursor as int].url@
                && content@ == assets@[targets@[cursor as int].name@]
        },
        Deployment::Publishing { function_id, prod, deployment_id } => {
            action matches DeployAction::Publish(request) && request.function_id@ == function_id@
                && request.deployment_id@ == deployment_id@ && request.is_production == prod
        },
        Deployment::Done { url } => action matches DeployAction::Finish { url: live } && live@
            == url@,
        Deployment::Failed { .. } => action is Abort,
    }
}

impl DeployEvent {
    /// What holds of an event that carries assets.
    pub open spec fn wf(&self) -> bool {
        *self matches DeployEvent::Bundled { assets, .. } ==> assets.wf()
    }
}

impl Deployment {
    /// What holds of a deployment at every step.
    pub open spec fn wf(&self) -> bool {
        match *self {
            Deployment::CreatingDeployment { assets, .. } => assets.wf(),
            Deployment::UploadingCode { assets, .. } => assets.wf(),
            Deployment::UploadingAssets { assets, targets, cursor, .. } => assets.wf() && cursor
                < targets@.len() && assets@.contains_key(targets@[cursor as int].name@),
            _ => true,
        }
    }

    /// A deployment of the function `function_id` that has not begun.
    pub fn new(function_id: String, prod: bool) -> (deployment: Deployment)
        ensures
            deployment.wf(),
            deployment == (Deployment::Bundling { function_id, prod }),
    {
        Deployment::Bundling { function_id, prod }
    }

    /// Where a deployment stands once the targets before `cursor` are served.
    fn settle_uploads(
        function_id: String,
        prod: bool,
        assets: AssetSet,
        deployment_id: String,
        targets: Vec<AssetUrl>,
        cursor: usize,
    ) -> (post: Deployment)
        requires
            assets.wf(),
            cursor <= targets@.len(),
        ensures
            post.wf(),
            uploads_settled(function_id, prod, assets, deployment_id, targets, cursor as int, post),
    {
        if cursor >= targets.len() {
            return Deployment::Publishing { function_id, prod, deployment_id };
        }
        if assets.contains(targets[cursor].name.as_str()) {
            Deployment::UploadingAssets { function_id, prod, assets, deployment_id, targets, cursor }
        } else {
            Deployment::Failed { error: DeployError::ProtocolMismatch(targets[cursor].name.clone()) }
        }
    }

    /// What the deployment becomes when it is told `event`.
    pub fn step(self, event: DeployEvent) -> (post: Deployment)
        requires
            self.wf(),
            event.wf(),
        ensures
            post.wf(),
            deploy_step(self, event, post),
    {
        match (self, event) {
            (Deployment::Bundling { function_id, prod }, DeployEvent::Bundled { code, assets }) => {
                Deployment::CreatingDeployment { function_id, prod, code, assets }
            },
            (
                Deployment::CreatingDeployment { function_id, prod, code, assets },
                DeployEvent::Created(response),
            ) => Deployment::UploadingCode {
                function_id,
                prod,
                code,
                assets,
                deployment_id: response.deployment_id,
                code_url: response.code_url,
                targets: response.assets_urls,
            },
            (
                Deployment::UploadingCode { function_id, prod, assets, deployment_id, targets, .. },
                DeployEvent::Uploaded,
            ) => Deployment::settle_uploads(function_id, prod, assets, deployment_id, targets, 0),
            (
                Deployment::UploadingAssets {
                    function_id,
                    prod,
                    assets,
                    deployment_id,
                    targets,
                    cursor,
                },
                DeployEvent::Uploaded,
            ) => {
                assert(cursor < targets.len());
                Deployment::settle_uploads(
                    function_id,
                    prod,
                    assets,
                    deployment_id,
                    targets,
                    cursor + 1,
                )
            },
            (Deployment::Publishing { .. }, DeployEvent::Published(response)) => Deployment::Done {
                url: response.url,
            },
            (Deployment::Done { url }, _) => Deployment::Done { url },
            (Deployment::Failed { error }, _) => Deployment::Failed { error },
            (_, DeployEvent::Failed(error)) => Deployment::Failed { error },
            (unmoved, _) => unmoved,
        }
    }

    /// What the deployment asks for in the state it is in.
    pub fn action(&self) -> (action: DeployAction)
        requires
            self.wf(),
        ensures
            deploy_action(*self, action),
    {
        match self {
            Deployment::Bundling { .. } => DeployAction::Bundle,
            Deployment::CreatingDeployment { function_id, code, assets, .. } => DeployAction::Create(
                CreateDeploymentRequest {
                    function_id: function_id.clone(),
                    function_size: code.len(),
                    assets: assets.manifest(),
                },
            ),
            Deployment::UploadingCode { code, code_url, .. } => DeployAction::Upload {
                url: code_url.clone(),
                content: code.clone(),
            },
            Deployment::UploadingAssets { assets, targets, cursor, .. } => {
                let target = &targets[*cursor];
                match assets.get(target.name.as_str()) {
                    Some(content) => DeployAction::Upload {
                        url: target.url.clone(),
                        content: content.clone(),
                    },
                    None => DeployAction::Abort,
                }
            },
            Deployment::Publishing { function_id, prod, deployment_id } => DeployAction::Publish(
                DeployDeploymentRequest {
                    function_id: function_id.clone(),
                    deployment_id: deployment_id.clone(),
                    is_production: *prod,
                },
            ),
            Deployment::Done { url } => DeployAction::Finish { url: url.clone() },
            Deployment::Failed { .. } => DeployAction::Abort,
        }
    }

    /// The address of a finished deployment, the error of a failed one, and
    /// nothing while the deployment is under way.
    pub fn outcome(self) -> (outcome: Option<Result<String, DeployError>>)
        ensures
            match self {
                Deployment::Done { url } => outcome == Some(Ok::<String, DeployError>(url)),
                Deployment::Failed { error } => outcome == Some(Err::<String, DeployError>(error)),
                _ => outcome is None,
            },
    {
        match self {
            Deployment::Done { url } => Some(Ok(url)),
            Deployment::Failed { error } => Some(Err(error)),
            _ => None,
        }
    }
}

/// The target that is served next once the upload that a deployment waits
/// for went through, where it waits for one.
pub open spec fn next_target(deployment: Deployment) -> Option<AssetUrl> {
    match deployment {
        Deployment::UploadingCode { targets, .. } => if targets@.len() > 0 {
            Some(targets@[0])
        } else {
            None
        },
        Deployment::UploadingAssets { targets, cursor, .. } => if cursor + 1 < targets@.len() {
            Some(targets@[cursor + 1])
        } else {
            None
        },
        _ => None,
    }
}

/// The assets that a deployment has in hand while it uploads.
pub open spec fn assets_in_hand(deployment: Deployment) -> Map<Seq<char>, Seq<u8>> {
    match deployment {
        Deployment::UploadingCode { assets, .. } => assets@,
        Deployment::UploadingAssets { assets, .. } => assets@,
        _ => Map::empty(),
    }
}

/// When the remote names an asset that was never collected, the deployment
/// fails with `ProtocolMismatch` as soon as that asset's turn comes, and asks
/// for no further upload: all that is left is to stop.
pub proof fn lemma_unknown_asset_stops(pre: Deployment, post: Deployment, action: DeployAction)
    requires
        pre.wf(),
        next_target(pre) matches Some(target) && !assets_in_hand(pre).contains_key(target.name@),
        deploy_step(pre, DeployEvent::Uploaded, post),
        deploy_action(post, action),
    ensures
        post matches Deployment::Failed { error: DeployError::ProtocolMismatch(name) } && name@
            == next_target(pre).unwrap().name@,
        action is Abort,
{
}

/// Every upload that a deployment asks for after the bundle's own sends an
/// asset that was collected, to the address that the remote gave for it.
pub proof fn lemma_uploads_are_collected(deployment: Deployment, action: DeployAction)
    requires
        deployment.wf(),
        deployment is UploadingAssets,
        deploy_action(deployment, action),
    ensures
        action matches DeployAction::Upload { url, content } && (exists|i: int|
            0 <= i < deployment->UploadingAssets_targets@.len() && url@
                == deployment->UploadingAssets_targets@[i].url@ && assets_in_hand(
                deployment,
            ).contains_key(#[trigger] deployment->UploadingAssets_targets@[i].name@) && content@
                == assets_in_hand(deployment)[deployment->UploadingAssets_targets@[i].name@]),
{
    let i = deployment->UploadingAssets_cursor as int;
    assert(assets_in_hand(deployment).contains_key(deployment->UploadingAssets_targets@[i].name@));
}

/// Tells a deployment the outcome of what it asked for, and returns the
/// deployment with what it asks for next.
pub fn create_deployment(deployment: Deployment, event: DeployEvent) -> (next: (
    Deployment,
    DeployAction,
))
    requires
        deployment.wf(),
        event.wf(),
    ensures
        next.0.wf(),
        deploy_step(deployment, event, next.0),
        deploy_action(next.0, next.1),
{
    let post = deployment.step(event);
    let action = post.action();
    (post, action)
}

} // verus!
