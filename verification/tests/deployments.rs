use lagon_deploy::assets::AssetSet;
use lagon_deploy::bundle::{BuildOutput, Bundle, BundleAction, BundleEvent, ToolProbe};
use lagon_deploy::collect::{CollectAction, CollectEvent, WalkEntry};
use lagon_deploy::deployments::{
    create_deployment, delete_function_config, function_config_path, get_function_config,
    write_function_config, AssetUrl, CreateDeploymentResponse, DeployAction, DeployDeploymentResponse,
    DeployEvent, Deployment, DeploymentConfig,
};
use lagon_deploy::error::DeployError;
use lagon_deploy::limits::Limits;

fn link() -> DeploymentConfig {
    DeploymentConfig { function_id: "fn-1".to_string(), organization_id: "org-1".to_string() }
}

fn target(name: &str, url: &str) -> AssetUrl {
    AssetUrl { name: name.to_string(), url: url.to_string() }
}

fn created(targets: Vec<AssetUrl>) -> DeployEvent {
    DeployEvent::Created(CreateDeploymentResponse {
        deployment_id: "dep-1".to_string(),
        code_url: "https://upload.example.com/code".to_string(),
        assets_urls: targets,
    })
}

fn two_assets() -> AssetSet {
    let mut assets = AssetSet::new();
    assets.insert("a.txt".to_string(), b"hello".to_vec());
    assets.insert("b.txt".to_string(), b"bye".to_vec());
    assets
}

fn uploading_code(targets: Vec<AssetUrl>) -> Deployment {
    let deployment = Deployment::new("fn-1".to_string(), true);
    let deployment = deployment.step(DeployEvent::Bundled {
        code: b"0123456789".to_vec(),
        assets: two_assets(),
    });
    deployment.step(created(targets))
}

fn deploy_failure(deployment: Deployment) -> DeployError {
    match deployment.outcome() {
        Some(Err(error)) => error,
        _ => panic!("the deployment should have failed"),
    }
}

#[test]
fn config_is_stored_under_the_entry_files_name() {
    assert_eq!(function_config_path("index.ts"), Ok(".lagon/index.ts.json".to_string()));
    assert_eq!(function_config_path("src/api/hello.tsx"), Ok(".lagon/hello.tsx.json".to_string()));
}

#[test]
fn config_of_a_path_without_file_name_is_refused() {
    assert_eq!(function_config_path(".."), Err(DeployError::InvalidPath("..".to_string())));
    assert_eq!(function_config_path("/"), Err(DeployError::InvalidPath("/".to_string())));
    assert_eq!(get_function_config("..", true), Err(DeployError::InvalidPath("..".to_string())));
    assert_eq!(delete_function_config("..", false), Err(DeployError::InvalidPath("..".to_string())));
    assert!(write_function_config("..", false, link()).is_err());
}

#[test]
fn reading_a_config_that_is_not_there_gives_nothing() {
    assert_eq!(get_function_config("index.ts", false), Ok(None));
}

#[test]
fn reading_a_config_names_its_file() {
    assert_eq!(
        get_function_config("index.ts", true),
        Ok(Some(".lagon/index.ts.json".to_string()))
    );
}

#[test]
fn first_write_creates_the_hidden_directory() {
    let write = write_function_config("index.ts", false, link()).unwrap();
    assert_eq!(write.create_dir, Some(".lagon".to_string()));
    assert_eq!(write.path, ".lagon/index.ts.json");
    assert_eq!(write.config.function_id, "fn-1");
    assert_eq!(write.config.organization_id, "org-1");
}

#[test]
fn later_write_only_writes_the_file() {
    let write = write_function_config("index.ts", true, link()).unwrap();
    assert_eq!(write.create_dir, None);
    assert_eq!(write.path, ".lagon/index.ts.json");
    assert_eq!(write.config.function_id, "fn-1");
    assert_eq!(write.config.organization_id, "org-1");
}

#[test]
fn write_and_read_use_the_same_file() {
    let write = write_function_config("src/index.ts", false, link()).unwrap();
    assert_eq!(get_function_config("src/index.ts", true), Ok(Some(write.path)));
}

#[test]
fn deleting_a_config_that_is_not_there_fails() {
    assert_eq!(delete_function_config("index.ts", false), Err(DeployError::ConfigNotFound));
}

#[test]
fn deleting_a_config_names_its_file() {
    assert_eq!(delete_function_config("index.ts", true), Ok(".lagon/index.ts.json".to_string()));
}

#[test]
fn deployment_starts_by_bundling() {
    let deployment = Deployment::new("fn-1".to_string(), false);
    assert!(matches!(deployment.action(), DeployAction::Bundle));
    assert!(deployment.outcome().is_none());
}

#[test]
fn create_request_lists_name_and_size_of_every_asset() {
    let deployment = Deployment::new("fn-1".to_string(), false);
    let (_, action) = create_deployment(
        deployment,
        DeployEvent::Bundled { code: b"0123456789".to_vec(), assets: two_assets() },
    );
    match action {
        DeployAction::Create(request) => {
            assert_eq!(request.function_id, "fn-1");
            assert_eq!(request.function_size, 10);
            assert_eq!(request.assets.len(), 2);
            assert_eq!(request.assets[0].name, "a.txt");
            assert_eq!(request.assets[0].size, 5);
            assert_eq!(request.assets[1].name, "b.txt");
            assert_eq!(request.assets[1].size, 3);
        },
        _ => panic!("the deployment should be created"),
    }
}

#[test]
fn code_is_uploaded_first() {
    let deployment = uploading_code(vec![target("a.txt", "https://upload.example.com/a")]);
    match deployment.action() {
        DeployAction::Upload { url, content } => {
            assert_eq!(url, "https://upload.example.com/code");
            assert_eq!(content, b"0123456789".to_vec());
        },
        _ => panic!("the bundle should be uploaded"),
    }
}

#[test]
fn assets_are_uploaded_in_the_remotes_order() {
    let deployment = uploading_code(vec![
        target("b.txt", "https://upload.example.com/b"),
        target("a.txt", "https://upload.example.com/a"),
    ]);
    let (deployment, action) = create_deployment(deployment, DeployEvent::Uploaded);
    match action {
        DeployAction::Upload { url, content } => {
            assert_eq!(url, "https://upload.example.com/b");
            assert_eq!(content, b"bye".to_vec());
        },
        _ => panic!("the first asset should be uploaded"),
    }
    let (deployment, action) = create_deployment(deployment, DeployEvent::Uploaded);
    match action {
        DeployAction::Upload { url, content } => {
            assert_eq!(url, "https://upload.example.com/a");
            assert_eq!(content, b"hello".to_vec());
        },
        _ => panic!("the second asset should be uploaded"),
    }
    let (_, action) = create_deployment(deployment, DeployEvent::Uploaded);
    match action {
        DeployAction::Publish(request) => {
            assert_eq!(request.function_id, "fn-1");
            assert_eq!(request.deployment_id, "dep-1");
            assert!(request.is_production);
        },
        _ => panic!("the deployment should be published"),
    }
}

#[test]
fn without_targets_the_deployment_is_published_after_the_code() {
    let deployment = uploading_code(vec![]);
    let (_, action) = create_deployment(deployment, DeployEvent::Uploaded);
    assert!(matches!(action, DeployAction::Publish(_)));
}

#[test]
fn unknown_first_asset_is_a_protocol_mismatch() {
    let deployment = uploading_code(vec![target("ghost.txt", "https://upload.example.com/g")]);
    let (deployment, action) = create_deployment(deployment, DeployEvent::Uploaded);
    assert!(matches!(action, DeployAction::Abort));
    assert_eq!(deploy_failure(deployment), DeployError::ProtocolMismatch("ghost.txt".to_string()));
}

#[test]
fn unknown_later_asset_stops_the_uploads() {
    let deployment = uploading_code(vec![
        target("a.txt", "https://upload.example.com/a"),
        target("ghost.txt", "https://upload.example.com/g"),
        target("b.txt", "https://upload.example.com/b"),
    ]);
    let (deployment, action) = create_deployment(deployment, DeployEvent::Uploaded);
    assert!(matches!(action, DeployAction::Upload { .. }));
    let (deployment, action) = create_deployment(deployment, DeployEvent::Uploaded);
    assert!(matches!(action, DeployAction::Abort));
    let (deployment, action) = create_deployment(deployment, DeployEvent::Uploaded);
    assert!(matches!(action, DeployAction::Abort));
    assert_eq!(deploy_failure(deployment), DeployError::ProtocolMismatch("ghost.txt".to_string()));
}

#[test]
fn failed_upload_aborts_the_rest() {
    let deployment = uploading_code(vec![
        target("a.txt", "https://upload.example.com/a"),
        target("b.txt", "https://upload.example.com/b"),
    ]);
    let deployment = deployment.step(DeployEvent::Uploaded);
    let (deployment, action) = create_deployment(
        deployment,
        DeployEvent::Failed(DeployError::TransportError("reset".to_string())),
    );
    assert!(matches!(action, DeployAction::Abort));
    let (deployment, action) = create_deployment(deployment, DeployEvent::Uploaded);
    assert!(matches!(action, DeployAction::Abort));
    assert_eq!(deploy_failure(deployment), DeployError::TransportError("reset".to_string()));
}

#[test]
fn failed_bundling_fails_the_deployment() {
    let deployment = Deployment::new("fn-1".to_string(), false);
    let (deployment, action) = create_deployment(
        deployment,
        DeployEvent::Failed(DeployError::FunctionTooLarge { limit: 16 }),
    );
    assert!(matches!(action, DeployAction::Abort));
    assert_eq!(deploy_failure(deployment), DeployError::FunctionTooLarge { limit: 16 });
}

#[test]
fn remote_error_on_create_fails_the_deployment() {
    let deployment = Deployment::new("fn-1".to_string(), false);
    let deployment = deployment.step(DeployEvent::Bundled { code: vec![1], assets: AssetSet::new() });
    let deployment = deployment.step(DeployEvent::Failed(DeployError::RemoteError(
        "quota".to_string(),
    )));
    assert_eq!(deploy_failure(deployment), DeployError::RemoteError("quota".to_string()));
}

#[test]
fn deploy_event_out_of_turn_changes_nothing() {
    let deployment = Deployment::new("fn-1".to_string(), false);
    let (deployment, action) = create_deployment(deployment, DeployEvent::Uploaded);
    assert!(matches!(action, DeployAction::Bundle));
    let (_, action) = create_deployment(
        deployment,
        DeployEvent::Published(DeployDeploymentResponse { url: "https://x".to_string() }),
    );
    assert!(matches!(action, DeployAction::Bundle));
}

#[test]
fn finished_deployment_stays_finished() {
    let deployment = uploading_code(vec![]);
    let deployment = deployment.step(DeployEvent::Uploaded);
    let deployment = deployment.step(DeployEvent::Published(DeployDeploymentResponse {
        url: "https://fn-1.example.dev".to_string(),
    }));
    let (deployment, action) = create_deployment(
        deployment,
        DeployEvent::Failed(DeployError::TransportError("late".to_string())),
    );
    match action {
        DeployAction::Finish { url } => assert_eq!(url, "https://fn-1.example.dev"),
        _ => panic!("the deployment should stay finished"),
    }
    assert_eq!(deployment.outcome(), Some(Ok("https://fn-1.example.dev".to_string())));
}

#[test]
fn end_to_end_with_one_asset() {
    let bundle = Bundle::new("index.ts".to_string(), None, "public".to_string(), Limits::standard());
    assert!(matches!(bundle.action(), BundleAction::ProbeTool));
    let bundle = bundle.step(BundleEvent::ToolProbed(ToolProbe::Found));
    let bundle = bundle.step(BundleEvent::Built(BuildOutput {
        success: true,
        code: Some(0),
        stdout: b"0123456789".to_vec(),
        stderr: Some(String::new()),
    }));
    let bundle = bundle.step(BundleEvent::Collected(CollectEvent::Located(true)));
    let bundle = bundle.step(BundleEvent::Collected(CollectEvent::Walked(vec![
        WalkEntry::Other { path: "public".to_string() },
        WalkEntry::File { path: "public/a.txt".to_string(), size: 5 },
    ])));
    match bundle.action() {
        BundleAction::Collect(CollectAction::Read { path }) => assert_eq!(path, "public/a.txt"),
        _ => panic!("the asset should be read"),
    }
    let bundle = bundle.step(BundleEvent::Collected(CollectEvent::AssetRead(b"hello".to_vec())));
    assert!(matches!(bundle.action(), BundleAction::Finish));
    let (code, assets) = bundle.outcome().unwrap().ok().unwrap();

    let mut uploads: Vec<(String, Vec<u8>)> = Vec::new();
    let deployment = Deployment::new("fn-1".to_string(), false);
    assert!(matches!(deployment.action(), DeployAction::Bundle));
    let (deployment, action) = create_deployment(deployment, DeployEvent::Bundled { code, assets });
    match action {
        DeployAction::Create(request) => {
            assert_eq!(request.function_id, "fn-1");
            assert_eq!(request.function_size, 10);
            assert_eq!(request.assets.len(), 1);
            assert_eq!(request.assets[0].name, "a.txt");
            assert_eq!(request.assets[0].size, 5);
        },
        _ => panic!("the deployment should be created"),
    }
    let (mut deployment, mut action) = create_deployment(
        deployment,
        created(vec![target("a.txt", "https://upload.example.com/a")]),
    );
    while let DeployAction::Upload { url, content } = action {
        uploads.push((url, content));
        let next = create_deployment(deployment, DeployEvent::Uploaded);
        deployment = next.0;
        action = next.1;
    }
    assert_eq!(
        uploads,
        vec![
            ("https://upload.example.com/code".to_string(), b"0123456789".to_vec()),
            ("https://upload.example.com/a".to_string(), b"hello".to_vec()),
        ]
    );
    match action {
        DeployAction::Publish(request) => {
            assert_eq!(request.function_id, "fn-1");
            assert_eq!(request.deployment_id, "dep-1");
            assert!(!request.is_production);
        },
        _ => panic!("the deployment should be published"),
    }
    let (deployment, action) = create_deployment(
        deployment,
        DeployEvent::Published(DeployDeploymentResponse { url: "https://fn-1.example.dev".to_string() }),
    );
    match action {
        DeployAction::Finish { url } => assert_eq!(url, "https://fn-1.example.dev"),
        _ => panic!("the deployment should be finished"),
    }
    assert_eq!(deployment.outcome(), Some(Ok("https://fn-1.example.dev".to_string())));
}
