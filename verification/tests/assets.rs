use lagon_deploy::assets::AssetSet;
use lagon_deploy::collect::{
    collect, AssetCollector, CollectAction, CollectEvent, CollectPhase, WalkEntry,
};
use lagon_deploy::error::DeployError;
use lagon_deploy::limits::{
    Limits, MAX_ASSETS_PER_FUNCTION, MAX_ASSET_SIZE_MB, MAX_FUNCTION_SIZE_MB,
};

fn file(path: &str, size: u64) -> WalkEntry {
    WalkEntry::File { path: path.to_string(), size }
}

fn dir(path: &str) -> WalkEntry {
    WalkEntry::Other { path: path.to_string() }
}

fn failure(collector: AssetCollector) -> DeployError {
    match collector.outcome() {
        Some(Err(error)) => error,
        _ => panic!("the collection should have failed"),
    }
}

fn walking(root: &str, limits: Limits) -> AssetCollector {
    let collector = AssetCollector::new(root.to_string(), limits, AssetSet::new());
    collector.step(CollectEvent::Located(true))
}

#[test]
fn standard_limits_are_the_constants() {
    let limits = Limits::standard();
    assert_eq!(limits.max_function_size, MAX_FUNCTION_SIZE_MB);
    assert_eq!(limits.max_asset_size, MAX_ASSET_SIZE_MB);
    assert_eq!(limits.max_assets, MAX_ASSETS_PER_FUNCTION);
    assert_eq!(MAX_FUNCTION_SIZE_MB, 10 * 1024 * 1024);
    assert_eq!(MAX_ASSET_SIZE_MB, 10 * 1024 * 1024);
    assert_eq!(MAX_ASSETS_PER_FUNCTION, 100);
}

#[test]
fn new_asset_set_is_empty() {
    let assets = AssetSet::new();
    assert_eq!(assets.len(), 0);
    assert!(!assets.contains("a.txt"));
    assert!(assets.get("a.txt").is_none());
    assert!(assets.manifest().is_empty());
}

#[test]
fn insert_then_get_returns_the_content() {
    let mut assets = AssetSet::new();
    assets.insert("a.txt".to_string(), vec![1, 2, 3]);
    assets.insert("b/c.png".to_string(), vec![]);
    assert_eq!(assets.len(), 2);
    assert_eq!(assets.get("a.txt"), Some(&vec![1, 2, 3]));
    assert_eq!(assets.get("b/c.png"), Some(&vec![]));
    assert!(assets.contains("b/c.png"));
    assert!(!assets.contains("c.png"));
}

#[test]
fn insert_under_a_known_name_replaces_the_content() {
    let mut assets = AssetSet::new();
    assets.insert("a.txt".to_string(), vec![1]);
    assets.insert("b.txt".to_string(), vec![2]);
    assets.insert("a.txt".to_string(), vec![9, 9]);
    assert_eq!(assets.len(), 2);
    assert_eq!(assets.get("a.txt"), Some(&vec![9, 9]));
    let manifest = assets.manifest();
    assert_eq!(manifest.len(), 2);
    assert_eq!(manifest[0].name, "a.txt");
    assert_eq!(manifest[0].size, 2);
    assert_eq!(manifest[1].name, "b.txt");
    assert_eq!(manifest[1].size, 1);
}

#[test]
fn collector_starts_by_locating_the_root() {
    let collector = AssetCollector::new("public".to_string(), Limits::standard(), AssetSet::new());
    assert_eq!(collector.current_phase(), CollectPhase::Locating);
    match collector.action() {
        CollectAction::Locate { dir } => assert_eq!(dir, "public"),
        _ => panic!("the collector should ask where the root is"),
    }
}

#[test]
fn missing_root_gives_an_empty_set() {
    let collector = AssetCollector::new("public".to_string(), Limits::standard(), AssetSet::new());
    let (collector, action) = collect(collector, CollectEvent::Located(false));
    assert!(matches!(action, CollectAction::Finish));
    assert_eq!(collector.current_phase(), CollectPhase::Done);
    let assets = collector.outcome().unwrap().unwrap();
    assert_eq!(assets.len(), 0);
}

#[test]
fn missing_root_keeps_the_base() {
    let mut base = AssetSet::new();
    base.insert("client.js".to_string(), vec![7]);
    let collector = AssetCollector::new("public".to_string(), Limits::standard(), base);
    let collector = collector.step(CollectEvent::Located(false));
    let assets = collector.outcome().unwrap().unwrap();
    assert_eq!(assets.len(), 1);
    assert_eq!(assets.get("client.js"), Some(&vec![7]));
}

#[test]
fn located_root_is_walked() {
    let collector = walking("public", Limits::standard());
    assert_eq!(collector.current_phase(), CollectPhase::Walking);
    match collector.action() {
        CollectAction::Walk { dir } => assert_eq!(dir, "public"),
        _ => panic!("the collector should ask for a walk"),
    }
    assert!(collector.outcome().is_none());
}

#[test]
fn files_are_keyed_by_their_relative_path() {
    let entries = vec![
        dir("public"),
        file("public/a.txt", 5),
        dir("public/img"),
        file("public/img/logo.png", 3),
    ];
    let collector = walking("public", Limits::standard());
    let (collector, action) = collect(collector, CollectEvent::Walked(entries));
    match action {
        CollectAction::Read { path } => assert_eq!(path, "public/a.txt"),
        _ => panic!("the first file should be asked for"),
    }
    let (collector, action) = collect(collector, CollectEvent::AssetRead(b"hello".to_vec()));
    match action {
        CollectAction::Read { path } => assert_eq!(path, "public/img/logo.png"),
        _ => panic!("the second file should be asked for"),
    }
    let (collector, action) = collect(collector, CollectEvent::AssetRead(vec![1, 2, 3]));
    assert!(matches!(action, CollectAction::Finish));
    let assets = collector.outcome().unwrap().unwrap();
    assert_eq!(assets.len(), 2);
    assert_eq!(assets.get("a.txt"), Some(&b"hello".to_vec()));
    assert_eq!(assets.get("img/logo.png"), Some(&vec![1, 2, 3]));
    assert!(assets.get("public/a.txt").is_none());
}

#[test]
fn directory_without_files_gives_an_empty_set() {
    let collector = walking("public", Limits::standard());
    let (collector, action) = collect(
        collector,
        CollectEvent::Walked(vec![dir("public"), dir("public/empty")]),
    );
    assert!(matches!(action, CollectAction::Finish));
    assert_eq!(collector.outcome().unwrap().unwrap().len(), 0);
}

#[test]
fn entry_count_at_the_limit_is_refused() {
    let limits = Limits { max_function_size: 100, max_asset_size: 100, max_assets: 3 };
    let entries = vec![dir("public"), file("public/a", 1), file("public/b", 1)];
    let collector = walking("public", limits);
    let (collector, action) = collect(collector, CollectEvent::Walked(entries));
    assert!(matches!(action, CollectAction::Abort));
    assert_eq!(failure(collector), DeployError::TooManyAssets { limit: 3 });
}

#[test]
fn entry_count_below_the_limit_is_accepted() {
    let limits = Limits { max_function_size: 100, max_asset_size: 100, max_assets: 3 };
    let entries = vec![dir("public"), file("public/a", 1)];
    let collector = walking("public", limits);
    let (_, action) = collect(collector, CollectEvent::Walked(entries));
    assert!(matches!(action, CollectAction::Read { .. }));
}

#[test]
fn subdirectories_count_towards_the_limit() {
    let limits = Limits { max_function_size: 100, max_asset_size: 100, max_assets: 3 };
    let entries = vec![dir("public"), dir("public/x"), dir("public/y")];
    let collector = walking("public", limits);
    let collector = collector.step(CollectEvent::Walked(entries));
    assert_eq!(failure(collector), DeployError::TooManyAssets { limit: 3 });
}

#[test]
fn file_at_the_size_limit_is_refused() {
    let limits = Limits { max_function_size: 100, max_asset_size: 5, max_assets: 10 };
    let entries = vec![dir("public"), file("public/a.txt", 4), file("public/big.bin", 5)];
    let collector = walking("public", limits);
    let collector = collector.step(CollectEvent::Walked(entries));
    let (collector, action) = collect(collector, CollectEvent::AssetRead(vec![0; 4]));
    assert!(matches!(action, CollectAction::Abort));
    assert_eq!(failure(collector), DeployError::AssetTooLarge { path: "public/big.bin".to_string(), max_size: 5 });
}

#[test]
fn unreadable_entry_fails_the_collection() {
    let entries = vec![dir("public"), WalkEntry::Unreadable { reason: "denied".to_string() }];
    let collector = walking("public", Limits::standard());
    let collector = collector.step(CollectEvent::Walked(entries));
    assert_eq!(failure(collector), DeployError::Io("denied".to_string()));
}

#[test]
fn file_without_a_relative_name_is_refused() {
    let entries = vec![file("relative/a.txt", 1)];
    let collector = walking("/absolute/root", Limits::standard());
    let collector = collector.step(CollectEvent::Walked(entries));
    assert_eq!(failure(collector), DeployError::InvalidPath("relative/a.txt".to_string()));
}

#[test]
fn failed_read_is_kept_as_it_came() {
    let entries = vec![file("public/a.txt", 1)];
    let collector = walking("public", Limits::standard());
    let collector = collector.step(CollectEvent::Walked(entries));
    let (collector, action) = collect(
        collector,
        CollectEvent::Failed(DeployError::Io("gone".to_string())),
    );
    assert!(matches!(action, CollectAction::Abort));
    assert_eq!(failure(collector), DeployError::Io("gone".to_string()));
}

#[test]
fn unexpected_event_changes_nothing() {
    let collector = AssetCollector::new("public".to_string(), Limits::standard(), AssetSet::new());
    let (collector, action) = collect(collector, CollectEvent::AssetRead(vec![1]));
    assert_eq!(collector.current_phase(), CollectPhase::Locating);
    assert!(matches!(action, CollectAction::Locate { .. }));
    let (collector, _) = collect(collector, CollectEvent::Located(false));
    let (collector, action) = collect(collector, CollectEvent::Walked(vec![file("public/a", 1)]));
    assert!(matches!(action, CollectAction::Finish));
    assert_eq!(collector.outcome().unwrap().unwrap().len(), 0);
}

#[test]
fn later_file_of_the_same_name_wins() {
    let entries = vec![file("public/a.txt", 1), file("public/./a.txt", 1)];
    let collector = walking("public", Limits::standard());
    let collector = collector.step(CollectEvent::Walked(entries));
    let collector = collector.step(CollectEvent::AssetRead(vec![1]));
    let collector = collector.step(CollectEvent::AssetRead(vec![2]));
    let assets = collector.outcome().unwrap().unwrap();
    assert_eq!(assets.len(), 1);
    assert_eq!(assets.get("a.txt"), Some(&vec![2]));
}
