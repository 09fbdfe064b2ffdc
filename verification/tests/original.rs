use ttd::engine_info::EngineInfo;
use ttd::replay::ReplayEngine;

#[test]
fn test_system_info() {
    let engine = ReplayEngine::new().expect("failed to create a new replayer");

    let info = engine.system_info().unwrap();
    assert_eq!(info.system_name.len(), 64);
    assert_eq!(info.user_name.len(), 64);

    assert!(!info.system_name().unwrap().is_empty());
    assert!(!info.user_name().unwrap().is_empty());
}

#[test]
fn test_version() {
    let info = EngineInfo::new();
    assert_eq!((info.major, info.minor, info.patch), (0, 1, 0));
    assert_ne!(info.license.len(), 0);
    assert_ne!(info.author.len(), 0);
    assert_ne!(info.banner.len(), 0);
    assert_ne!(info.name.len(), 0);
}
