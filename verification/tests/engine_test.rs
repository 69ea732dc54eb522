use mm_dlp_core::config::EngineConfig;
use mm_dlp_core::engine::Engine;

#[test]
fn test_uniffi_scaffolding_init() {
    let config = EngineConfig::default();
    assert_eq!(config.max_concurrent_downloads, 4);
    assert_eq!(config.timeout_seconds, 30);
}

#[test]
fn default_user_agent_names_the_engine() {
    assert_eq!(EngineConfig::default().user_agent, "mm-dlp/1.0.0");
}

#[test]
fn engine_keeps_its_configuration() {
    let config = EngineConfig { max_concurrent_downloads: 7, user_agent: "ua".to_string(), timeout_seconds: 9 };
    let engine = Engine::new(config);
    assert_eq!(engine.config().max_concurrent_downloads, 7);
    assert_eq!(engine.config().user_agent, "ua");
    assert_eq!(engine.config().timeout_seconds, 9);
}
