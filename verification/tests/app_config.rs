use scene_render::app_config::AppConfig;

#[test]
fn standard_config_runs_without_end_and_resets() {
    let config = AppConfig::new();
    assert_eq!(config.num_frames, None);
    assert_eq!(config.passed_frames, 0);
    assert!(config.reset_on_start);
}

#[test]
fn builders_change_one_setting_each() {
    let config = AppConfig::new().frames(Some(60)).reset_when_run(false);
    assert_eq!(config.num_frames, Some(60));
    assert_eq!(config.passed_frames, 0);
    assert!(!config.reset_on_start);
    let config = config.frames(None);
    assert_eq!(config.num_frames, None);
    assert!(!config.reset_on_start);
    let config = config.reset_when_run(true);
    assert!(config.reset_on_start);
}
