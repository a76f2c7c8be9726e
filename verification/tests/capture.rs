use groove_tui::audio::{CaptureConfig, DEFAULT_BUFFER_SIZE};

#[test]
fn test_default_config() {
    let config = CaptureConfig::default();
    assert_eq!(config.buffer_size, DEFAULT_BUFFER_SIZE);
}
