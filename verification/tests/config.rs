use yt_dlp_wrapper::config::{temporary_file_name, AppConfig};

#[test]
fn settings_start_without_an_output_folder() {
    let config = AppConfig::default();
    assert_eq!(config.output_directory, None);
    let changed = config.with_output_directory("D:/Media".to_owned());
    assert_eq!(changed.output_directory.as_deref(), Some("D:/Media"));
}

#[test]
fn temporary_names_are_hidden_and_fresh() {
    let first = temporary_file_name("config.json");
    let second = temporary_file_name("config.json");
    assert!(first.starts_with(".config.json."));
    assert!(first.ends_with(".tmp"));
    assert_eq!(first.len(), ".config.json.".len() + 36 + ".tmp".len());
    assert_ne!(first, second);
}
