use flutter_assets_tool::configuration::{
    compute_ignore_path_bufs, FlutterAssetsTool, ReadFlutterAssetsToolFileError,
};

fn yaml_error() -> serde_yml::Error {
    #[allow(deprecated)]
    let result = serde_yml::from_str::<Vec<String>>("key: [unclosed");
    result.unwrap_err()
}

#[test]
fn command_line_ignore_paths_win() {
    let config = Ok(FlutterAssetsTool::new(Some(vec!["from_config".to_string()])));
    let result = compute_ignore_path_bufs(config, Some(vec!["from_cli".to_string()])).unwrap();
    assert_eq!(result, vec!["from_cli".to_string()]);
}

#[test]
fn configuration_file_ignore_paths_are_used_without_command_line_ones() {
    let config = Ok(FlutterAssetsTool::new(Some(vec!["assets/fonts/".to_string()])));
    assert_eq!(compute_ignore_path_bufs(config, None).unwrap(), vec!["assets/fonts/".to_string()]);
    let empty_config = Ok(FlutterAssetsTool::new(None));
    assert!(compute_ignore_path_bufs(empty_config, None).unwrap().is_empty());
}

#[test]
fn missing_configuration_file_means_no_ignore_paths() {
    let missing = Err(ReadFlutterAssetsToolFileError::OpenFileError {
        source: std::io::Error::new(std::io::ErrorKind::NotFound, "missing"),
    });
    assert!(compute_ignore_path_bufs(missing, None).unwrap().is_empty());
}

#[test]
fn invalid_configuration_file_is_an_error() {
    let invalid = Err(ReadFlutterAssetsToolFileError::ParseFileError { source: yaml_error() });
    assert!(compute_ignore_path_bufs(invalid, None).is_err());
    let invalid = Err(ReadFlutterAssetsToolFileError::ParseFileError { source: yaml_error() });
    assert!(compute_ignore_path_bufs(invalid, Some(vec![])).unwrap().is_empty());
}

#[test]
fn get_ignore_paths_returns_the_configured_paths() {
    let tool = FlutterAssetsTool::new(Some(vec!["a".to_string(), "b".to_string()]));
    assert_eq!(tool.get_ignore_paths(), Some(vec!["a".to_string(), "b".to_string()]));
    assert_eq!(FlutterAssetsTool::new(None).get_ignore_paths(), None);
}
