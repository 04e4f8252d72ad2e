use flutter_assets_tool::dart_project_relocator::{
    get_flutter_project_path, relocate_dart_project, MainError, RelocateDartProjectError,
};
use flutter_assets_tool::flutter::get_flutter_project_lib_path;

#[test]
fn relocate_dart_project_walks_up_to_the_root_and_gives_up() {
    let result = relocate_dart_project("/nonexistent-dir-for-flutter-tests/a/b".to_string());
    assert!(matches!(result, Err(RelocateDartProjectError::DartProjectNotFound)));
}

#[test]
fn get_flutter_project_path_reports_the_estimate_when_nothing_is_found() {
    let result = get_flutter_project_path(
        Some("/nonexistent-dir-for-flutter-tests/project".to_string()),
        Ok("/ignored".to_string()),
    );
    match result {
        Err(MainError::DartProjectNotFound { path }) => {
            assert_eq!(path, "/nonexistent-dir-for-flutter-tests/project")
        }
        other => panic!("unexpected result, ok: {}", other.is_ok()),
    }
}

#[test]
fn get_flutter_project_path_uses_the_current_directory_for_dot() {
    let failing = || Err(std::io::Error::new(std::io::ErrorKind::Other, "no cwd"));
    assert!(matches!(
        get_flutter_project_path(Some(".".to_string()), failing()),
        Err(MainError::GetCurrentDirError { .. })
    ));
    assert!(matches!(
        get_flutter_project_path(None, failing()),
        Err(MainError::GetCurrentDirError { .. })
    ));
    match get_flutter_project_path(None, Ok("/nonexistent-dir-for-flutter-tests/cwd".to_string())) {
        Err(MainError::DartProjectNotFound { path }) => {
            assert_eq!(path, "/nonexistent-dir-for-flutter-tests/cwd")
        }
        other => panic!("unexpected result, ok: {}", other.is_ok()),
    }
}

#[test]
fn lib_path_is_the_lib_directory_of_the_project() {
    assert_eq!(get_flutter_project_lib_path("/p/dummy"), "/p/dummy/lib");
    assert_eq!(get_flutter_project_lib_path("/p/dummy/"), "/p/dummy/lib");
}
