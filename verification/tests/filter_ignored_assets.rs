use flutter_assets_tool::asset_metadata::AssetMetadata;
use flutter_assets_tool::filter_ignored_assets::{filter_ignored_assets, filter_ignored_assets_with};

fn assets() -> Vec<AssetMetadata> {
    vec![
        AssetMetadata::new("/p/assets/fonts/Poppins-Bold-700.ttf".to_string(), "assets/fonts/".to_string()),
        AssetMetadata::new("/p/assets/images/coming_soon_1.png".to_string(), "assets/images/".to_string()),
        AssetMetadata::new("/p/assets/images/coming_soon1.png".to_string(), "assets/images/".to_string()),
        AssetMetadata::new(
            "/p/assets/images/coming_soon_ignored.png".to_string(),
            "assets/images/".to_string(),
        ),
    ]
}

#[test]
fn filter_ignored_assets_with_drops_directories_and_files() {
    let result = filter_ignored_assets_with(
        "/p",
        assets(),
        &vec!["assets/fonts".to_string(), "assets/images/coming_soon_ignored.png".to_string()],
        &vec![false, true],
    );
    assert_eq!(result, assets()[1..3].to_vec());
}

#[test]
fn filter_ignored_assets_with_compares_paths_by_components() {
    let result = filter_ignored_assets_with(
        "/p/",
        assets(),
        &vec!["assets//images".to_string()],
        &vec![false],
    );
    assert_eq!(result, assets()[0..1].to_vec());
    let result = filter_ignored_assets_with(
        "/p/",
        assets(),
        &vec!["assets/fonts/./Poppins-Bold-700.ttf".to_string()],
        &vec![true],
    );
    assert_eq!(result, assets()[1..4].to_vec());
    // A leading `.` component makes a different path, as for `std::path::Path`.
    let result = filter_ignored_assets_with("/p", assets(), &vec!["./assets/images".to_string()], &vec![false]);
    assert_eq!(result, assets());
}

#[test]
fn filter_ignored_assets_with_no_ignore_paths_keeps_everything() {
    assert_eq!(filter_ignored_assets_with("/p", assets(), &vec![], &vec![]), assets());
}

#[test]
fn filter_ignored_assets_drops_the_declared_directory_when_no_file_exists() {
    let result = filter_ignored_assets(
        "/nonexistent-flutter-project-for-tests",
        vec![AssetMetadata::new(
            "/nonexistent-flutter-project-for-tests/assets/images/a.png".to_string(),
            "assets/images/".to_string(),
        )],
        vec!["assets/images/".to_string()],
    );
    assert!(result.is_empty());
}

#[test]
fn filtering_twice_changes_nothing() {
    let ignores = vec!["assets/fonts/".to_string()];
    let once = filter_ignored_assets_with("/p", assets(), &ignores, &vec![false]);
    let twice = filter_ignored_assets_with("/p", once.clone(), &ignores, &vec![false]);
    assert_eq!(once, twice);
}

#[test]
fn filter_ignored_assets_works() {
    // Arrange: the assets of the sample project.
    let flutter_project_path = "/tmp/artifacts/dummy";
    let asset = |directory: &str, file: &str| {
        AssetMetadata::new(format!("{flutter_project_path}/{directory}{file}"), directory.to_string())
    };
    let asset_metadatum = vec![
        asset("assets/fonts/", "Poppins-Bold-700.ttf"),
        asset("assets/fonts/", "Poppins-Medium-500.ttf"),
        asset("assets/images/", "coming_soon_1.png"),
        asset("assets/images/", "coming_soon1.png"),
        asset("assets/images/", "coming_soon_ignored.png"),
    ];

    // Act: the second ignore path names a file of the project.
    let result = filter_ignored_assets_with(
        flutter_project_path,
        asset_metadatum,
        &vec!["assets/fonts/".to_string(), "assets/images/coming_soon_ignored.png".to_string()],
        &vec![false, true],
    );

    // Assert
    assert_eq!(
        result,
        vec![asset("assets/images/", "coming_soon_1.png"), asset("assets/images/", "coming_soon1.png")]
    );
}
