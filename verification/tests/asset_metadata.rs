use flutter_assets_tool::asset_metadata::{
    parse_pubspec_yaml_assets, AssetMetadata, AssetMetadataError, DirectoryEntry,
};
use flutter_assets_tool::flutter::FlutterGenAssetsOutputsStyle;
use flutter_assets_tool::paths::path_join;

#[test]
fn compute_dart_usage_syntax_passes_when_requesting_snake_case() {
    // Arrange
    let located_directory = String::from("assets/images");
    let asset_path = path_join(&located_directory, "image_1.png");
    let asset_metadata = AssetMetadata::new(asset_path, located_directory);

    // Act
    let usage_syntax = asset_metadata
        .compute_dart_usage_syntax(&FlutterGenAssetsOutputsStyle::SnakeCase)
        .unwrap();

    // Assert
    assert_eq!(usage_syntax, "images_image_1");
}

#[test]
fn compute_dart_usage_syntax_passes_when_requesting_camel_case() {
    let located_directory = String::from("assets/images");
    let asset_path = path_join(&located_directory, "image_1.png");
    let asset_metadata = AssetMetadata::new(asset_path, located_directory);

    let usage_syntax = asset_metadata
        .compute_dart_usage_syntax(&FlutterGenAssetsOutputsStyle::CamelCase)
        .unwrap();

    assert_eq!(usage_syntax, "imagesImage1");
}

#[test]
fn compute_dart_usage_syntax_passes_when_requesting_dot_delimited() {
    let located_directory = String::from("assets/images");
    let asset_path = path_join(&located_directory, "image_1.png");
    let asset_metadata = AssetMetadata::new(asset_path, located_directory);

    let usage_syntax = asset_metadata
        .compute_dart_usage_syntax(&FlutterGenAssetsOutputsStyle::DotDelimited)
        .unwrap();

    assert_eq!(usage_syntax, "images.image1");
}

#[test]
fn compute_dart_usage_syntax_passes_when_asset_is_placed_under_assets_root_directory() {
    let located_directory = String::from("assets");
    let asset_path = path_join(&located_directory, "image_1.png");
    let asset_metadata = AssetMetadata::new(asset_path, located_directory);

    let usage_syntax = asset_metadata
        .compute_dart_usage_syntax(&FlutterGenAssetsOutputsStyle::SnakeCase)
        .unwrap();

    assert_eq!(usage_syntax, "image_1");
}

#[test]
fn compute_dart_usage_syntax_under_assets_root_in_camel_and_dot_styles() {
    let asset_metadata =
        AssetMetadata::new("assets/coming_soon_1.png".to_string(), "assets/".to_string());
    assert_eq!(
        asset_metadata
            .compute_dart_usage_syntax(&FlutterGenAssetsOutputsStyle::CamelCase)
            .unwrap(),
        "comingSoon1"
    );
    assert_eq!(
        asset_metadata
            .compute_dart_usage_syntax(&FlutterGenAssetsOutputsStyle::DotDelimited)
            .unwrap(),
        "comingSoon1"
    );
}

#[test]
fn compute_dart_usage_syntax_keeps_nested_directories() {
    let asset_metadata = AssetMetadata::new(
        "/project/assets/images/icons/arrow_left.svg".to_string(),
        "assets/images/icons/".to_string(),
    );
    assert_eq!(
        asset_metadata
            .compute_dart_usage_syntax(&FlutterGenAssetsOutputsStyle::SnakeCase)
            .unwrap(),
        "images_icons_arrow_left"
    );
    assert_eq!(
        asset_metadata
            .compute_dart_usage_syntax(&FlutterGenAssetsOutputsStyle::CamelCase)
            .unwrap(),
        "imagesIconsArrowLeft"
    );
    assert_eq!(
        asset_metadata
            .compute_dart_usage_syntax(&FlutterGenAssetsOutputsStyle::DotDelimited)
            .unwrap(),
        "images.icons.arrowLeft"
    );
}

#[test]
fn compute_dart_usage_syntax_fails_without_file_name() {
    let asset_metadata = AssetMetadata::new("assets/..".to_string(), "assets".to_string());
    match asset_metadata.compute_dart_usage_syntax(&FlutterGenAssetsOutputsStyle::SnakeCase) {
        Err(AssetMetadataError::RetrieveFileStemError { path }) => assert_eq!(path, "assets/.."),
        Ok(syntax) => panic!("unexpected syntax {syntax}"),
    }
}

#[test]
fn asset_metadata_getters_return_what_new_was_given() {
    let asset_metadata =
        AssetMetadata::new("p/assets/a.png".to_string(), "assets/".to_string());
    assert_eq!(asset_metadata.get_asset_path(), "p/assets/a.png");
    assert_eq!(asset_metadata.get_located_directory(), "assets/");
    assert_eq!(asset_metadata.clone(), asset_metadata);
}

fn entry(file_name: &str, is_file: bool) -> DirectoryEntry {
    DirectoryEntry { file_name: file_name.to_string(), is_file }
}

#[test]
fn parse_pubspec_yaml_assets_keeps_files_other_than_ds_store() {
    let assets = vec!["assets/images/".to_string(), "assets/fonts".to_string()];
    let listings = vec![
        vec![
            entry("coming_soon_1.png", true),
            entry(".DS_Store", true),
            entry("nested", false),
            entry("coming_soon1.png", true),
        ],
        vec![entry("Poppins-Bold-700.ttf", true)],
    ];

    let result = parse_pubspec_yaml_assets("/tmp/dummy", &assets, &listings);

    assert_eq!(
        result,
        vec![
            AssetMetadata::new(
                "/tmp/dummy/assets/images/coming_soon_1.png".to_string(),
                "assets/images/".to_string()
            ),
            AssetMetadata::new(
                "/tmp/dummy/assets/images/coming_soon1.png".to_string(),
                "assets/images/".to_string()
            ),
            AssetMetadata::new(
                "/tmp/dummy/assets/fonts/Poppins-Bold-700.ttf".to_string(),
                "assets/fonts".to_string()
            ),
        ]
    );
}

#[test]
fn parse_pubspec_yaml_assets_of_no_directories_is_empty() {
    let result = parse_pubspec_yaml_assets("/tmp/dummy", &vec![], &vec![]);
    assert!(result.is_empty());
}

#[test]
fn asset_metadata_equality_compares_paths_by_components() {
    let a = AssetMetadata::new("p/assets/a.png".to_string(), "assets/".to_string());
    let b = AssetMetadata::new("p//assets/a.png".to_string(), "assets".to_string());
    let c = AssetMetadata::new("p/assets/b.png".to_string(), "assets".to_string());
    assert_eq!(a, b);
    assert_ne!(a, c);
}

#[test]
fn parse_pubspec_yaml_assets_can_work() {
    // Arrange: the listings of the sample project's asset directories.
    let flutter_project_path = "/tmp/artifacts/dummy";
    let assets = vec!["assets/images/".to_string(), "assets/fonts/".to_string()];
    let listings = vec![
        vec![
            entry("coming_soon_1.png", true),
            entry("coming_soon1.png", true),
            entry("coming_soon_ignored.png", true),
        ],
        vec![
            entry("Poppins-Bold-700.ttf", true),
            entry("Poppins-Medium-500.ttf", true),
            entry("Poppins-Regular-400.ttf", true),
            entry("Poppins-SemiBold-600.ttf", true),
        ],
    ];

    // Act
    let mut result = parse_pubspec_yaml_assets(flutter_project_path, &assets, &listings);

    // Assert
    let assets_images_directory = "assets/images/";
    let assets_fonts_directory = "assets/fonts/";
    let asset = |directory: &str, file: &str| {
        AssetMetadata::new(
            path_join(&path_join(flutter_project_path, directory), file),
            directory.to_string(),
        )
    };
    let mut expected_result = vec![
        asset(assets_fonts_directory, "Poppins-Bold-700.ttf"),
        asset(assets_fonts_directory, "Poppins-Medium-500.ttf"),
        asset(assets_fonts_directory, "Poppins-Regular-400.ttf"),
        asset(assets_fonts_directory, "Poppins-SemiBold-600.ttf"),
        asset(assets_images_directory, "coming_soon_1.png"),
        asset(assets_images_directory, "coming_soon1.png"),
        asset(assets_images_directory, "coming_soon_ignored.png"),
    ];
    result.sort_by_key(|asset_metadata| asset_metadata.get_asset_path().to_string());
    expected_result.sort_by_key(|asset_metadata| asset_metadata.get_asset_path().to_string());
    assert_eq!(result, expected_result);
}
