use flutter_assets_tool::asset_metadata::{AssetMetadata, AssetMetadataError};
use flutter_assets_tool::asset_usage::{
    compute_asset_usage_pattern, compute_asset_usage_regex_set_group, find_asset_usages,
    get_asset_usage_regex, ComputeAssetUsageRegexSetError, ASSETS_PREFIXED_ASSET_USAGE_REGEX,
};
use flutter_assets_tool::flutter::FlutterGenAssetsOutputsStyle;
use flutter_assets_tool::paths::path_join;

#[test]
fn asset_usage_regex_can_work() {
    // Arrange
    let image_1 = "image_1";
    let image_2 = "image_2";
    let image_3 = "image_3";
    let code = format!(
        "
            final List<String> images = [
                R.{image_1}.path,
                R
                    .{image_2}.path,
                R.
                    {image_3}.path,
            ];
        "
    )
    .to_string();

    // Act
    let matches: Vec<String> = find_asset_usages(&get_asset_usage_regex("R"), code.as_str()).unwrap();

    // Assert
    assert_eq!(matches.len(), 3);

    assert_eq!(matches, vec![image_1, image_2, image_3]);
}

#[test]
fn assets_prefixed_asset_usage_regex_can_work() {
    // Arrange
    let image_1 = "image_1";
    let image_2 = "image_2";
    let image_3 = "image_3";
    let code = format!(
        "
            final List<String> images = [
                R.assets_{image_1},
                R
                    .assets_{image_2},
                R.
                    assets_{image_3},
            ];
        "
    )
    .to_string();

    // Act
    let matches: Vec<String> =
        find_asset_usages(ASSETS_PREFIXED_ASSET_USAGE_REGEX, code.as_str()).unwrap();

    // Assert
    assert_eq!(matches.len(), 3);

    assert_eq!(matches, vec![image_1, image_2, image_3]);
}

#[test]
fn compute_asset_usage_regex_set_can_work() {
    // Arrange
    let located_directory = String::from("assets/images");
    let asset_metadata_1 =
        AssetMetadata::new(path_join(&located_directory, "image_1.png"), located_directory.clone());
    let asset_metadata_2 =
        AssetMetadata::new(path_join(&located_directory, "image_2.png"), located_directory.clone());
    let asset_metadata_3 =
        AssetMetadata::new(path_join(&located_directory, "image_3.png"), located_directory.clone());
    let asset_metadatum = vec![
        asset_metadata_1.to_owned(),
        asset_metadata_2.to_owned(),
        asset_metadata_3.to_owned(),
    ];
    let image_1_usage_syntax = asset_metadata_1
        .compute_dart_usage_syntax(&FlutterGenAssetsOutputsStyle::DotDelimited)
        .unwrap();
    let image_2_usage_syntax = asset_metadata_2
        .compute_dart_usage_syntax(&FlutterGenAssetsOutputsStyle::DotDelimited)
        .unwrap();
    let image_3_usage_syntax = asset_metadata_3
        .compute_dart_usage_syntax(&FlutterGenAssetsOutputsStyle::DotDelimited)
        .unwrap();
    let code = format!(
        "
            final List<String> images = [
                R.{image_1}.path,
                R
                    .{image_2}.path,
                R.
                    {image_3}.path,
            ];
",
        image_1 = image_1_usage_syntax,
        image_2 = image_2_usage_syntax,
        image_3 = image_3_usage_syntax,
    );

    // Act
    let regex_set_group = compute_asset_usage_regex_set_group(
        "R",
        &asset_metadatum,
        FlutterGenAssetsOutputsStyle::DotDelimited,
    )
    .unwrap();
    let regexes = regex_set_group.regexes().clone();
    let matches = regexes
        .into_iter()
        .map(|(regex, asset_usage_asset_name)| {
            if regex::Regex::new(&regex).unwrap().is_match(code.as_str()) {
                Some(asset_usage_asset_name)
            } else {
                None
            }
        })
        .collect::<Vec<_>>();

    // Assert
    assert_eq!(
        regex::RegexSet::new(regex_set_group.regex_set())
            .unwrap()
            .matches(code.as_str())
            .len(),
        3
    );
    assert_eq! {
        matches,
        vec![
            Some(asset_metadata_1),
            Some(asset_metadata_2),
            Some(asset_metadata_3),
        ]
    };
}

#[test]
fn compute_asset_usage_pattern_tolerates_whitespace_around_every_dot() {
    assert_eq!(
        compute_asset_usage_pattern("R", "images.image1"),
        r#"R(\s*)\.(\s*)images(\s*)\.(\s*)image1(\s*)\.(\s*)path"#
    );
}

#[test]
fn get_asset_usage_regex_appends_the_accessor_suffix() {
    assert_eq!(get_asset_usage_regex("Assets"), r#"Assets(\s*)\.(\s*)(?<assetPath>\w+)\.path"#);
}

#[test]
fn find_asset_usages_fails_on_an_invalid_pattern() {
    assert!(find_asset_usages(&get_asset_usage_regex("R("), "R.x.path").is_err());
}

#[test]
fn compute_asset_usage_regex_set_group_reports_the_first_asset_without_name() {
    let assets = vec![
        AssetMetadata::new("assets/a.png".to_string(), "assets".to_string()),
        AssetMetadata::new("assets/..".to_string(), "assets".to_string()),
    ];
    match compute_asset_usage_regex_set_group("R", &assets, FlutterGenAssetsOutputsStyle::SnakeCase) {
        Err(ComputeAssetUsageRegexSetError::AssetMetadataError(
            AssetMetadataError::RetrieveFileStemError { path },
        )) => assert_eq!(path, "assets/.."),
        other => panic!("unexpected {other:?}", other = other.is_ok()),
    }
}

#[test]
fn compute_asset_usage_regex_set_group_reports_an_invalid_pattern() {
    let assets = vec![AssetMetadata::new("assets/a.png".to_string(), "assets".to_string())];
    let result = compute_asset_usage_regex_set_group("R(", &assets, FlutterGenAssetsOutputsStyle::SnakeCase);
    assert!(matches!(result, Err(ComputeAssetUsageRegexSetError::RegexSetError(_))));
}

#[test]
fn compute_asset_usage_regex_set_group_of_no_assets_is_empty() {
    let group =
        compute_asset_usage_regex_set_group("R", &vec![], FlutterGenAssetsOutputsStyle::SnakeCase)
            .unwrap();
    assert!(group.regexes().is_empty());
    assert!(group.regex_set().is_empty());
}
