use flutter_assets_tool::asset_metadata::{AssetMetadata, DirectoryEntry};
use flutter_assets_tool::find_unused_assets::find_unused_assets;
use flutter_assets_tool::flutter::{
    Flutter, FlutterGen, FlutterGenAssets, FlutterGenAssetsOutputs, FlutterGenAssetsOutputsStyle,
    PubspecYaml,
};
use flutter_assets_tool::asset_metadata::AssetMetadataError;
use flutter_assets_tool::asset_usage::ComputeAssetUsageRegexSetError;
use flutter_assets_tool::migrate::{
    migrate_contents, migrate_flutter_gen_style, migration_regex_set_group,
};

fn pubspec(class_name: &str, style: FlutterGenAssetsOutputsStyle) -> PubspecYaml {
    PubspecYaml {
        name: "dummy".to_string(),
        flutter: Flutter { assets: vec!["assets/images/".to_string(), "assets/fonts/".to_string()] },
        flutter_gen: FlutterGen {
            assets: FlutterGenAssets {
                outputs: FlutterGenAssetsOutputs { style, class_name: class_name.to_string() },
            },
        },
    }
}

fn entry(file_name: &str) -> DirectoryEntry {
    DirectoryEntry { file_name: file_name.to_string(), is_file: true }
}

fn listings() -> Vec<Vec<DirectoryEntry>> {
    vec![
        vec![entry("coming_soon_1.png"), entry("coming_soon1.png"), entry("coming_soon_ignored.png")],
        vec![entry("Poppins-Bold-700.ttf")],
    ]
}

#[test]
fn find_unused_assets_reports_what_no_file_uses() {
    let contents = vec![
        "Image.asset(R.images_coming_soon_1.path)".to_string(),
        "final x = R\n  .images_coming_soon1.path;".to_string(),
    ];
    let unused = find_unused_assets(
        "/nonexistent-project-for-tests",
        &pubspec("R", FlutterGenAssetsOutputsStyle::SnakeCase),
        &listings(),
        vec!["assets/fonts/".to_string()],
        &contents,
    )
    .unwrap();
    assert_eq!(
        unused,
        vec![AssetMetadata::new(
            "/nonexistent-project-for-tests/assets/images/coming_soon_ignored.png".to_string(),
            "assets/images/".to_string(),
        )]
    );
}

#[test]
fn find_unused_assets_without_dart_files_reports_every_asset() {
    let unused = find_unused_assets(
        "/nonexistent-project-for-tests",
        &pubspec("R(", FlutterGenAssetsOutputsStyle::SnakeCase),
        &listings(),
        vec![],
        &vec![],
    )
    .unwrap();
    assert_eq!(unused.len(), 4);
}

#[test]
fn find_unused_assets_fails_on_an_invalid_class_name() {
    let result = find_unused_assets(
        "/nonexistent-project-for-tests",
        &pubspec("R(", FlutterGenAssetsOutputsStyle::SnakeCase),
        &listings(),
        vec![],
        &vec!["R(.x.path".to_string()],
    );
    assert!(result.is_err());
}

#[test]
fn migrate_flutter_gen_style_rewrites_each_file() {
    let contents = vec![
        "Image.asset(R.imagesComingSoon1.path)".to_string(),
        "final f = R.fontsPoppinsBold700.path; // R.imagesComingSoonIgnored.path".to_string(),
    ];
    let migrated = migrate_flutter_gen_style(
        "/nonexistent-project-for-tests",
        &pubspec("R", FlutterGenAssetsOutputsStyle::DotDelimited),
        &listings(),
        vec!["assets/fonts".to_string()],
        FlutterGenAssetsOutputsStyle::CamelCase,
        &contents,
    )
    .unwrap();
    assert_eq!(
        migrated,
        vec![
            "Image.asset(R.images.comingSoon1.path)".to_string(),
            "final f = R.fontsPoppinsBold700.path; // R.images.comingSoonIgnored.path".to_string(),
        ]
    );
}

#[test]
fn find_unused_assets_does_not_depend_on_the_order_of_the_files() {
    let files = [
        "Image.asset(R.images_coming_soon_1.path)".to_string(),
        "final x = R.images_coming_soon1.path;".to_string(),
        "// nothing here".to_string(),
    ];
    let orders = [[0, 1, 2], [2, 1, 0], [1, 2, 0], [1, 0, 2]];
    let mut results = Vec::new();
    for order in orders {
        let contents: Vec<String> = order.iter().map(|&i| files[i].clone()).collect();
        let unused = find_unused_assets(
            "/nonexistent-project-for-tests",
            &pubspec("R", FlutterGenAssetsOutputsStyle::SnakeCase),
            &listings(),
            vec![],
            &contents,
        )
        .unwrap();
        results.push(unused);
    }
    assert_eq!(results[0].len(), 2);
    for unused in &results {
        assert_eq!(unused, &results[0]);
    }
}

#[test]
fn migrate_flutter_gen_style_names_the_first_asset_without_an_accessor_name() {
    let listings = vec![
        vec![entry("coming_soon_1.png"), entry(".."), entry("coming_soon1.png")],
        vec![entry("..")],
    ];
    let result = migrate_flutter_gen_style(
        "/nonexistent-project-for-tests",
        &pubspec("R", FlutterGenAssetsOutputsStyle::DotDelimited),
        &listings,
        vec![],
        FlutterGenAssetsOutputsStyle::CamelCase,
        &vec!["R.imagesComingSoon1.path".to_string()],
    );
    match result {
        Err(ComputeAssetUsageRegexSetError::AssetMetadataError(
            AssetMetadataError::RetrieveFileStemError { path },
        )) => assert_eq!(path, "/nonexistent-project-for-tests/assets/images/.."),
        other => panic!("unexpected result, ok: {}", other.is_ok()),
    }
}

#[test]
fn migrate_flutter_gen_style_reports_a_pattern_that_does_not_compile() {
    let result = migrate_flutter_gen_style(
        "/nonexistent-project-for-tests",
        &pubspec("R(", FlutterGenAssetsOutputsStyle::DotDelimited),
        &listings(),
        vec![],
        FlutterGenAssetsOutputsStyle::CamelCase,
        &vec![],
    );
    assert!(matches!(result, Err(ComputeAssetUsageRegexSetError::RegexSetError(_))));
}

#[test]
fn migration_in_two_steps_gives_the_same_contents() {
    let contents = vec![
        "Image.asset(R.imagesComingSoon1.path)".to_string(),
        "final f = R.fontsPoppinsBold700.path;".to_string(),
    ];
    let pubspec_yaml = pubspec("R", FlutterGenAssetsOutputsStyle::SnakeCase);
    let group = migration_regex_set_group(
        "/nonexistent-project-for-tests",
        &pubspec_yaml,
        &listings(),
        vec![],
        FlutterGenAssetsOutputsStyle::CamelCase,
    )
    .unwrap();
    let in_two_steps = migrate_contents(&pubspec_yaml, &group, &contents);
    let at_once = migrate_flutter_gen_style(
        "/nonexistent-project-for-tests",
        &pubspec_yaml,
        &listings(),
        vec![],
        FlutterGenAssetsOutputsStyle::CamelCase,
        &contents,
    )
    .unwrap();
    assert_eq!(in_two_steps, at_once);
    assert_eq!(in_two_steps.len(), 2);
    assert_ne!(in_two_steps[0], contents[0]);
}
