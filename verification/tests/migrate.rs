use flutter_assets_tool::asset_metadata::AssetMetadata;
use flutter_assets_tool::asset_usage::compute_asset_usage_regex_set_group;
use flutter_assets_tool::flutter::{
    Flutter, FlutterGen, FlutterGenAssets, FlutterGenAssetsOutputs, FlutterGenAssetsOutputsStyle,
    PubspecYaml,
};
use flutter_assets_tool::migrate::{migrate_asset, migrate_asset_core, migrate_usage};

#[test]
fn migrate_usage_can_replace_asset_gen_usage_to_flutter_gen_usage() {
    // Arrange
    let image_1 = "image_1";
    let image_2 = "image_2";
    let image_3 = "image_3";
    let code = format!(
        "
            final List<String> images = [
                R.assets_{image_1},
                R
                    .assets_{image_2},
                R.
                    assets_{image_3},
            ];
        "
    )
    .to_string();

    // Act
    let new_code = migrate_usage(&code).unwrap();

    // Assert
    assert_eq!(
        new_code,
        format!(
            "
            final List<String> images = [
                R.{image_1}.path,
                R.{image_2}.path,
                R.{image_3}.path,
            ];
        "
        )
        .to_string()
    );
}

#[test]
fn migrate_usage_leaves_code_without_asset_gen_accessors_unchanged() {
    let code = "final x = R.image_1.path; // assets_foo";
    assert_eq!(migrate_usage(code).unwrap(), code);
}

#[test]
fn migrate_asset_core_can_migrate_camel_case_when_target_is_dot_delimited() {
    // Arrange
    let file_content = r#"
            final List<String> images = [
  R.imagesComingSoon1.path;
  R.
  imagesComingSoon1.path;
            ];
        "#;
    let asset_metadata = AssetMetadata::new(
        "assets/images/coming_soon_1.png".to_string(),
        "assets/images".to_string(),
    );
    let asset_metadatum = vec![asset_metadata.to_owned()];
    let class_name = "R";
    let asset_usage_regex_set_group = compute_asset_usage_regex_set_group(
        class_name,
        &asset_metadatum,
        FlutterGenAssetsOutputsStyle::CamelCase,
    )
    .unwrap();
    let regex = &asset_usage_regex_set_group
        .regexes()
        .iter()
        .find(|x| x.1 == asset_metadata)
        .unwrap()
        .0;
    let to_style = FlutterGenAssetsOutputsStyle::DotDelimited;

    // Act
    let new_file_content = migrate_asset_core(
        file_content.to_string(),
        regex.to_owned(),
        asset_metadata,
        &to_style,
        class_name,
    );

    // Assert
    let expected_file_content = r#"
            final List<String> images = [
  R.images.comingSoon1.path;
  R.images.comingSoon1.path;
            ];
        "#;
    assert_eq!(new_file_content, expected_file_content,);
}

#[test]
fn migrate_asset_core_leaves_content_when_the_asset_has_no_name() {
    let asset_metadata = AssetMetadata::new("assets/..".to_string(), "assets".to_string());
    let content = "R.x.path".to_string();
    let result = migrate_asset_core(
        content.clone(),
        "R".to_string(),
        asset_metadata,
        &FlutterGenAssetsOutputsStyle::SnakeCase,
        "R",
    );
    assert_eq!(result, content);
}

#[test]
fn migrate_asset_core_writes_a_dollar_literally() {
    let asset_metadata = AssetMetadata::new("assets/a.png".to_string(), "assets".to_string());
    let result = migrate_asset_core(
        "old".to_string(),
        "old".to_string(),
        asset_metadata,
        &FlutterGenAssetsOutputsStyle::SnakeCase,
        "$R",
    );
    assert_eq!(result, "$R.a.path");
}

fn pubspec(style: FlutterGenAssetsOutputsStyle) -> PubspecYaml {
    PubspecYaml {
        name: "dummy".to_string(),
        flutter: Flutter { assets: vec!["assets/images/".to_string()] },
        flutter_gen: FlutterGen {
            assets: FlutterGenAssets {
                outputs: FlutterGenAssetsOutputs { style, class_name: "R".to_string() },
            },
        },
    }
}

#[test]
fn migrate_asset_rewrites_every_asset_of_the_group() {
    let assets = vec![
        AssetMetadata::new(
            "p/assets/images/coming_soon_1.png".to_string(),
            "assets/images/".to_string(),
        ),
        AssetMetadata::new("p/assets/images/logo.png".to_string(), "assets/images/".to_string()),
    ];
    let group =
        compute_asset_usage_regex_set_group("R", &assets, FlutterGenAssetsOutputsStyle::CamelCase)
            .unwrap();
    let content = "a(R.imagesComingSoon1.path); b(R . imagesLogo . path);".to_string();
    let migrated = migrate_asset(content, &pubspec(FlutterGenAssetsOutputsStyle::SnakeCase), &group);
    assert_eq!(migrated, "a(R.images_coming_soon_1.path); b(R.images_logo.path);");
}
