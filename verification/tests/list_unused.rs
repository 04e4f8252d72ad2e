use flutter_assets_tool::asset_metadata::AssetMetadata;
use flutter_assets_tool::list_unused::{decide_list_unused_action, ListUnusedAction};

#[test]
fn unused_assets_fail_when_requested() {
    let unused = vec![AssetMetadata::new("assets/a.png".to_string(), "assets".to_string())];
    assert_eq!(decide_list_unused_action(&unused, true, true), ListUnusedAction::ReportUnusedAssetsExist);
    assert_eq!(decide_list_unused_action(&unused, false, false), ListUnusedAction::Finish);
    assert_eq!(decide_list_unused_action(&unused, true, false), ListUnusedAction::RemoveUnusedAssets);
}

#[test]
fn no_unused_assets_never_fail() {
    assert_eq!(decide_list_unused_action(&vec![], false, true), ListUnusedAction::Finish);
    assert_eq!(decide_list_unused_action(&vec![], true, true), ListUnusedAction::RemoveUnusedAssets);
}
