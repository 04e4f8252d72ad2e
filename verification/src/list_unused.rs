//! What the `list-unused` subcommand does once the unused assets are known.

use vstd::prelude::*;

use crate::asset_metadata::AssetMetadata;

verus! {

/// The step that follows the listing of the unused assets.
#[derive(Debug, Clone, Copy, PartialEq, Eq, Structural)]
pub enum ListUnusedAction {
    /// Nothing more to do.
    Finish,
    /// Fail, because unused assets exist and the user asked for that.
    ReportUnusedAssetsExist,
    /// Remove the unused assets from disk.
    RemoveUnusedAssets,
}

/// Decides the step after listing `unused_assets`: fail when there are
/// some and `exit_if_unused_exist` is set; otherwise remove them when
/// `remove_unused` is set, else finish.
pub fn decide_list_unused_action(
    unused_assets: &Vec<AssetMetadata>,
    remove_unused: bool,
    exit_if_unused_exist: bool,
) -> (r: ListUnusedAction)
    ensures
        r == if unused_assets@.len() > 0 && exit_if_unused_exist {
            ListUnusedAction::ReportUnusedAssetsExist
        } else if !remove_unused {
            ListUnusedAction::Finish
        } else {
            ListUnusedAction::RemoveUnusedAssets
        },
{
    if !unused_assets.is_empty() && exit_if_unused_exist {
        return ListUnusedAction::ReportUnusedAssetsExist;
    }
    if !remove_unused {
        return ListUnusedAction::Finish;
    }
    ListUnusedAction::RemoveUnusedAssets
}

} // verus!
