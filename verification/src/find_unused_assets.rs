//! Narrowing the assets down to the unused ones, one Dart file at a time.

use vstd::prelude::*;

use crate::asset_metadata::{
    assets_view, listings_view, parse_pubspec_yaml_assets, spec_dart_usage_syntax,
    spec_parsed_assets, AssetMetadata, AssetMetadataView, DirectoryEntry,
};
use crate::asset_usage::{
    find_asset_usages, get_asset_usage_regex, spec_asset_usages, ASSET_USAGE_REGEX_SUFFIX,
};
use crate::filter_ignored_assets::{filter_ignored_assets, filtered_by_ignore_paths};
use crate::flutter::{FlutterGenAssetsOutputs, FlutterGenAssetsOutputsStyle, PubspecYaml};
use crate::paths::strings_view;
use crate::regex_engine::regex_compiles;
use crate::seq_facts::{
    lemma_filter_agree, lemma_filter_all, lemma_filter_filter, lemma_filter_none, lemma_filter_push,
};

verus! {

/// Whether the accessor name of `a` in `style` is none of `used`. An asset
/// without an accessor name is never found used.
pub open spec fn spec_unused(
    a: AssetMetadataView,
    used: Seq<Seq<char>>,
    style: FlutterGenAssetsOutputsStyle,
) -> bool {
    match spec_dart_usage_syntax(a, style) {
        Some(u) => !used.contains(u),
        None => true,
    }
}

/// Keeps the assets whose accessor names are none of `used`.
pub open spec fn unused_pred(
    used: Seq<Seq<char>>,
    style: FlutterGenAssetsOutputsStyle,
) -> spec_fn(AssetMetadataView) -> bool {
    |a: AssetMetadataView| spec_unused(a, used, style)
}

fn contains_string(v: &Vec<String>, s: &str) -> (r: bool)
    ensures
        r == strings_view(v@).contains(s@),
{
    let mut i: usize = 0;
    while i < v.len()
        invariant
            i <= v@.len(),
            forall|j: int| 0 <= j < i ==> strings_view(v@)[j] != s@,
        decreases v@.len() - i,
    {
        if crate::paths::str_equal(v[i].as_str(), s) {
            assert(strings_view(v@)[i as int] == s@);
            return true;
        }
        i += 1;
    }
    false
}

/// Keeps the assets whose accessor names in `style` are none of
/// `used_assets`.
pub fn retain_unused_assets(
    asset_metadatum: Vec<AssetMetadata>,
    used_assets: &Vec<String>,
    style: &FlutterGenAssetsOutputsStyle,
) -> (r: Vec<AssetMetadata>)
    ensures
        assets_view(r@) == assets_view(asset_metadatum@).filter(
            unused_pred(strings_view(used_assets@), *style),
        ),
{
    let ghost pred = unused_pred(strings_view(used_assets@), *style);
    let ghost av = assets_view(asset_metadatum@);
    let mut kept: Vec<AssetMetadata> = Vec::new();
    let mut i: usize = 0;
    assert(av.take(0).filter(pred) =~= Seq::<AssetMetadataView>::empty()) by {
        reveal(Seq::filter);
    }
    assert(assets_view(kept@) =~= Seq::<AssetMetadataView>::empty());
    while i < asset_metadatum.len()
        invariant
            pred == unused_pred(strings_view(used_assets@), *style),
            av == assets_view(asset_metadatum@),
            i <= asset_metadatum@.len(),
            assets_view(kept@) == av.take(i as int).filter(pred),
        decreases asset_metadatum@.len() - i,
    {
        let asset_metadata = &asset_metadatum[i];
        let unused = match asset_metadata.compute_dart_usage_syntax(style) {
            Ok(syntax) => !contains_string(used_assets, syntax.as_str()),
            Err(_) => true,
        };
        proof {
            assert(av[i as int] == asset_metadata@);
            assert(av.take(i + 1) =~= av.take(i as int).push(asset_metadata@));
            lemma_filter_push(av.take(i as int), pred, asset_metadata@);
        }
        if unused {
            let ghost old_view = assets_view(kept@);
            kept.push(asset_metadata.clone());
            assert(assets_view(kept@) =~= old_view.push(asset_metadata@));
        }
        i += 1;
    }
    assert(av.take(i as int) =~= av);
    kept
}

/// Drops from `asset_metadatum` the assets that `file_content` uses: those
/// whose accessor names (in the configured style) appear in the accessors
/// that `asset_usage_regex` matches. Fails when the pattern does not compile.
pub fn drop_used_assets(
    asset_usage_regex: &str,
    asset_metadatum: Vec<AssetMetadata>,
    flutter_gen_assets_outputs: &FlutterGenAssetsOutputs,
    file_content: &str,
) -> (r: Result<Vec<AssetMetadata>, regex::Error>)
    ensures
        r is Ok == regex_compiles(asset_usage_regex@),
        r matches Ok(v) ==> assets_view(v@) == assets_view(asset_metadatum@).filter(
            unused_pred(
                spec_asset_usages(asset_usage_regex@, file_content@),
                flutter_gen_assets_outputs.style,
            ),
        ),
{
    let used_assets = find_asset_usages(asset_usage_regex, file_content)?;
    Ok(retain_unused_assets(asset_metadatum, &used_assets, &flutter_gen_assets_outputs.style))
}

/// The asset names that each file uses, by the accessors that `pattern`
/// matches.
pub open spec fn spec_usages_per_file(pattern: Seq<char>, contents: Seq<Seq<char>>) -> Seq<
    Seq<Seq<char>>,
> {
    contents.map_values(|c: Seq<char>| spec_asset_usages(pattern, c))
}

/// Finds the assets of the project that no Dart file uses.
///
/// The assets are those of the directories that `pubspec.yaml` declares
/// (`directory_listings[i]` lists `pubspec_yaml.flutter.assets[i]`), less
/// those that `ignore_path_bufs` cover; an asset is used when one of
/// `dart_file_contents` holds an accessor of the configured class whose name
/// is the asset's accessor name in the configured style. Fails when a file is
/// scanned and the accessor pattern of the class does not compile.
pub fn find_unused_assets(
    flutter_project_path: &str,
    pubspec_yaml: &PubspecYaml,
    directory_listings: &Vec<Vec<DirectoryEntry>>,
    ignore_path_bufs: Vec<String>,
    dart_file_contents: &Vec<String>,
) -> (r: Result<Vec<AssetMetadata>, regex::Error>)
    requires
        directory_listings@.len() == pubspec_yaml.flutter.assets@.len(),
    ensures
        ({
            let outputs = pubspec_yaml.flutter_gen.assets.outputs;
            let pattern = outputs.class_name@ + ASSET_USAGE_REGEX_SUFFIX@;
            let parsed = spec_parsed_assets(
                flutter_project_path@,
                strings_view(pubspec_yaml.flutter.assets@),
                listings_view(directory_listings@),
            );
            &&& r is Ok == (dart_file_contents@.len() == 0 || regex_compiles(pattern))
            &&& r matches Ok(v) ==> exists|kept: Seq<AssetMetadataView>|
                #[trigger] filtered_by_ignore_paths(
                    flutter_project_path@,
                    strings_view(ignore_path_bufs@),
                    parsed,
                    kept,
                ) && assets_view(v@) == kept.filter(
                    unused_pred(
                        concat_used(
                            spec_usages_per_file(pattern, strings_view(dart_file_contents@)),
                        ),
                        outputs.style,
                    ),
                )
        }),
{
    let outputs = &pubspec_yaml.flutter_gen.assets.outputs;
    let asset_metadatum = parse_pubspec_yaml_assets(
        flutter_project_path,
        &pubspec_yaml.flutter.assets,
        directory_listings,
    );
    let ghost ignores = strings_view(ignore_path_bufs@);
    let asset_metadatum = filter_ignored_assets(
        flutter_project_path,
        asset_metadatum,
        ignore_path_bufs,
    );
    let ghost kept = assets_view(asset_metadatum@);
    let asset_usage_regex = get_asset_usage_regex(outputs.class_name.as_str());
    let ghost usages = spec_usages_per_file(asset_usage_regex@, strings_view(dart_file_contents@));
    let mut remaining = asset_metadatum;
    let mut i: usize = 0;
    assert(usages.take(0) =~= Seq::<Seq<Seq<char>>>::empty());
    while i < dart_file_contents.len()
        invariant
            usages == spec_usages_per_file(asset_usage_regex@, strings_view(dart_file_contents@)),
            i <= dart_file_contents@.len(),
            *outputs == pubspec_yaml.flutter_gen.assets.outputs,
            asset_usage_regex@ == outputs.class_name@ + ASSET_USAGE_REGEX_SUFFIX@,
            i > 0 ==> regex_compiles(asset_usage_regex@),
            assets_view(remaining@) == spec_drop_used_in_files(
                kept,
                usages.take(i as int),
                outputs.style,
            ),
        decreases dart_file_contents@.len() - i,
    {
        remaining = match drop_used_assets(
            asset_usage_regex.as_str(),
            remaining,
            outputs,
            dart_file_contents[i].as_str(),
        ) {
            Ok(rest) => rest,
            Err(err) => {
                return Err(err);
            },
        };
        assert(usages.take(i + 1).drop_last() =~= usages.take(i as int));
        assert(usages.take(i + 1).last() == usages[i as int]);
        i += 1;
    }
    assert(usages.take(i as int) =~= usages);
    proof {
        lemma_drop_used_in_files(kept, usages, outputs.style);
    }
    Ok(remaining)
}

/// Dropping the assets used by one file and then those used by another
/// leaves the same assets as the other order, and as dropping at once the
/// assets that either file uses: the files of a project can be scanned in any
/// order, or concurrently.
pub proof fn lemma_drop_used_assets_commute(
    assets: Seq<AssetMetadataView>,
    used1: Seq<Seq<char>>,
    used2: Seq<Seq<char>>,
    style: FlutterGenAssetsOutputsStyle,
)
    ensures
        assets.filter(unused_pred(used1, style)).filter(unused_pred(used2, style))
            == assets.filter(unused_pred(used1 + used2, style)),
        assets.filter(unused_pred(used1, style)).filter(unused_pred(used2, style))
            == assets.filter(unused_pred(used2, style)).filter(unused_pred(used1, style)),
{
    let p1 = unused_pred(used1, style);
    let p2 = unused_pred(used2, style);
    let both = unused_pred(used1 + used2, style);
    lemma_filter_filter(assets, p1, p2);
    lemma_filter_filter(assets, p2, p1);
    assert forall|j: int| 0 <= j < assets.len() implies (|a: AssetMetadataView| p1(a) && p2(a))(
        #[trigger] assets[j],
    ) == both(assets[j]) by {
        let a = assets[j];
        match spec_dart_usage_syntax(a, style) {
            Some(u) => {
                if (used1 + used2).contains(u) {
                    let k = choose|k: int| 0 <= k < (used1 + used2).len() && (used1 + used2)[k] == u;
                    if k < used1.len() {
                        assert(used1[k] == u);
                    } else {
                        assert(used2[k - used1.len()] == u);
                    }
                }
                if used1.contains(u) {
                    let k = choose|k: int| 0 <= k < used1.len() && used1[k] == u;
                    assert((used1 + used2)[k] == u);
                }
                if used2.contains(u) {
                    let k = choose|k: int| 0 <= k < used2.len() && used2[k] == u;
                    assert((used1 + used2)[k + used1.len()] == u);
                }
            },
            None => {},
        }
    }
    lemma_filter_agree(assets, |a: AssetMetadataView| p1(a) && p2(a), both);
    lemma_filter_agree(
        assets,
        |a: AssetMetadataView| p2(a) && p1(a),
        |a: AssetMetadataView| p1(a) && p2(a),
    );
}

/// An asset stays exactly when its accessor name is not among the used
/// names; in particular, when every asset's name is used, none stays.
pub proof fn lemma_drop_used_assets_all_used(
    assets: Seq<AssetMetadataView>,
    used: Seq<Seq<char>>,
    style: FlutterGenAssetsOutputsStyle,
)
    requires
        forall|i: int|
            0 <= i < assets.len() ==> (spec_dart_usage_syntax(#[trigger] assets[i], style) matches Some(
                u,
            ) && used.contains(u)),
    ensures
        assets.filter(unused_pred(used, style)).len() == 0,
{
    lemma_filter_agree(assets, unused_pred(used, style), |a: AssetMetadataView| false);
    lemma_filter_none(assets);
}

/// The used names of several files, one file after another.
pub open spec fn concat_used(useds: Seq<Seq<Seq<char>>>) -> Seq<Seq<char>>
    decreases useds.len(),
{
    if useds.len() == 0 {
        Seq::empty()
    } else {
        concat_used(useds.drop_last()) + useds.last()
    }
}

/// The assets left after dropping, file after file, the assets that each
/// file uses (`useds[i]` holds the names that file `i` uses).
pub open spec fn spec_drop_used_in_files(
    assets: Seq<AssetMetadataView>,
    useds: Seq<Seq<Seq<char>>>,
    style: FlutterGenAssetsOutputsStyle,
) -> Seq<AssetMetadataView>
    decreases useds.len(),
{
    if useds.len() == 0 {
        assets
    } else {
        spec_drop_used_in_files(assets, useds.drop_last(), style).filter(
            unused_pred(useds.last(), style),
        )
    }
}

/// Scanning files one after another leaves exactly the assets whose accessor
/// name no scanned file uses.
pub proof fn lemma_drop_used_in_files(
    assets: Seq<AssetMetadataView>,
    useds: Seq<Seq<Seq<char>>>,
    style: FlutterGenAssetsOutputsStyle,
)
    ensures
        spec_drop_used_in_files(assets, useds, style) == assets.filter(
            unused_pred(concat_used(useds), style),
        ),
    decreases useds.len(),
{
    if useds.len() == 0 {
        lemma_filter_agree(assets, unused_pred(Seq::empty(), style), |a: AssetMetadataView| true);
        lemma_filter_all(assets);
    } else {
        lemma_drop_used_in_files(assets, useds.drop_last(), style);
        lemma_drop_used_assets_commute(assets, concat_used(useds.drop_last()), useds.last(), style);
    }
}

/// A name is among the used names of several files exactly when one of the
/// files uses it.
pub proof fn lemma_concat_used_contains(useds: Seq<Seq<Seq<char>>>, name: Seq<char>)
    ensures
        concat_used(useds).contains(name) <==> exists|i: int|
            0 <= i < useds.len() && (#[trigger] useds[i]).contains(name),
    decreases useds.len(),
{
    if useds.len() > 0 {
        let init = useds.drop_last();
        let last = useds.last();
        lemma_concat_used_contains(init, name);
        let prefix = concat_used(init);
        if concat_used(useds).contains(name) {
            let k = choose|k: int| 0 <= k < (prefix + last).len() && (prefix + last)[k] == name;
            if k < prefix.len() {
                assert(prefix[k] == name);
                let i = choose|i: int| 0 <= i < init.len() && (#[trigger] init[i]).contains(name);
                assert(useds[i] == init[i]);
            } else {
                assert(last[k - prefix.len()] == name);
                assert(useds[useds.len() - 1] == last);
            }
        }
        if exists|i: int| 0 <= i < useds.len() && (#[trigger] useds[i]).contains(name) {
            let i = choose|i: int| 0 <= i < useds.len() && (#[trigger] useds[i]).contains(name);
            if i < useds.len() - 1 {
                assert(init[i] == useds[i]);
                let k = choose|k: int| 0 <= k < prefix.len() && prefix[k] == name;
                assert((prefix + last)[k] == name);
            } else {
                let k = choose|k: int| 0 <= k < last.len() && last[k] == name;
                assert((prefix + last)[k + prefix.len()] == name);
            }
        }
    }
}

/// Scanning files that use the same names, counted without order or
/// repetition, leaves the same assets.
proof fn lemma_drop_used_in_same_files(
    assets: Seq<AssetMetadataView>,
    useds1: Seq<Seq<Seq<char>>>,
    useds2: Seq<Seq<Seq<char>>>,
    style: FlutterGenAssetsOutputsStyle,
)
    requires
        forall|u: Seq<Seq<char>>| useds1.contains(u) <==> useds2.contains(u),
    ensures
        spec_drop_used_in_files(assets, useds1, style) == spec_drop_used_in_files(
            assets,
            useds2,
            style,
        ),
{
    lemma_drop_used_in_files(assets, useds1, style);
    lemma_drop_used_in_files(assets, useds2, style);
    let used1 = concat_used(useds1);
    let used2 = concat_used(useds2);
    assert forall|name: Seq<char>| used1.contains(name) implies used2.contains(name) by {
        lemma_concat_used_contains(useds1, name);
        lemma_concat_used_contains(useds2, name);
        let i = choose|i: int| 0 <= i < useds1.len() && (#[trigger] useds1[i]).contains(name);
        assert(useds1.contains(useds1[i]));
        let j = choose|j: int| 0 <= j < useds2.len() && useds2[j] == useds1[i];
        assert(useds2[j].contains(name));
    }
    assert forall|name: Seq<char>| used2.contains(name) implies used1.contains(name) by {
        lemma_concat_used_contains(useds1, name);
        lemma_concat_used_contains(useds2, name);
        let i = choose|i: int| 0 <= i < useds2.len() && (#[trigger] useds2[i]).contains(name);
        assert(useds2.contains(useds2[i]));
        let j = choose|j: int| 0 <= j < useds1.len() && useds1[j] == useds2[i];
        assert(useds1[j].contains(name));
    }
    lemma_filter_agree(assets, unused_pred(used1, style), unused_pred(used2, style));
}

/// The files of a project can be scanned in any order: scanning the same
/// files (with the same used names) in another order, file after file,
/// leaves the same assets.
pub proof fn lemma_drop_used_in_files_any_order(
    assets: Seq<AssetMetadataView>,
    useds1: Seq<Seq<Seq<char>>>,
    useds2: Seq<Seq<Seq<char>>>,
    style: FlutterGenAssetsOutputsStyle,
)
    requires
        useds1.to_multiset() == useds2.to_multiset(),
    ensures
        spec_drop_used_in_files(assets, useds1, style) == spec_drop_used_in_files(
            assets,
            useds2,
            style,
        ),
{
    broadcast use vstd::seq_lib::group_to_multiset_ensures;

    assert forall|u: Seq<Seq<char>>| useds1.contains(u) <==> useds2.contains(u) by {
        if useds1.contains(u) {
            assert(useds1.to_multiset().count(u) > 0);
        }
        if useds2.contains(u) {
            assert(useds2.to_multiset().count(u) > 0);
        }
    }
    lemma_drop_used_in_same_files(assets, useds1, useds2, style);
}

/// What `find_unused_assets` keeps does not depend on the order of the Dart
/// files: the same file contents in another order leave the same assets.
pub proof fn lemma_find_unused_any_file_order(
    assets: Seq<AssetMetadataView>,
    pattern: Seq<char>,
    contents1: Seq<Seq<char>>,
    contents2: Seq<Seq<char>>,
    style: FlutterGenAssetsOutputsStyle,
)
    requires
        contents1.to_multiset() == contents2.to_multiset(),
    ensures
        assets.filter(
            unused_pred(concat_used(spec_usages_per_file(pattern, contents1)), style),
        ) == assets.filter(
            unused_pred(concat_used(spec_usages_per_file(pattern, contents2)), style),
        ),
{
    broadcast use vstd::seq_lib::group_to_multiset_ensures;

    let useds1 = spec_usages_per_file(pattern, contents1);
    let useds2 = spec_usages_per_file(pattern, contents2);
    assert forall|u: Seq<Seq<char>>| useds1.contains(u) implies useds2.contains(u) by {
        let i = choose|i: int| 0 <= i < useds1.len() && useds1[i] == u;
        assert(contents1.contains(contents1[i]));
        assert(contents1.to_multiset().count(contents1[i]) > 0);
        assert(contents2.to_multiset().count(contents1[i]) > 0);
        let j = choose|j: int| 0 <= j < contents2.len() && contents2[j] == contents1[i];
        assert(useds2[j] == u);
    }
    assert forall|u: Seq<Seq<char>>| useds2.contains(u) implies useds1.contains(u) by {
        let i = choose|i: int| 0 <= i < useds2.len() && useds2[i] == u;
        assert(contents2.contains(contents2[i]));
        assert(contents2.to_multiset().count(contents2[i]) > 0);
        assert(contents1.to_multiset().count(contents2[i]) > 0);
        let j = choose|j: int| 0 <= j < contents1.len() && contents1[j] == contents2[i];
        assert(useds1[j] == u);
    }
    lemma_drop_used_in_same_files(assets, useds1, useds2, style);
    lemma_drop_used_in_files(assets, useds1, style);
    lemma_drop_used_in_files(assets, useds2, style);
}

} // verus!
