//! Rewriting asset accessors in Dart code: from `asset_gen` to `flutter_gen`,
//! and from one `flutter_gen` style to another.

use vstd::prelude::*;
use vstd::string::*;

use crate::asset_metadata::{
    assets_view, lemma_dart_usage_syntax_is_recased, listings_view, parse_pubspec_yaml_assets,
    recased_accessor_name, spec_dart_usage_syntax,
    spec_parsed_assets, AssetMetadata, AssetMetadataView, DirectoryEntry,
};
use crate::asset_usage::{
    compute_asset_usage_regex_set_group, path_accessor_suffix, pattern_ok, spec_asset_patterns,
    spec_group_error,
    AssetUsageRegexSetGroup, ComputeAssetUsageRegexSetError, ASSETS_PREFIXED_ASSET_USAGE_REGEX,
};
use crate::filter_ignored_assets::{filter_ignored_assets, filtered_by_ignore_paths};
use crate::paths::{spec_file_stem, spec_without_first_component, strings_view};
use crate::flutter::{FlutterGenAssetsOutputsStyle, PubspecYaml};
use crate::regex_engine::{regex_compiles, regex_replace_all, replace_all};

verus! {

/// The `flutter_gen` accessor that replaces an `asset_gen` one: the asset
/// name captured by the pattern, between `R.` and `.path`.
pub const FLUTTER_GEN_USAGE_TEMPLATE: &'static str = "R.${assetPath}.path";

/// Rewrites every `asset_gen` accessor `R.assets_<name>` in `file_content`
/// into the `flutter_gen` accessor `R.<name>.path`. Fails only when the
/// accessor pattern does not compile.
pub fn migrate_usage(file_content: &str) -> (r: Result<String, regex::Error>)
    ensures
        r is Ok == regex_compiles(ASSETS_PREFIXED_ASSET_USAGE_REGEX@),
        r matches Ok(s) ==> s@ == regex_replace_all(
            ASSETS_PREFIXED_ASSET_USAGE_REGEX@,
            file_content@,
            FLUTTER_GEN_USAGE_TEMPLATE@,
        ),
{
    replace_all(ASSETS_PREFIXED_ASSET_USAGE_REGEX, file_content, FLUTTER_GEN_USAGE_TEMPLATE)
}

/// `s` with each `$` doubled, so that a replacement template stands for `s`
/// itself.
pub open spec fn spec_escape_dollars(s: Seq<char>) -> Seq<char>
    decreases s.len(),
{
    if s.len() == 0 {
        Seq::empty()
    } else {
        spec_escape_dollars(s.drop_last()) + if s.last() == '$' {
            seq!['$', '$']
        } else {
            seq![s.last()]
        }
    }
}

fn escape_dollars(s: &str) -> (r: String)
    ensures
        r@ == spec_escape_dollars(s@),
{
    let n = s.unicode_len();
    let mut r = String::new();
    let mut i: usize = 0;
    assert(s@.take(0) =~= Seq::<char>::empty());
    while i < n
        invariant
            n == s@.len(),
            i <= n,
            r@ == spec_escape_dollars(s@.take(i as int)),
        decreases n - i,
    {
        assert(s@.take(i + 1).drop_last() =~= s@.take(i as int));
        assert(s@.take(i + 1).last() == s@[i as int]);
        let piece = s.substring_char(i, i + 1);
        assert(piece@ =~= seq![s@[i as int]]);
        if s.get_char(i) == '$' {
            let doubled = "$$";
            proof {
                reveal_strlit("$$");
                assert(doubled@ =~= seq!['$', '$']);
            }
            r.append(doubled);
        } else {
            r.append(piece);
        }
        i += 1;
    }
    assert(s@.take(n as int) =~= s@);
    r
}

/// The text after one migration step: every match of `regex` replaced by
/// `<class_name>.<accessor name of the asset in to_style>.path`; unchanged
/// when the asset has no accessor name.
pub open spec fn spec_migrate_asset_core(
    file_content: Seq<char>,
    regex: Seq<char>,
    asset: AssetMetadataView,
    to_style: FlutterGenAssetsOutputsStyle,
    class_name: Seq<char>,
) -> Seq<char> {
    match spec_dart_usage_syntax(asset, to_style) {
        Some(u) => regex_replace_all(
            regex,
            file_content,
            spec_escape_dollars(class_name + seq!['.'] + u + path_accessor_suffix()),
        ),
        None => file_content,
    }
}

/// One migration step rewrites each match of the pattern into the accessor
/// `<class_name>.<name>.path`, where `name` is the asset's accessor name in
/// the target style (re-cased by `recase` as that style does), and leaves
/// the text alone when the asset has no accessor name.
pub proof fn lemma_migrate_asset_core_writes_target_accessor(
    file_content: Seq<char>,
    regex: Seq<char>,
    asset: AssetMetadataView,
    to_style: FlutterGenAssetsOutputsStyle,
    class_name: Seq<char>,
)
    ensures
        spec_file_stem(asset.asset_path) is None ==> spec_migrate_asset_core(
            file_content,
            regex,
            asset,
            to_style,
            class_name,
        ) == file_content,
        forall|name: Seq<char>|
            recased_accessor_name(
                spec_without_first_component(asset.located_directory),
                spec_file_stem(asset.asset_path)->0,
                to_style,
                name,
            ) && spec_file_stem(asset.asset_path) is Some ==> spec_migrate_asset_core(
                file_content,
                regex,
                asset,
                to_style,
                class_name,
            ) == regex_replace_all(
                regex,
                file_content,
                spec_escape_dollars(class_name + seq!['.'] + name + path_accessor_suffix()),
            ),
{
    lemma_dart_usage_syntax_is_recased(asset, to_style);
}

/// Replaces every match of `regex` in `file_content` with the accessor of
/// `asset_metadata` in `to_style` for the class `class_name`
/// (`<class_name>.<name>.path`).
pub fn migrate_asset_core(
    file_content: String,
    regex: String,
    asset_metadata: AssetMetadata,
    to_style: &FlutterGenAssetsOutputsStyle,
    class_name: &str,
) -> (r: String)
    requires
        regex_compiles(regex@),
    ensures
        r@ == spec_migrate_asset_core(file_content@, regex@, asset_metadata@, *to_style, class_name@),
        spec_file_stem(asset_metadata@.asset_path) is None ==> r@ == file_content@,
        forall|name: Seq<char>|
            recased_accessor_name(
                spec_without_first_component(asset_metadata@.located_directory),
                spec_file_stem(asset_metadata@.asset_path)->0,
                *to_style,
                name,
            ) && spec_file_stem(asset_metadata@.asset_path) is Some ==> r@ == regex_replace_all(
                regex@,
                file_content@,
                spec_escape_dollars(class_name@ + seq!['.'] + name + path_accessor_suffix()),
            ),
{
    let asset_usage_syntax = match asset_metadata.compute_dart_usage_syntax(to_style) {
        Ok(syntax) => syntax,
        Err(_) => {
            return file_content;
        },
    };
    let mut replacement = class_name.to_owned();
    let dot = ".";
    let suffix = ".path";
    proof {
        reveal_strlit(".");
        reveal_strlit(".path");
        assert(dot@ =~= seq!['.']);
        assert(suffix@ =~= path_accessor_suffix());
    }
    replacement.append(dot);
    replacement.append(asset_usage_syntax.as_str());
    replacement.append(suffix);
    let template = escape_dollars(replacement.as_str());
    match replace_all(regex.as_str(), file_content.as_str(), template.as_str()) {
        Ok(migrated) => migrated,
        Err(_) => file_content,
    }
}

/// The text after migrating the accessors of each pattern and asset pair in
/// turn.
pub open spec fn spec_migrate_asset(
    file_content: Seq<char>,
    regexes: Seq<(Seq<char>, AssetMetadataView)>,
    to_style: FlutterGenAssetsOutputsStyle,
    class_name: Seq<char>,
) -> Seq<char>
    decreases regexes.len(),
{
    if regexes.len() == 0 {
        file_content
    } else {
        spec_migrate_asset_core(
            spec_migrate_asset(file_content, regexes.drop_last(), to_style, class_name),
            regexes.last().0,
            regexes.last().1,
            to_style,
            class_name,
        )
    }
}

/// Rewrites the accessors in `file_content` that the patterns of the group
/// match into the style and class that `pubspec_yaml` configures, pattern by
/// pattern in the group's order.
pub fn migrate_asset(
    file_content: String,
    pubspec_yaml: &PubspecYaml,
    asset_usage_regex_set_group: &AssetUsageRegexSetGroup,
) -> (r: String)
    ensures
        r@ == spec_migrate_asset(
            file_content@,
            asset_usage_regex_set_group@.regexes,
            pubspec_yaml.flutter_gen.assets.outputs.style,
            pubspec_yaml.flutter_gen.assets.outputs.class_name@,
        ),
{
    let regexes = asset_usage_regex_set_group.regexes();
    let ghost rv = asset_usage_regex_set_group@.regexes;
    let to_style = &pubspec_yaml.flutter_gen.assets.outputs.style;
    let class_name = pubspec_yaml.flutter_gen.assets.outputs.class_name.as_str();
    let mut content = file_content;
    let mut i: usize = 0;
    assert(rv.take(0) =~= Seq::<(Seq<char>, AssetMetadataView)>::empty());
    while i < regexes.len()
        invariant
            rv == crate::asset_usage::pairs_view(regexes@),
            forall|j: int| 0 <= j < regexes@.len() ==> regex_compiles(#[trigger] regexes@[j].0@),
            i <= regexes@.len(),
            content@ == spec_migrate_asset(
                file_content@,
                rv.take(i as int),
                *to_style,
                class_name@,
            ),
        decreases regexes@.len() - i,
    {
        assert(rv.take(i + 1).drop_last() =~= rv.take(i as int));
        assert(rv.take(i + 1).last() == rv[i as int]);
        let pair = &regexes[i];
        content = migrate_asset_core(content, pair.0.clone(), pair.1.clone(), to_style, class_name);
        i += 1;
    }
    assert(rv.take(i as int) =~= rv);
    content
}


/// The accessor patterns to migrate the project from `previous_style`: one
/// per asset of the directories that `pubspec.yaml` declares
/// (`directory_listings[i]` lists `pubspec_yaml.flutter.assets[i]`), less
/// those that `ignore_path_bufs` cover. Fails as
/// `compute_asset_usage_regex_set_group` does on those assets: with
/// `AssetMetadataError` naming the first asset without an accessor name, else
/// with `RegexSetError` when a pattern or the set of them does not compile.
pub fn migration_regex_set_group(
    flutter_project_path: &str,
    pubspec_yaml: &PubspecYaml,
    directory_listings: &Vec<Vec<DirectoryEntry>>,
    ignore_path_bufs: Vec<String>,
    previous_style: FlutterGenAssetsOutputsStyle,
) -> (r: Result<AssetUsageRegexSetGroup, ComputeAssetUsageRegexSetError>)
    requires
        directory_listings@.len() == pubspec_yaml.flutter.assets@.len(),
    ensures
        ({
            let class_name = pubspec_yaml.flutter_gen.assets.outputs.class_name@;
            let parsed = spec_parsed_assets(
                flutter_project_path@,
                strings_view(pubspec_yaml.flutter.assets@),
                listings_view(directory_listings@),
            );
            let ignores = strings_view(ignore_path_bufs@);
            &&& r matches Ok(g) ==> exists|kept: Seq<AssetMetadataView>|
                #[trigger] filtered_by_ignore_paths(flutter_project_path@, ignores, parsed, kept)
                    && (forall|i: int|
                    0 <= i < kept.len() ==> pattern_ok(class_name, #[trigger] kept[i], previous_style))
                    && g@.regexes == spec_asset_patterns(class_name, kept, previous_style).zip_with(
                    kept,
                )
            &&& r matches Err(err) ==> exists|kept: Seq<AssetMetadataView>|
                #[trigger] filtered_by_ignore_paths(flutter_project_path@, ignores, parsed, kept)
                    && spec_group_error(class_name, kept, previous_style, err)
        }),
{
    let asset_metadatum = parse_pubspec_yaml_assets(
        flutter_project_path,
        &pubspec_yaml.flutter.assets,
        directory_listings,
    );
    let asset_metadatum = filter_ignored_assets(
        flutter_project_path,
        asset_metadatum,
        ignore_path_bufs,
    );
    compute_asset_usage_regex_set_group(
        pubspec_yaml.flutter_gen.assets.outputs.class_name.as_str(),
        &asset_metadatum,
        previous_style,
    )
}

/// The new contents of `dart_file_contents`, in order: each with the
/// accessors that the group matches rewritten into the style and class that
/// `pubspec_yaml` configures.
pub fn migrate_contents(
    pubspec_yaml: &PubspecYaml,
    group: &AssetUsageRegexSetGroup,
    dart_file_contents: &Vec<String>,
) -> (r: Vec<String>)
    ensures
        r@.len() == dart_file_contents@.len(),
        forall|i: int|
            0 <= i < r@.len() ==> #[trigger] r@[i]@ == spec_migrate_asset(
                dart_file_contents@[i]@,
                group@.regexes,
                pubspec_yaml.flutter_gen.assets.outputs.style,
                pubspec_yaml.flutter_gen.assets.outputs.class_name@,
            ),
{
    let outputs = &pubspec_yaml.flutter_gen.assets.outputs;
    let mut migrated: Vec<String> = Vec::new();
    let mut i: usize = 0;
    while i < dart_file_contents.len()
        invariant
            *outputs == pubspec_yaml.flutter_gen.assets.outputs,
            i <= dart_file_contents@.len(),
            migrated@.len() == i,
            forall|j: int|
                0 <= j < i ==> #[trigger] migrated@[j]@ == spec_migrate_asset(
                    dart_file_contents@[j]@,
                    group@.regexes,
                    outputs.style,
                    outputs.class_name@,
                ),
        decreases dart_file_contents@.len() - i,
    {
        let content = migrate_asset(dart_file_contents[i].clone(), pubspec_yaml, group);
        migrated.push(content);
        i += 1;
    }
    migrated
}

/// Migrates the accessors in the Dart files of the project from
/// `previous_style` to the style that `pubspec_yaml` configures.
///
/// The assets are those of the directories that `pubspec.yaml` declares
/// (`directory_listings[i]` lists `pubspec_yaml.flutter.assets[i]`), less
/// those that `ignore_path_bufs` cover; the result holds, in order, the new
/// contents of `dart_file_contents`. Fails as
/// `compute_asset_usage_regex_set_group` does on those assets: with
/// `AssetMetadataError` naming the first asset without an accessor name, else
/// with `RegexSetError` when a pattern or the set of them does not compile.
pub fn migrate_flutter_gen_style(
    flutter_project_path: &str,
    pubspec_yaml: &PubspecYaml,
    directory_listings: &Vec<Vec<DirectoryEntry>>,
    ignore_path_bufs: Vec<String>,
    previous_style: FlutterGenAssetsOutputsStyle,
    dart_file_contents: &Vec<String>,
) -> (r: Result<Vec<String>, ComputeAssetUsageRegexSetError>)
    requires
        directory_listings@.len() == pubspec_yaml.flutter.assets@.len(),
    ensures
        ({
            let outputs = pubspec_yaml.flutter_gen.assets.outputs;
            let parsed = spec_parsed_assets(
                flutter_project_path@,
                strings_view(pubspec_yaml.flutter.assets@),
                listings_view(directory_listings@),
            );
            let ignores = strings_view(ignore_path_bufs@);
            &&& r matches Ok(v) ==> exists|kept: Seq<AssetMetadataView>|
                #[trigger] filtered_by_ignore_paths(flutter_project_path@, ignores, parsed, kept)
                    && (forall|i: int|
                    0 <= i < kept.len() ==> pattern_ok(
                        outputs.class_name@,
                        #[trigger] kept[i],
                        previous_style,
                    )) && v@.len() == dart_file_contents@.len() && forall|i: int|
                    0 <= i < v@.len() ==> #[trigger] v@[i]@ == spec_migrate_asset(
                        dart_file_contents@[i]@,
                        spec_asset_patterns(outputs.class_name@, kept, previous_style).zip_with(
                            kept,
                        ),
                        outputs.style,
                        outputs.class_name@,
                    )
            &&& r matches Err(err) ==> exists|kept: Seq<AssetMetadataView>|
                #[trigger] filtered_by_ignore_paths(flutter_project_path@, ignores, parsed, kept)
                    && spec_group_error(outputs.class_name@, kept, previous_style, err)
        }),
{
    match migration_regex_set_group(
        flutter_project_path,
        pubspec_yaml,
        directory_listings,
        ignore_path_bufs,
        previous_style,
    ) {
        Ok(group) => Ok(migrate_contents(pubspec_yaml, &group, dart_file_contents)),
        Err(err) => Err(err),
    }
}

} // verus!
