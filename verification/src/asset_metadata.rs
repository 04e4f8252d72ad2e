//! An asset declared in `pubspec.yaml`, the accessor name that `flutter_gen`
//! generates for it, and the collection of assets from directory listings.

use vstd::prelude::*;
use vstd::string::*;

use crate::case_conversion::{
    camel_case, dot_case, pascal_case, recase_camel_case, recase_dot_case, recase_pascal_case,
    recase_snake_case, snake_case,
};
use crate::flutter::FlutterGenAssetsOutputsStyle;
use crate::paths::{
    path_eq, path_file_stem, path_join, spec_path_eq, spec_path_join, str_equal, strings_view, path_without_first_component, spec_file_stem, spec_without_first_component,
};

verus! {

/// An asset file together with the `pubspec.yaml` entry that declares it.
#[derive(Debug)]
pub struct AssetMetadata {
    /// The path to the asset.
    asset_path: String,
    /// The exact configuration from the `pubspec.yaml` file.
    located_directory: String,
}

/// The abstract value of an `AssetMetadata`.
pub struct AssetMetadataView {
    pub asset_path: Seq<char>,
    pub located_directory: Seq<char>,
}

impl View for AssetMetadata {
    type V = AssetMetadataView;

    closed spec fn view(&self) -> AssetMetadataView {
        AssetMetadataView { asset_path: self.asset_path@, located_directory: self.located_directory@ }
    }
}

impl Clone for AssetMetadata {
    fn clone(&self) -> (r: Self)
        ensures
            r@ == self@,
    {
        AssetMetadata {
            asset_path: self.asset_path.clone(),
            located_directory: self.located_directory.clone(),
        }
    }
}

/// Two assets are equal when their paths and their declaring directories
/// are, each compared by components (as `Path` compares).
impl PartialEq for AssetMetadata {
    fn eq(&self, other: &Self) -> (r: bool) {
        path_eq(self.asset_path.as_str(), other.asset_path.as_str()) && path_eq(
            self.located_directory.as_str(),
            other.located_directory.as_str(),
        )
    }
}

impl vstd::std_specs::cmp::PartialEqSpecImpl for AssetMetadata {
    open spec fn obeys_eq_spec() -> bool {
        true
    }

    open spec fn eq_spec(&self, other: &Self) -> bool {
        spec_path_eq(self@.asset_path, other@.asset_path) && spec_path_eq(
            self@.located_directory,
            other@.located_directory,
        )
    }
}

impl Eq for AssetMetadata {

}

/// The views of a sequence of assets.
pub open spec fn assets_view(v: Seq<AssetMetadata>) -> Seq<AssetMetadataView> {
    v.map_values(|a: AssetMetadata| a@)
}

/// Why no accessor name can be computed for an asset.
#[derive(Debug)]
pub enum AssetMetadataError {
    /// The asset path names no file, so it has no file stem.
    RetrieveFileStemError { path: String },
}

/// The accessor name that `flutter_gen` generates for an asset in the given
/// style, or `None` when the asset path has no file stem.
///
/// The first component of the declaring directory (the `assets` directory,
/// which `flutter_gen` leaves out) is dropped; what remains, when anything
/// does, prefixes the re-cased file stem.
pub open spec fn spec_dart_usage_syntax(
    a: AssetMetadataView,
    style: FlutterGenAssetsOutputsStyle,
) -> Option<Seq<char>> {
    match spec_file_stem(a.asset_path) {
        None => None,
        Some(stem) => {
            let rel = spec_without_first_component(a.located_directory);
            Some(
                match style {
                    FlutterGenAssetsOutputsStyle::SnakeCase => if rel.len() > 0 {
                        recase_snake_case(rel) + seq!['_'] + recase_snake_case(stem)
                    } else {
                        recase_snake_case(stem)
                    },
                    FlutterGenAssetsOutputsStyle::CamelCase => if rel.len() > 0 {
                        recase_camel_case(rel) + recase_pascal_case(stem)
                    } else {
                        recase_camel_case(stem)
                    },
                    FlutterGenAssetsOutputsStyle::DotDelimited => if rel.len() > 0 {
                        recase_dot_case(rel) + seq!['.'] + recase_camel_case(stem)
                    } else {
                        recase_camel_case(stem)
                    },
                },
            )
        },
    }
}

/// `name` is the accessor that `flutter_gen` generates in `style` for a
/// file with stem `stem` under the directory `rel` (the declaring directory
/// without its first component), as `recase` re-cases the two parts:
/// - snake case: `snake(rel)_snake(stem)`;
/// - camel case: `camel(rel)` followed by `Pascal(stem)`;
/// - dot-delimited: `dot(rel).camel(stem)`;
/// and the re-cased stem alone (snake, camel, camel) when `rel` is empty.
pub open spec fn recased_accessor_name(
    rel: Seq<char>,
    stem: Seq<char>,
    style: FlutterGenAssetsOutputsStyle,
    name: Seq<char>,
) -> bool {
    match style {
        FlutterGenAssetsOutputsStyle::SnakeCase => {
            ||| rel.len() > 0 && name == recase_snake_case(rel) + seq!['_'] + recase_snake_case(stem)
            ||| rel.len() == 0 && name == recase_snake_case(stem)
        },
        FlutterGenAssetsOutputsStyle::CamelCase => {
            ||| rel.len() > 0 && name == recase_camel_case(rel) + recase_pascal_case(stem)
            ||| rel.len() == 0 && name == recase_camel_case(stem)
        },
        FlutterGenAssetsOutputsStyle::DotDelimited => {
            ||| rel.len() > 0 && name == recase_dot_case(rel) + seq!['.'] + recase_camel_case(stem)
            ||| rel.len() == 0 && name == recase_camel_case(stem)
        },
    }
}

/// The accessor name of an asset exists exactly when its path has a file
/// stem, and it is the directory below the `assets` directory and the stem,
/// each re-cased by `recase` in the manner of the style.
pub proof fn lemma_dart_usage_syntax_is_recased(
    a: AssetMetadataView,
    style: FlutterGenAssetsOutputsStyle,
)
    ensures
        spec_dart_usage_syntax(a, style) is Some <==> spec_file_stem(a.asset_path) is Some,
        spec_dart_usage_syntax(a, style) matches Some(name) ==> recased_accessor_name(
            spec_without_first_component(a.located_directory),
            spec_file_stem(a.asset_path)->0,
            style,
            name,
        ),
{
}

impl AssetMetadata {
    pub fn new(asset_path: String, located_directory: String) -> (r: Self)
        ensures
            r@.asset_path == asset_path@,
            r@.located_directory == located_directory@,
    {
        Self { asset_path, located_directory }
    }

    pub fn get_located_directory(&self) -> (r: &String)
        ensures
            r@ == self@.located_directory,
    {
        &self.located_directory
    }

    /// Get the absolute path to the asset.
    pub fn get_asset_path(&self) -> (r: &String)
        ensures
            r@ == self@.asset_path,
    {
        &self.asset_path
    }

    /// Compute a String of the possible usage of the asset in the Dart project.
    pub fn compute_dart_usage_syntax(
        &self,
        flutter_gen_assets_outputs_style: &FlutterGenAssetsOutputsStyle,
    ) -> (r: Result<String, AssetMetadataError>)
        ensures
            match r {
                Ok(syntax) => spec_dart_usage_syntax(self@, *flutter_gen_assets_outputs_style)
                    == Some(syntax@),
                Err(AssetMetadataError::RetrieveFileStemError { path }) => spec_dart_usage_syntax(
                    self@,
                    *flutter_gen_assets_outputs_style,
                ) is None && path@ == self@.asset_path,
            },
            r is Ok <==> spec_file_stem(self@.asset_path) is Some,
            r matches Ok(syntax) ==> recased_accessor_name(
                spec_without_first_component(self@.located_directory),
                spec_file_stem(self@.asset_path)->0,
                *flutter_gen_assets_outputs_style,
                syntax@,
            ),
    {
        let file_stem = match path_file_stem(self.asset_path.as_str()) {
            Some(stem) => stem,
            None => {
                return Err(
                    AssetMetadataError::RetrieveFileStemError { path: self.asset_path.clone() },
                );
            },
        };
        // `flutter_gen` doesn't support placing assets outside the Flutter
        // recommended `assets` directory and leaves that directory out of its
        // generated code.
        let relative_asset_path = path_without_first_component(self.located_directory.as_str());
        let has_relative = relative_asset_path.unicode_len() > 0;
        match flutter_gen_assets_outputs_style {
            FlutterGenAssetsOutputsStyle::SnakeCase => {
                let stem_part = snake_case(file_stem.as_str());
                if has_relative {
                    let mut result = snake_case(relative_asset_path.as_str());
                    let underscore = "_";
                    proof {
                        reveal_strlit("_");
                        assert(underscore@ =~= seq!['_']);
                    }
                    result.append(underscore);
                    result.append(stem_part.as_str());
                    Ok(result)
                } else {
                    Ok(stem_part)
                }
            },
            FlutterGenAssetsOutputsStyle::CamelCase => {
                if has_relative {
                    let mut result = camel_case(relative_asset_path.as_str());
                    let stem_part = pascal_case(file_stem.as_str());
                    result.append(stem_part.as_str());
                    Ok(result)
                } else {
                    Ok(camel_case(file_stem.as_str()))
                }
            },
            FlutterGenAssetsOutputsStyle::DotDelimited => {
                let stem_part = camel_case(file_stem.as_str());
                if has_relative {
                    let mut result = dot_case(relative_asset_path.as_str());
                    let dot = ".";
                    proof {
                        reveal_strlit(".");
                        assert(dot@ =~= seq!['.']);
                    }
                    result.append(dot);
                    result.append(stem_part.as_str());
                    Ok(result)
                } else {
                    Ok(stem_part)
                }
            },
        }
    }
}


/// One entry of a directory listing: its file name and whether it is a
/// regular file.
pub struct DirectoryEntry {
    pub file_name: String,
    pub is_file: bool,
}

/// The file name of the macOS folder metadata file, which is never an asset.
pub open spec fn ds_store_name() -> Seq<char> {
    seq!['.', 'D', 'S', '_', 'S', 't', 'o', 'r', 'e']
}

/// A listed entry that is an asset: a regular file other than `.DS_Store`.
pub open spec fn is_listed_asset(e: DirectoryEntry) -> bool {
    e.is_file && e.file_name@ != ds_store_name()
}

/// The asset that a listed entry names, declared by `configured`.
pub open spec fn listed_asset_view(
    project: Seq<char>,
    configured: Seq<char>,
    e: DirectoryEntry,
) -> AssetMetadataView {
    AssetMetadataView {
        asset_path: spec_path_join(spec_path_join(project, configured), e.file_name@),
        located_directory: configured,
    }
}

/// The assets that the listing `entries` of the directory declared as
/// `configured` (relative to the project) contributes, in listing order.
pub open spec fn spec_listed_assets(
    project: Seq<char>,
    configured: Seq<char>,
    entries: Seq<DirectoryEntry>,
) -> Seq<AssetMetadataView>
    decreases entries.len(),
{
    if entries.len() == 0 {
        Seq::empty()
    } else {
        let rest = spec_listed_assets(project, configured, entries.drop_last());
        if is_listed_asset(entries.last()) {
            rest.push(listed_asset_view(project, configured, entries.last()))
        } else {
            rest
        }
    }
}

/// The views of directory listings.
pub open spec fn listings_view(v: Seq<Vec<DirectoryEntry>>) -> Seq<Seq<DirectoryEntry>> {
    v.map_values(|l: Vec<DirectoryEntry>| l@)
}

/// The assets of all declared directories, directory by directory.
pub open spec fn spec_parsed_assets(
    project: Seq<char>,
    configured: Seq<Seq<char>>,
    listings: Seq<Seq<DirectoryEntry>>,
) -> Seq<AssetMetadataView>
    decreases configured.len(),
{
    if configured.len() == 0 || listings.len() == 0 {
        Seq::empty()
    } else {
        spec_parsed_assets(project, configured.drop_last(), listings.drop_last())
            + spec_listed_assets(project, configured.last(), listings.last())
    }
}

/// Collects the assets of the directories that `pubspec.yaml` declares.
///
/// `directory_listings[i]` is the listing of the directory `assets[i]`
/// relative to `flutter_project_path`; every regular file in it other than
/// `.DS_Store` is an asset declared by `assets[i]`.
pub fn parse_pubspec_yaml_assets(
    flutter_project_path: &str,
    assets: &Vec<String>,
    directory_listings: &Vec<Vec<DirectoryEntry>>,
) -> (r: Vec<AssetMetadata>)
    requires
        directory_listings@.len() == assets@.len(),
    ensures
        assets_view(r@) == spec_parsed_assets(
            flutter_project_path@,
            strings_view(assets@),
            listings_view(directory_listings@),
        ),
{
    let ghost project = flutter_project_path@;
    let ghost cv = strings_view(assets@);
    let ghost lv = listings_view(directory_listings@);
    let ds_store = ".DS_Store";
    proof {
        reveal_strlit(".DS_Store");
        assert(ds_store@ =~= ds_store_name());
    }
    let mut asset_metadatum: Vec<AssetMetadata> = Vec::new();
    let mut i: usize = 0;
    assert(assets_view(asset_metadatum@) =~= spec_parsed_assets(project, cv.take(0), lv.take(0)));
    while i < assets.len()
        invariant
            directory_listings@.len() == assets@.len(),
            project == flutter_project_path@,
            cv == strings_view(assets@),
            lv == listings_view(directory_listings@),
            ds_store@ == ds_store_name(),
            i <= assets@.len(),
            assets_view(asset_metadatum@) == spec_parsed_assets(
                project,
                cv.take(i as int),
                lv.take(i as int),
            ),
        decreases assets@.len() - i,
    {
        let configured_asset = &assets[i];
        let located_directory = path_join(flutter_project_path, configured_asset.as_str());
        let entries = &directory_listings[i];
        let ghost before = assets_view(asset_metadatum@);
        assert(before =~= before + spec_listed_assets(project, cv[i as int], entries@.take(0)));
        let mut j: usize = 0;
        while j < entries.len()
            invariant
                project == flutter_project_path@,
                configured_asset@ == cv[i as int],
                located_directory@ == spec_path_join(project, cv[i as int]),
                ds_store@ == ds_store_name(),
                j <= entries@.len(),
                assets_view(asset_metadatum@) == before + spec_listed_assets(
                    project,
                    cv[i as int],
                    entries@.take(j as int),
                ),
            decreases entries@.len() - j,
        {
            let entry = &entries[j];
            let ghost prev = entries@.take(j as int);
            assert(entries@.take(j + 1).drop_last() =~= prev);
            assert(entries@.take(j + 1).last() == *entry);
            let keep = entry.is_file && !str_equal(entry.file_name.as_str(), ds_store);
            if keep {
                let asset_path = path_join(located_directory.as_str(), entry.file_name.as_str());
                let asset = AssetMetadata::new(asset_path, configured_asset.clone());
                let ghost old_view = assets_view(asset_metadatum@);
                assert(asset@ == listed_asset_view(project, cv[i as int], *entry));
                asset_metadatum.push(asset);
                assert(assets_view(asset_metadatum@) =~= old_view.push(asset@));
            }
            j += 1;
            assert(assets_view(asset_metadatum@) =~= before + spec_listed_assets(
                project,
                cv[i as int],
                entries@.take(j as int),
            ));
        }
        assert(entries@.take(entries@.len() as int) =~= entries@);
        assert(lv[i as int] == entries@);
        assert(cv.take(i + 1).drop_last() =~= cv.take(i as int));
        assert(lv.take(i + 1).drop_last() =~= lv.take(i as int));
        i += 1;
    }
    assert(cv.take(i as int) =~= cv);
    assert(lv.take(i as int) =~= lv);
    asset_metadatum
}

} // verus!
