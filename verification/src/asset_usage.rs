//! The regular expressions that recognise asset accessors in Dart code.

use vstd::prelude::*;
use vstd::string::*;

use crate::asset_metadata::{
    assets_view, spec_dart_usage_syntax, AssetMetadata, AssetMetadataError, AssetMetadataView,
};
use crate::flutter::FlutterGenAssetsOutputsStyle;
use crate::paths::strings_view;
use crate::regex_engine::{
    check_regex, check_regex_set, named_captures, regex_compiles, regex_named_captures,
    regex_set_compiles,
};

verus! {

/// The capture group that holds the asset name in the usage patterns.
pub const ASSET_USAGE_REGEX_ASSET_PATH_GROUP_NAME: &'static str = "assetPath";

/// An accessor generated by `asset_gen`: `R.assets_<name>`, with any
/// whitespace around the dot.
pub const ASSETS_PREFIXED_ASSET_USAGE_REGEX: &'static str = r#"R(\s*)\.(\s*)assets_(?<assetPath>\w+)"#;

/// What follows the class name in a `flutter_gen` accessor:
/// `.<name>.path`, with any whitespace around the first dot.
pub const ASSET_USAGE_REGEX_SUFFIX: &'static str = r#"(\s*)\.(\s*)(?<assetPath>\w+)\.path"#;

/// A dot with any whitespace around it.
pub const WHITESPACE_TOLERANT_DOT: &'static str = r#"(\s*)\.(\s*)"#;

/// The pattern of any `flutter_gen` accessor of the class `class_name`.
pub fn get_asset_usage_regex(class_name: &str) -> (r: String)
    ensures
        r@ == class_name@ + ASSET_USAGE_REGEX_SUFFIX@,
{
    let mut r = class_name.to_owned();
    r.append(ASSET_USAGE_REGEX_SUFFIX);
    r
}


/// The texts that the captures hold, skipping captures that did not take
/// part in their match.
pub open spec fn somes(s: Seq<Option<Seq<char>>>) -> Seq<Seq<char>>
    decreases s.len(),
{
    if s.len() == 0 {
        Seq::empty()
    } else {
        match s.last() {
            Some(x) => somes(s.drop_last()).push(x),
            None => somes(s.drop_last()),
        }
    }
}

/// The asset names that the accessors matched by `pattern` in `code` use.
pub open spec fn spec_asset_usages(pattern: Seq<char>, code: Seq<char>) -> Seq<Seq<char>> {
    somes(regex_named_captures(pattern, ASSET_USAGE_REGEX_ASSET_PATH_GROUP_NAME@, code))
}

/// Finds the asset names in the accessors that `pattern` matches in `code`,
/// in order of appearance; fails when `pattern` does not compile.
pub fn find_asset_usages(pattern: &str, code: &str) -> (r: Result<Vec<String>, regex::Error>)
    ensures
        r is Ok == regex_compiles(pattern@),
        r matches Ok(v) ==> strings_view(v@) == spec_asset_usages(pattern@, code@),
{
    let captures = named_captures(pattern, ASSET_USAGE_REGEX_ASSET_PATH_GROUP_NAME, code)?;
    let ghost cv = crate::regex_engine::opt_strings_view(captures@);
    let mut names: Vec<String> = Vec::new();
    let mut i: usize = 0;
    assert(cv.take(0) =~= Seq::<Option<Seq<char>>>::empty());
    while i < captures.len()
        invariant
            cv == crate::regex_engine::opt_strings_view(captures@),
            i <= captures@.len(),
            strings_view(names@) == somes(cv.take(i as int)),
        decreases captures@.len() - i,
    {
        assert(cv.take(i + 1).drop_last() =~= cv.take(i as int));
        assert(cv.take(i + 1).last() == cv[i as int]);
        match &captures[i] {
            Some(name) => {
                let ghost before = strings_view(names@);
                names.push(name.clone());
                assert(strings_view(names@) =~= before.push(name@));
            },
            None => {},
        }
        i += 1;
    }
    assert(cv.take(i as int) =~= cv);
    Ok(names)
}

/// `s` with each `.` replaced by a whitespace-tolerant dot; this is what
/// splitting `s` at its dots and joining the parts with
/// `WHITESPACE_TOLERANT_DOT` gives.
pub open spec fn spec_replace_dots(s: Seq<char>) -> Seq<char>
    decreases s.len(),
{
    if s.len() == 0 {
        Seq::empty()
    } else {
        spec_replace_dots(s.drop_last()) + if s.last() == '.' {
            WHITESPACE_TOLERANT_DOT@
        } else {
            seq![s.last()]
        }
    }
}

/// The text `.path`.
pub open spec fn path_accessor_suffix() -> Seq<char> {
    seq!['.', 'p', 'a', 't', 'h']
}

/// The pattern of the accessor `<class_name>.<asset_name>.path`, tolerating
/// whitespace around each dot.
pub open spec fn spec_usage_pattern(class_name: Seq<char>, asset_name: Seq<char>) -> Seq<char> {
    spec_replace_dots(class_name + seq!['.'] + asset_name + path_accessor_suffix())
}

fn replace_dots(s: &str) -> (r: String)
    ensures
        r@ == spec_replace_dots(s@),
{
    let n = s.unicode_len();
    let mut r = String::new();
    let mut i: usize = 0;
    assert(s@.take(0) =~= Seq::<char>::empty());
    while i < n
        invariant
            n == s@.len(),
            i <= n,
            r@ == spec_replace_dots(s@.take(i as int)),
        decreases n - i,
    {
        assert(s@.take(i + 1).drop_last() =~= s@.take(i as int));
        assert(s@.take(i + 1).last() == s@[i as int]);
        let piece = s.substring_char(i, i + 1);
        assert(piece@ =~= seq![s@[i as int]]);
        if s.get_char(i) == '.' {
            r.append(WHITESPACE_TOLERANT_DOT);
        } else {
            r.append(piece);
        }
        i += 1;
    }
    assert(s@.take(n as int) =~= s@);
    r
}

/// The pattern of the accessor `<class_name>.<asset_name>.path` (see
/// `spec_usage_pattern`).
pub fn compute_asset_usage_pattern(class_name: &str, asset_name: &str) -> (r: String)
    ensures
        r@ == spec_usage_pattern(class_name@, asset_name@),
{
    let mut accessor = class_name.to_owned();
    let dot = ".";
    let suffix = ".path";
    proof {
        reveal_strlit(".");
        reveal_strlit(".path");
        assert(dot@ =~= seq!['.']);
        assert(suffix@ =~= path_accessor_suffix());
    }
    accessor.append(dot);
    accessor.append(asset_name);
    accessor.append(suffix);
    replace_dots(accessor.as_str())
}

/// The pattern of the accessor of `a` in `style`, when `a` has one.
pub open spec fn spec_asset_pattern(
    class_name: Seq<char>,
    a: AssetMetadataView,
    style: FlutterGenAssetsOutputsStyle,
) -> Option<Seq<char>> {
    match spec_dart_usage_syntax(a, style) {
        Some(u) => Some(spec_usage_pattern(class_name, u)),
        None => None,
    }
}

/// Whether `a` has an accessor name whose pattern compiles.
pub open spec fn pattern_ok(
    class_name: Seq<char>,
    a: AssetMetadataView,
    style: FlutterGenAssetsOutputsStyle,
) -> bool {
    spec_asset_pattern(class_name, a, style) matches Some(p) && regex_compiles(p)
}

/// The accessor patterns of `assets`.
pub open spec fn spec_asset_patterns(
    class_name: Seq<char>,
    assets: Seq<AssetMetadataView>,
    style: FlutterGenAssetsOutputsStyle,
) -> Seq<Seq<char>> {
    assets.map_values(|a: AssetMetadataView| spec_asset_pattern(class_name, a, style)->0)
}

/// The accessor patterns of a set of assets, each with its asset, and the
/// same patterns as one set. Every pattern compiles, and so does the set.
pub struct AssetUsageRegexSetGroup {
    regex_set: Vec<String>,
    regexes: Vec<(String, AssetMetadata)>,
}

/// The abstract value of an `AssetUsageRegexSetGroup`.
pub struct AssetUsageRegexSetGroupView {
    pub regex_set: Seq<Seq<char>>,
    pub regexes: Seq<(Seq<char>, AssetMetadataView)>,
}

/// The views of pattern and asset pairs.
pub open spec fn pairs_view(v: Seq<(String, AssetMetadata)>) -> Seq<(Seq<char>, AssetMetadataView)> {
    v.map_values(|p: (String, AssetMetadata)| (p.0@, p.1@))
}

impl View for AssetUsageRegexSetGroup {
    type V = AssetUsageRegexSetGroupView;

    closed spec fn view(&self) -> AssetUsageRegexSetGroupView {
        AssetUsageRegexSetGroupView {
            regex_set: strings_view(self.regex_set@),
            regexes: pairs_view(self.regexes@),
        }
    }
}

impl AssetUsageRegexSetGroup {
    #[verifier::type_invariant]
    spec fn patterns_compile(self) -> bool {
        &&& regex_set_compiles(strings_view(self.regex_set@))
        &&& forall|i: int| 0 <= i < self.regexes@.len() ==> regex_compiles(#[trigger] self.regexes@[i].0@)
    }

    /// The patterns, as one set.
    pub fn regex_set(&self) -> (r: &Vec<String>)
        ensures
            strings_view(r@) == self@.regex_set,
            regex_set_compiles(self@.regex_set),
    {
        proof {
            use_type_invariant(self);
        }
        &self.regex_set
    }

    /// The patterns, each with its asset.
    pub fn regexes(&self) -> (r: &Vec<(String, AssetMetadata)>)
        ensures
            pairs_view(r@) == self@.regexes,
            forall|i: int| 0 <= i < r@.len() ==> regex_compiles(#[trigger] r@[i].0@),
    {
        proof {
            use_type_invariant(self);
        }
        &self.regexes
    }
}

/// Why the accessor patterns of a set of assets could not be built.
#[derive(Debug)]
pub enum ComputeAssetUsageRegexSetError {
    RegexSetError(regex::Error),
    AssetMetadataError(AssetMetadataError),
}

/// The error that building the accessor patterns of `av` for the class
/// `class_name` in `style` reports: `AssetMetadataError` naming the first
/// asset without an accessor name, or `RegexSetError` when, before any such
/// asset, a pattern does not compile, or when every pattern compiles but the
/// set of them does not.
pub open spec fn spec_group_error(
    class_name: Seq<char>,
    av: Seq<AssetMetadataView>,
    style: FlutterGenAssetsOutputsStyle,
    err: ComputeAssetUsageRegexSetError,
) -> bool {
    match err {
        ComputeAssetUsageRegexSetError::AssetMetadataError(
            AssetMetadataError::RetrieveFileStemError { path },
        ) => exists|k: int|
            #![trigger av[k]]
            0 <= k < av.len() && (forall|i: int|
                0 <= i < k ==> pattern_ok(class_name, #[trigger] av[i], style))
                && spec_asset_pattern(class_name, av[k], style) is None && path@
                == av[k].asset_path,
        ComputeAssetUsageRegexSetError::RegexSetError(_) => (exists|k: int|
            #![trigger av[k]]
            0 <= k < av.len() && (forall|i: int|
                0 <= i < k ==> pattern_ok(class_name, #[trigger] av[i], style))
                && spec_asset_pattern(class_name, av[k], style) is Some && !pattern_ok(
                class_name,
                av[k],
                style,
            )) || ((forall|i: int|
            0 <= i < av.len() ==> pattern_ok(class_name, #[trigger] av[i], style))
            && !regex_set_compiles(spec_asset_patterns(class_name, av, style))),
    }
}

/// Builds the accessor pattern of each asset in `style` for the class
/// `class_name`, and checks that each pattern, and then the set of them,
/// compiles.
///
/// The assets are taken in order; the first one without an accessor name
/// gives `AssetMetadataError`, the first whose pattern does not compile gives
/// `RegexSetError`, and so does a set that does not compile.
pub fn compute_asset_usage_regex_set_group(
    class_name: &str,
    asset_metadatum: &Vec<AssetMetadata>,
    style: FlutterGenAssetsOutputsStyle,
) -> (r: Result<AssetUsageRegexSetGroup, ComputeAssetUsageRegexSetError>)
    ensures
        ({
            let av = assets_view(asset_metadatum@);
            let patterns = spec_asset_patterns(class_name@, av, style);
            match r {
                Ok(g) => {
                    &&& forall|i: int| 0 <= i < av.len() ==> pattern_ok(class_name@, #[trigger] av[i], style)
                    &&& regex_set_compiles(patterns)
                    &&& g@.regex_set == patterns
                    &&& g@.regexes == patterns.zip_with(av)
                },
                Err(err) => spec_group_error(class_name@, av, style, err),
            }
        }),
{
    let ghost av = assets_view(asset_metadatum@);
    let ghost all_patterns = spec_asset_patterns(class_name@, av, style);
    let mut patterns: Vec<String> = Vec::new();
    let mut regexes: Vec<(String, AssetMetadata)> = Vec::new();
    let mut i: usize = 0;
    assert(all_patterns.take(0) =~= Seq::<Seq<char>>::empty());
    while i < asset_metadatum.len()
        invariant
            av == assets_view(asset_metadatum@),
            all_patterns == spec_asset_patterns(class_name@, av, style),
            i <= av.len(),
            forall|j: int| 0 <= j < i ==> pattern_ok(class_name@, #[trigger] av[j], style),
            strings_view(patterns@) == all_patterns.take(i as int),
            pairs_view(regexes@) == all_patterns.take(i as int).zip_with(av.take(i as int)),
            forall|j: int| 0 <= j < regexes@.len() ==> regex_compiles(#[trigger] regexes@[j].0@),
        decreases av.len() - i,
    {
        let asset_metadata = &asset_metadatum[i];
        assert(av[i as int] == asset_metadata@);
        let asset_name = match asset_metadata.compute_dart_usage_syntax(&style) {
            Ok(name) => name,
            Err(err) => {
                return Err(ComputeAssetUsageRegexSetError::AssetMetadataError(err));
            },
        };
        let pattern = compute_asset_usage_pattern(class_name, asset_name.as_str());
        assert(spec_asset_pattern(class_name@, av[i as int], style) == Some(pattern@));
        match check_regex(pattern.as_str()) {
            Ok(()) => {},
            Err(err) => {
                return Err(ComputeAssetUsageRegexSetError::RegexSetError(err));
            },
        }
        let ghost old_patterns = strings_view(patterns@);
        let ghost old_pairs = pairs_view(regexes@);
        patterns.push(pattern.clone());
        let asset_clone = asset_metadata.clone();
        let ghost pair_view = (pattern@, asset_clone@);
        regexes.push((pattern, asset_clone));
        assert(pairs_view(regexes@) =~= old_pairs.push(pair_view));
        proof {
            assert(all_patterns[i as int] == pattern@);
            assert(strings_view(patterns@) =~= all_patterns.take(i + 1));
            assert(all_patterns.len() == av.len());
            let zo = all_patterns.take(i as int).zip_with(av.take(i as int));
            let zn = all_patterns.take(i + 1).zip_with(av.take(i + 1));
            assert(zn.len() == i + 1);
            assert forall|j: int| 0 <= j < i + 1 implies #[trigger] pairs_view(regexes@)[j]
                == zn[j] by {
                if j < i {
                    assert(pairs_view(regexes@)[j] == old_pairs[j]);
                    assert(old_pairs[j] == zo[j]);
                }
            }
            assert(pairs_view(regexes@) =~= zn);
        }
        i += 1;
    }
    assert(all_patterns.take(i as int) =~= all_patterns);
    assert(av.take(i as int) =~= av);
    match check_regex_set(&patterns) {
        Ok(()) => {},
        Err(err) => {
            return Err(ComputeAssetUsageRegexSetError::RegexSetError(err));
        },
    }
    Ok(AssetUsageRegexSetGroup { regex_set: patterns, regexes })
}

} // verus!
