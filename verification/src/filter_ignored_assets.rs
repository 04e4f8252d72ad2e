//! Dropping the assets that the user asked to ignore.

use vstd::prelude::*;

use crate::asset_metadata::{assets_view, AssetMetadata, AssetMetadataView};
use crate::paths::{path_eq, path_join, spec_path_eq, spec_path_join, strings_view};
use crate::seq_facts::{lemma_filter_agree, lemma_filter_all, lemma_filter_filter};

verus! {

/// Whether the ignore path `ignore` covers the asset `a`: when the path
/// (relative to the project) names a file, the asset at that path; otherwise
/// every asset declared by that directory entry of `pubspec.yaml`. Paths are
/// compared by components.
pub open spec fn spec_ignored_by(
    project: Seq<char>,
    ignore: Seq<char>,
    ignore_is_file: bool,
    a: AssetMetadataView,
) -> bool {
    if ignore_is_file {
        spec_path_eq(a.asset_path, spec_path_join(project, ignore))
    } else {
        spec_path_eq(a.located_directory, ignore)
    }
}

/// Keeps the assets that `ignore` does not cover.
pub open spec fn not_ignored_pred(
    project: Seq<char>,
    ignore: Seq<char>,
    ignore_is_file: bool,
) -> spec_fn(AssetMetadataView) -> bool {
    |a: AssetMetadataView| !spec_ignored_by(project, ignore, ignore_is_file, a)
}

/// Whether none of `ignores` covers `a`; `is_file[i]` tells whether
/// `ignores[i]` names a file.
pub open spec fn spec_kept(
    project: Seq<char>,
    ignores: Seq<Seq<char>>,
    is_file: Seq<bool>,
    a: AssetMetadataView,
) -> bool {
    forall|i: int| 0 <= i < ignores.len() ==> !spec_ignored_by(project, ignores[i], is_file[i], a)
}

/// Keeps the assets that none of `ignores` covers.
pub open spec fn kept_pred(
    project: Seq<char>,
    ignores: Seq<Seq<char>>,
    is_file: Seq<bool>,
) -> spec_fn(AssetMetadataView) -> bool {
    |a: AssetMetadataView| spec_kept(project, ignores, is_file, a)
}

/// Calls `std::path::Path::is_file` on `path`. The answer depends on the
/// file system at the time of the call, so the contract claims nothing of it.
#[verifier::external_body]
fn path_is_file(path: &str) -> bool {
    std::path::Path::new(path).is_file()
}

/// Keeps the assets that one ignore path does not cover.
fn retain_not_ignored(
    flutter_project_path: &str,
    asset_metadatum: Vec<AssetMetadata>,
    ignore_path: &str,
    ignore_is_file: bool,
) -> (r: Vec<AssetMetadata>)
    ensures
        assets_view(r@) == assets_view(asset_metadatum@).filter(
            not_ignored_pred(flutter_project_path@, ignore_path@, ignore_is_file),
        ),
{
    let ghost pred = not_ignored_pred(flutter_project_path@, ignore_path@, ignore_is_file);
    let ghost av = assets_view(asset_metadatum@);
    let absolute_ignore_path = path_join(flutter_project_path, ignore_path);
    let mut kept: Vec<AssetMetadata> = Vec::new();
    let mut i: usize = 0;
    assert(av.take(0).filter(pred) =~= Seq::<AssetMetadataView>::empty()) by {
        reveal(Seq::filter);
    }
    assert(assets_view(kept@) =~= Seq::<AssetMetadataView>::empty());
    while i < asset_metadatum.len()
        invariant
            pred == not_ignored_pred(flutter_project_path@, ignore_path@, ignore_is_file),
            av == assets_view(asset_metadatum@),
            absolute_ignore_path@ == spec_path_join(flutter_project_path@, ignore_path@),
            i <= asset_metadatum@.len(),
            assets_view(kept@) == av.take(i as int).filter(pred),
        decreases asset_metadatum@.len() - i,
    {
        let asset_metadata = &asset_metadatum[i];
        let ignored = if ignore_is_file {
            path_eq(asset_metadata.get_asset_path().as_str(), absolute_ignore_path.as_str())
        } else {
            path_eq(asset_metadata.get_located_directory().as_str(), ignore_path)
        };
        proof {
            assert(av[i as int] == asset_metadata@);
            assert(av.take(i + 1) =~= av.take(i as int).push(asset_metadata@));
            crate::seq_facts::lemma_filter_push(av.take(i as int), pred, asset_metadata@);
        }
        if !ignored {
            let ghost old_view = assets_view(kept@);
            kept.push(asset_metadata.clone());
            assert(assets_view(kept@) =~= old_view.push(asset_metadata@));
        }
        i += 1;
    }
    assert(av.take(i as int) =~= av);
    kept
}

/// Keeps the assets that none of `ignore_path_bufs` covers, given whether
/// each of them names a file (`ignore_is_file[i]` for `ignore_path_bufs[i]`).
pub fn filter_ignored_assets_with(
    flutter_project_path: &str,
    asset_metadatum: Vec<AssetMetadata>,
    ignore_path_bufs: &Vec<String>,
    ignore_is_file: &Vec<bool>,
) -> (r: Vec<AssetMetadata>)
    requires
        ignore_is_file@.len() == ignore_path_bufs@.len(),
    ensures
        assets_view(r@) == assets_view(asset_metadatum@).filter(
            kept_pred(flutter_project_path@, strings_view(ignore_path_bufs@), ignore_is_file@),
        ),
{
    let ghost project = flutter_project_path@;
    let ghost iv = strings_view(ignore_path_bufs@);
    let ghost fv = ignore_is_file@;
    let ghost av = assets_view(asset_metadatum@);
    let mut kept = asset_metadatum;
    let mut i: usize = 0;
    proof {
        lemma_filter_agree(av, kept_pred(project, iv.take(0), fv.take(0)), |a: AssetMetadataView| true);
        assert(av.filter(|a: AssetMetadataView| true) =~= av) by {
            lemma_filter_all(av);
        }
    }
    while i < ignore_path_bufs.len()
        invariant
            project == flutter_project_path@,
            iv == strings_view(ignore_path_bufs@),
            fv == ignore_is_file@,
            fv.len() == iv.len(),
            i <= iv.len(),
            assets_view(kept@) == av.filter(kept_pred(project, iv.take(i as int), fv.take(i as int))),
        decreases iv.len() - i,
    {
        let ghost before = assets_view(kept@);
        kept = retain_not_ignored(
            flutter_project_path,
            kept,
            ignore_path_bufs[i].as_str(),
            ignore_is_file[i],
        );
        proof {
            let p = kept_pred(project, iv.take(i as int), fv.take(i as int));
            let q = not_ignored_pred(project, iv[i as int], fv[i as int]);
            let ivn = iv.take(i + 1);
            let fvn = fv.take(i + 1);
            let ivo = iv.take(i as int);
            let fvo = fv.take(i as int);
            let next = kept_pred(project, ivn, fvn);
            lemma_filter_filter(av, p, q);
            assert forall|j: int| 0 <= j < av.len() implies (|a: AssetMetadataView|
                p(a) && q(a))(#[trigger] av[j]) == next(av[j]) by {
                let a = av[j];
                if p(a) && q(a) {
                    assert forall|k: int| 0 <= k < ivn.len() implies !spec_ignored_by(
                        project,
                        #[trigger] ivn[k],
                        fvn[k],
                        a,
                    ) by {
                        if k < i {
                            assert(ivn[k] == ivo[k]);
                            assert(fvn[k] == fvo[k]);
                        }
                    }
                }
                if next(a) {
                    assert forall|k: int| 0 <= k < ivo.len() implies !spec_ignored_by(
                        project,
                        #[trigger] ivo[k],
                        fvo[k],
                        a,
                    ) by {
                        assert(ivn[k] == ivo[k]);
                        assert(fvn[k] == fvo[k]);
                    }
                    assert(ivn[i as int] == iv[i as int]);
                    assert(fvn[i as int] == fv[i as int]);
                }
            }
            lemma_filter_agree(av, |a: AssetMetadataView| p(a) && q(a), next);
        }
        i += 1;
    }
    assert(iv.take(i as int) =~= iv);
    assert(fv.take(i as int) =~= fv);
    kept
}


/// `output` is `input` without the assets that `ignores` cover, for some
/// answers to whether each ignore path names a file.
pub open spec fn filtered_by_ignore_paths(
    project: Seq<char>,
    ignores: Seq<Seq<char>>,
    input: Seq<AssetMetadataView>,
    output: Seq<AssetMetadataView>,
) -> bool {
    exists|is_file: Seq<bool>|
        is_file.len() == ignores.len() && output == input.filter(
            #[trigger] kept_pred(project, ignores, is_file),
        )
}

/// Drops the assets that `ignore_path_bufs` cover: a path that names a file
/// (relative to the project) drops the asset at that path, any other path
/// drops the assets that `pubspec.yaml` declares with exactly that entry.
///
/// Whether a path names a file is read from the file system, so the contract
/// says that the result is the filter for some such answers.
pub fn filter_ignored_assets(
    flutter_project_path: &str,
    asset_metadatum: Vec<AssetMetadata>,
    ignore_path_bufs: Vec<String>,
) -> (r: Vec<AssetMetadata>)
    ensures
        filtered_by_ignore_paths(
            flutter_project_path@,
            strings_view(ignore_path_bufs@),
            assets_view(asset_metadatum@),
            assets_view(r@),
        ),
{
    let mut ignore_is_file: Vec<bool> = Vec::new();
    let mut i: usize = 0;
    while i < ignore_path_bufs.len()
        invariant
            i <= ignore_path_bufs@.len(),
            ignore_is_file@.len() == i,
        decreases ignore_path_bufs@.len() - i,
    {
        let absolute_ignore_path = path_join(flutter_project_path, ignore_path_bufs[i].as_str());
        ignore_is_file.push(path_is_file(absolute_ignore_path.as_str()));
        i += 1;
    }
    filter_ignored_assets_with(flutter_project_path, asset_metadatum, &ignore_path_bufs, &ignore_is_file)
}


/// Filtering by one list of ignore paths and then by another keeps exactly
/// what filtering once by the two lists together keeps.
pub proof fn lemma_filter_ignored_compose(
    project: Seq<char>,
    assets: Seq<AssetMetadataView>,
    ignores1: Seq<Seq<char>>,
    is_file1: Seq<bool>,
    ignores2: Seq<Seq<char>>,
    is_file2: Seq<bool>,
)
    requires
        is_file1.len() == ignores1.len(),
        is_file2.len() == ignores2.len(),
    ensures
        assets.filter(kept_pred(project, ignores1, is_file1)).filter(
            kept_pred(project, ignores2, is_file2),
        ) == assets.filter(kept_pred(project, ignores1 + ignores2, is_file1 + is_file2)),
{
    let p = kept_pred(project, ignores1, is_file1);
    let q = kept_pred(project, ignores2, is_file2);
    let all_ign = ignores1 + ignores2;
    let all_f = is_file1 + is_file2;
    let both = kept_pred(project, all_ign, all_f);
    let n1 = ignores1.len() as int;
    lemma_filter_filter(assets, p, q);
    assert forall|j: int| 0 <= j < assets.len() implies (|a: AssetMetadataView| p(a) && q(a))(
        #[trigger] assets[j],
    ) == both(assets[j]) by {
        let a = assets[j];
        if p(a) && q(a) {
            assert forall|k: int| 0 <= k < all_ign.len() implies !spec_ignored_by(
                project,
                #[trigger] all_ign[k],
                all_f[k],
                a,
            ) by {
                if k < n1 {
                    assert(all_ign[k] == ignores1[k] && all_f[k] == is_file1[k]);
                } else {
                    assert(all_ign[k] == ignores2[k - n1] && all_f[k] == is_file2[k - n1]);
                }
            }
        }
        if both(a) {
            assert forall|k: int| 0 <= k < ignores1.len() implies !spec_ignored_by(
                project,
                #[trigger] ignores1[k],
                is_file1[k],
                a,
            ) by {
                assert(all_ign[k] == ignores1[k] && all_f[k] == is_file1[k]);
            }
            assert forall|k: int| 0 <= k < ignores2.len() implies !spec_ignored_by(
                project,
                #[trigger] ignores2[k],
                is_file2[k],
                a,
            ) by {
                assert(all_ign[k + n1] == ignores2[k] && all_f[k + n1] == is_file2[k]);
            }
        }
    }
    lemma_filter_agree(assets, |a: AssetMetadataView| p(a) && q(a), both);
}

/// Filtering the result again by the same ignore paths changes nothing.
pub proof fn lemma_filter_ignored_idempotent(
    project: Seq<char>,
    assets: Seq<AssetMetadataView>,
    ignores: Seq<Seq<char>>,
    is_file: Seq<bool>,
)
    ensures
        assets.filter(kept_pred(project, ignores, is_file)).filter(
            kept_pred(project, ignores, is_file),
        ) == assets.filter(kept_pred(project, ignores, is_file)),
{
    let p = kept_pred(project, ignores, is_file);
    lemma_filter_filter(assets, p, p);
    lemma_filter_agree(assets, |a: AssetMetadataView| p(a) && p(a), p);
}

/// Given whether each ignore path names a file: an ignore path that names a
/// file drops the asset at that path (joined to the project), one that does
/// not drops every asset declared by exactly that directory entry, and an
/// asset of the input that no ignore path covers in either way stays.
pub proof fn lemma_ignore_paths_drop_what_they_name(
    project: Seq<char>,
    assets: Seq<AssetMetadataView>,
    ignores: Seq<Seq<char>>,
    is_file: Seq<bool>,
    a: AssetMetadataView,
)
    requires
        is_file.len() == ignores.len(),
    ensures
        forall|i: int|
            0 <= i < ignores.len() && #[trigger] is_file[i] && spec_path_eq(
                a.asset_path,
                spec_path_join(project, ignores[i]),
            ) ==> !assets.filter(kept_pred(project, ignores, is_file)).contains(a),
        forall|i: int|
            0 <= i < ignores.len() && !#[trigger] is_file[i] && spec_path_eq(
                a.located_directory,
                ignores[i],
            ) ==> !assets.filter(kept_pred(project, ignores, is_file)).contains(a),
        assets.contains(a) && (forall|i: int|
            0 <= i < ignores.len() ==> !(#[trigger] is_file[i] && spec_path_eq(
                a.asset_path,
                spec_path_join(project, ignores[i]),
            )) && !(!is_file[i] && spec_path_eq(a.located_directory, ignores[i])))
            ==> assets.filter(kept_pred(project, ignores, is_file)).contains(a),
{
    broadcast use vstd::seq_lib::group_filter_ensures;

    let pred = kept_pred(project, ignores, is_file);
    let kept = assets.filter(pred);
    if kept.contains(a) {
        let k = choose|k: int| 0 <= k < kept.len() && kept[k] == a;
        assert(pred(kept[k]));
        assert(spec_kept(project, ignores, is_file, a));
    }
    if assets.contains(a) && (forall|i: int|
        0 <= i < ignores.len() ==> !(#[trigger] is_file[i] && spec_path_eq(
            a.asset_path,
            spec_path_join(project, ignores[i]),
        )) && !(!is_file[i] && spec_path_eq(a.located_directory, ignores[i]))) {
        let k = choose|k: int| 0 <= k < assets.len() && assets[k] == a;
        assert forall|i: int| 0 <= i < ignores.len() implies !spec_ignored_by(
            project,
            ignores[i],
            is_file[i],
            a,
        ) by {
            assert(is_file[i] || !is_file[i]);
        }
        assert(pred(assets[k]));
    }
}

} // verus!
