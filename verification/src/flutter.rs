//! The parts of a Flutter project's `pubspec.yaml` that the tool reads, and
//! the location of its `lib` directory.

use vstd::prelude::*;
use vstd::string::*;

use crate::paths::{lemma_parent_of_join, path_join, spec_path_join, spec_path_parent, spec_trim_right};

verus! {

/// The `pubspec.yaml` of a Dart project.
#[derive(Debug, Clone, PartialEq, Eq)]
pub struct PubspecYaml {
    /// The Dart project name.
    pub name: String,
    pub flutter: Flutter,
    pub flutter_gen: FlutterGen,
}

#[derive(Debug, Clone, PartialEq, Eq)]
pub struct Flutter {
    pub assets: Vec<String>,
}

/// The `flutter_gen` section; see flutter_gen's `config_default.dart` for
/// the schema.
#[derive(Debug, Clone, PartialEq, Eq)]
pub struct FlutterGen {
    pub assets: FlutterGenAssets,
}

#[derive(Debug, Clone, PartialEq, Eq)]
pub struct FlutterGenAssets {
    pub outputs: FlutterGenAssetsOutputs,
}

#[derive(Debug, Clone, PartialEq, Eq)]
pub struct FlutterGenAssetsOutputs {
    pub style: FlutterGenAssetsOutputsStyle,
    pub class_name: String,
}

/// How `flutter_gen` names the generated asset accessors.
#[derive(Debug, Clone, Copy, PartialEq, Eq, Structural)]
pub enum FlutterGenAssetsOutputsStyle {
    SnakeCase,
    CamelCase,
    DotDelimited,
}

/// The name of the directory that holds a Flutter project's Dart sources.
pub open spec fn lib_directory_name() -> Seq<char> {
    seq!['l', 'i', 'b']
}

/// The `lib` directory of the Flutter project at `flutter_project_path`.
pub fn get_flutter_project_lib_path(flutter_project_path: &str) -> (r: String)
    ensures
        r@ == spec_path_join(flutter_project_path@, lib_directory_name()),
{
    let lib = "lib";
    proof {
        reveal_strlit("lib");
        assert(lib@ =~= lib_directory_name());
    }
    path_join(flutter_project_path, lib)
}


/// The parent of a project's `lib` directory is the project directory
/// (written without trailing separators).
pub proof fn lemma_lib_path_parent(flutter_project_path: Seq<char>)
    ensures
        spec_path_parent(spec_path_join(flutter_project_path, lib_directory_name())) == Some(
            spec_trim_right(flutter_project_path),
        ),
{
    assert forall|i: int| 0 <= i < lib_directory_name().len() implies lib_directory_name()[i]
        != '/' by {}
    assert(lib_directory_name() != seq!['.']);
    lemma_parent_of_join(flutter_project_path, lib_directory_name());
}

} // verus!
