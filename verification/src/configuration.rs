//! The tool's own configuration file, `flutter_assets_tool.yaml`, and the
//! choice of ignore paths between it and the command line.

use vstd::prelude::*;

use crate::paths::{clone_strings, strings_view};

verus! {

/// The contents of `flutter_assets_tool.yaml`.
pub struct FlutterAssetsTool {
    /// The paths to ignore when searching for unused assets (see the
    /// `list-unused` subcommand).
    list_unused_ignore_paths: Option<Vec<String>>,
}

/// The views of an optional vector of strings.
pub open spec fn opt_string_list_view(o: Option<Vec<String>>) -> Option<Seq<Seq<char>>> {
    match o {
        Some(v) => Some(strings_view(v@)),
        None => None,
    }
}

impl View for FlutterAssetsTool {
    type V = Option<Seq<Seq<char>>>;

    closed spec fn view(&self) -> Option<Seq<Seq<char>>> {
        opt_string_list_view(self.list_unused_ignore_paths)
    }
}

impl FlutterAssetsTool {
    pub fn new(list_unused_ignore_paths: Option<Vec<String>>) -> (r: Self)
        ensures
            r@ == opt_string_list_view(list_unused_ignore_paths),
    {
        FlutterAssetsTool { list_unused_ignore_paths }
    }

    /// The configured ignore paths, when the file sets them.
    pub fn get_ignore_paths(&self) -> (r: Option<Vec<String>>)
        ensures
            opt_string_list_view(r) == self@,
    {
        match &self.list_unused_ignore_paths {
            Some(paths) => Some(clone_strings(paths)),
            None => None,
        }
    }
}

/// Why `flutter_assets_tool.yaml` could not be read.
#[derive(Debug)]
pub enum ReadFlutterAssetsToolFileError {
    /// The file could not be opened (most often: there is none).
    OpenFileError { source: std::io::Error },
    /// The file is not a valid configuration.
    ParseFileError { source: serde_yml::Error },
}

/// The ignore paths of the `list-unused` subcommand: those given on the
/// command line when there are any; else those of the configuration file,
/// none when the file sets none or cannot be opened; an invalid
/// configuration file is an error.
pub fn compute_ignore_path_bufs(
    flutter_assets_tool_file_result: Result<FlutterAssetsTool, ReadFlutterAssetsToolFileError>,
    ignore_paths: Option<Vec<String>>,
) -> (r: Result<Vec<String>, serde_yml::Error>)
    ensures
        match ignore_paths {
            Some(paths) => r matches Ok(v) && strings_view(v@) == strings_view(paths@),
            None => match flutter_assets_tool_file_result {
                Ok(tool) => r matches Ok(v) && strings_view(v@) == match tool@ {
                    Some(paths) => paths,
                    None => Seq::empty(),
                },
                Err(ReadFlutterAssetsToolFileError::OpenFileError { .. }) => r matches Ok(v)
                    && v@.len() == 0,
                Err(ReadFlutterAssetsToolFileError::ParseFileError { source }) => r matches Err(
                    e,
                ) && e == source,
            },
        },
{
    match ignore_paths {
        Some(ignore_paths) => Ok(ignore_paths),
        None => match flutter_assets_tool_file_result {
            Ok(flutter_assets_tool_file) => match flutter_assets_tool_file.get_ignore_paths() {
                Some(paths) => Ok(paths),
                None => {
                    let v: Vec<String> = Vec::new();
                    assert(strings_view(v@) =~= Seq::<Seq<char>>::empty());
                    Ok(v)
                },
            },
            Err(err) => match err {
                ReadFlutterAssetsToolFileError::OpenFileError { .. } => Ok(Vec::new()),
                ReadFlutterAssetsToolFileError::ParseFileError { source } => Err(source),
            },
        },
    }
}

} // verus!
