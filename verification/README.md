# flutter_assets_tool

Finds the assets of a Flutter project that no Dart file uses, removes them,
and migrates asset accessors (from `asset_gen`, or between `flutter_gen`
styles).

- `src/` is the library, verified with Verus: the path model (`paths`), the
  accessor names of assets (`asset_metadata`), the accessor patterns
  (`asset_usage`, over the `regex` crate in `regex_engine`), ignoring assets
  (`filter_ignored_assets`), finding unused assets (`find_unused_assets`),
  rewriting accessors (`migrate`), the configuration file
  (`configuration`), locating the project (`dart_project_relocator`), the
  `list-unused` decision (`list_unused`) and the log lines and log level
  (`logger_format`).
- `app/` is the command-line program: argument parsing, logging, reading and
  writing files, and running the library on what it read.
- `tests/` exercises the library.
