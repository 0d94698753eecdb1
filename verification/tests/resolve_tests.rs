use eza_opts::config::{
    ColorScaleChoice, EntryFilter, GitRepoMode, Layout, NumericLimit, RecursionMode, SizeFormat,
    Visibility,
};
use eza_opts::enums::{ColorScaleArgs, ColorScaleModeArgs, ShowWhen, SortArgs, TimeArgs, TimeStyleArgs};
use eza_opts::invocation::Opts;
use eza_opts::resolve::{resolve_invocation, BoundaryError};

#[test]
fn everything_absent_resolves_to_the_documented_defaults() {
    let cfg = resolve_invocation(&Opts::default()).unwrap();
    assert_eq!(cfg.visibility, Visibility::JustFiles);
    assert!(!cfg.git_ignore);
    assert_eq!(cfg.layout, Layout::Grid);
    assert!(!cfg.grid_across);
    assert_eq!(cfg.recursion, RecursionMode::Disabled);
    assert_eq!(cfg.depth_limit, NumericLimit::Unset);
    assert_eq!(cfg.width, NumericLimit::Unset);
    assert_eq!(cfg.sort_key, SortArgs::Name);
    assert!(!cfg.reverse);
    assert!(!cfg.dirs_first);
    assert!(cfg.permissions);
    assert!(!cfg.octal_permissions);
    assert!(cfg.filesize);
    assert_eq!(cfg.size_format, SizeFormat::Decimal);
    assert!(cfg.user);
    assert!(!cfg.group);
    assert!(cfg.time_shown);
    assert_eq!(cfg.time_field, TimeArgs::Modified);
    assert_eq!(cfg.time_style, TimeStyleArgs::DefaultFormat);
    assert!(!cfg.git_status);
    assert_eq!(cfg.git_repos, GitRepoMode::Disabled);
    assert_eq!(cfg.color, ShowWhen::Auto);
    assert_eq!(cfg.color_scale, ColorScaleChoice::Disabled);
    assert_eq!(cfg.icons, ShowWhen::Never);
    assert!(cfg.quotes);
    assert!(cfg.symlinks);
    assert_eq!(cfg.filter, EntryFilter::Everything);
}

#[test]
fn all_beats_almost_all_and_suppressed_icons_stay_off() {
    // One invocation that exercises three axes at once: visibility,
    // icon suppression against an explicit positive, and a sort alias.
    let mut o = Opts::default();
    o.all = 1;
    o.no_icons = 1;
    o.icons = Some("auto".to_string());
    o.sort = Some("age".to_string());
    let cfg = resolve_invocation(&o).unwrap();
    assert_eq!(cfg.visibility, Visibility::All);
    assert_eq!(cfg.icons, ShowWhen::Never);
    assert_eq!(cfg.sort_key, SortArgs::Time);
}

#[test]
fn almost_all_alone_changes_only_visibility() {
    let mut o = Opts::default();
    o.almost_all = 1;
    let cfg = resolve_invocation(&o).unwrap();
    assert_eq!(cfg.visibility, Visibility::AlmostAll);

    let mut expected = resolve_invocation(&Opts::default()).unwrap();
    expected.visibility = Visibility::AlmostAll;
    assert_eq!(cfg, expected);
}

#[test]
fn shorthand_time_flags_pick_modified_first() {
    // With several time shorthands and no explicit --time value, the
    // documented priority order is modified, accessed, created, changed.
    let mut o = Opts::default();
    o.modified = 1;
    o.accessed = 1;
    let cfg = resolve_invocation(&o).unwrap();
    assert_eq!(cfg.time_field, TimeArgs::Modified);
}

#[test]
fn shorthand_time_priority_order_is_fixed() {
    let mut o = Opts::default();
    o.accessed = 1;
    o.created = 1;
    o.changed = 1;
    assert_eq!(resolve_invocation(&o).unwrap().time_field, TimeArgs::Accessed);

    let mut o = Opts::default();
    o.created = 1;
    o.changed = 1;
    assert_eq!(resolve_invocation(&o).unwrap().time_field, TimeArgs::Created);

    let mut o = Opts::default();
    o.changed = 1;
    assert_eq!(resolve_invocation(&o).unwrap().time_field, TimeArgs::Changed);
}

#[test]
fn explicit_time_value_beats_every_shorthand() {
    let mut o = Opts::default();
    o.time = Some("changed".to_string());
    o.modified = 3;
    o.accessed = 2;
    let cfg = resolve_invocation(&o).unwrap();
    assert_eq!(cfg.time_field, TimeArgs::Changed);
}

#[test]
fn negative_width_is_a_boundary_error() {
    let mut o = Opts::default();
    o.width = Some("-3".to_string());
    let r = resolve_invocation(&o);
    assert_eq!(r, Err(BoundaryError::InvalidWidth));
    assert!(!r.unwrap_err().message().is_empty());
}

#[test]
fn each_strict_option_has_its_own_error() {
    let mut o = Opts::default();
    o.level = Some("deep".to_string());
    assert_eq!(resolve_invocation(&o), Err(BoundaryError::InvalidLevel));

    let mut o = Opts::default();
    o.color = Some("sometimes".to_string());
    assert_eq!(resolve_invocation(&o), Err(BoundaryError::InvalidColorMode));

    let mut o = Opts::default();
    o.icons = Some("maybe".to_string());
    assert_eq!(resolve_invocation(&o), Err(BoundaryError::InvalidIconMode));

    let mut o = Opts::default();
    o.color_scale_mode = Some("zebra".to_string());
    assert_eq!(resolve_invocation(&o), Err(BoundaryError::InvalidColorScaleMode));

    let mut o = Opts::default();
    o.time_style = Some("epoch".to_string());
    assert_eq!(resolve_invocation(&o), Err(BoundaryError::InvalidTimeStyle));
}

#[test]
fn boundary_errors_come_in_documented_order() {
    let mut o = Opts::default();
    o.width = Some("-3".to_string());
    o.color = Some("sometimes".to_string());
    assert_eq!(resolve_invocation(&o), Err(BoundaryError::InvalidWidth));
}

#[test]
fn resolving_twice_yields_identical_configurations() {
    let mut o = Opts::default();
    o.all = 2;
    o.long = 1;
    o.tree = 1;
    o.sort = Some("SIZE".to_string());
    o.width = Some("132".to_string());
    o.icons = Some("always".to_string());
    let first = resolve_invocation(&o).unwrap();
    let second = resolve_invocation(&o).unwrap();
    assert_eq!(first, second);
}

#[test]
fn suppression_beats_positives_regardless_of_counts() {
    let mut o = Opts::default();
    o.octal = 5;
    o.no_permissions = 1;
    o.git = 3;
    o.no_git = 1;
    o.git_repos = 2;
    o.no_time = 1;
    o.time = Some("accessed".to_string());
    o.no_filesize = 4;
    o.binary = 1;
    o.no_user = 1;
    o.no_quotes = 1;
    o.no_symlinks = 1;
    o.show_symlinks = 9;
    let cfg = resolve_invocation(&o).unwrap();
    assert!(!cfg.permissions);
    assert!(!cfg.octal_permissions);
    assert!(!cfg.git_status);
    assert_eq!(cfg.git_repos, GitRepoMode::Disabled);
    assert!(!cfg.time_shown);
    // Suppressing the time column leaves the chosen field untouched.
    assert_eq!(cfg.time_field, TimeArgs::Accessed);
    assert!(!cfg.filesize);
    assert!(!cfg.user);
    assert!(!cfg.quotes);
    assert!(!cfg.symlinks);
}

#[test]
fn layout_priority_is_tree_table_oneline_grid() {
    let mut o = Opts::default();
    o.tree = 1;
    o.long = 1;
    o.oneline = 1;
    o.grid = 1;
    assert_eq!(resolve_invocation(&o).unwrap().layout, Layout::Tree);

    let mut o = Opts::default();
    o.long = 1;
    o.oneline = 1;
    assert_eq!(resolve_invocation(&o).unwrap().layout, Layout::Table);

    let mut o = Opts::default();
    o.oneline = 1;
    o.grid = 1;
    assert_eq!(resolve_invocation(&o).unwrap().layout, Layout::Oneline);

    let mut o = Opts::default();
    o.across = 1;
    let cfg = resolve_invocation(&o).unwrap();
    assert_eq!(cfg.layout, Layout::Grid);
    assert!(cfg.grid_across);
}

#[test]
fn recursion_modes() {
    let mut o = Opts::default();
    o.tree = 1;
    assert_eq!(resolve_invocation(&o).unwrap().recursion, RecursionMode::Nested);

    let mut o = Opts::default();
    o.recurse = 1;
    assert_eq!(resolve_invocation(&o).unwrap().recursion, RecursionMode::Flat);

    let mut o = Opts::default();
    o.recurse = 1;
    o.list_dirs = 1;
    assert_eq!(resolve_invocation(&o).unwrap().recursion, RecursionMode::Disabled);
}

#[test]
fn numeric_limits_carry_their_values() {
    let mut o = Opts::default();
    o.width = Some("80".to_string());
    o.level = Some("2".to_string());
    let cfg = resolve_invocation(&o).unwrap();
    assert_eq!(cfg.width, NumericLimit::LimitedTo(80));
    assert_eq!(cfg.depth_limit, NumericLimit::LimitedTo(2));
}

#[test]
fn color_scale_needs_a_kind() {
    let mut o = Opts::default();
    o.color_scale = Some("age".to_string());
    o.color_scale_mode = Some("fixed".to_string());
    let cfg = resolve_invocation(&o).unwrap();
    assert_eq!(
        cfg.color_scale,
        ColorScaleChoice::Graded(ColorScaleArgs::Age, ColorScaleModeArgs::Fixed)
    );

    let mut o = Opts::default();
    o.color_scale_mode = Some("fixed".to_string());
    assert_eq!(resolve_invocation(&o).unwrap().color_scale, ColorScaleChoice::Disabled);

    let mut o = Opts::default();
    o.color_scale = Some("rainbow".to_string());
    assert_eq!(resolve_invocation(&o).unwrap().color_scale, ColorScaleChoice::Disabled);
}

#[test]
fn size_format_binary_beats_bytes() {
    let mut o = Opts::default();
    o.binary = 1;
    o.bytes = 1;
    assert_eq!(resolve_invocation(&o).unwrap().size_format, SizeFormat::BinaryPrefixes);

    let mut o = Opts::default();
    o.bytes = 1;
    assert_eq!(resolve_invocation(&o).unwrap().size_format, SizeFormat::Bytes);
}

#[test]
fn empty_sort_value_means_time() {
    let mut o = Opts::default();
    o.sort = Some(String::new());
    assert_eq!(resolve_invocation(&o).unwrap().sort_key, SortArgs::Time);
}

#[test]
fn entry_filter_only_dirs_beats_only_files() {
    let mut o = Opts::default();
    o.only_dirs = 1;
    o.only_files = 1;
    assert_eq!(resolve_invocation(&o).unwrap().filter, EntryFilter::OnlyDirs);

    let mut o = Opts::default();
    o.only_files = 1;
    assert_eq!(resolve_invocation(&o).unwrap().filter, EntryFilter::OnlyFiles);
}

#[test]
fn git_repo_summaries() {
    let mut o = Opts::default();
    o.git_repos = 1;
    o.git_repos_no_status = 1;
    assert_eq!(resolve_invocation(&o).unwrap().git_repos, GitRepoMode::WithStatus);

    let mut o = Opts::default();
    o.git_repos_no_status = 1;
    assert_eq!(resolve_invocation(&o).unwrap().git_repos, GitRepoMode::BranchOnly);
}

#[test]
fn reverse_and_dirs_first_are_independent_of_the_key() {
    let mut o = Opts::default();
    o.reverse = 1;
    o.dirs_first = 1;
    o.sort = Some("extension".to_string());
    let cfg = resolve_invocation(&o).unwrap();
    assert!(cfg.reverse);
    assert!(cfg.dirs_first);
    assert_eq!(cfg.sort_key, SortArgs::Extension);
}
