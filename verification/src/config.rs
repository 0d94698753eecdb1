//! The effective configuration: the single resolved, immutable settings
//! record that the rendering collaborators consume.  For every mutually
//! exclusive axis exactly one value is selected; no axis is left ambiguous.

use vstd::prelude::*;
use crate::enums::{ShowWhen, ColorScaleArgs, ColorScaleModeArgs, SortArgs, TimeArgs, TimeStyleArgs};

verus! {

/// Which entries of a directory are shown at all.
#[derive(Clone, Copy, Debug, PartialEq, Eq, Structural)]
pub enum Visibility {
    /// Every entry, `.` and `..` included.
    All,
    /// Hidden entries too, but not `.` and `..`.
    AlmostAll,
    /// Dotfiles stay hidden.
    JustFiles,
}

/// The one layout the listing is rendered in.
#[derive(Clone, Copy, Debug, PartialEq, Eq, Structural)]
pub enum Layout {
    Grid,
    Oneline,
    Table,
    Tree,
}

/// Whether, and how deep, directories are entered.
#[derive(Clone, Copy, Debug, PartialEq, Eq, Structural)]
pub enum RecursionMode {
    /// Stay in the listed directories.
    Disabled,
    /// Recurse, printing each directory as its own listing.
    Flat,
    /// Recurse, printing one tree.
    Nested,
}

/// A numeric limit that may be absent; absence delegates the choice to a
/// collaborator outside this core (auto-detection, or no limit at all).
#[derive(Clone, Copy, Debug, PartialEq, Eq, Structural)]
pub enum NumericLimit {
    Unset,
    LimitedTo(usize),
}

/// How file sizes are printed.
#[derive(Clone, Copy, Debug, PartialEq, Eq, Structural)]
pub enum SizeFormat {
    /// Decimal prefixes.
    Decimal,
    /// Binary prefixes.
    BinaryPrefixes,
    /// Plain byte counts.
    Bytes,
}

/// Scale-based coloring: off entirely, or graded over one attribute with one
/// mode.
#[derive(Clone, Copy, Debug, PartialEq, Eq, Structural)]
pub enum ColorScaleChoice {
    Disabled,
    Graded(ColorScaleArgs, ColorScaleModeArgs),
}

/// Which kinds of entries survive filtering.
#[derive(Clone, Copy, Debug, PartialEq, Eq, Structural)]
pub enum EntryFilter {
    Everything,
    OnlyDirs,
    OnlyFiles,
}

/// How Git repository roots are summarized.
#[derive(Clone, Copy, Debug, PartialEq, Eq, Structural)]
pub enum GitRepoMode {
    Disabled,
    WithStatus,
    BranchOnly,
}

/// The resolved rendering configuration.  Constructed once by the precedence
/// resolver, read-only thereafter.
#[derive(Clone, Copy, Debug, PartialEq, Eq, Structural)]
pub struct EffectiveConfiguration {
    /// Hidden-file visibility.
    pub visibility: Visibility,
    /// Entries matched by `.gitignore` are skipped.
    pub git_ignore: bool,
    /// The one active layout.
    pub layout: Layout,
    /// A grid is filled across rather than downwards.
    pub grid_across: bool,
    /// Recursion scope.
    pub recursion: RecursionMode,
    /// Recursion depth limit.
    pub depth_limit: NumericLimit,
    /// Screen width in columns; unset means auto-detect.
    pub width: NumericLimit,
    /// Primary sort key.
    pub sort_key: SortArgs,
    /// Final ordering is flipped.
    pub reverse: bool,
    /// Directories come before other files, on top of the primary key.
    pub dirs_first: bool,
    /// The permissions field is shown in the long layout.
    pub permissions: bool,
    /// Permissions are printed in octal as well.
    pub octal_permissions: bool,
    /// The filesize field is shown.
    pub filesize: bool,
    /// How sizes are printed.
    pub size_format: SizeFormat,
    /// The user field is shown.
    pub user: bool,
    /// The group field is shown.
    pub group: bool,
    /// The group is shown only when it differs from the owner.
    pub smart_group: bool,
    /// Numeric user and group IDs instead of names.
    pub numeric_ids: bool,
    /// The time field is shown.
    pub time_shown: bool,
    /// Which timestamp the time field carries.
    pub time_field: TimeArgs,
    /// How timestamps are formatted.
    pub time_style: TimeStyleArgs,
    /// Per-file Git status column.
    pub git_status: bool,
    /// Git repository root summaries.
    pub git_repos: GitRepoMode,
    /// When terminal colours are used.
    pub color: ShowWhen,
    /// Scale-based coloring.
    pub color_scale: ColorScaleChoice,
    /// When icons are displayed.
    pub icons: ShowWhen,
    /// Entries are rendered as hyperlinks.
    pub hyperlink: bool,
    /// Type indicators follow file names.
    pub classify: bool,
    /// Symbolic links are dereferenced.
    pub dereference: bool,
    /// File names that need it are quoted.
    pub quotes: bool,
    /// Symbolic links are listed at all.
    pub symlinks: bool,
    /// Which kinds of entries are listed at all.
    pub filter: EntryFilter,
    /// Mount details are shown.
    pub mounts: bool,
    /// Inode numbers are shown.
    pub inode: bool,
    /// Hard-link counts are shown.
    pub links: bool,
    /// Allocated block sizes are shown.
    pub blocksize: bool,
    /// Header rows above the columns.
    pub header: bool,
    /// Security contexts are shown.
    pub security_context: bool,
    /// Extended attributes are shown.
    pub extended: bool,
    /// File flags are shown.
    pub file_flags: bool,
    /// Directory sizes are totalled over their contents.
    pub total_size: bool,
    /// Entries to list come from standard input.
    pub from_stdin: bool,
}

} // verus!
