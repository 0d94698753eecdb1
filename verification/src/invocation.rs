//! The raw invocation: an immutable record of what the user typed.
//!
//! Repeatable toggles are kept as occurrence counts (never booleans, never
//! negative), and every value-bearing option keeps its raw text exactly as
//! given, so that decoding and precedence stay the business of later stages.

use vstd::prelude::*;

verus! {

/// One program invocation, as typed: a count per repeatable toggle and the
/// raw text, when present, of every value-bearing option.  A count of zero
/// means "not requested"; `None` means the option was absent.
pub struct Opts {
    /// Positional path arguments; empty means the current directory, which a
    /// collaborator outside this core supplies.
    pub paths: Vec<String>,
    /// Show hidden files; twice also shows `.` and `..`.
    pub all: u8,
    /// Extended metadata table layout.
    pub long: u8,
    /// Per-file Git status column.
    pub git: u8,
    /// One entry per line.
    pub oneline: u8,
    /// Recurse into directories as a tree.
    pub tree: u8,
    /// Grid layout.
    pub grid: u8,
    /// Sort the grid across rather than downwards.
    pub across: u8,
    /// Recurse into directories.
    pub recurse: u8,
    /// Type indicator after file names.
    pub classify: u8,
    /// Dereference symbolic links.
    pub dereference: u8,
    /// Screen width in columns, as raw text.
    pub width: Option<String>,
    /// When to use colours, as raw text.
    pub color: Option<String>,
    /// Which field a color scale grades, as raw text.
    pub color_scale: Option<String>,
    /// Gradient or fixed color scale, as raw text.
    pub color_scale_mode: Option<String>,
    /// Show hidden files, but not `.` and `..`.
    pub almost_all: u8,
    /// List directories as files, without their contents.
    pub list_dirs: u8,
    /// Recursion depth limit, as raw text.
    pub level: Option<String>,
    /// Reverse the sort order.
    pub reverse: u8,
    /// Sort key, as raw text.
    pub sort: Option<String>,
    /// Pipe-separated glob patterns of files to ignore.
    pub ignore_glob: Option<String>,
    /// Skip files mentioned in `.gitignore`.
    pub git_ignore: u8,
    /// List directories before other files.
    pub dirs_first: u8,
    /// List only directories.
    pub only_dirs: u8,
    /// File sizes with binary prefixes.
    pub binary: u8,
    /// File sizes in plain bytes.
    pub bytes: u8,
    /// Show each file's group.
    pub group: u8,
    /// Numeric user and group IDs.
    pub numeric: u8,
    /// Header row above each column.
    pub header: u8,
    /// When to display icons, as raw text.
    pub icons: Option<String>,
    /// Show each file's inode number.
    pub inode: u8,
    /// Show each file's number of hard links.
    pub links: u8,
    /// Use the modified timestamp field.
    pub modified: u8,
    /// Use the changed timestamp field.
    pub changed: u8,
    /// Show the allocated file system blocks.
    pub blocksize: u8,
    /// Which timestamp field to list, as raw text.
    pub time: Option<String>,
    /// Use the accessed timestamp field.
    pub accessed: u8,
    /// Use the created timestamp field.
    pub created: u8,
    /// How to format timestamps, as raw text.
    pub time_style: Option<String>,
    /// Display entries as hyperlinks.
    pub hyperlink: u8,
    /// Suppress the permissions field.
    pub no_permissions: u8,
    /// Suppress the filesize field.
    pub no_filesize: u8,
    /// Suppress the user field.
    pub no_user: u8,
    /// Suppress the time field.
    pub no_time: u8,
    /// Suppress icons, whatever else asks for them.
    pub no_icons: u8,
    /// Suppress everything Git.
    pub no_git: u8,
    /// Show the status of Git repository roots.
    pub git_repos: u8,
    /// Show only the branch name of Git repository roots.
    pub git_repos_no_status: u8,
    /// Permissions in octal.
    pub octal: u8,
    /// Show the security context column.
    pub security_context: u8,
    /// Show extended attributes.
    pub extended: u8,
    /// Help was requested; the surrounding program answers it.
    pub help: Option<bool>,
    /// Show mount details.
    pub mounts: u8,
    /// List only files.
    pub only_files: u8,
    /// Suppress quotes around file names.
    pub no_quotes: u8,
    /// Show the group only when it differs from the owner.
    pub smart_group: u8,
    /// Directory sizes as the total of their contents.
    pub total_size: u8,
    /// Read the entries to list from standard input.
    pub stdin: u8,
    /// Show file flags.
    pub file_flags: u8,
    /// Hide symbolic links.
    pub no_symlinks: u8,
    /// Show symbolic links.
    pub show_symlinks: u8,
}

/// Nothing was requested: every count is zero and every value absent.  Help
/// carries its explicit "not asked" marker.
pub open spec fn is_default_opts(o: Opts) -> bool {
    &&& o.paths@.len() == 0
    &&& o.all == 0
    &&& o.long == 0
    &&& o.git == 0
    &&& o.oneline == 0
    &&& o.tree == 0
    &&& o.grid == 0
    &&& o.across == 0
    &&& o.recurse == 0
    &&& o.classify == 0
    &&& o.dereference == 0
    &&& o.width is None
    &&& o.color is None
    &&& o.color_scale is None
    &&& o.color_scale_mode is None
    &&& o.almost_all == 0
    &&& o.list_dirs == 0
    &&& o.level is None
    &&& o.reverse == 0
    &&& o.sort is None
    &&& o.ignore_glob is None
    &&& o.git_ignore == 0
    &&& o.dirs_first == 0
    &&& o.only_dirs == 0
    &&& o.binary == 0
    &&& o.bytes == 0
    &&& o.group == 0
    &&& o.numeric == 0
    &&& o.header == 0
    &&& o.icons is None
    &&& o.inode == 0
    &&& o.links == 0
    &&& o.modified == 0
    &&& o.changed == 0
    &&& o.blocksize == 0
    &&& o.time is None
    &&& o.accessed == 0
    &&& o.created == 0
    &&& o.time_style is None
    &&& o.hyperlink == 0
    &&& o.no_permissions == 0
    &&& o.no_filesize == 0
    &&& o.no_user == 0
    &&& o.no_time == 0
    &&& o.no_icons == 0
    &&& o.no_git == 0
    &&& o.git_repos == 0
    &&& o.git_repos_no_status == 0
    &&& o.octal == 0
    &&& o.security_context == 0
    &&& o.extended == 0
    &&& o.help == Option::Some(false)
    &&& o.mounts == 0
    &&& o.only_files == 0
    &&& o.no_quotes == 0
    &&& o.smart_group == 0
    &&& o.total_size == 0
    &&& o.stdin == 0
    &&& o.file_flags == 0
    &&& o.no_symlinks == 0
    &&& o.show_symlinks == 0
}

impl Default for Opts {
    /// The invocation in which nothing at all was typed.
    fn default() -> (r: Opts)
        ensures
            is_default_opts(r),
    {
        Opts {
            paths: Vec::new(),
            all: 0,
            long: 0,
            git: 0,
            oneline: 0,
            tree: 0,
            grid: 0,
            across: 0,
            recurse: 0,
            classify: 0,
            dereference: 0,
            width: Option::None,
            color: Option::None,
            color_scale: Option::None,
            color_scale_mode: Option::None,
            almost_all: 0,
            list_dirs: 0,
            level: Option::None,
            reverse: 0,
            sort: Option::None,
            ignore_glob: Option::None,
            git_ignore: 0,
            dirs_first: 0,
            only_dirs: 0,
            binary: 0,
            bytes: 0,
            group: 0,
            numeric: 0,
            header: 0,
            icons: Option::None,
            inode: 0,
            links: 0,
            modified: 0,
            changed: 0,
            blocksize: 0,
            time: Option::None,
            accessed: 0,
            created: 0,
            time_style: Option::None,
            hyperlink: 0,
            no_permissions: 0,
            no_filesize: 0,
            no_user: 0,
            no_time: 0,
            no_icons: 0,
            no_git: 0,
            git_repos: 0,
            git_repos_no_status: 0,
            octal: 0,
            security_context: 0,
            extended: 0,
            help: Option::Some(false),
            mounts: 0,
            only_files: 0,
            no_quotes: 0,
            smart_group: 0,
            total_size: 0,
            stdin: 0,
            file_flags: 0,
            no_symlinks: 0,
            show_symlinks: 0,
        }
    }
}

} // verus!
