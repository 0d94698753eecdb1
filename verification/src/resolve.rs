//! The precedence resolver and its boundary validation.
//!
//! Resolution proceeds through independent axes; within each axis an explicit
//! precedence order applies, earlier winning regardless of occurrence count or
//! argument position.  The resolver itself is pure and total: malformed
//! numeric text and tokens outside a strictly closed set are rejected by the
//! boundary validation before the resolver ever runs.

use vstd::prelude::*;
use crate::config::{
    ColorScaleChoice, EffectiveConfiguration, EntryFilter, GitRepoMode, Layout, NumericLimit,
    RecursionMode, SizeFormat, Visibility,
};
use crate::enums::{
    ColorScaleArgs, ColorScaleModeArgs, ShowWhen, SortArgs, TimeArgs, TimeStyleArgs,
    spec_decode_color_scale, spec_decode_color_scale_mode, spec_decode_show_when, spec_decode_sort,
    spec_decode_time, spec_decode_time_style, spec_color_scale_mode_token, spec_show_when_token,
    spec_time_style_token,
};
use crate::invocation::Opts;
use crate::text::{digits_value, parse_number, valid_number_text};

verus! {

/// A usage error of the boundary layer: the raw invocation held text that a
/// strictly validated option refuses.  The resolver is never run on such an
/// invocation.
#[derive(Clone, Copy, Debug, PartialEq, Eq, Structural)]
pub enum BoundaryError {
    /// The width is not a non-negative integer that fits the machine.
    InvalidWidth,
    /// The recursion depth limit is not a non-negative integer that fits the
    /// machine.
    InvalidLevel,
    /// The color mode is outside `always`/`auto`/`never`.
    InvalidColorMode,
    /// The icon mode is outside `always`/`auto`/`never`.
    InvalidIconMode,
    /// The color-scale mode is outside `fixed`/`gradient`.
    InvalidColorScaleMode,
    /// The time style is outside its accepted set.
    InvalidTimeStyle,
}

impl BoundaryError {
    /// The wording of the usage error.
    pub open spec fn spec_message(self) -> Seq<char> {
        match self {
            BoundaryError::InvalidWidth => "--width must be a non-negative integer"@,
            BoundaryError::InvalidLevel => "--level must be a non-negative integer"@,
            BoundaryError::InvalidColorMode => "--color must be one of always, auto, never"@,
            BoundaryError::InvalidIconMode => "--icons must be one of always, auto, never"@,
            BoundaryError::InvalidColorScaleMode => "--color-scale-mode must be fixed or gradient"@,
            BoundaryError::InvalidTimeStyle => "--time-style must be one of default, iso, long-iso, full-iso, relative"@,
        }
    }

    /// A descriptive usage message for the error.
    pub fn message(&self) -> (r: &'static str)
        ensures
            r@ == self.spec_message(),
    {
        match self {
            BoundaryError::InvalidWidth => "--width must be a non-negative integer",
            BoundaryError::InvalidLevel => "--level must be a non-negative integer",
            BoundaryError::InvalidColorMode => "--color must be one of always, auto, never",
            BoundaryError::InvalidIconMode => "--icons must be one of always, auto, never",
            BoundaryError::InvalidColorScaleMode => "--color-scale-mode must be fixed or gradient",
            BoundaryError::InvalidTimeStyle => "--time-style must be one of default, iso, long-iso, full-iso, relative",
        }
    }
}

/// The width text, when present, is a valid non-negative integer.
pub open spec fn spec_width_ok(o: Opts) -> bool {
    match o.width {
        Option::Some(s) => valid_number_text(s@),
        Option::None => true,
    }
}

/// The depth-limit text, when present, is a valid non-negative integer.
pub open spec fn spec_level_ok(o: Opts) -> bool {
    match o.level {
        Option::Some(s) => valid_number_text(s@),
        Option::None => true,
    }
}

/// The color-mode text, when present, is in its strictly accepted token set.
pub open spec fn spec_color_ok(o: Opts) -> bool {
    match o.color {
        Option::Some(s) => spec_show_when_token(s@),
        Option::None => true,
    }
}

/// The icon-mode text, when present, is in its strictly accepted token set.
pub open spec fn spec_icons_ok(o: Opts) -> bool {
    match o.icons {
        Option::Some(s) => spec_show_when_token(s@),
        Option::None => true,
    }
}

/// The color-scale-mode text, when present, is in its strictly accepted token
/// set.
pub open spec fn spec_color_scale_mode_ok(o: Opts) -> bool {
    match o.color_scale_mode {
        Option::Some(s) => spec_color_scale_mode_token(s@),
        Option::None => true,
    }
}

/// The time-style text, when present, is in its strictly accepted token set.
pub open spec fn spec_time_style_ok(o: Opts) -> bool {
    match o.time_style {
        Option::Some(s) => spec_time_style_token(s@),
        Option::None => true,
    }
}

/// The whole invocation passes boundary validation.  Sort-key, time-field and
/// color-scale text is deliberately forgiving and never invalid.
pub open spec fn spec_boundary_ok(o: Opts) -> bool {
    &&& spec_width_ok(o)
    &&& spec_level_ok(o)
    &&& spec_color_ok(o)
    &&& spec_icons_ok(o)
    &&& spec_color_scale_mode_ok(o)
    &&& spec_time_style_ok(o)
}

/// The first boundary error of an invalid invocation, in the fixed order the
/// options are checked: width, level, color, icons, color-scale mode, time
/// style.
pub open spec fn spec_boundary_error(o: Opts) -> BoundaryError {
    if !spec_width_ok(o) {
        BoundaryError::InvalidWidth
    } else if !spec_level_ok(o) {
        BoundaryError::InvalidLevel
    } else if !spec_color_ok(o) {
        BoundaryError::InvalidColorMode
    } else if !spec_icons_ok(o) {
        BoundaryError::InvalidIconMode
    } else if !spec_color_scale_mode_ok(o) {
        BoundaryError::InvalidColorScaleMode
    } else {
        BoundaryError::InvalidTimeStyle
    }
}

/// Hidden-file visibility: "all" beats "almost all" beats hiding dotfiles.
pub open spec fn spec_visibility(o: Opts) -> Visibility {
    if o.all > 0 {
        Visibility::All
    } else if o.almost_all > 0 {
        Visibility::AlmostAll
    } else {
        Visibility::JustFiles
    }
}

/// Layout: when several are requested the most structurally demanding wins,
/// in the order tree, long table, oneline, grid; grid is the default.
pub open spec fn spec_layout(o: Opts) -> Layout {
    if o.tree > 0 {
        Layout::Tree
    } else if o.long > 0 {
        Layout::Table
    } else if o.oneline > 0 {
        Layout::Oneline
    } else {
        Layout::Grid
    }
}

/// Recursion scope: listing directories as files disables recursion outright;
/// otherwise a tree recurses nested, and plain recursion flat.
pub open spec fn spec_recursion(o: Opts) -> RecursionMode {
    if o.list_dirs > 0 {
        RecursionMode::Disabled
    } else if o.tree > 0 {
        RecursionMode::Nested
    } else if o.recurse > 0 {
        RecursionMode::Flat
    } else {
        RecursionMode::Disabled
    }
}

/// Time field: an explicit value always wins over the shorthand flags.  When
/// only shorthands are present, the fixed priority order is modified,
/// accessed, created, changed; absent any flag the field is modified.
pub open spec fn spec_time_field(o: Opts) -> TimeArgs {
    match o.time {
        Option::Some(s) => spec_decode_time(s@),
        Option::None => if o.modified > 0 {
            TimeArgs::Modified
        } else if o.accessed > 0 {
            TimeArgs::Accessed
        } else if o.created > 0 {
            TimeArgs::Created
        } else if o.changed > 0 {
            TimeArgs::Changed
        } else {
            TimeArgs::Modified
        },
    }
}

/// Time style: the decoded explicit value, or the default format.
pub open spec fn spec_time_style(o: Opts) -> TimeStyleArgs {
    match o.time_style {
        Option::Some(s) => spec_decode_time_style(s@),
        Option::None => TimeStyleArgs::DefaultFormat,
    }
}

/// Sort key: the alias-decoded explicit value wins; otherwise the default,
/// sorting by name.
pub open spec fn spec_sort_key(o: Opts) -> SortArgs {
    match o.sort {
        Option::Some(s) => spec_decode_sort(s@),
        Option::None => SortArgs::Name,
    }
}

/// Icon display: suppression always wins, however often and wherever the
/// positive flag was given; otherwise the decoded explicit mode; absent any
/// request, icons stay off.
pub open spec fn spec_icons(o: Opts) -> ShowWhen {
    if o.no_icons > 0 {
        ShowWhen::Never
    } else {
        match o.icons {
            Option::Some(s) => spec_decode_show_when(s@),
            Option::None => ShowWhen::Never,
        }
    }
}

/// Color mode: the decoded explicit value, or the default, `Auto`.
pub open spec fn spec_color(o: Opts) -> ShowWhen {
    match o.color {
        Option::Some(s) => spec_decode_show_when(s@),
        Option::None => ShowWhen::Auto,
    }
}

/// Scale-based coloring: an unset or unrecognized kind disables it entirely,
/// regardless of the color-scale-mode value.
pub open spec fn spec_color_scale(o: Opts) -> ColorScaleChoice {
    match o.color_scale {
        Option::Some(s) => match spec_decode_color_scale(s@) {
            Option::Some(kind) => ColorScaleChoice::Graded(kind, spec_color_scale_mode(o)),
            Option::None => ColorScaleChoice::Disabled,
        },
        Option::None => ColorScaleChoice::Disabled,
    }
}

/// Color-scale mode: the decoded explicit value, or the default, `Gradient`.
pub open spec fn spec_color_scale_mode(o: Opts) -> ColorScaleModeArgs {
    match o.color_scale_mode {
        Option::Some(s) => spec_decode_color_scale_mode(s@),
        Option::None => ColorScaleModeArgs::Gradient,
    }
}

/// Size format: binary prefixes beat plain bytes beat the decimal default.
pub open spec fn spec_size_format(o: Opts) -> SizeFormat {
    if o.binary > 0 {
        SizeFormat::BinaryPrefixes
    } else if o.bytes > 0 {
        SizeFormat::Bytes
    } else {
        SizeFormat::Decimal
    }
}

/// Entry filter: only-directories beats only-files beats listing everything.
pub open spec fn spec_filter(o: Opts) -> EntryFilter {
    if o.only_dirs > 0 {
        EntryFilter::OnlyDirs
    } else if o.only_files > 0 {
        EntryFilter::OnlyFiles
    } else {
        EntryFilter::Everything
    }
}

/// Git repository summaries: suppression wins; then full status beats
/// branch-only.
pub open spec fn spec_git_repos(o: Opts) -> GitRepoMode {
    if o.no_git > 0 {
        GitRepoMode::Disabled
    } else if o.git_repos > 0 {
        GitRepoMode::WithStatus
    } else if o.git_repos_no_status > 0 {
        GitRepoMode::BranchOnly
    } else {
        GitRepoMode::Disabled
    }
}

/// A present numeric limit, as validated text, denotes its digits' value.
pub open spec fn spec_limit(v: Option<String>) -> NumericLimit {
    match v {
        Option::Some(s) => NumericLimit::LimitedTo(digits_value(s@) as usize),
        Option::None => NumericLimit::Unset,
    }
}

/// The whole resolved configuration of one raw invocation.  Each field is the
/// outcome of its own axis; no axis reads another's flags except where the
/// precedence rules say so.
pub open spec fn spec_resolve(o: Opts) -> EffectiveConfiguration {
    EffectiveConfiguration {
        visibility: spec_visibility(o),
        git_ignore: o.git_ignore > 0,
        layout: spec_layout(o),
        grid_across: o.across > 0,
        recursion: spec_recursion(o),
        depth_limit: spec_limit(o.level),
        width: spec_limit(o.width),
        sort_key: spec_sort_key(o),
        reverse: o.reverse > 0,
        dirs_first: o.dirs_first > 0,
        permissions: o.no_permissions == 0,
        octal_permissions: o.octal > 0 && o.no_permissions == 0,
        filesize: o.no_filesize == 0,
        size_format: spec_size_format(o),
        user: o.no_user == 0,
        group: o.group > 0,
        smart_group: o.smart_group > 0,
        numeric_ids: o.numeric > 0,
        time_shown: o.no_time == 0,
        time_field: spec_time_field(o),
        time_style: spec_time_style(o),
        git_status: o.git > 0 && o.no_git == 0,
        git_repos: spec_git_repos(o),
        color: spec_color(o),
        color_scale: spec_color_scale(o),
        icons: spec_icons(o),
        hyperlink: o.hyperlink > 0,
        classify: o.classify > 0,
        dereference: o.dereference > 0,
        quotes: o.no_quotes == 0,
        symlinks: o.no_symlinks == 0,
        filter: spec_filter(o),
        mounts: o.mounts > 0,
        inode: o.inode > 0,
        links: o.links > 0,
        blocksize: o.blocksize > 0,
        header: o.header > 0,
        security_context: o.security_context > 0,
        extended: o.extended > 0,
        file_flags: o.file_flags > 0,
        total_size: o.total_size > 0,
        from_stdin: o.stdin > 0,
    }
}

/// Resolved hidden-file visibility of the invocation.
pub fn resolve_visibility(opts: &Opts) -> (r: Visibility)
    ensures
        r == spec_visibility(*opts),
{
    if opts.all > 0 {
        Visibility::All
    } else if opts.almost_all > 0 {
        Visibility::AlmostAll
    } else {
        Visibility::JustFiles
    }
}

/// Resolved layout of the invocation.
pub fn resolve_layout(opts: &Opts) -> (r: Layout)
    ensures
        r == spec_layout(*opts),
{
    if opts.tree > 0 {
        Layout::Tree
    } else if opts.long > 0 {
        Layout::Table
    } else if opts.oneline > 0 {
        Layout::Oneline
    } else {
        Layout::Grid
    }
}

/// Resolved recursion scope of the invocation.
pub fn resolve_recursion(opts: &Opts) -> (r: RecursionMode)
    ensures
        r == spec_recursion(*opts),
{
    if opts.list_dirs > 0 {
        RecursionMode::Disabled
    } else if opts.tree > 0 {
        RecursionMode::Nested
    } else if opts.recurse > 0 {
        RecursionMode::Flat
    } else {
        RecursionMode::Disabled
    }
}

/// Resolved time field of the invocation.
pub fn resolve_time_field(opts: &Opts) -> (r: TimeArgs)
    ensures
        r == spec_time_field(*opts),
{
    match &opts.time {
        Option::Some(s) => TimeArgs::decode(s.as_str()),
        Option::None => {
            if opts.modified > 0 {
                TimeArgs::Modified
            } else if opts.accessed > 0 {
                TimeArgs::Accessed
            } else if opts.created > 0 {
                TimeArgs::Created
            } else if opts.changed > 0 {
                TimeArgs::Changed
            } else {
                TimeArgs::Modified
            }
        },
    }
}

/// Resolved sort key of the invocation.
pub fn resolve_sort_key(opts: &Opts) -> (r: SortArgs)
    ensures
        r == spec_sort_key(*opts),
{
    match &opts.sort {
        Option::Some(s) => SortArgs::decode(s.as_str()),
        Option::None => SortArgs::Name,
    }
}

/// Resolved icon mode of the invocation.
pub fn resolve_icons(opts: &Opts) -> (r: ShowWhen)
    ensures
        r == spec_icons(*opts),
{
    if opts.no_icons > 0 {
        ShowWhen::Never
    } else {
        match &opts.icons {
            Option::Some(s) => ShowWhen::decode(s.as_str()),
            Option::None => ShowWhen::Never,
        }
    }
}

/// Resolved color mode of the invocation.
pub fn resolve_color(opts: &Opts) -> (r: ShowWhen)
    ensures
        r == spec_color(*opts),
{
    match &opts.color {
        Option::Some(s) => ShowWhen::decode(s.as_str()),
        Option::None => ShowWhen::Auto,
    }
}

/// Resolved scale-based coloring of the invocation.
pub fn resolve_color_scale(opts: &Opts) -> (r: ColorScaleChoice)
    ensures
        r == spec_color_scale(*opts),
{
    match &opts.color_scale {
        Option::Some(s) => match ColorScaleArgs::decode(s.as_str()) {
            Option::Some(kind) => {
                let mode = match &opts.color_scale_mode {
                    Option::Some(m) => ColorScaleModeArgs::decode(m.as_str()),
                    Option::None => ColorScaleModeArgs::Gradient,
                };
                ColorScaleChoice::Graded(kind, mode)
            },
            Option::None => ColorScaleChoice::Disabled,
        },
        Option::None => ColorScaleChoice::Disabled,
    }
}

/// Resolved numeric limit of one option's validated text.
fn resolve_limit(v: &Option<String>) -> (r: NumericLimit)
    requires
        match v {
            Option::Some(s) => valid_number_text(s@),
            Option::None => true,
        },
    ensures
        r == spec_limit(*v),
{
    match v {
        Option::Some(s) => match parse_number(s.as_str()) {
            Option::Some(n) => NumericLimit::LimitedTo(n),
            Option::None => {
                // Unreachable: the text was validated at the boundary.
                assert(false);
                NumericLimit::Unset
            },
        },
        Option::None => NumericLimit::Unset,
    }
}

/// The precedence resolver: combines the counts and decoded values of a
/// boundary-validated invocation into the one canonical configuration.  Pure
/// and deterministic: the result is exactly `spec_resolve`, so two runs over
/// the same invocation yield identical configurations.
pub fn resolve(opts: &Opts) -> (r: EffectiveConfiguration)
    requires
        spec_boundary_ok(*opts),
    ensures
        r == spec_resolve(*opts),
{
    EffectiveConfiguration {
        visibility: resolve_visibility(opts),
        git_ignore: opts.git_ignore > 0,
        layout: resolve_layout(opts),
        grid_across: opts.across > 0,
        recursion: resolve_recursion(opts),
        depth_limit: resolve_limit(&opts.level),
        width: resolve_limit(&opts.width),
        sort_key: resolve_sort_key(opts),
        reverse: opts.reverse > 0,
        dirs_first: opts.dirs_first > 0,
        permissions: opts.no_permissions == 0,
        octal_permissions: opts.octal > 0 && opts.no_permissions == 0,
        filesize: opts.no_filesize == 0,
        size_format: if opts.binary > 0 {
            SizeFormat::BinaryPrefixes
        } else if opts.bytes > 0 {
            SizeFormat::Bytes
        } else {
            SizeFormat::Decimal
        },
        user: opts.no_user == 0,
        group: opts.group > 0,
        smart_group: opts.smart_group > 0,
        numeric_ids: opts.numeric > 0,
        time_shown: opts.no_time == 0,
        time_field: resolve_time_field(opts),
        time_style: match &opts.time_style {
            Option::Some(s) => TimeStyleArgs::decode(s.as_str()),
            Option::None => TimeStyleArgs::DefaultFormat,
        },
        git_status: opts.git > 0 && opts.no_git == 0,
        git_repos: if opts.no_git > 0 {
            GitRepoMode::Disabled
        } else if opts.git_repos > 0 {
            GitRepoMode::WithStatus
        } else if opts.git_repos_no_status > 0 {
            GitRepoMode::BranchOnly
        } else {
            GitRepoMode::Disabled
        },
        color: resolve_color(opts),
        color_scale: resolve_color_scale(opts),
        icons: resolve_icons(opts),
        hyperlink: opts.hyperlink > 0,
        classify: opts.classify > 0,
        dereference: opts.dereference > 0,
        quotes: opts.no_quotes == 0,
        symlinks: opts.no_symlinks == 0,
        filter: if opts.only_dirs > 0 {
            EntryFilter::OnlyDirs
        } else if opts.only_files > 0 {
            EntryFilter::OnlyFiles
        } else {
            EntryFilter::Everything
        },
        mounts: opts.mounts > 0,
        inode: opts.inode > 0,
        links: opts.links > 0,
        blocksize: opts.blocksize > 0,
        header: opts.header > 0,
        security_context: opts.security_context > 0,
        extended: opts.extended > 0,
        file_flags: opts.file_flags > 0,
        total_size: opts.total_size > 0,
        from_stdin: opts.stdin > 0,
    }
}

/// Boundary validation followed by resolution: the one entry point that is
/// total over every raw invocation.  It returns the resolved configuration
/// exactly when the invocation passes boundary validation, and otherwise the
/// first usage error in the documented checking order, the resolver never
/// being consulted.
pub fn resolve_invocation(opts: &Opts) -> (r: Result<EffectiveConfiguration, BoundaryError>)
    ensures
        match r {
            Result::Ok(c) => spec_boundary_ok(*opts) && c == spec_resolve(*opts),
            Result::Err(e) => !spec_boundary_ok(*opts) && e == spec_boundary_error(*opts),
        },
{
    match &opts.width {
        Option::Some(s) => {
            if parse_number(s.as_str()).is_none() {
                return Result::Err(BoundaryError::InvalidWidth);
            }
        },
        Option::None => {},
    }
    match &opts.level {
        Option::Some(s) => {
            if parse_number(s.as_str()).is_none() {
                return Result::Err(BoundaryError::InvalidLevel);
            }
        },
        Option::None => {},
    }
    match &opts.color {
        Option::Some(s) => {
            if !ShowWhen::valid_token(s.as_str()) {
                return Result::Err(BoundaryError::InvalidColorMode);
            }
        },
        Option::None => {},
    }
    match &opts.icons {
        Option::Some(s) => {
            if !ShowWhen::valid_token(s.as_str()) {
                return Result::Err(BoundaryError::InvalidIconMode);
            }
        },
        Option::None => {},
    }
    match &opts.color_scale_mode {
        Option::Some(s) => {
            if !ColorScaleModeArgs::valid_token(s.as_str()) {
                return Result::Err(BoundaryError::InvalidColorScaleMode);
            }
        },
        Option::None => {},
    }
    match &opts.time_style {
        Option::Some(s) => {
            if !TimeStyleArgs::valid_token(s.as_str()) {
                return Result::Err(BoundaryError::InvalidTimeStyle);
            }
        },
        Option::None => {},
    }
    Result::Ok(resolve(opts))
}

/// Suppression always wins: whenever a "no-X" flag was given at all, the
/// resolved field X is off, regardless of the order, count or value of every
/// positive request for it in the same invocation.
pub proof fn lemma_suppression_wins(o: Opts)
    ensures
        o.no_icons > 0 ==> spec_resolve(o).icons == ShowWhen::Never,
        o.no_time > 0 ==> !spec_resolve(o).time_shown,
        o.no_permissions > 0 ==> !spec_resolve(o).permissions && !spec_resolve(o).octal_permissions,
        o.no_filesize > 0 ==> !spec_resolve(o).filesize,
        o.no_user > 0 ==> !spec_resolve(o).user,
        o.no_git > 0 ==> !spec_resolve(o).git_status && spec_resolve(o).git_repos
            == GitRepoMode::Disabled,
        o.no_quotes > 0 ==> !spec_resolve(o).quotes,
        o.no_symlinks > 0 ==> !spec_resolve(o).symlinks,
{
}

/// Resolution is deterministic: any two configurations resolved from the same
/// raw invocation are identical, field for field.
pub proof fn lemma_resolve_deterministic(o: Opts, c1: EffectiveConfiguration, c2: EffectiveConfiguration)
    requires
        c1 == spec_resolve(o),
        c2 == spec_resolve(o),
    ensures
        c1 == c2,
{
}

} // verus!
