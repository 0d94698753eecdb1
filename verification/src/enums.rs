//! The closed-set option values and their decoders.
//!
//! Every decoder is a total function over arbitrary text: matching is
//! case-insensitive over the ASCII letters, each type owns an alias table,
//! and unknown or empty text falls back to the type's documented default
//! instead of failing.  Strictness towards unknown tokens is the boundary
//! layer's business (see the validity predicates), never the decoder's.

use vstd::prelude::*;
use vstd::string::StrSliceExecFns;
use crate::text::{str_eq_ci, eq_ignore_case, lemma_str_eq_ci_congruent, ascii_uppercase, lemma_uppercase_eq_ci};

verus! {

/// Tri-state activation of a feature relative to terminal auto-detection.
#[derive(Clone, Copy, Debug, PartialEq, Eq, Structural)]
pub enum ShowWhen {
    Always,
    Auto,
    Never,
}

/// Which file attribute a color scale grades, when one is active.
#[derive(Clone, Copy, Debug, PartialEq, Eq, Structural)]
pub enum ColorScaleArgs {
    All,
    Age,
    Size,
}

/// Whether a color scale uses a gradient or fixed steps.
#[derive(Clone, Copy, Debug, PartialEq, Eq, Structural)]
pub enum ColorScaleModeArgs {
    Fixed,
    Gradient,
}

/// The primary sort key of the listing.
#[derive(Clone, Copy, Debug, PartialEq, Eq, Structural)]
pub enum SortArgs {
    Name,
    Size,
    Time,
    Extension,
    Inode,
    Version,
    Created,
    Accessed,
    Modified,
    Changed,
}

/// Which timestamp field the listing shows and sorts on.
#[derive(Clone, Copy, Debug, PartialEq, Eq, Structural)]
pub enum TimeArgs {
    Modified,
    Accessed,
    Created,
    Changed,
}

/// How timestamps are formatted.
#[derive(Clone, Copy, Debug, PartialEq, Eq, Structural)]
pub enum TimeStyleArgs {
    DefaultFormat,
    Iso,
    LongIso,
    FullIso,
    Relative,
}

/// Decoded show-mode of a piece of raw text: empty and unknown text fall back
/// to the documented default, `Auto`.
#[verifier::opaque]
pub open spec fn spec_decode_show_when(s: Seq<char>) -> ShowWhen {
    if s.len() == 0 {
        ShowWhen::Auto
    } else if str_eq_ci(s, "always"@) {
        ShowWhen::Always
    } else if str_eq_ci(s, "auto"@) {
        ShowWhen::Auto
    } else if str_eq_ci(s, "never"@) {
        ShowWhen::Never
    } else {
        ShowWhen::Auto
    }
}

/// The text is in the strictly accepted token set of the show-mode options.
#[verifier::opaque]
pub open spec fn spec_show_when_token(s: Seq<char>) -> bool {
    ||| s.len() == 0
    ||| str_eq_ci(s, "always"@)
    ||| str_eq_ci(s, "auto"@)
    ||| str_eq_ci(s, "never"@)
}

impl ShowWhen {
    /// Total decoder: `always`/`auto`/`never` up to case, anything else the
    /// default `Auto`.
    pub fn decode(s: &str) -> (r: ShowWhen)
        ensures
            r == spec_decode_show_when(s@),
    {
        proof { reveal(spec_decode_show_when); }
        if s.unicode_len() == 0 {
            ShowWhen::Auto
        } else if eq_ignore_case(s, "always") {
            ShowWhen::Always
        } else if eq_ignore_case(s, "auto") {
            ShowWhen::Auto
        } else if eq_ignore_case(s, "never") {
            ShowWhen::Never
        } else {
            ShowWhen::Auto
        }
    }

    /// Membership in the strictly accepted token set; the boundary layer
    /// rejects a show-mode value for which this is false.
    pub fn valid_token(s: &str) -> (r: bool)
        ensures
            r == spec_show_when_token(s@),
    {
        proof { reveal(spec_show_when_token); }
        s.unicode_len() == 0 || eq_ignore_case(s, "always") || eq_ignore_case(s, "auto")
            || eq_ignore_case(s, "never")
    }

    /// Canonical spelling of the variant.
    pub open spec fn spec_name(self) -> Seq<char> {
        match self {
            ShowWhen::Always => "always"@,
            ShowWhen::Auto => "auto"@,
            ShowWhen::Never => "never"@,
        }
    }

    /// Canonical token for the variant.
    pub fn as_str(&self) -> (r: &'static str)
        ensures
            r@ == self.spec_name(),
    {
        match self {
            ShowWhen::Always => "always",
            ShowWhen::Auto => "auto",
            ShowWhen::Never => "never",
        }
    }
}

/// Decoded color-scale kind.  This axis has no default variant: empty or
/// unknown text leaves scale-based coloring off, hence `None`.
#[verifier::opaque]
pub open spec fn spec_decode_color_scale(s: Seq<char>) -> Option<ColorScaleArgs> {
    if s.len() == 0 {
        Option::None
    } else if str_eq_ci(s, "all"@) || str_eq_ci(s, "age,size"@) {
        Option::Some(ColorScaleArgs::All)
    } else if str_eq_ci(s, "age"@) {
        Option::Some(ColorScaleArgs::Age)
    } else if str_eq_ci(s, "size"@) {
        Option::Some(ColorScaleArgs::Size)
    } else {
        Option::None
    }
}

impl ColorScaleArgs {
    /// Total decoder; the alias `age,size` names the same variant as `all`.
    /// Unrecognized text deliberately falls back to "no scale" rather than
    /// failing.
    pub fn decode(s: &str) -> (r: Option<ColorScaleArgs>)
        ensures
            r == spec_decode_color_scale(s@),
    {
        proof { reveal(spec_decode_color_scale); }
        if s.unicode_len() == 0 {
            Option::None
        } else if eq_ignore_case(s, "all") || eq_ignore_case(s, "age,size") {
            Option::Some(ColorScaleArgs::All)
        } else if eq_ignore_case(s, "age") {
            Option::Some(ColorScaleArgs::Age)
        } else if eq_ignore_case(s, "size") {
            Option::Some(ColorScaleArgs::Size)
        } else {
            Option::None
        }
    }

    /// Canonical spelling of the variant.
    pub open spec fn spec_name(self) -> Seq<char> {
        match self {
            ColorScaleArgs::All => "all"@,
            ColorScaleArgs::Age => "age"@,
            ColorScaleArgs::Size => "size"@,
        }
    }

    /// Canonical token for the variant.
    pub fn as_str(&self) -> (r: &'static str)
        ensures
            r@ == self.spec_name(),
    {
        match self {
            ColorScaleArgs::All => "all",
            ColorScaleArgs::Age => "age",
            ColorScaleArgs::Size => "size",
        }
    }
}

/// Decoded color-scale mode: empty and unknown text fall back to the
/// documented default, `Gradient`.
#[verifier::opaque]
pub open spec fn spec_decode_color_scale_mode(s: Seq<char>) -> ColorScaleModeArgs {
    if s.len() == 0 {
        ColorScaleModeArgs::Gradient
    } else if str_eq_ci(s, "fixed"@) {
        ColorScaleModeArgs::Fixed
    } else if str_eq_ci(s, "gradient"@) {
        ColorScaleModeArgs::Gradient
    } else {
        ColorScaleModeArgs::Gradient
    }
}

/// The text is in the strictly accepted token set of the color-scale-mode
/// option.
#[verifier::opaque]
pub open spec fn spec_color_scale_mode_token(s: Seq<char>) -> bool {
    ||| s.len() == 0
    ||| str_eq_ci(s, "fixed"@)
    ||| str_eq_ci(s, "gradient"@)
}

impl ColorScaleModeArgs {
    /// Total decoder: `fixed` or `gradient` up to case, anything else the
    /// default `Gradient`.
    pub fn decode(s: &str) -> (r: ColorScaleModeArgs)
        ensures
            r == spec_decode_color_scale_mode(s@),
    {
        proof { reveal(spec_decode_color_scale_mode); }
        if s.unicode_len() == 0 {
            ColorScaleModeArgs::Gradient
        } else if eq_ignore_case(s, "fixed") {
            ColorScaleModeArgs::Fixed
        } else {
            ColorScaleModeArgs::Gradient
        }
    }

    /// Membership in the strictly accepted token set.
    pub fn valid_token(s: &str) -> (r: bool)
        ensures
            r == spec_color_scale_mode_token(s@),
    {
        proof { reveal(spec_color_scale_mode_token); }
        s.unicode_len() == 0 || eq_ignore_case(s, "fixed") || eq_ignore_case(s, "gradient")
    }

    /// Canonical spelling of the variant.
    pub open spec fn spec_name(self) -> Seq<char> {
        match self {
            ColorScaleModeArgs::Fixed => "fixed"@,
            ColorScaleModeArgs::Gradient => "gradient"@,
        }
    }

    /// Canonical token for the variant.
    pub fn as_str(&self) -> (r: &'static str)
        ensures
            r@ == self.spec_name(),
    {
        match self {
            ColorScaleModeArgs::Fixed => "fixed",
            ColorScaleModeArgs::Gradient => "gradient",
        }
    }
}

/// Decoded sort key.  Empty text and the aliases `age` and `date` name
/// time-ordering; unknown text falls back to the documented default, `Name`.
#[verifier::opaque]
pub open spec fn spec_decode_sort(s: Seq<char>) -> SortArgs {
    if s.len() == 0 {
        SortArgs::Time
    } else if str_eq_ci(s, "name"@) {
        SortArgs::Name
    } else if str_eq_ci(s, "size"@) {
        SortArgs::Size
    } else if str_eq_ci(s, "time"@) || str_eq_ci(s, "age"@) || str_eq_ci(s, "date"@) {
        SortArgs::Time
    } else if str_eq_ci(s, "extension"@) {
        SortArgs::Extension
    } else if str_eq_ci(s, "inode"@) {
        SortArgs::Inode
    } else if str_eq_ci(s, "version"@) {
        SortArgs::Version
    } else if str_eq_ci(s, "created"@) {
        SortArgs::Created
    } else if str_eq_ci(s, "accessed"@) {
        SortArgs::Accessed
    } else if str_eq_ci(s, "modified"@) {
        SortArgs::Modified
    } else if str_eq_ci(s, "changed"@) {
        SortArgs::Changed
    } else {
        SortArgs::Name
    }
}

impl SortArgs {
    /// Total decoder over free sort-key text.
    pub fn decode(s: &str) -> (r: SortArgs)
        ensures
            r == spec_decode_sort(s@),
    {
        proof { reveal(spec_decode_sort); }
        if s.unicode_len() == 0 {
            SortArgs::Time
        } else if eq_ignore_case(s, "name") {
            SortArgs::Name
        } else if eq_ignore_case(s, "size") {
            SortArgs::Size
        } else if eq_ignore_case(s, "time") || eq_ignore_case(s, "age") || eq_ignore_case(s, "date") {
            SortArgs::Time
        } else if eq_ignore_case(s, "extension") {
            SortArgs::Extension
        } else if eq_ignore_case(s, "inode") {
            SortArgs::Inode
        } else if eq_ignore_case(s, "version") {
            SortArgs::Version
        } else if eq_ignore_case(s, "created") {
            SortArgs::Created
        } else if eq_ignore_case(s, "accessed") {
            SortArgs::Accessed
        } else if eq_ignore_case(s, "modified") {
            SortArgs::Modified
        } else if eq_ignore_case(s, "changed") {
            SortArgs::Changed
        } else {
            SortArgs::Name
        }
    }

    /// Canonical spelling of the variant.
    pub open spec fn spec_name(self) -> Seq<char> {
        match self {
            SortArgs::Name => "name"@,
            SortArgs::Size => "size"@,
            SortArgs::Time => "time"@,
            SortArgs::Extension => "extension"@,
            SortArgs::Inode => "inode"@,
            SortArgs::Version => "version"@,
            SortArgs::Created => "created"@,
            SortArgs::Accessed => "accessed"@,
            SortArgs::Modified => "modified"@,
            SortArgs::Changed => "changed"@,
        }
    }

    /// Canonical token for the variant.
    pub fn as_str(&self) -> (r: &'static str)
        ensures
            r@ == self.spec_name(),
    {
        match self {
            SortArgs::Name => "name",
            SortArgs::Size => "size",
            SortArgs::Time => "time",
            SortArgs::Extension => "extension",
            SortArgs::Inode => "inode",
            SortArgs::Version => "version",
            SortArgs::Created => "created",
            SortArgs::Accessed => "accessed",
            SortArgs::Modified => "modified",
            SortArgs::Changed => "changed",
        }
    }
}

/// Decoded time field.  Empty and unknown text fall back to the documented
/// default, `Modified`.
#[verifier::opaque]
pub open spec fn spec_decode_time(s: Seq<char>) -> TimeArgs {
    if s.len() == 0 {
        TimeArgs::Modified
    } else if str_eq_ci(s, "modified"@) {
        TimeArgs::Modified
    } else if str_eq_ci(s, "accessed"@) {
        TimeArgs::Accessed
    } else if str_eq_ci(s, "created"@) {
        TimeArgs::Created
    } else if str_eq_ci(s, "changed"@) {
        TimeArgs::Changed
    } else {
        TimeArgs::Modified
    }
}

impl TimeArgs {
    /// Total decoder over free time-field text.
    pub fn decode(s: &str) -> (r: TimeArgs)
        ensures
            r == spec_decode_time(s@),
    {
        proof { reveal(spec_decode_time); }
        if s.unicode_len() == 0 {
            TimeArgs::Modified
        } else if eq_ignore_case(s, "modified") {
            TimeArgs::Modified
        } else if eq_ignore_case(s, "accessed") {
            TimeArgs::Accessed
        } else if eq_ignore_case(s, "created") {
            TimeArgs::Created
        } else if eq_ignore_case(s, "changed") {
            TimeArgs::Changed
        } else {
            TimeArgs::Modified
        }
    }

    /// Canonical spelling of the variant.
    pub open spec fn spec_name(self) -> Seq<char> {
        match self {
            TimeArgs::Modified => "modified"@,
            TimeArgs::Accessed => "accessed"@,
            TimeArgs::Created => "created"@,
            TimeArgs::Changed => "changed"@,
        }
    }

    /// Canonical token for the variant.
    pub fn as_str(&self) -> (r: &'static str)
        ensures
            r@ == self.spec_name(),
    {
        match self {
            TimeArgs::Modified => "modified",
            TimeArgs::Accessed => "accessed",
            TimeArgs::Created => "created",
            TimeArgs::Changed => "changed",
        }
    }
}

/// Decoded time style: empty and unknown text fall back to the documented
/// default format.
#[verifier::opaque]
pub open spec fn spec_decode_time_style(s: Seq<char>) -> TimeStyleArgs {
    if s.len() == 0 {
        TimeStyleArgs::DefaultFormat
    } else if str_eq_ci(s, "default"@) {
        TimeStyleArgs::DefaultFormat
    } else if str_eq_ci(s, "iso"@) {
        TimeStyleArgs::Iso
    } else if str_eq_ci(s, "long-iso"@) {
        TimeStyleArgs::LongIso
    } else if str_eq_ci(s, "full-iso"@) {
        TimeStyleArgs::FullIso
    } else if str_eq_ci(s, "relative"@) {
        TimeStyleArgs::Relative
    } else {
        TimeStyleArgs::DefaultFormat
    }
}

/// The text is in the strictly accepted token set of the time-style option.
#[verifier::opaque]
pub open spec fn spec_time_style_token(s: Seq<char>) -> bool {
    ||| s.len() == 0
    ||| str_eq_ci(s, "default"@)
    ||| str_eq_ci(s, "iso"@)
    ||| str_eq_ci(s, "long-iso"@)
    ||| str_eq_ci(s, "full-iso"@)
    ||| str_eq_ci(s, "relative"@)
}

impl TimeStyleArgs {
    /// Total decoder over time-style text.
    pub fn decode(s: &str) -> (r: TimeStyleArgs)
        ensures
            r == spec_decode_time_style(s@),
    {
        proof { reveal(spec_decode_time_style); }
        if s.unicode_len() == 0 {
            TimeStyleArgs::DefaultFormat
        } else if eq_ignore_case(s, "default") {
            TimeStyleArgs::DefaultFormat
        } else if eq_ignore_case(s, "iso") {
            TimeStyleArgs::Iso
        } else if eq_ignore_case(s, "long-iso") {
            TimeStyleArgs::LongIso
        } else if eq_ignore_case(s, "full-iso") {
            TimeStyleArgs::FullIso
        } else if eq_ignore_case(s, "relative") {
            TimeStyleArgs::Relative
        } else {
            TimeStyleArgs::DefaultFormat
        }
    }

    /// Membership in the strictly accepted token set.
    pub fn valid_token(s: &str) -> (r: bool)
        ensures
            r == spec_time_style_token(s@),
    {
        proof { reveal(spec_time_style_token); }
        s.unicode_len() == 0 || eq_ignore_case(s, "default") || eq_ignore_case(s, "iso")
            || eq_ignore_case(s, "long-iso") || eq_ignore_case(s, "full-iso")
            || eq_ignore_case(s, "relative")
    }

    /// Canonical spelling of the variant.
    pub open spec fn spec_name(self) -> Seq<char> {
        match self {
            TimeStyleArgs::DefaultFormat => "default"@,
            TimeStyleArgs::Iso => "iso"@,
            TimeStyleArgs::LongIso => "long-iso"@,
            TimeStyleArgs::FullIso => "full-iso"@,
            TimeStyleArgs::Relative => "relative"@,
        }
    }

    /// Canonical token for the variant.
    pub fn as_str(&self) -> (r: &'static str)
        ensures
            r@ == self.spec_name(),
    {
        match self {
            TimeStyleArgs::DefaultFormat => "default",
            TimeStyleArgs::Iso => "iso",
            TimeStyleArgs::LongIso => "long-iso",
            TimeStyleArgs::FullIso => "full-iso",
            TimeStyleArgs::Relative => "relative",
        }
    }
}

/// Decoding is case-insensitive: two strings equal up to ASCII case decode to
/// the same variant, on every axis.  In particular a string and its
/// upper-cased form always agree.
pub proof fn lemma_decode_case_insensitive(s: Seq<char>, t: Seq<char>)
    requires
        str_eq_ci(s, t),
    ensures
        spec_decode_show_when(s) == spec_decode_show_when(t),
        spec_decode_color_scale(s) == spec_decode_color_scale(t),
        spec_decode_color_scale_mode(s) == spec_decode_color_scale_mode(t),
        spec_decode_sort(s) == spec_decode_sort(t),
        spec_decode_time(s) == spec_decode_time(t),
        spec_decode_time_style(s) == spec_decode_time_style(t),
        spec_show_when_token(s) == spec_show_when_token(t),
        spec_color_scale_mode_token(s) == spec_color_scale_mode_token(t),
        spec_time_style_token(s) == spec_time_style_token(t),
{
    reveal(spec_decode_show_when);
    reveal(spec_show_when_token);
    reveal(spec_decode_color_scale);
    reveal(spec_decode_color_scale_mode);
    reveal(spec_color_scale_mode_token);
    reveal(spec_decode_sort);
    reveal(spec_decode_time);
    reveal(spec_decode_time_style);
    reveal(spec_time_style_token);
    lemma_str_eq_ci_congruent(s, t, "always"@);
    lemma_str_eq_ci_congruent(s, t, "auto"@);
    lemma_str_eq_ci_congruent(s, t, "never"@);
    lemma_str_eq_ci_congruent(s, t, "all"@);
    lemma_str_eq_ci_congruent(s, t, "age,size"@);
    lemma_str_eq_ci_congruent(s, t, "age"@);
    lemma_str_eq_ci_congruent(s, t, "size"@);
    lemma_str_eq_ci_congruent(s, t, "fixed"@);
    lemma_str_eq_ci_congruent(s, t, "gradient"@);
    lemma_str_eq_ci_congruent(s, t, "name"@);
    lemma_str_eq_ci_congruent(s, t, "time"@);
    lemma_str_eq_ci_congruent(s, t, "date"@);
    lemma_str_eq_ci_congruent(s, t, "extension"@);
    lemma_str_eq_ci_congruent(s, t, "inode"@);
    lemma_str_eq_ci_congruent(s, t, "version"@);
    lemma_str_eq_ci_congruent(s, t, "created"@);
    lemma_str_eq_ci_congruent(s, t, "accessed"@);
    lemma_str_eq_ci_congruent(s, t, "modified"@);
    lemma_str_eq_ci_congruent(s, t, "changed"@);
    lemma_str_eq_ci_congruent(s, t, "default"@);
    lemma_str_eq_ci_congruent(s, t, "iso"@);
    lemma_str_eq_ci_congruent(s, t, "long-iso"@);
    lemma_str_eq_ci_congruent(s, t, "full-iso"@);
    lemma_str_eq_ci_congruent(s, t, "relative"@);
}

/// Decoding is unchanged by upper-casing: a string and its ASCII upper-cased
/// form decode to the same variant, on every axis.
pub proof fn lemma_decode_uppercase(s: Seq<char>)
    ensures
        spec_decode_show_when(ascii_uppercase(s)) == spec_decode_show_when(s),
        spec_decode_color_scale(ascii_uppercase(s)) == spec_decode_color_scale(s),
        spec_decode_color_scale_mode(ascii_uppercase(s)) == spec_decode_color_scale_mode(s),
        spec_decode_sort(ascii_uppercase(s)) == spec_decode_sort(s),
        spec_decode_time(ascii_uppercase(s)) == spec_decode_time(s),
        spec_decode_time_style(ascii_uppercase(s)) == spec_decode_time_style(s),
{
    lemma_uppercase_eq_ci(s);
    lemma_decode_case_insensitive(ascii_uppercase(s), s);
}

/// Decoding the empty string yields the documented default of every
/// enumerated axis.
pub proof fn lemma_decode_empty_defaults(s: Seq<char>)
    requires
        s.len() == 0,
    ensures
        spec_decode_show_when(s) == ShowWhen::Auto,
        spec_decode_color_scale(s) == Option::<ColorScaleArgs>::None,
        spec_decode_color_scale_mode(s) == ColorScaleModeArgs::Gradient,
        spec_decode_sort(s) == SortArgs::Time,
        spec_decode_time(s) == TimeArgs::Modified,
        spec_decode_time_style(s) == TimeStyleArgs::DefaultFormat,
{
    reveal(spec_decode_show_when);
    reveal(spec_decode_color_scale);
    reveal(spec_decode_color_scale_mode);
    reveal(spec_decode_sort);
    reveal(spec_decode_time);
    reveal(spec_decode_time_style);
}

} // verus!
