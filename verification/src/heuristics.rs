//! Configuration options related to heuristics: how aggressively the source
//! renderer keeps small items on a single line, and the concrete width
//! thresholds each preference resolves to.
//!
//! The scaled thresholds follow the default widths proportionally: the ratio
//! of the configured maximum line width to the default line width is rounded
//! to the closest tenth, each default width is multiplied by that ratio and
//! rounded to the closest integer (halves rounding up), and a result beyond
//! the machine word saturates at `usize::MAX`.

use vstd::prelude::*;

verus! {

pub const DEFAULT_MAX_LINE_WIDTH: usize = 100;

pub const DEFAULT_FN_CALL_WIDTH: usize = 60;

pub const DEFAULT_ATTR_FN_LIKE_WIDTH: usize = 70;

pub const DEFAULT_STRUCT_LIT_WIDTH: usize = 18;

pub const DEFAULT_STRUCT_VAR_WIDTH: usize = 35;

pub const DEFAULT_ARRAY_WIDTH: usize = 60;

pub const DEFAULT_CHAIN_WIDTH: usize = 60;

pub const DEFAULT_SINGLE_LINE_IF_ELSE_WIDTH: usize = 50;

/// Whitespace-related configuration consumed when resolving heuristics; only
/// the maximum line width matters here.
#[derive(Debug, Clone, Copy, PartialEq, Eq, Structural)]
pub struct Whitespace {
    pub max_width: usize,
}

/// The heuristics fields of the user's raw configuration; `None` means the
/// user left the field unset and the default applies.
#[derive(Debug, Clone, Copy, PartialEq)]
pub struct HeuristicsOptions {
    pub heuristics_pref: Option<HeuristicsPreferences>,
    pub use_small_heuristics: Option<bool>,
}

/// Heuristic settings that can be used to simplify the configuration of the
/// granular width configurations like `struct_lit_width`, `array_width`,
/// etc.
#[derive(Debug, Clone, Copy, PartialEq, Eq, Structural)]
pub enum HeuristicsPreferences {
    /// Turn off any heuristics.
    Off,
    /// Turn on max heuristics.
    Max,
    /// Use scaled values based on the value of `max_width`.
    Scaled,
}

/// 'small' heuristic values: the width up to which each kind of item is
/// still formatted on a single line.
#[derive(Debug, Clone, Copy, PartialEq, Eq, Structural)]
pub struct WidthHeuristics {
    /// Maximum width of the args of a function call before falling back to
    /// vertical formatting.
    pub fn_call_width: usize,
    /// Maximum width of the args of a function-like attribute before falling
    /// back to vertical formatting.
    pub attr_fn_like_width: usize,
    /// Maximum width in the body of a struct literal before falling back to
    /// vertical formatting.
    pub struct_lit_width: usize,
    /// Maximum width in the body of a struct variant before falling back to
    /// vertical formatting.
    pub struct_variant_width: usize,
    /// Maximum width of an array literal before falling back to vertical
    /// formatting.
    pub array_width: usize,
    /// Maximum length of a chain to fit on a single line.
    pub chain_width: usize,
    /// Maximum line length for single-line if-else expressions; zero means
    /// always break them.
    pub single_line_if_else_max_width: usize,
}

/// The scaling ratio in tenths: `max_width` over the default line width,
/// rounded to the closest tenth with halves rounding up, and one (ten
/// tenths) whenever `max_width` does not exceed the default.
pub open spec fn spec_ratio_tenths(max_width: int) -> int {
    if max_width > DEFAULT_MAX_LINE_WIDTH as int {
        (20 * max_width + DEFAULT_MAX_LINE_WIDTH as int) / (2 * DEFAULT_MAX_LINE_WIDTH as int)
    } else {
        10
    }
}

/// One default width scaled by the ratio for `max_width` and rounded to the
/// closest integer with halves rounding up, saturating at the machine word.
pub open spec fn spec_scaled_width(default_width: int, max_width: int) -> int {
    let w = (default_width * spec_ratio_tenths(max_width) + 5) / 10;
    if w > usize::MAX as int {
        usize::MAX as int
    } else {
        w
    }
}

/// Scale one default width for `max_width`, exactly as
/// [`spec_scaled_width`] describes.
fn scaled_width(default_width: usize, max_width: usize) -> (r: usize)
    ensures
        r == spec_scaled_width(default_width as int, max_width as int),
{
    let t: u128 = if max_width > DEFAULT_MAX_LINE_WIDTH {
        (20 * (max_width as u128) + (DEFAULT_MAX_LINE_WIDTH as u128)) / (2 * (
        DEFAULT_MAX_LINE_WIDTH as u128))
    } else {
        10
    };
    proof {
        assert(t as int == spec_ratio_tenths(max_width as int));
        assert(t <= 0x2000_0000_0000_0000u128);
        assert((default_width as u128) * t + 5 <= u128::MAX) by (nonlinear_arith)
            requires
                t <= 0x2000_0000_0000_0000u128,
                default_width as u128 <= 0xFFFF_FFFF_FFFF_FFFFu128,
        ;
    }
    let w: u128 = ((default_width as u128) * t + 5) / 10;
    if w > (usize::MAX as u128) {
        usize::MAX
    } else {
        w as usize
    }
}

impl WidthHeuristics {
    /// The thresholds used when heuristics are switched off entirely.
    pub open spec fn spec_off() -> WidthHeuristics {
        WidthHeuristics {
            fn_call_width: usize::MAX,
            attr_fn_like_width: usize::MAX,
            struct_lit_width: 0,
            struct_variant_width: 0,
            array_width: usize::MAX,
            chain_width: usize::MAX,
            single_line_if_else_max_width: 0,
        }
    }

    /// Every threshold set to `max_width`.
    pub open spec fn spec_max(max_width: usize) -> WidthHeuristics {
        WidthHeuristics {
            fn_call_width: max_width,
            attr_fn_like_width: max_width,
            struct_lit_width: max_width,
            struct_variant_width: max_width,
            array_width: max_width,
            chain_width: max_width,
            single_line_if_else_max_width: max_width,
        }
    }

    /// Every default threshold scaled for `max_width`.
    pub open spec fn spec_scaled(max_width: usize) -> WidthHeuristics {
        WidthHeuristics {
            fn_call_width: spec_scaled_width(
                DEFAULT_FN_CALL_WIDTH as int,
                max_width as int,
            ) as usize,
            attr_fn_like_width: spec_scaled_width(
                DEFAULT_ATTR_FN_LIKE_WIDTH as int,
                max_width as int,
            ) as usize,
            struct_lit_width: spec_scaled_width(
                DEFAULT_STRUCT_LIT_WIDTH as int,
                max_width as int,
            ) as usize,
            struct_variant_width: spec_scaled_width(
                DEFAULT_STRUCT_VAR_WIDTH as int,
                max_width as int,
            ) as usize,
            array_width: spec_scaled_width(DEFAULT_ARRAY_WIDTH as int, max_width as int) as usize,
            chain_width: spec_scaled_width(DEFAULT_CHAIN_WIDTH as int, max_width as int) as usize,
            single_line_if_else_max_width: spec_scaled_width(
                DEFAULT_SINGLE_LINE_IF_ELSE_WIDTH as int,
                max_width as int,
            ) as usize,
        }
    }

    /// Using this WidthHeuristics means we ignore heuristics.
    pub fn off() -> (r: WidthHeuristics)
        ensures
            r == WidthHeuristics::spec_off(),
    {
        WidthHeuristics {
            fn_call_width: usize::MAX,
            attr_fn_like_width: usize::MAX,
            struct_lit_width: 0,
            struct_variant_width: 0,
            array_width: usize::MAX,
            chain_width: usize::MAX,
            single_line_if_else_max_width: 0,
        }
    }

    /// Every threshold set to `max_width`: anything that fits the line fits
    /// the heuristic.
    pub fn max(max_width: usize) -> (r: WidthHeuristics)
        ensures
            r == WidthHeuristics::spec_max(max_width),
    {
        WidthHeuristics {
            fn_call_width: max_width,
            attr_fn_like_width: max_width,
            struct_lit_width: max_width,
            struct_variant_width: max_width,
            array_width: max_width,
            chain_width: max_width,
            single_line_if_else_max_width: max_width,
        }
    }

    /// Scale the default WidthHeuristics according to `max_width`.
    pub fn scaled(max_width: usize) -> (r: WidthHeuristics)
        ensures
            r == WidthHeuristics::spec_scaled(max_width),
    {
        WidthHeuristics {
            fn_call_width: scaled_width(DEFAULT_FN_CALL_WIDTH, max_width),
            attr_fn_like_width: scaled_width(DEFAULT_ATTR_FN_LIKE_WIDTH, max_width),
            struct_lit_width: scaled_width(DEFAULT_STRUCT_LIT_WIDTH, max_width),
            struct_variant_width: scaled_width(DEFAULT_STRUCT_VAR_WIDTH, max_width),
            array_width: scaled_width(DEFAULT_ARRAY_WIDTH, max_width),
            chain_width: scaled_width(DEFAULT_CHAIN_WIDTH, max_width),
            single_line_if_else_max_width: scaled_width(
                DEFAULT_SINGLE_LINE_IF_ELSE_WIDTH,
                max_width,
            ),
        }
    }
}

impl HeuristicsPreferences {
    /// The width heuristics each preference resolves to under a given
    /// maximum line width.
    pub open spec fn spec_to_width_heuristics(self, max_width: usize) -> WidthHeuristics {
        match self {
            HeuristicsPreferences::Off => WidthHeuristics::spec_off(),
            HeuristicsPreferences::Max => WidthHeuristics::spec_max(max_width),
            HeuristicsPreferences::Scaled => WidthHeuristics::spec_scaled(max_width),
        }
    }

    /// Resolve this preference into concrete width heuristics under the
    /// configured maximum line width.
    pub fn to_width_heuristics(self, ws_opts: &Whitespace) -> (r: WidthHeuristics)
        ensures
            r == self.spec_to_width_heuristics(ws_opts.max_width),
    {
        match self {
            HeuristicsPreferences::Off => WidthHeuristics::off(),
            HeuristicsPreferences::Max => WidthHeuristics::max(ws_opts.max_width),
            HeuristicsPreferences::Scaled => WidthHeuristics::scaled(ws_opts.max_width),
        }
    }
}

/// How involved the width heuristics are, and whether 'small' items get
/// special single-line treatment at all.
#[derive(Debug, Clone, Copy, PartialEq, Eq, Structural)]
pub struct Heuristics {
    /// Determines heuristics level of involvement.
    pub heuristics_pref: HeuristicsPreferences,
    /// Whether to use different formatting for items and expressions if they
    /// satisfy a heuristic notion of 'small'.
    pub use_small_heuristics: bool,
}

impl Default for Heuristics {
    /// Scaled heuristics, with small-item formatting enabled.
    fn default() -> (r: Heuristics)
        ensures
            r.heuristics_pref == HeuristicsPreferences::Scaled,
            r.use_small_heuristics,
    {
        Heuristics { heuristics_pref: HeuristicsPreferences::Scaled, use_small_heuristics: true }
    }
}

impl Heuristics {
    /// Resolve the user's raw options against the defaults: any field the
    /// user left unset falls back to the default configuration.
    pub fn from_opts(opts: &HeuristicsOptions) -> (r: Heuristics)
        ensures
            r.heuristics_pref == (match opts.heuristics_pref {
                Some(p) => p,
                None => HeuristicsPreferences::Scaled,
            }),
            r.use_small_heuristics == (match opts.use_small_heuristics {
                Some(b) => b,
                None => true,
            }),
    {
        let default = Heuristics::default();
        Heuristics {
            heuristics_pref: match opts.heuristics_pref {
                Some(p) => p,
                None => default.heuristics_pref,
            },
            use_small_heuristics: match opts.use_small_heuristics {
                Some(b) => b,
                None => default.use_small_heuristics,
            },
        }
    }
}

} // verus!
