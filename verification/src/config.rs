//! The settings that a session starts with. They are read once, before the session,
//! and do not change while it runs.

use vstd::prelude::*;

verus! {

/// The settings of a session. A setting that is `None` was not configured.
#[derive(Debug, Clone)]
pub struct Config {
    /// The height of the list, in rows.
    pub height: Option<u16>,
    /// Whether the mouse is used.
    pub mouse_enabled: Option<bool>,
    /// How the case of letters counts in a match.
    pub case_matching: Option<String>,
    /// How accents and the like count in a match.
    pub normalization: Option<String>,
    /// Whether a move past the last entry leads to the first, and back.
    pub wrap_around: Option<bool>,
    /// Whether scrolling up moves down the list.
    pub invert_scroll: Option<bool>,
}

impl Default for Config {
    /// No height; the mouse on; smart case matching and normalization; wrapping on;
    /// scrolling not inverted.
    fn default() -> (r: Self)
        ensures
            r.height is None,
            r.mouse_enabled == Some(true),
            r.case_matching matches Some(s) && s@ == "smart"@,
            r.normalization matches Some(s) && s@ == "smart"@,
            r.wrap_around == Some(true),
            r.invert_scroll == Some(false),
    {
        Config {
            height: None,
            mouse_enabled: Some(true),
            case_matching: Some("smart".to_owned()),
            normalization: Some("smart".to_owned()),
            wrap_around: Some(true),
            invert_scroll: Some(false),
        }
    }
}

impl Config {
    /// What `mouse_enabled` returns.
    pub open spec fn mouse_enabled_value(&self) -> bool {
        match self.mouse_enabled {
            Some(enabled) => enabled,
            None => true,
        }
    }

    /// What `wrap_around` returns.
    pub open spec fn wrap_around_value(&self) -> bool {
        match self.wrap_around {
            Some(wrap) => wrap,
            None => true,
        }
    }

    /// What `invert_scroll` returns.
    pub open spec fn invert_scroll_value(&self) -> bool {
        match self.invert_scroll {
            Some(invert) => invert,
            None => false,
        }
    }

    /// The configured height, if there is one.
    pub fn height(&self) -> (r: Option<u16>)
        ensures
            r == self.height,
    {
        self.height
    }

    /// Whether the mouse is used: the setting, or `true` where there is none.
    pub fn mouse_enabled(&self) -> (r: bool)
        ensures
            r == self.mouse_enabled_value(),
    {
        match self.mouse_enabled {
            Some(enabled) => enabled,
            None => true,
        }
    }

    /// Whether navigation wraps around: the setting, or `true` where there is none.
    pub fn wrap_around(&self) -> (r: bool)
        ensures
            r == self.wrap_around_value(),
    {
        match self.wrap_around {
            Some(wrap) => wrap,
            None => true,
        }
    }

    /// Whether scrolling is inverted: the setting, or `false` where there is none.
    pub fn invert_scroll(&self) -> (r: bool)
        ensures
            r == self.invert_scroll_value(),
    {
        match self.invert_scroll {
            Some(invert) => invert,
            None => false,
        }
    }
}

} // verus!
