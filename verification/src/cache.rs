//! The widget's persisted state: its settings and the last usage snapshot.
use crate::usage::UsageSnapshot;
use vstd::prelude::*;

verus! {

/// Colour scheme of the widget.
#[derive(Debug, Clone, Copy, PartialEq, Eq)]
pub enum Theme {
    System,
    Dark,
    Light,
}

/// The user's widget settings.
///
/// `opacity` holds the IEEE-754 bit pattern of the `f32` window opacity
/// (0.0 transparent to 1.0 opaque). `==` compares it as the floating-point
/// value (a NaN equals nothing, +0.0 equals -0.0); `Debug` prints the bit
/// pattern as an integer.
#[derive(Debug, Clone)]
pub struct Settings {
    pub theme: Theme,
    pub accent_color: String,
    pub compact_layout: bool,
    pub always_on_top: bool,
    pub opacity: u32,
    pub poll_interval_secs: u64,
    pub window_x: Option<i32>,
    pub window_y: Option<i32>,
    pub autostart: bool,
}

impl Theme {
    fn same(&self, other: &Theme) -> (r: bool)
        ensures
            r == (*self == *other),
    {
        match (self, other) {
            (Theme::System, Theme::System) | (Theme::Dark, Theme::Dark) | (Theme::Light, Theme::Light) => true,
            _ => false,
        }
    }
}

/// `==` on settings: the fields pairwise, the opacity as a float.
pub open spec fn settings_eq(a: Settings, b: Settings) -> bool {
    &&& a.theme == b.theme
    &&& a.accent_color@ == b.accent_color@
    &&& a.compact_layout == b.compact_layout
    &&& a.always_on_top == b.always_on_top
    &&& crate::float_bits::f32_eq(a.opacity, b.opacity)
    &&& a.poll_interval_secs == b.poll_interval_secs
    &&& a.window_x == b.window_x
    &&& a.window_y == b.window_y
    &&& a.autostart == b.autostart
}

fn position_eq(a: Option<i32>, b: Option<i32>) -> (r: bool)
    ensures
        r == (a == b),
{
    match (a, b) {
        (Some(x), Some(y)) => x == y,
        (None, None) => true,
        _ => false,
    }
}

impl PartialEq for Settings {
    fn eq(&self, other: &Self) -> (r: bool) {
        self.theme.same(&other.theme) && self.accent_color == other.accent_color
            && self.compact_layout == other.compact_layout && self.always_on_top == other.always_on_top
            && crate::float_bits::f32_bits_eq(self.opacity, other.opacity)
            && self.poll_interval_secs == other.poll_interval_secs && position_eq(self.window_x, other.window_x)
            && position_eq(self.window_y, other.window_y) && self.autostart == other.autostart
    }
}

impl vstd::std_specs::cmp::PartialEqSpecImpl for Settings {
    open spec fn obeys_eq_spec() -> bool {
        true
    }

    open spec fn eq_spec(&self, other: &Self) -> bool {
        settings_eq(*self, *other)
    }
}

/// Bit pattern of the default opacity, the `f32` nearest to 0.96.
pub const DEFAULT_OPACITY_BITS: u32 = 0x3f75_c28f;

/// Seconds between polls by default. Every poll costs a sliver of the
/// user's quota, so five minutes balances freshness against consumption.
pub const DEFAULT_POLL_INTERVAL_SECS: u64 = 300;

impl Default for Settings {
    fn default() -> (s: Self)
        ensures
            s.theme == Theme::System,
            s.accent_color@ == "#d97757"@,
            !s.compact_layout,
            s.always_on_top,
            s.opacity == DEFAULT_OPACITY_BITS,
            s.poll_interval_secs == DEFAULT_POLL_INTERVAL_SECS,
            s.window_x is None,
            s.window_y is None,
            !s.autostart,
    {
        Settings {
            theme: Theme::System,
            accent_color: String::from_str("#d97757"),
            compact_layout: false,
            always_on_top: true,
            opacity: DEFAULT_OPACITY_BITS,
            poll_interval_secs: DEFAULT_POLL_INTERVAL_SECS,
            window_x: None,
            window_y: None,
            autostart: false,
        }
    }
}

impl Settings {
    /// Remembers where the widget window was moved to.
    pub fn record_window_position(&mut self, x: i32, y: i32)
        ensures
            final(self).window_x == Some(x),
            final(self).window_y == Some(y),
            final(self).theme == old(self).theme,
            final(self).accent_color == old(self).accent_color,
            final(self).compact_layout == old(self).compact_layout,
            final(self).always_on_top == old(self).always_on_top,
            final(self).opacity == old(self).opacity,
            final(self).poll_interval_secs == old(self).poll_interval_secs,
            final(self).autostart == old(self).autostart,
    {
        self.window_x = Some(x);
        self.window_y = Some(y);
    }

    /// The remembered window position, when both coordinates are known.
    pub open spec fn position(self) -> Option<(i32, i32)> {
        match (self.window_x, self.window_y) {
            (Some(x), Some(y)) => Some((x, y)),
            _ => None,
        }
    }

    pub fn window_position(&self) -> (r: Option<(i32, i32)>)
        ensures
            r == self.position(),
    {
        match (self.window_x, self.window_y) {
            (Some(x), Some(y)) => Some((x, y)),
            _ => None,
        }
    }
}

/// The last usage snapshot, kept so that a failed poll can still show it.
#[derive(Debug, PartialEq, Default)]
pub struct UsageCache {
    pub last_snapshot: Option<UsageSnapshot>,
}

/// A recorded window position is the one restored: after
/// `record_window_position(x, y)` the settings' position is `(x, y)`.
pub proof fn lemma_recorded_position_is_restored(after: Settings, x: i32, y: i32)
    requires
        after.window_x == Some(x),
        after.window_y == Some(y),
    ensures
        after.position() == Some((x, y)),
{
}

} // verus!
