//! The window configuration record and its default-resolution rules.

use vstd::prelude::*;
use vstd::string::StringExecFns;

verus! {

/// Width, in logical pixels, that a configuration with no explicit width
/// resolves to at the point of use.
pub const DEFAULT_WIDTH: u16 = 800;

/// Height, in logical pixels, that a configuration with no explicit height
/// resolves to at the point of use.
pub const DEFAULT_HEIGHT: u16 = 600;

/// The name that the app name and the title default to when a window is
/// constructed without any configuration at all.
pub open spec fn default_name() -> Seq<char> {
    "Glacier App"@
}

/// The window configuration: geometry, resizability, title, icon, visibility,
/// frame and developer-tools flag. Every field is optional at construction;
/// an absent field resolves to a documented default at the point of use (see
/// the `resolved_*` spec functions). No range validation is performed: a zero
/// size or `min > max` is accepted and passed through to the native window
/// collaborator.
pub struct WindowOptions {
    /// App name; derives the storage context path.
    pub app_name: Option<String>,
    pub x: Option<u16>,
    pub y: Option<u16>,
    pub width: Option<u16>,
    pub height: Option<u16>,
    pub min_width: Option<u16>,
    pub min_height: Option<u16>,
    pub max_width: Option<u16>,
    pub max_height: Option<u16>,
    pub resizable: Option<bool>,
    pub title: Option<String>,
    pub icon: Option<String>,
    pub show: Option<bool>,
    pub frame: Option<bool>,
    pub devtools: Option<bool>,
}

/// The app name a configuration resolves to: the explicit value, or the empty
/// string when unset.
pub open spec fn resolved_app_name(o: WindowOptions) -> Seq<char> {
    match o.app_name {
        Some(n) => n@,
        None => Seq::<char>::empty(),
    }
}

/// The title a configuration resolves to: the explicit value, or the empty
/// string when unset.
pub open spec fn resolved_title(o: WindowOptions) -> Seq<char> {
    match o.title {
        Some(t) => t@,
        None => Seq::<char>::empty(),
    }
}

/// The width a configuration resolves to. An absent width resolves to the
/// documented default of 800: the documented default wins over a
/// zero fallback, so the resolved size never silently collapses to 0x0.
pub open spec fn resolved_width(o: WindowOptions) -> u16 {
    match o.width {
        Some(w) => w,
        None => DEFAULT_WIDTH,
    }
}

/// The height a configuration resolves to; an absent height resolves to the
/// documented default of 600 (see `resolved_width`).
pub open spec fn resolved_height(o: WindowOptions) -> u16 {
    match o.height {
        Some(h) => h,
        None => DEFAULT_HEIGHT,
    }
}

/// The developer-tools flag a configuration resolves to: `false` when unset.
pub open spec fn resolved_devtools(o: WindowOptions) -> bool {
    match o.devtools {
        Some(d) => d,
        None => false,
    }
}

/// The configuration a window constructed with no explicit configuration
/// gets: named "Glacier App", sized 800x600, resizable, everything else unset.
pub open spec fn is_default_options(o: WindowOptions) -> bool {
    &&& o.app_name matches Some(n) && n@ == default_name()
    &&& o.title matches Some(t) && t@ == default_name()
    &&& o.width == Some(DEFAULT_WIDTH)
    &&& o.height == Some(DEFAULT_HEIGHT)
    &&& o.resizable == Some(true)
    &&& o.x is None
    &&& o.y is None
    &&& o.min_width is None
    &&& o.min_height is None
    &&& o.max_width is None
    &&& o.max_height is None
    &&& o.icon is None
    &&& o.show is None
    &&& o.frame is None
    &&& o.devtools is None
}

impl Default for WindowOptions {
    /// The configuration used when a window is constructed with no explicit
    /// configuration: named "Glacier App", sized 800x600, resizable, with
    /// every other field unset.
    fn default() -> (r: Self)
        ensures
            is_default_options(r),
    {
        WindowOptions {
            app_name: Some(String::from_str("Glacier App")),
            x: None,
            y: None,
            width: Some(DEFAULT_WIDTH),
            height: Some(DEFAULT_HEIGHT),
            min_width: None,
            min_height: None,
            max_width: None,
            max_height: None,
            resizable: Some(true),
            title: Some(String::from_str("Glacier App")),
            icon: None,
            show: None,
            frame: None,
            devtools: None,
        }
    }
}

} // verus!
