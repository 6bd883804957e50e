//! Plain data types of the windowing model: points, sizes, rectangles,
//! input-event discriminants, and the flag sets that the C API of wlc
//! encodes as bitmasks, here represented as structs of booleans with
//! explicit union and containment operations.

use vstd::prelude::*;

verus! {

/// Log level of a compositor log message.
#[derive(Debug, Copy, Clone, PartialEq, Eq, Structural)]
pub enum LogType {
    /// Informational message
    Info,
    /// Warning
    Warn,
    /// Error
    Error,
    /// Message of the Wayland protocol engine
    Wayland,
}

/// Type of backend a compositor session is running on.
#[derive(Debug, Copy, Clone, PartialEq, Eq, Structural)]
pub enum BackendType {
    /// Backend type is unknown
    Unknown,
    /// Running on a tty through the direct rendering manager
    DRM,
    /// Running nested inside an X server
    X11,
}

/// Represents a key state in key events.
#[derive(Debug, Copy, Clone, PartialEq, Eq, Hash, Structural)]
pub enum KeyState {
    /// The key was released
    Released,
    /// The key was pressed
    Pressed,
}

/// Represents a button state in button events.
#[derive(Debug, Copy, Clone, PartialEq, Eq, Hash, Structural)]
pub enum ButtonState {
    /// The button was released
    Released,
    /// The button was pressed
    Pressed,
}

/// Which axis of the scroll wheel is being used.
#[derive(Debug, Copy, Clone, PartialEq, Eq, Structural)]
pub enum ScrollAxis {
    /// No axis
    NoAxis,
    /// Vertical scroll
    Vertical,
    /// Horizontal scroll
    Horizontal,
    /// Both axes
    Both,
}

/// Touch type in touch-event handlers.
#[derive(Debug, Copy, Clone, PartialEq, Eq, Structural)]
pub enum TouchType {
    /// Touch down
    Down,
    /// Touch up
    Up,
    /// Touch motion
    Motion,
    /// Touch frame
    Frame,
    /// Touch cancelled
    Cancel,
}

/// The location of a window, in display coordinates.
#[derive(Debug, Eq, PartialEq, Copy, Clone, Hash, Structural)]
pub struct Point {
    /// x coordinate
    pub x: i32,
    /// y coordinate
    pub y: i32,
}

impl Point {
    /// The point defined as (0, 0).
    pub fn origin() -> (r: Point)
        ensures
            r == (Point { x: 0, y: 0 }),
    {
        Point { x: 0, y: 0 }
    }

    /// Create a new point from the given x and y coordinates.
    pub fn new(x: i32, y: i32) -> (r: Point)
        ensures
            r == (Point { x, y }),
    {
        Point { x, y }
    }

    /// The point whose x and y are the smallest of the two points'.
    pub fn from_min_coords(a: Point, b: Point) -> (r: Point)
        ensures
            r.x == if a.x <= b.x { a.x } else { b.x },
            r.y == if a.y <= b.y { a.y } else { b.y },
    {
        Point {
            x: if a.x <= b.x { a.x } else { b.x },
            y: if a.y <= b.y { a.y } else { b.y },
        }
    }

    /// The point whose x and y are the largest of the two points'.
    pub fn from_max_coords(a: Point, b: Point) -> (r: Point)
        ensures
            r.x == if a.x >= b.x { a.x } else { b.x },
            r.y == if a.y >= b.y { a.y } else { b.y },
    {
        Point {
            x: if a.x >= b.x { a.x } else { b.x },
            y: if a.y >= b.y { a.y } else { b.y },
        }
    }
}

/// The width and height of a window, in display coordinates.
#[derive(Debug, Copy, Clone, PartialEq, Eq, Hash, Structural)]
pub struct Size {
    /// Width
    pub w: u32,
    /// Height
    pub h: u32,
}

impl Size {
    /// A size with zero width and height.
    pub fn zero() -> (r: Size)
        ensures
            r == (Size { w: 0, h: 0 }),
    {
        Size { w: 0, h: 0 }
    }

    /// Create a new size from the given width and height.
    pub fn new(w: u32, h: u32) -> (r: Size)
        ensures
            r == (Size { w, h }),
    {
        Size { w, h }
    }

    /// The size whose width and height are the smallest of the two sizes'.
    pub fn from_min_dimensions(a: Size, b: Size) -> (r: Size)
        ensures
            r.w == if a.w <= b.w { a.w } else { b.w },
            r.h == if a.h <= b.h { a.h } else { b.h },
    {
        Size {
            w: if a.w <= b.w { a.w } else { b.w },
            h: if a.h <= b.h { a.h } else { b.h },
        }
    }

    /// The size whose width and height are the largest of the two sizes'.
    pub fn from_max_dimensions(a: Size, b: Size) -> (r: Size)
        ensures
            r.w == if a.w >= b.w { a.w } else { b.w },
            r.h == if a.h >= b.h { a.h } else { b.h },
    {
        Size {
            w: if a.w >= b.w { a.w } else { b.w },
            h: if a.h >= b.h { a.h } else { b.h },
        }
    }
}

/// The location and size of a window: a rectangle with integer origin and
/// unsigned extent.
#[derive(Debug, Copy, Clone, PartialEq, Eq, Hash, Structural)]
pub struct Geometry {
    /// The location of the rectangle
    pub origin: Point,
    /// The size of the rectangle
    pub size: Size,
}

impl Geometry {
    /// A geometry with zero size at the origin.
    pub fn zero() -> (r: Geometry)
        ensures
            r == (Geometry { origin: Point { x: 0, y: 0 }, size: Size { w: 0, h: 0 } }),
    {
        Geometry { origin: Point { x: 0, y: 0 }, size: Size { w: 0, h: 0 } }
    }

    /// Create a new geometry with the given location and size.
    pub fn new(origin: Point, size: Size) -> (r: Geometry)
        ensures
            r == (Geometry { origin, size }),
    {
        Geometry { origin, size }
    }

    /// Whether the point's coordinates are less than or equal to this
    /// geometry's origin plus its size, on both axes.
    pub fn contains_point(self, point: Point) -> (r: bool)
        ensures
            r == (point.x <= self.origin.x + self.size.w && point.y <= self.origin.y
                + self.size.h),
    {
        point.x as i64 <= self.origin.x as i64 + self.size.w as i64 && point.y as i64
            <= self.origin.y as i64 + self.size.h as i64
    }

    /// Whether the other geometry's borders are fully contained (less than
    /// or equal on every side) within this one.
    pub fn contains_geometry(self, other: Geometry) -> (r: bool)
        ensures
            r == (self.origin.x <= other.origin.x && self.origin.y <= other.origin.y
                && self.origin.x + self.size.w >= other.origin.x + other.size.w && self.origin.y
                + self.size.h >= other.origin.y + other.size.h),
    {
        self.origin.x <= other.origin.x && self.origin.y <= other.origin.y && self.origin.x as i64
            + self.size.w as i64 >= other.origin.x as i64 + other.size.w as i64
            && self.origin.y as i64 + self.size.h as i64 >= other.origin.y as i64
            + other.size.h as i64
    }
}

/// Placeholder for a libinput device; the binding does not model its
/// contents.
#[derive(Debug)]
pub struct LibinputDevice;

/// The mathematical value of a geometry: origin and extent as unbounded
/// integers, free of the machine types' ranges.
pub ghost struct GeometryModel {
    /// x coordinate of the origin
    pub x: int,
    /// y coordinate of the origin
    pub y: int,
    /// Width
    pub w: int,
    /// Height
    pub h: int,
}

impl View for Geometry {
    type V = GeometryModel;

    open spec fn view(&self) -> GeometryModel {
        GeometryModel {
            x: self.origin.x as int,
            y: self.origin.y as int,
            w: self.size.w as int,
            h: self.size.h as int,
        }
    }
}

/// The set of window edges engaged by an interactive resize. The empty set
/// signifies a plain move. The C API encodes this set as a bitmask; here
/// each edge is an explicit boolean.
#[derive(Debug, Copy, Clone, PartialEq, Eq, Structural)]
pub struct ResizeEdge {
    /// Top edge
    pub top: bool,
    /// Bottom edge
    pub bottom: bool,
    /// Left edge
    pub left: bool,
    /// Right edge
    pub right: bool,
}

impl ResizeEdge {
    /// Whether no edge is engaged.
    pub open spec fn spec_is_empty(&self) -> bool {
        !self.top && !self.bottom && !self.left && !self.right
    }

    /// The empty edge set: no edge engaged.
    pub fn empty() -> (r: ResizeEdge)
        ensures
            r == (ResizeEdge { top: false, bottom: false, left: false, right: false }),
    {
        ResizeEdge { top: false, bottom: false, left: false, right: false }
    }

    /// Create an edge set from its four components.
    pub fn new(top: bool, bottom: bool, left: bool, right: bool) -> (r: ResizeEdge)
        ensures
            r == (ResizeEdge { top, bottom, left, right }),
    {
        ResizeEdge { top, bottom, left, right }
    }

    /// Whether no edge is engaged.
    #[verifier::when_used_as_spec(spec_is_empty)]
    pub fn is_empty(&self) -> (r: bool)
        ensures
            r == self.spec_is_empty(),
    {
        !self.top && !self.bottom && !self.left && !self.right
    }

    /// The union of two edge sets.
    pub fn union(self, other: ResizeEdge) -> (r: ResizeEdge)
        ensures
            r == (ResizeEdge {
                top: self.top || other.top,
                bottom: self.bottom || other.bottom,
                left: self.left || other.left,
                right: self.right || other.right,
            }),
    {
        ResizeEdge {
            top: self.top || other.top,
            bottom: self.bottom || other.bottom,
            left: self.left || other.left,
            right: self.right || other.right,
        }
    }

    /// Whether every edge of `other` is also an edge of `self`.
    pub open spec fn spec_contains(&self, other: ResizeEdge) -> bool {
        (other.top ==> self.top) && (other.bottom ==> self.bottom) && (other.left ==> self.left)
            && (other.right ==> self.right)
    }

    /// Whether every edge of `other` is also an edge of `self`.
    #[verifier::when_used_as_spec(spec_contains)]
    pub fn contains(&self, other: ResizeEdge) -> (r: bool)
        ensures
            r == self.spec_contains(other),
    {
        (!other.top || self.top) && (!other.bottom || self.bottom) && (!other.left || self.left)
            && (!other.right || self.right)
    }
}

/// The per-window state flags: how a window is currently being viewed and
/// interacted with.
#[derive(Debug, Copy, Clone, PartialEq, Eq, Structural)]
pub struct ViewState {
    /// Window is maximized
    pub maximized: bool,
    /// Window is fullscreen
    pub fullscreen: bool,
    /// Window is being interactively resized
    pub resizing: bool,
    /// Window is being interactively moved
    pub moving: bool,
    /// Window is activated (has focus)
    pub activated: bool,
}

impl ViewState {
    /// The empty flag set.
    pub open spec fn spec_empty() -> ViewState {
        ViewState {
            maximized: false,
            fullscreen: false,
            resizing: false,
            moving: false,
            activated: false,
        }
    }

    /// The empty flag set.
    #[verifier::when_used_as_spec(spec_empty)]
    pub fn empty() -> (r: ViewState)
        ensures
            r == ViewState::spec_empty(),
    {
        ViewState {
            maximized: false,
            fullscreen: false,
            resizing: false,
            moving: false,
            activated: false,
        }
    }

    /// The flag set holding only the resizing flag.
    pub open spec fn spec_resizing_flag() -> ViewState {
        ViewState { resizing: true, ..ViewState::spec_empty() }
    }

    /// The flag set holding only the resizing flag.
    #[verifier::when_used_as_spec(spec_resizing_flag)]
    pub fn resizing_flag() -> (r: ViewState)
        ensures
            r == ViewState::spec_resizing_flag(),
    {
        ViewState {
            maximized: false,
            fullscreen: false,
            resizing: true,
            moving: false,
            activated: false,
        }
    }

    /// The flag set holding only the activated flag.
    pub open spec fn spec_activated_flag() -> ViewState {
        ViewState { activated: true, ..ViewState::spec_empty() }
    }

    /// The flag set holding only the activated flag.
    #[verifier::when_used_as_spec(spec_activated_flag)]
    pub fn activated_flag() -> (r: ViewState)
        ensures
            r == ViewState::spec_activated_flag(),
    {
        ViewState {
            maximized: false,
            fullscreen: false,
            resizing: false,
            moving: false,
            activated: true,
        }
    }

    /// The flag set with every flag named in `mask` forced to `toggle` and
    /// every other flag kept.
    pub open spec fn spec_apply(self, mask: ViewState, toggle: bool) -> ViewState {
        ViewState {
            maximized: if mask.maximized { toggle } else { self.maximized },
            fullscreen: if mask.fullscreen { toggle } else { self.fullscreen },
            resizing: if mask.resizing { toggle } else { self.resizing },
            moving: if mask.moving { toggle } else { self.moving },
            activated: if mask.activated { toggle } else { self.activated },
        }
    }

    /// Force every flag named in `mask` to `toggle`, keeping the others.
    pub fn apply(self, mask: ViewState, toggle: bool) -> (r: ViewState)
        ensures
            r == self.spec_apply(mask, toggle),
    {
        ViewState {
            maximized: if mask.maximized { toggle } else { self.maximized },
            fullscreen: if mask.fullscreen { toggle } else { self.fullscreen },
            resizing: if mask.resizing { toggle } else { self.resizing },
            moving: if mask.moving { toggle } else { self.moving },
            activated: if mask.activated { toggle } else { self.activated },
        }
    }
}

/// The window-kind flags, as X11 classifies windows.
#[derive(Debug, Copy, Clone, PartialEq, Eq, Structural)]
pub struct ViewType {
    /// Override redirect (X11)
    pub override_redirect: bool,
    /// Tooltips (X11)
    pub unmanaged: bool,
    /// Splash screens (X11)
    pub splash: bool,
    /// Modal windows (X11)
    pub modal: bool,
    /// xdg-shell and wl-shell popups
    pub popup: bool,
}

/// Flags describing a Wayland event source.
#[derive(Debug, Copy, Clone, PartialEq, Eq, Structural)]
pub struct EventBit {
    /// Event can be read
    pub readable: bool,
    /// Event can be written
    pub writeable: bool,
    /// Event is hung up
    pub hangup: bool,
    /// Event is in error
    pub error: bool,
}

/// The set of keyboard meta keys being held.
#[derive(Debug, Copy, Clone, PartialEq, Eq, Structural)]
pub struct KeyModifier {
    /// Shift
    pub shift: bool,
    /// Caps lock
    pub caps: bool,
    /// Control
    pub ctrl: bool,
    /// Alt
    pub alt: bool,
    /// Mod2
    pub mod2: bool,
    /// Mod3
    pub mod3: bool,
    /// Mod4 / logo
    pub logo: bool,
    /// Mod5
    pub mod5: bool,
}

impl KeyModifier {
    /// The empty modifier set.
    pub open spec fn spec_empty() -> KeyModifier {
        KeyModifier {
            shift: false,
            caps: false,
            ctrl: false,
            alt: false,
            mod2: false,
            mod3: false,
            logo: false,
            mod5: false,
        }
    }

    /// The empty modifier set.
    #[verifier::when_used_as_spec(spec_empty)]
    pub fn empty() -> (r: KeyModifier)
        ensures
            r == KeyModifier::spec_empty(),
    {
        KeyModifier {
            shift: false,
            caps: false,
            ctrl: false,
            alt: false,
            mod2: false,
            mod3: false,
            logo: false,
            mod5: false,
        }
    }

    /// The modifier set holding only the control key.
    pub open spec fn spec_ctrl() -> KeyModifier {
        KeyModifier { ctrl: true, ..KeyModifier::spec_empty() }
    }

    /// The modifier set holding only the control key.
    #[verifier::when_used_as_spec(spec_ctrl)]
    pub fn ctrl() -> (r: KeyModifier)
        ensures
            r == KeyModifier::spec_ctrl(),
    {
        KeyModifier {
            shift: false,
            caps: false,
            ctrl: true,
            alt: false,
            mod2: false,
            mod3: false,
            logo: false,
            mod5: false,
        }
    }

    /// Whether every modifier of `other` is also held in `self`.
    pub open spec fn spec_contains(&self, other: KeyModifier) -> bool {
        (other.shift ==> self.shift) && (other.caps ==> self.caps) && (other.ctrl ==> self.ctrl)
            && (other.alt ==> self.alt) && (other.mod2 ==> self.mod2) && (other.mod3 ==> self.mod3)
            && (other.logo ==> self.logo) && (other.mod5 ==> self.mod5)
    }

    /// Whether every modifier of `other` is also held in `self`.
    #[verifier::when_used_as_spec(spec_contains)]
    pub fn contains(&self, other: KeyModifier) -> (r: bool)
        ensures
            r == self.spec_contains(other),
    {
        (!other.shift || self.shift) && (!other.caps || self.caps) && (!other.ctrl || self.ctrl)
            && (!other.alt || self.alt) && (!other.mod2 || self.mod2) && (!other.mod3 || self.mod3)
            && (!other.logo || self.logo) && (!other.mod5 || self.mod5)
    }
}

/// The keyboard lock-key lights.
#[derive(Debug, Copy, Clone, PartialEq, Eq, Structural)]
pub struct KeyboardLed {
    /// Num lock
    pub num_lock: bool,
    /// Caps lock
    pub caps_lock: bool,
    /// Scroll lock
    pub scroll_lock: bool,
}

impl KeyboardLed {
    /// No lock-key light lit.
    pub fn empty() -> (r: KeyboardLed)
        ensures
            r == (KeyboardLed { num_lock: false, caps_lock: false, scroll_lock: false }),
    {
        KeyboardLed { num_lock: false, caps_lock: false, scroll_lock: false }
    }
}

/// State of the keyboard modifiers: lock-key lights and held meta keys.
#[derive(Debug, Copy, Clone, PartialEq, Eq, Structural)]
pub struct KeyboardModifiers {
    /// Which lock keys are lit
    pub leds: KeyboardLed,
    /// Which meta keys are held
    pub mods: KeyModifier,
}

} // verus!
