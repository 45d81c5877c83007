//! Helpers for panel applets: the size of the applet's window, where its
//! popups open, and the theme it follows, all derived from the panel that
//! hosts it.
use vstd::prelude::*;
use crate::alignment::{Horizontal, Vertical};

verus! {

/// Space around the applet's icon, on each side, in pixels.
pub const APPLET_PADDING: u32 = 8;

/// Distance between the panel and a popup, in pixels.
pub const POPUP_OFFSET: i32 = 8;

/// All four constraint adjustments of a popup positioner: slide on either
/// axis and flip on either axis.
pub const POPUP_CONSTRAINT_ADJUSTMENT: u32 = 15;

/// The size class of a panel.
#[derive(Clone, Copy, Debug, PartialEq, Eq, Structural)]
pub enum PanelSize {
    XL,
    L,
    M,
    S,
    XS,
}

/// The screen edge a panel is attached to.
#[derive(Clone, Copy, Debug, PartialEq, Eq, Structural)]
pub enum PanelAnchor {
    Left,
    Right,
    Top,
    Bottom,
}

/// The background a panel is drawn with.
#[derive(Clone, Copy, Debug, PartialEq, Eq, Structural)]
pub enum PanelBackground {
    /// The background of the current theme.
    ThemeDefault,
    /// A dark background.
    Dark,
    /// A light background.
    Light,
    /// A custom color.
    Color,
}

/// The variant of the theme an applet is drawn with.
#[derive(Clone, Copy, Debug, PartialEq, Eq, Structural)]
pub enum ThemeKind {
    Dark,
    Light,
}

/// A screen edge, used for where a popup is anchored and where it grows.
#[derive(Clone, Copy, Debug, PartialEq, Eq, Structural)]
pub enum Edge {
    Left,
    Right,
    Top,
    Bottom,
}

/// How the size of an applet is decided.
#[derive(Clone, Copy, Debug, PartialEq, Eq)]
pub enum Size {
    /// By the size class of the panel.
    PanelSize(PanelSize),
    /// Fixed, as (width, height).
    Hardcoded((u16, u16)),
}

/// What an applet knows of the panel that hosts it.
#[derive(Clone, Debug, PartialEq, Eq)]
pub struct CosmicAppletHelper {
    pub size: Size,
    pub anchor: PanelAnchor,
    pub background: PanelBackground,
    pub output_name: String,
}

/// Window settings of an applet whose icon fills the panel.
#[derive(Clone, Copy, Debug, PartialEq, Eq)]
pub struct WindowSettings {
    /// Width and height of the window, padding included.
    pub size: (u32, u32),
    /// Whether the window is held at `size`, as its lower and upper limit.
    pub fixed_size: bool,
    /// Whether the user may resize the window.
    pub resizable: bool,
    /// Whether the window's background is transparent.
    pub transparent: bool,
    /// The default size of text, in pixels.
    pub default_text_size: u16,
    /// The theme the window is drawn with; `None` for the system's.
    pub theme: Option<ThemeKind>,
}

/// A rectangle in surface coordinates.
#[derive(Clone, Copy, Debug, PartialEq, Eq, Structural)]
pub struct Rectangle {
    pub x: i32,
    pub y: i32,
    pub width: i32,
    pub height: i32,
}

/// Where a popup is placed relative to its parent surface.
#[derive(Clone, Copy, Debug, PartialEq, Eq)]
pub struct Positioner {
    /// The edge of `anchor_rect` the popup is anchored to.
    pub anchor: Edge,
    /// The direction the popup grows in from its anchor.
    pub gravity: Edge,
    /// Offset of the popup from its anchor, as (x, y).
    pub offset: (i32, i32),
    /// Requested size of the popup, if any.
    pub size: Option<(u32, u32)>,
    /// The rectangle of the parent that the popup is anchored to.
    pub anchor_rect: Rectangle,
    /// Whether the popup is placed again when the parent moves.
    pub reactive: bool,
    /// The constraint adjustments allowed, as a bit set.
    pub constraint_adjustment: u32,
}

/// The settings of a popup window of an applet.
#[derive(Clone, Copy, Debug, PartialEq, Eq)]
pub struct PopupSettings<W> {
    /// The window the popup belongs to.
    pub parent: W,
    /// The popup's own window.
    pub id: W,
    pub positioner: Positioner,
    /// Whether the popup takes the pointer and keyboard grab.
    pub grab: bool,
}

/// Content of a popup, aligned toward the panel.
#[derive(Clone, Debug, PartialEq, Eq)]
pub struct PopupContainer<E> {
    pub content: E,
    pub align_x: Horizontal,
    pub align_y: Vertical,
}

/// The icon size, as (width, height), for an applet sized by `size`.
pub open spec fn size_of(size: Size) -> (u16, u16) {
    match size {
        Size::PanelSize(p) => match p {
            PanelSize::XL => (64, 64),
            PanelSize::L => (36, 36),
            PanelSize::M => (24, 24),
            PanelSize::S => (16, 16),
            PanelSize::XS => (12, 12),
        },
        Size::Hardcoded(wh) => wh,
    }
}

/// The theme an applet follows on a panel with background `b`.
pub open spec fn theme_of(b: PanelBackground) -> Option<ThemeKind> {
    match b {
        PanelBackground::Dark => Some(ThemeKind::Dark),
        PanelBackground::Light => Some(ThemeKind::Light),
        _ => None,
    }
}

/// How a popup's content is aligned, as (vertical, horizontal), on a panel
/// anchored at `a`: toward the panel, and centered along it.
pub open spec fn popup_alignment_of(a: PanelAnchor) -> (Vertical, Horizontal) {
    match a {
        PanelAnchor::Left => (Vertical::Center, Horizontal::Left),
        PanelAnchor::Right => (Vertical::Center, Horizontal::Right),
        PanelAnchor::Top => (Vertical::Top, Horizontal::Center),
        PanelAnchor::Bottom => (Vertical::Bottom, Horizontal::Center),
    }
}

/// The (offset, anchor, gravity) of a popup on a panel anchored at `a`: it
/// opens away from the panel's screen edge, a few pixels off the panel.
pub open spec fn popup_placement_of(a: PanelAnchor) -> ((i32, i32), Edge, Edge) {
    match a {
        PanelAnchor::Left => ((POPUP_OFFSET, 0), Edge::Right, Edge::Right),
        PanelAnchor::Right => (((-POPUP_OFFSET) as i32, 0), Edge::Left, Edge::Left),
        PanelAnchor::Top => ((0, POPUP_OFFSET), Edge::Bottom, Edge::Bottom),
        PanelAnchor::Bottom => ((0, (-POPUP_OFFSET) as i32), Edge::Top, Edge::Top),
    }
}

/// The padding on each side: the one given, else the applet's own.
pub open spec fn padding_or_default(padding: Option<i32>) -> int {
    match padding {
        Some(p) => p as int,
        None => APPLET_PADDING as int,
    }
}

/// The extent of an icon of `dim` pixels with `padding` on both sides.
pub open spec fn padded_extent(padding: Option<i32>, dim: u16) -> int {
    2 * padding_or_default(padding) + dim as int
}

/// Whether that extent, and twice the padding it is computed from, are
/// valid `i32` values.
pub open spec fn padded_extent_fits(padding: Option<i32>, dim: u16) -> bool {
    &&& i32::MIN <= 2 * padding_or_default(padding) <= i32::MAX
    &&& i32::MIN <= padded_extent(padding, dim) <= i32::MAX
}

impl CosmicAppletHelper {
    /// An applet on the panel described by the given values, each of which
    /// falls back to its default where absent: a small panel at the top, with
    /// the theme's background, on no named output.
    pub fn from_panel_config(
        size: Option<PanelSize>,
        anchor: Option<PanelAnchor>,
        background: Option<PanelBackground>,
        output_name: Option<String>,
    ) -> (r: Self)
        ensures
            r.size == Size::PanelSize(
                match size {
                    Some(s) => s,
                    None => PanelSize::S,
                },
            ),
            r.anchor == match anchor {
                Some(a) => a,
                None => PanelAnchor::Top,
            },
            r.background == match background {
                Some(b) => b,
                None => PanelBackground::ThemeDefault,
            },
            r.output_name@ == match output_name {
                Some(o) => o@,
                None => Seq::<char>::empty(),
            },
    {
        let size = match size {
            Some(s) => s,
            None => PanelSize::S,
        };
        let anchor = match anchor {
            Some(a) => a,
            None => PanelAnchor::Top,
        };
        let background = match background {
            Some(b) => b,
            None => PanelBackground::ThemeDefault,
        };
        let output_name = match output_name {
            Some(o) => o,
            None => String::new(),
        };
        CosmicAppletHelper { size: Size::PanelSize(size), anchor, background, output_name }
    }

    /// The size of the applet's icon, as (width, height).
    pub fn suggested_size(&self) -> (r: (u16, u16))
        ensures
            r == size_of(self.size),
    {
        match self.size {
            Size::PanelSize(size) => match size {
                PanelSize::XL => (64, 64),
                PanelSize::L => (36, 36),
                PanelSize::M => (24, 24),
                PanelSize::S => (16, 16),
                PanelSize::XS => (12, 12),
            },
            Size::Hardcoded((width, height)) => (width, height),
        }
    }

    /// Fixes the applet's size, whatever the panel's size class.
    pub fn window_size(&mut self, width: u16, height: u16)
        ensures
            final(self).size == Size::Hardcoded((width, height)),
            final(self).anchor == old(self).anchor,
            final(self).background == old(self).background,
            final(self).output_name == old(self).output_name,
    {
        self.size = Size::Hardcoded((width, height));
    }

    /// The theme the applet follows: that of a dark or a light panel, else
    /// none of its own.
    pub fn theme(&self) -> (r: Option<ThemeKind>)
        ensures
            r == theme_of(self.background),
    {
        match self.background {
            PanelBackground::Dark => Some(ThemeKind::Dark),
            PanelBackground::Light => Some(ThemeKind::Light),
            _ => None,
        }
    }

    /// The settings of the applet's window: its icon with the applet's
    /// padding on every side, held at that size, transparent and not
    /// resizable, in the panel's theme.
    pub fn window_settings(&self) -> (r: WindowSettings)
        ensures
            r.size == ((size_of(self.size).0 + 2 * APPLET_PADDING) as u32, (size_of(self.size).1 + 2
                * APPLET_PADDING) as u32),
            r.fixed_size,
            !r.resizable,
            r.transparent,
            r.default_text_size == 18,
            r.theme == theme_of(self.background),
    {
        let (width, height) = self.suggested_size();
        let width = width as u32;
        let height = height as u32;
        WindowSettings {
            size: (width + APPLET_PADDING * 2, height + APPLET_PADDING * 2),
            fixed_size: true,
            resizable: false,
            transparent: true,
            default_text_size: 18,
            theme: self.theme(),
        }
    }

    /// Wraps the content of a popup, aligned toward the panel.
    pub fn popup_container<E>(&self, content: E) -> (r: PopupContainer<E>)
        ensures
            r.content == content,
            (r.align_y, r.align_x) == popup_alignment_of(self.anchor),
    {
        let (align_y, align_x) = match self.anchor {
            PanelAnchor::Left => (Vertical::Center, Horizontal::Left),
            PanelAnchor::Right => (Vertical::Center, Horizontal::Right),
            PanelAnchor::Top => (Vertical::Top, Horizontal::Center),
            PanelAnchor::Bottom => (Vertical::Bottom, Horizontal::Center),
        };
        PopupContainer { content, align_x, align_y }
    }

    /// The settings of a popup of the applet: anchored to the applet's icon
    /// with `width_padding` and `height_padding` around it (the applet's own
    /// padding where absent), opening away from the panel's edge.
    pub fn get_popup_settings<W>(
        &self,
        parent: W,
        id: W,
        size: Option<(u32, u32)>,
        width_padding: Option<i32>,
        height_padding: Option<i32>,
    ) -> (r: PopupSettings<W>)
        requires
            padded_extent_fits(width_padding, size_of(self.size).0),
            padded_extent_fits(height_padding, size_of(self.size).1),
        ensures
            r.parent == parent,
            r.id == id,
            r.grab,
            (r.positioner.offset, r.positioner.anchor, r.positioner.gravity) == popup_placement_of(
                self.anchor,
            ),
            r.positioner.size == size,
            r.positioner.anchor_rect.x == 0,
            r.positioner.anchor_rect.y == 0,
            r.positioner.anchor_rect.width == padded_extent(width_padding, size_of(self.size).0),
            r.positioner.anchor_rect.height == padded_extent(height_padding, size_of(self.size).1),
            r.positioner.reactive,
            r.positioner.constraint_adjustment == POPUP_CONSTRAINT_ADJUSTMENT,
    {
        let (width, height) = self.suggested_size();
        let (offset, anchor, gravity) = match self.anchor {
            PanelAnchor::Left => ((POPUP_OFFSET, 0i32), Edge::Right, Edge::Right),
            PanelAnchor::Right => ((-POPUP_OFFSET, 0i32), Edge::Left, Edge::Left),
            PanelAnchor::Top => ((0i32, POPUP_OFFSET), Edge::Bottom, Edge::Bottom),
            PanelAnchor::Bottom => ((0i32, -POPUP_OFFSET), Edge::Top, Edge::Top),
        };
        let wp: i32 = match width_padding {
            Some(p) => p,
            None => APPLET_PADDING as i32,
        };
        let hp: i32 = match height_padding {
            Some(p) => p,
            None => APPLET_PADDING as i32,
        };
        let anchor_rect = Rectangle {
            x: 0,
            y: 0,
            width: wp * 2 + width as i32,
            height: hp * 2 + height as i32,
        };
        PopupSettings {
            parent,
            id,
            positioner: Positioner {
                anchor,
                gravity,
                offset,
                size,
                anchor_rect,
                reactive: true,
                constraint_adjustment: POPUP_CONSTRAINT_ADJUSTMENT,
            },
            grab: true,
        }
    }
}

} // verus!
