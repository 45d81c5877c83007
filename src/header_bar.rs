//! The header bar of a window: a title, widgets packed at its start, center
//! and end, window controls, and the messages sent when it is dragged or
//! double-clicked.
use vstd::prelude::*;

verus! {

/// A window control button at the end of the header bar.
#[derive(Clone, Copy, Debug, PartialEq, Eq, Structural)]
pub enum Control {
    Minimize,
    Maximize,
    Close,
}

/// The symbolic icon that stands for a control.
pub open spec fn control_icon(c: Control) -> Seq<char> {
    match c {
        Control::Minimize => "window-minimize-symbolic"@,
        Control::Maximize => "window-maximize-symbolic"@,
        Control::Close => "window-close-symbolic"@,
    }
}

impl Control {
    /// The name of the symbolic icon drawn on the button.
    pub fn icon_name(&self) -> (r: &'static str)
        ensures
            r@ == control_icon(*self),
    {
        match self {
            Control::Minimize => "window-minimize-symbolic",
            Control::Maximize => "window-maximize-symbolic",
            Control::Close => "window-close-symbolic",
        }
    }
}

/// What fills the center region of the header bar.
#[derive(Clone, Debug, PartialEq, Eq)]
pub enum CenterRegion<E> {
    /// The widgets pushed to the center, in a row.
    Widgets(Vec<E>),
    /// The title, as a text filling the region.
    Title(String),
    /// Nothing: an empty space that fills the region.
    Space,
}

/// A header bar resolved into the regions that are drawn, from left to right.
#[derive(Clone, Debug, PartialEq, Eq)]
pub struct HeaderBarLayout<M, E> {
    /// The widgets of the start region, aligned left; `None` where there are none.
    pub start: Option<Vec<E>>,
    /// The center region.
    pub center: CenterRegion<E>,
    /// The widgets of the end region, aligned right and followed by the controls.
    pub end: Vec<E>,
    /// The window controls after the end widgets, each with the message it sends.
    pub controls: Vec<(Control, M)>,
    /// The message sent when the bar is pressed, to start a drag.
    pub on_press: Option<M>,
    /// The message sent when a press on the bar is released, to maximize.
    pub on_release: Option<M>,
}

/// The content of a header bar builder.
pub ghost struct HeaderBarModel<M, E> {
    pub title: Seq<char>,
    pub on_close: Option<M>,
    pub on_drag: Option<M>,
    pub on_maximize: Option<M>,
    pub on_minimize: Option<M>,
    pub start: Seq<E>,
    pub center: Seq<E>,
    pub end: Seq<E>,
}

/// A builder for the header bar of a window.
pub struct HeaderBar<M, E> {
    title: String,
    on_close: Option<M>,
    on_drag: Option<M>,
    on_maximize: Option<M>,
    on_minimize: Option<M>,
    start: Vec<E>,
    center: Vec<E>,
    end: Vec<E>,
}

impl<M, E> View for HeaderBar<M, E> {
    type V = HeaderBarModel<M, E>;

    closed spec fn view(&self) -> HeaderBarModel<M, E> {
        HeaderBarModel {
            title: self.title@,
            on_close: self.on_close,
            on_drag: self.on_drag,
            on_maximize: self.on_maximize,
            on_minimize: self.on_minimize,
            start: self.start@,
            center: self.center@,
            end: self.end@,
        }
    }
}

/// The control for `c` where a message is set for it, else nothing.
pub open spec fn control_entry<M>(c: Control, msg: Option<M>) -> Seq<(Control, M)> {
    match msg {
        Some(m) => seq![(c, m)],
        None => Seq::empty(),
    }
}

/// The window controls, in the order minimize, maximize, close, of those that
/// have a message.
pub open spec fn controls_of<M>(minimize: Option<M>, maximize: Option<M>, close: Option<M>) -> Seq<
    (Control, M),
> {
    control_entry(Control::Minimize, minimize) + control_entry(Control::Maximize, maximize)
        + control_entry(Control::Close, close)
}

/// Creates a header bar with no title, no messages and no widgets.
pub fn header_bar<M, E>() -> (r: HeaderBar<M, E>)
    ensures
        r@ == (HeaderBarModel::<M, E> {
            title: Seq::empty(),
            on_close: None,
            on_drag: None,
            on_maximize: None,
            on_minimize: None,
            start: Seq::empty(),
            center: Seq::empty(),
            end: Seq::empty(),
        }),
{
    let r = HeaderBar {
        title: String::new(),
        on_close: None,
        on_drag: None,
        on_maximize: None,
        on_minimize: None,
        start: Vec::new(),
        center: Vec::new(),
        end: Vec::new(),
    };
    assert(r@.start =~= Seq::empty());
    assert(r@.center =~= Seq::empty());
    assert(r@.end =~= Seq::empty());
    r
}

impl<M, E> HeaderBar<M, E> {
    /// Defines the title of the window.
    pub fn title(self, title: &str) -> (r: Self)
        ensures
            r@ == (HeaderBarModel { title: title@, ..self@ }),
    {
        HeaderBar { title: title.to_owned(), ..self }
    }

    /// Sets the message sent when the close button is pressed.
    pub fn on_close(self, msg: M) -> (r: Self)
        ensures
            r@ == (HeaderBarModel { on_close: Some(msg), ..self@ }),
    {
        HeaderBar { on_close: Some(msg), ..self }
    }

    /// Sets the message sent when the bar is dragged.
    pub fn on_drag(self, msg: M) -> (r: Self)
        ensures
            r@ == (HeaderBarModel { on_drag: Some(msg), ..self@ }),
    {
        HeaderBar { on_drag: Some(msg), ..self }
    }

    /// Sets the message sent when the maximize button is pressed or the bar
    /// is double-clicked.
    pub fn on_maximize(self, msg: M) -> (r: Self)
        ensures
            r@ == (HeaderBarModel { on_maximize: Some(msg), ..self@ }),
    {
        HeaderBar { on_maximize: Some(msg), ..self }
    }

    /// Sets the message sent when the minimize button is pressed.
    pub fn on_minimize(self, msg: M) -> (r: Self)
        ensures
            r@ == (HeaderBarModel { on_minimize: Some(msg), ..self@ }),
    {
        HeaderBar { on_minimize: Some(msg), ..self }
    }

    /// Pushes an element to the start region.
    pub fn start(self, widget: E) -> (r: Self)
        ensures
            r@ == (HeaderBarModel { start: self@.start.push(widget), ..self@ }),
    {
        let mut b = self;
        b.start.push(widget);
        b
    }

    /// Pushes an element to the center region.
    pub fn center(self, widget: E) -> (r: Self)
        ensures
            r@ == (HeaderBarModel { center: self@.center.push(widget), ..self@ }),
    {
        let mut b = self;
        b.center.push(widget);
        b
    }

    /// Pushes an element to the end region.
    pub fn end(self, widget: E) -> (r: Self)
        ensures
            r@ == (HeaderBarModel { end: self@.end.push(widget), ..self@ }),
    {
        let mut b = self;
        b.end.push(widget);
        b
    }
}

impl<M: Clone, E> HeaderBar<M, E> {
    /// Resolves the header bar into the regions that are drawn.
    ///
    /// The start region is packed only where it holds widgets. The center
    /// region holds its widgets where there are any, else the title where it
    /// is not empty, else an empty space. The window controls follow the end
    /// widgets. A press on the bar sends the drag message, and its release
    /// sends a copy of the maximize message.
    pub fn into_element(self) -> (r: HeaderBarLayout<M, E>)
        ensures
            match r.start {
                Some(v) => self@.start.len() > 0 && v@ == self@.start,
                None => self@.start.len() == 0,
            },
            match r.center {
                CenterRegion::Widgets(v) => self@.center.len() > 0 && v@ == self@.center,
                CenterRegion::Title(t) => self@.center.len() == 0 && self@.title.len() > 0 && t@
                    == self@.title,
                CenterRegion::Space => self@.center.len() == 0 && self@.title.len() == 0,
            },
            r.end@ == self@.end,
            r.controls@ == controls_of(self@.on_minimize, self@.on_maximize, self@.on_close),
            r.on_press == self@.on_drag,
            match self@.on_maximize {
                Some(m) => r.on_release matches Some(c) && cloned(m, c),
                None => r.on_release is None,
            },
    {
        let HeaderBar { title, on_close, on_drag, on_maximize, on_minimize, start, center, end } =
            self;
        let start = if start.len() == 0 {
            None
        } else {
            Some(start)
        };
        let center = if center.len() > 0 {
            CenterRegion::Widgets(center)
        } else if title.as_str().is_empty() {
            CenterRegion::Space
        } else {
            CenterRegion::Title(title)
        };
        let on_release = match &on_maximize {
            Some(m) => Some(m.clone()),
            None => None,
        };
        let controls = window_controls(on_minimize, on_maximize, on_close);
        HeaderBarLayout { start, center, end, controls, on_press: on_drag, on_release }
    }
}

/// Lists the window controls that have a message, in the order minimize,
/// maximize, close.
fn window_controls<M>(minimize: Option<M>, maximize: Option<M>, close: Option<M>) -> (r: Vec<
    (Control, M),
>)
    ensures
        r@ == controls_of(minimize, maximize, close),
{
    let mut widgets: Vec<(Control, M)> = Vec::new();
    if let Some(m) = minimize {
        widgets.push((Control::Minimize, m));
    }
    assert(widgets@ =~= control_entry(Control::Minimize, minimize));
    if let Some(m) = maximize {
        widgets.push((Control::Maximize, m));
    }
    assert(widgets@ =~= control_entry(Control::Minimize, minimize) + control_entry(
        Control::Maximize,
        maximize,
    ));
    if let Some(m) = close {
        widgets.push((Control::Close, m));
    }
    assert(widgets@ =~= controls_of(minimize, maximize, close));
    widgets
}

} // verus!
