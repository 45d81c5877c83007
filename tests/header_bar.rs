use cosmic::header_bar::{header_bar, CenterRegion, Control, HeaderBar};

#[derive(Clone, Debug, PartialEq, Eq)]
enum Msg {
    Close,
    Drag,
    Maximize,
    Minimize,
}

#[test]
fn empty_bar_has_a_space_in_the_center_and_no_controls() {
    let b: HeaderBar<Msg, &str> = header_bar();
    let l = b.into_element();
    assert_eq!(l.start, None);
    assert_eq!(l.center, CenterRegion::Space);
    assert!(l.end.is_empty());
    assert!(l.controls.is_empty());
    assert_eq!(l.on_press, None);
    assert_eq!(l.on_release, None);
}

#[test]
fn title_fills_the_center_when_no_center_widgets() {
    let b: HeaderBar<Msg, &str> = header_bar().title("Settings");
    let l = b.into_element();
    assert_eq!(l.center, CenterRegion::Title(String::from("Settings")));
}

#[test]
fn center_widgets_take_precedence_over_the_title() {
    let b: HeaderBar<Msg, &str> = header_bar().title("Settings").center("search").center("tabs");
    let l = b.into_element();
    assert_eq!(l.center, CenterRegion::Widgets(vec!["search", "tabs"]));
}

#[test]
fn empty_title_gives_a_space() {
    let b: HeaderBar<Msg, &str> = header_bar().title("");
    assert_eq!(b.into_element().center, CenterRegion::Space);
}

#[test]
fn start_and_end_widgets_keep_their_order() {
    let b: HeaderBar<Msg, &str> = header_bar().start("back").start("forward").end("menu");
    let l = b.into_element();
    assert_eq!(l.start, Some(vec!["back", "forward"]));
    assert_eq!(l.end, vec!["menu"]);
}

#[test]
fn controls_come_in_fixed_order_whatever_order_they_were_set() {
    let b: HeaderBar<Msg, &str> = header_bar()
        .on_close(Msg::Close)
        .on_maximize(Msg::Maximize)
        .on_minimize(Msg::Minimize);
    let l = b.into_element();
    assert_eq!(
        l.controls,
        vec![
            (Control::Minimize, Msg::Minimize),
            (Control::Maximize, Msg::Maximize),
            (Control::Close, Msg::Close),
        ]
    );
}

#[test]
fn only_controls_with_a_message_are_shown() {
    let b: HeaderBar<Msg, &str> = header_bar().on_close(Msg::Close);
    let l = b.into_element();
    assert_eq!(l.controls, vec![(Control::Close, Msg::Close)]);
    assert_eq!(l.on_release, None);
}

#[test]
fn drag_on_press_and_maximize_on_release() {
    let b: HeaderBar<Msg, &str> = header_bar().on_drag(Msg::Drag).on_maximize(Msg::Maximize);
    let l = b.into_element();
    assert_eq!(l.on_press, Some(Msg::Drag));
    assert_eq!(l.on_release, Some(Msg::Maximize));
    assert_eq!(l.controls, vec![(Control::Maximize, Msg::Maximize)]);
}

#[test]
fn control_icons() {
    assert_eq!(Control::Minimize.icon_name(), "window-minimize-symbolic");
    assert_eq!(Control::Maximize.icon_name(), "window-maximize-symbolic");
    assert_eq!(Control::Close.icon_name(), "window-close-symbolic");
}
