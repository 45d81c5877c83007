use cosmic::alignment::{Horizontal, Vertical};
use cosmic::layer_container::{container, ContainerStyle, Layer, LayerContainer};

#[test]
fn new_container_keeps_the_surrounding_layer() {
    let c = container("text");
    assert_eq!(c.layer, None);
    assert_eq!(c.style, None);
    assert_eq!(c.align_x, Horizontal::Left);
    assert_eq!(c.align_y, Vertical::Top);
    assert_eq!(c.content, "text");
    assert_eq!(c.draw_layer(Layer::Secondary), Layer::Secondary);
}

#[test]
fn layer_sets_its_style() {
    let cases = [
        (Layer::Background, ContainerStyle::Background),
        (Layer::Primary, ContainerStyle::Primary),
        (Layer::Secondary, ContainerStyle::Secondary),
    ];
    for (layer, style) in cases {
        let c = LayerContainer::new(0u8).layer(layer);
        assert_eq!(c.layer, Some(layer));
        assert_eq!(c.style, Some(style));
        assert_eq!(c.draw_layer(Layer::Background), layer);
    }
}

#[test]
fn style_after_layer_overrides_the_style_only() {
    let c = container(0u8).layer(Layer::Primary).style(ContainerStyle::HeaderBar);
    assert_eq!(c.layer, Some(Layer::Primary));
    assert_eq!(c.style, Some(ContainerStyle::HeaderBar));
}

#[test]
fn alignment_setters() {
    let c = container(0u8).center_x().center_y();
    assert_eq!((c.align_x, c.align_y), (Horizontal::Center, Vertical::Center));
    let c = c.align_x(Horizontal::Right).align_y(Vertical::Bottom);
    assert_eq!((c.align_x, c.align_y), (Horizontal::Right, Vertical::Bottom));
}
