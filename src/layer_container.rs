//! A container that draws its content on a layer of the theme of its own
//! choosing, with the container style that belongs to that layer.
use vstd::prelude::*;
use crate::alignment::{Horizontal, Vertical};

verus! {

/// A layer of the theme: the window background, and the surfaces above it.
#[derive(Clone, Copy, Debug, PartialEq, Eq, Structural)]
pub enum Layer {
    Background,
    Primary,
    Secondary,
}

/// The style a container is drawn with.
#[derive(Clone, Copy, Debug, PartialEq, Eq, Structural)]
pub enum ContainerStyle {
    /// The surface of the background layer.
    Background,
    /// The surface of the primary layer.
    Primary,
    /// The surface of the secondary layer.
    Secondary,
    /// The bar at the top of a window.
    HeaderBar,
}

/// The container style that belongs to a layer.
pub open spec fn layer_style(layer: Layer) -> ContainerStyle {
    match layer {
        Layer::Background => ContainerStyle::Background,
        Layer::Primary => ContainerStyle::Primary,
        Layer::Secondary => ContainerStyle::Secondary,
    }
}

/// A container around `content`, which may set the theme layer that its
/// content is drawn on.
#[derive(Clone, Debug, PartialEq, Eq)]
pub struct LayerContainer<C> {
    /// The layer the content is drawn on; `None` keeps the surrounding one.
    pub layer: Option<Layer>,
    /// The container's style; `None` for the theme's default.
    pub style: Option<ContainerStyle>,
    pub align_x: Horizontal,
    pub align_y: Vertical,
    pub content: C,
}

/// A container around `content`, on the surrounding layer, aligned to the top
/// left.
pub fn container<C>(content: C) -> (r: LayerContainer<C>)
    ensures
        r.layer is None,
        r.style is None,
        r.align_x == Horizontal::Left,
        r.align_y == Vertical::Top,
        r.content == content,
{
    LayerContainer::new(content)
}

impl<C> LayerContainer<C> {
    /// A container around `content`, on the surrounding layer, aligned to the
    /// top left.
    pub fn new(content: C) -> (r: Self)
        ensures
            r.layer is None,
            r.style is None,
            r.align_x == Horizontal::Left,
            r.align_y == Vertical::Top,
            r.content == content,
    {
        LayerContainer {
            layer: None,
            style: None,
            align_x: Horizontal::Left,
            align_y: Vertical::Top,
            content,
        }
    }

    /// Draws the content on `layer`, with the style of that layer.
    pub fn layer(self, layer: Layer) -> (r: Self)
        ensures
            r == (LayerContainer { layer: Some(layer), style: Some(layer_style(layer)), ..self }),
    {
        let style = match layer {
            Layer::Background => ContainerStyle::Background,
            Layer::Primary => ContainerStyle::Primary,
            Layer::Secondary => ContainerStyle::Secondary,
        };
        LayerContainer { layer: Some(layer), ..self }.style(style)
    }

    /// Sets the style of the container.
    pub fn style(self, style: ContainerStyle) -> (r: Self)
        ensures
            r == (LayerContainer { style: Some(style), ..self }),
    {
        LayerContainer { style: Some(style), ..self }
    }

    /// Sets the alignment of the content on the horizontal axis.
    pub fn align_x(self, alignment: Horizontal) -> (r: Self)
        ensures
            r == (LayerContainer { align_x: alignment, ..self }),
    {
        LayerContainer { align_x: alignment, ..self }
    }

    /// Sets the alignment of the content on the vertical axis.
    pub fn align_y(self, alignment: Vertical) -> (r: Self)
        ensures
            r == (LayerContainer { align_y: alignment, ..self }),
    {
        LayerContainer { align_y: alignment, ..self }
    }

    /// Centers the content on the horizontal axis.
    pub fn center_x(self) -> (r: Self)
        ensures
            r == (LayerContainer { align_x: Horizontal::Center, ..self }),
    {
        self.align_x(Horizontal::Center)
    }

    /// Centers the content on the vertical axis.
    pub fn center_y(self) -> (r: Self)
        ensures
            r == (LayerContainer { align_y: Vertical::Center, ..self }),
    {
        self.align_y(Vertical::Center)
    }

    /// The layer the content is drawn on, inside a theme currently on
    /// `surrounding`: the container's own where it has one.
    pub fn draw_layer(&self, surrounding: Layer) -> (r: Layer)
        ensures
            r == match self.layer {
                Some(l) => l,
                None => surrounding,
            },
    {
        match self.layer {
            Some(l) => l,
            None => surrounding,
        }
    }
}

} // verus!
