use vstd::prelude::*;
use crate::styles::{RenderCommand, Style, StyleProp};

verus! {

/// A layout rectangle. `z_index` counts tenths of a depth step.
#[derive(Debug, Clone, Copy, PartialEq, Eq, Default)]
pub struct Rect {
    pub x: i32,
    pub y: i32,
    pub width: u32,
    pub height: u32,
    pub z_index: i64,
}

/// A drawable unit handed to the rasterizer.
#[derive(Debug, Clone, PartialEq, Eq)]
pub enum RenderPrimitive {
    Empty,
    Clip { layout: Rect },
    Quad { layout: Rect, color: u32 },
    Text {
        content: String,
        font: String,
        size: u32,
        line_height: u32,
        parent_width: u32,
        parent_height: u32,
        layout: Rect,
    },
}

pub open spec fn zero_rect() -> Rect {
    Rect { x: 0, y: 0, width: 0, height: 0, z_index: 0 }
}

pub open spec fn resolve_u32(p: StyleProp<u32>) -> u32 {
    match p {
        StyleProp::Value(v) => v,
        _ => 0,
    }
}

/// The primitive that a cascaded style asks for, before layout.
pub open spec fn primitive_of(s: Style) -> RenderPrimitive {
    match s.render_command {
        StyleProp::Value(RenderCommand::Clip) => RenderPrimitive::Clip { layout: zero_rect() },
        StyleProp::Value(RenderCommand::Quad) => RenderPrimitive::Quad {
            layout: zero_rect(),
            color: resolve_u32(s.background_color),
        },
        StyleProp::Value(RenderCommand::Text { content, font, size, line_height }) => RenderPrimitive::Text {
            content,
            font,
            size,
            line_height,
            parent_width: 0,
            parent_height: 0,
            layout: zero_rect(),
        },
        _ => RenderPrimitive::Empty,
    }
}

/// `p` placed at `r`; the empty primitive has no place.
pub open spec fn with_layout(p: RenderPrimitive, r: Rect) -> RenderPrimitive {
    match p {
        RenderPrimitive::Empty => RenderPrimitive::Empty,
        RenderPrimitive::Clip { .. } => RenderPrimitive::Clip { layout: r },
        RenderPrimitive::Quad { color, .. } => RenderPrimitive::Quad { layout: r, color },
        RenderPrimitive::Text { content, font, size, line_height, parent_width, parent_height, .. } => RenderPrimitive::Text {
            content,
            font,
            size,
            line_height,
            parent_width,
            parent_height,
            layout: r,
        },
    }
}

fn resolve_color(p: &StyleProp<u32>) -> (r: u32)
    ensures
        r == resolve_u32(*p),
{
    match p {
        StyleProp::Value(v) => *v,
        _ => 0,
    }
}

impl Rect {
    /// The placeholder rectangle of a new slot.
    pub fn default_rect() -> (r: Rect)
        ensures
            r == zero_rect(),
    {
        Rect { x: 0, y: 0, width: 0, height: 0, z_index: 0 }
    }
}

impl RenderPrimitive {
    /// Builds the primitive that a cascaded style asks for.
    pub fn from_style(s: &Style) -> (r: RenderPrimitive)
        ensures
            r == primitive_of(*s),
    {
        let z = Rect { x: 0, y: 0, width: 0, height: 0, z_index: 0 };
        match &s.render_command {
            StyleProp::Value(RenderCommand::Clip) => RenderPrimitive::Clip { layout: z },
            StyleProp::Value(RenderCommand::Quad) => RenderPrimitive::Quad {
                layout: z,
                color: resolve_color(&s.background_color),
            },
            StyleProp::Value(RenderCommand::Text { content, font, size, line_height }) => RenderPrimitive::Text {
                content: content.clone(),
                font: font.clone(),
                size: *size,
                line_height: *line_height,
                parent_width: 0,
            parent_height: 0,
                layout: z,
            },
            _ => RenderPrimitive::Empty,
        }
    }

    pub fn clone_value(&self) -> (r: Self)
        ensures
            r == *self,
    {
        match self {
            RenderPrimitive::Empty => RenderPrimitive::Empty,
            RenderPrimitive::Clip { layout } => RenderPrimitive::Clip { layout: *layout },
            RenderPrimitive::Quad { layout, color } => RenderPrimitive::Quad { layout: *layout, color: *color },
            RenderPrimitive::Text { content, font, size, line_height, parent_width, parent_height, layout } => RenderPrimitive::Text {
                content: content.clone(),
                font: font.clone(),
                size: *size,
                line_height: *line_height,
                parent_width: *parent_width,
                parent_height: *parent_height,
                layout: *layout,
            },
        }
    }

    /// Places the primitive at `r`.
    pub fn set_layout(&mut self, r: Rect)
        ensures
            *final(self) == with_layout(*old(self), r),
    {
        match self {
            RenderPrimitive::Empty => {},
            RenderPrimitive::Clip { layout } => { *layout = r; },
            RenderPrimitive::Quad { layout, .. } => { *layout = r; },
            RenderPrimitive::Text { layout, .. } => { *layout = r; },
        }
    }

    pub fn is_clip(&self) -> (r: bool)
        ensures
            r == (*self is Clip),
    {
        matches!(self, RenderPrimitive::Clip { .. })
    }
}

} // verus!
