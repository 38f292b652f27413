use vstd::prelude::*;

verus! {

/// A style property: left unset, inherited from the parent, or given explicitly.
#[derive(Debug, Clone, Copy, PartialEq, Eq)]
pub enum StyleProp<T> {
    Default,
    Inherit,
    Value(T),
}

/// Sizing units, in whole pixels or whole percent.
#[derive(Debug, Clone, Copy, PartialEq, Eq)]
pub enum Units {
    Auto,
    Pixels(u32),
    Percentage(u32),
    Stretch(u32),
}

/// The visual kind a widget asks to be drawn as.
#[derive(Debug, Clone, PartialEq, Eq)]
pub enum RenderCommand {
    Empty,
    Layout,
    Clip,
    Quad,
    Text { content: String, font: String, size: u32, line_height: u32 },
}

/// A widget's style: the kind of primitive plus the properties the engine reads.
#[derive(Debug, Clone, PartialEq, Eq)]
pub struct Style {
    pub render_command: StyleProp<RenderCommand>,
    pub width: StyleProp<Units>,
    pub height: StyleProp<Units>,
    pub color: StyleProp<u32>,
    pub background_color: StyleProp<u32>,
}

/// `p` with an unset value replaced by `other`.
pub open spec fn prop_apply<T>(p: StyleProp<T>, other: StyleProp<T>) -> StyleProp<T> {
    match p {
        StyleProp::Default => other,
        _ => p,
    }
}

/// `p` with an inherit marker replaced by the parent's value.
pub open spec fn prop_inherit<T>(p: StyleProp<T>, parent: StyleProp<T>) -> StyleProp<T> {
    match p {
        StyleProp::Inherit => parent,
        _ => p,
    }
}

/// Whether a render-command property resolves to the empty kind.
pub open spec fn command_is_empty(p: StyleProp<RenderCommand>) -> bool {
    match p {
        StyleProp::Value(c) => c is Empty,
        _ => true,
    }
}

pub open spec fn style_apply(s: Style, o: Style) -> Style {
    Style {
        render_command: prop_apply(s.render_command, o.render_command),
        width: prop_apply(s.width, o.width),
        height: prop_apply(s.height, o.height),
        color: prop_apply(s.color, o.color),
        background_color: prop_apply(s.background_color, o.background_color),
    }
}

pub open spec fn style_inherit(s: Style, p: Style) -> Style {
    Style {
        render_command: prop_inherit(s.render_command, p.render_command),
        width: prop_inherit(s.width, p.width),
        height: prop_inherit(s.height, p.height),
        color: prop_inherit(s.color, p.color),
        background_color: prop_inherit(s.background_color, p.background_color),
    }
}

/// A style with every property unset.
pub open spec fn default_style() -> Style {
    Style {
        render_command: StyleProp::Default,
        width: StyleProp::Default,
        height: StyleProp::Default,
        color: StyleProp::Default,
        background_color: StyleProp::Default,
    }
}

/// The initial-value baseline: nothing is drawn, colour inherits, sizes stay open.
pub open spec fn initial_style() -> Style {
    Style {
        render_command: StyleProp::Value(RenderCommand::Empty),
        width: StyleProp::Default,
        height: StyleProp::Default,
        color: StyleProp::Inherit,
        background_color: StyleProp::Value(0),
    }
}

/// The cascade of a declared style: initial values first, then inheritance.
pub open spec fn cascade(declared: Option<Style>, parent: Style) -> Style {
    let base = match declared {
        Some(s) => s,
        None => default_style(),
    };
    style_inherit(style_apply(base, initial_style()), parent)
}

/// A measured text box written into the sizes that the cascade left unset.
pub open spec fn fill_measured(s: Style, m: Option<(u32, u32)>) -> Style {
    match m {
        None => s,
        Some((w, h)) => Style {
            width: if s.width is Default { StyleProp::Value(Units::Pixels(w)) } else { s.width },
            height: if s.height is Default { StyleProp::Value(Units::Pixels(h)) } else { s.height },
            ..s
        },
    }
}

impl RenderCommand {
    pub fn clone_value(&self) -> (r: Self)
        ensures
            r == *self,
    {
        match self {
            RenderCommand::Empty => RenderCommand::Empty,
            RenderCommand::Layout => RenderCommand::Layout,
            RenderCommand::Clip => RenderCommand::Clip,
            RenderCommand::Quad => RenderCommand::Quad,
            RenderCommand::Text { content, font, size, line_height } => RenderCommand::Text {
                content: content.clone(),
                font: font.clone(),
                size: *size,
                line_height: *line_height,
            },
        }
    }
}

pub fn clone_command_prop(p: &StyleProp<RenderCommand>) -> (r: StyleProp<RenderCommand>)
    ensures
        r == *p,
{
    match p {
        StyleProp::Default => StyleProp::Default,
        StyleProp::Inherit => StyleProp::Inherit,
        StyleProp::Value(c) => StyleProp::Value(c.clone_value()),
    }
}

/// Whether a render-command property resolves to the empty kind.
pub fn is_empty_command(p: &StyleProp<RenderCommand>) -> (r: bool)
    ensures
        r == command_is_empty(*p),
{
    match p {
        StyleProp::Value(RenderCommand::Empty) => true,
        StyleProp::Value(_) => false,
        _ => true,
    }
}

impl Style {
    /// The initial-value baseline.
    pub fn initial() -> (r: Style)
        ensures
            r == initial_style(),
    {
        Style {
            render_command: StyleProp::Value(RenderCommand::Empty),
            width: StyleProp::Default,
            height: StyleProp::Default,
            color: StyleProp::Inherit,
            background_color: StyleProp::Value(0),
        }
    }

    /// A style with every property unset.
    pub fn new_default() -> (r: Style)
        ensures
            r == default_style(),
    {
        Style {
            render_command: StyleProp::Default,
            width: StyleProp::Default,
            height: StyleProp::Default,
            color: StyleProp::Default,
            background_color: StyleProp::Default,
        }
    }

    pub fn clone_value(&self) -> (r: Style)
        ensures
            r == *self,
    {
        Style {
            render_command: clone_command_prop(&self.render_command),
            width: self.width,
            height: self.height,
            color: self.color,
            background_color: self.background_color,
        }
    }

    /// Fills every unset property from `other`.
    pub fn apply(&mut self, other: &Style)
        ensures
            *final(self) == style_apply(*old(self), *other),
    {
        if matches!(self.render_command, StyleProp::Default) {
            self.render_command = clone_command_prop(&other.render_command);
        }
        if matches!(self.width, StyleProp::Default) {
            self.width = other.width;
        }
        if matches!(self.height, StyleProp::Default) {
            self.height = other.height;
        }
        if matches!(self.color, StyleProp::Default) {
            self.color = other.color;
        }
        if matches!(self.background_color, StyleProp::Default) {
            self.background_color = other.background_color;
        }
    }

    /// Replaces every inherit-marked property with the parent's value.
    pub fn inherit(&mut self, parent: &Style)
        ensures
            *final(self) == style_inherit(*old(self), *parent),
    {
        if matches!(self.render_command, StyleProp::Inherit) {
            self.render_command = clone_command_prop(&parent.render_command);
        }
        if matches!(self.width, StyleProp::Inherit) {
            self.width = parent.width;
        }
        if matches!(self.height, StyleProp::Inherit) {
            self.height = parent.height;
        }
        if matches!(self.color, StyleProp::Inherit) {
            self.color = parent.color;
        }
        if matches!(self.background_color, StyleProp::Inherit) {
            self.background_color = parent.background_color;
        }
    }

    /// Writes a measured text box into the sizes that are still unset.
    pub fn apply_measurement(&mut self, m: Option<(u32, u32)>)
        ensures
            *final(self) == fill_measured(*old(self), m),
    {
        if let Some((w, h)) = m {
            if matches!(self.width, StyleProp::Default) {
                self.width = StyleProp::Value(Units::Pixels(w));
            }
            if matches!(self.height, StyleProp::Default) {
                self.height = StyleProp::Value(Units::Pixels(h));
            }
        }
    }
}

} // verus!
