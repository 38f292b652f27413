use vstd::prelude::*;

verus! {

/// A widget kind, known by a readable name.
pub trait Widget {
    fn get_name(&self) -> String;
}

/// The state of a widget that keeps none.
#[derive(Debug, Default, PartialEq, Eq, Clone, Copy)]
pub struct EmptyState;

impl Widget for EmptyState {
    fn get_name(&self) -> String {
        String::from_str("EmptyState")
    }
}

/// Marks a type as the properties of a widget, compared between frames.
pub trait WidgetProps {
}

/// What the host found when it compared a widget's inputs with those of the
/// previous frame. A comparison that could not be made (one side has no style,
/// no children or no properties) is `None`.
#[derive(Debug, Clone, Copy, PartialEq, Eq)]
pub struct WidgetParam {
    pub mounted: bool,
    pub styles_differ: Option<bool>,
    pub children_differ: Option<bool>,
    pub props_differ: Option<bool>,
    pub had_state: bool,
    pub has_state: bool,
    pub state_differs: Option<bool>,
}

impl WidgetParam {
    /// Whether these findings mean the widget must be built again.
    pub open spec fn changed(&self) -> bool {
        ||| self.mounted
        ||| self.styles_differ == Some(true)
        ||| self.children_differ == Some(true)
        ||| self.props_differ == Some(true)
        ||| (self.has_state && !self.had_state)
        ||| (self.has_state && self.had_state && self.state_differs == Some(true))
    }

    /// Decides, from the comparison of this frame's inputs with the last one's,
    /// whether the widget must be built again: it was just mounted, or its
    /// style, children, properties or state changed, or it gained a state.
    pub fn has_changed(&self) -> (r: bool)
        ensures
            r == self.changed(),
    {
        if self.mounted {
            return true;
        }
        if let Some(true) = self.styles_differ {
            return true;
        }
        if let Some(true) = self.children_differ {
            return true;
        }
        if let Some(true) = self.props_differ {
            return true;
        }
        if self.has_state && !self.had_state {
            return true;
        }
        if self.has_state && self.had_state {
            if let Some(true) = self.state_differs {
                return true;
            }
        }
        false
    }
}

/// Whether a widget must be built again.
pub fn widget_update(widget_param: &WidgetParam) -> (r: bool)
    ensures
        r == widget_param.changed(),
{
    widget_param.has_changed()
}

/// Whether a widget must be built again, also when the context it reads from
/// has changed.
pub fn widget_update_with_context(context_changed: bool, widget_param: &WidgetParam) -> (r: bool)
    ensures
        r == (context_changed || widget_param.changed()),
{
    if context_changed {
        return true;
    }
    widget_param.has_changed()
}

} // verus!
