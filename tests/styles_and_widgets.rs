use kayak_core::styles::{RenderCommand, Style, StyleProp, Units};
use kayak_core::widget::{widget_update, widget_update_with_context, EmptyState, Widget, WidgetParam};

fn unchanged() -> WidgetParam {
    WidgetParam {
        mounted: false,
        styles_differ: Some(false),
        children_differ: None,
        props_differ: Some(false),
        had_state: true,
        has_state: true,
        state_differs: Some(false),
    }
}

#[test]
fn apply_fills_only_unset() {
    let mut s = Style::new_default();
    s.width = StyleProp::Value(Units::Pixels(3));
    s.color = StyleProp::Inherit;
    s.apply(&Style::initial());
    assert_eq!(s.render_command, StyleProp::Value(RenderCommand::Empty));
    assert_eq!(s.width, StyleProp::Value(Units::Pixels(3)));
    assert_eq!(s.height, StyleProp::Default);
    assert_eq!(s.color, StyleProp::Inherit);
    assert_eq!(s.background_color, StyleProp::Value(0));
}

#[test]
fn inherit_replaces_only_inherit_marks() {
    let mut parent = Style::new_default();
    parent.color = StyleProp::Value(9);
    parent.width = StyleProp::Value(Units::Percentage(50));
    let mut s = Style::initial();
    s.width = StyleProp::Inherit;
    s.inherit(&parent);
    assert_eq!(s.color, StyleProp::Value(9));
    assert_eq!(s.width, StyleProp::Value(Units::Percentage(50)));
    assert_eq!(s.background_color, StyleProp::Value(0));
}

#[test]
fn measurement_fills_unset_sizes_only() {
    let mut s = Style::new_default();
    s.height = StyleProp::Value(Units::Auto);
    s.apply_measurement(Some((80, 20)));
    assert_eq!(s.width, StyleProp::Value(Units::Pixels(80)));
    assert_eq!(s.height, StyleProp::Value(Units::Auto));
    let mut t = Style::new_default();
    t.apply_measurement(None);
    assert_eq!(t, Style::new_default());
}

#[test]
fn change_detection() {
    assert!(!unchanged().has_changed());
    assert!(WidgetParam { mounted: true, ..unchanged() }.has_changed());
    assert!(WidgetParam { styles_differ: Some(true), ..unchanged() }.has_changed());
    assert!(WidgetParam { children_differ: Some(true), ..unchanged() }.has_changed());
    assert!(WidgetParam { props_differ: Some(true), ..unchanged() }.has_changed());
    assert!(WidgetParam { had_state: false, ..unchanged() }.has_changed());
    assert!(WidgetParam { state_differs: Some(true), ..unchanged() }.has_changed());
    assert!(!WidgetParam { has_state: false, had_state: true, state_differs: Some(true), ..unchanged() }.has_changed());
    assert!(!widget_update(&unchanged()));
    assert!(widget_update_with_context(true, &unchanged()));
    assert!(!widget_update_with_context(false, &unchanged()));
}

#[test]
fn empty_state_name() {
    assert_eq!(EmptyState.get_name(), "EmptyState");
    assert_eq!(EmptyState::default(), EmptyState);
}
