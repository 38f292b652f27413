use kayak_core::render_primitive::{Rect, RenderPrimitive};
use kayak_core::styles::{RenderCommand, Style, StyleProp, Units};
use kayak_core::widget_manager::{apply_text_measurement, FontMeasure, Index, MeasureRequest, WidgetInstance, WidgetManager};

struct FixedFont;

impl FontMeasure for FixedFont {
    fn measure(
        &self,
        _font: &String,
        content: &String,
        _size: u32,
        _line_height: u32,
        max_width: u32,
        max_height: u32,
    ) -> Option<(u32, u32)> {
        if content == "Hello" && max_width == 200 && max_height == 100 {
            Some((80, 20))
        } else {
            Some((1, 1))
        }
    }
}

struct NoFont;

impl FontMeasure for NoFont {
    fn measure(&self, _: &String, _: &String, _: u32, _: u32, _: u32, _: u32) -> Option<(u32, u32)> {
        None
    }
}

fn style(cmd: RenderCommand) -> Style {
    Style {
        render_command: StyleProp::Value(cmd),
        width: StyleProp::Default,
        height: StyleProp::Default,
        color: StyleProp::Default,
        background_color: StyleProp::Default,
    }
}

fn widget(name: &str, styles: Option<Style>, focusable: Option<bool>) -> WidgetInstance {
    WidgetInstance { id: Index { slot: 0, generation: 0 }, name: name.to_string(), styles, focusable }
}

fn text(content: &str) -> RenderCommand {
    RenderCommand::Text { content: content.to_string(), font: "roboto".to_string(), size: 14, line_height: 18 }
}

fn z_of(p: &RenderPrimitive) -> i64 {
    match p {
        RenderPrimitive::Empty => panic!("empty primitive has no layout"),
        RenderPrimitive::Clip { layout } => layout.z_index,
        RenderPrimitive::Quad { layout, .. } => layout.z_index,
        RenderPrimitive::Text { layout, .. } => layout.z_index,
    }
}

#[test]
fn create_widget_same_slot_keeps_identity() {
    let mut m = WidgetManager::new();
    let (_, root) = m.create_widget(0, widget("root", Some(style(RenderCommand::Layout)), None), None);
    let (_, first) = m.create_widget(0, widget("a", Some(style(RenderCommand::Quad)), None), Some(root));
    m.render(&NoFont);
    assert!(!m.is_render_dirty(first));
    let (changed, second) = m.create_widget(0, widget("b", Some(style(RenderCommand::Clip)), None), Some(root));
    assert!(changed);
    assert_eq!(first, second);
    assert!(m.is_render_dirty(second));
    assert_eq!(m.get_name(&second), Some("b".to_string()));
    assert_eq!(m.current_widgets.len(), 2);
}

#[test]
fn create_widget_new_slots_get_new_identities() {
    let mut m = WidgetManager::new();
    let (_, root) = m.create_widget(0, widget("root", None, Some(false)), None);
    let (_, a) = m.create_widget(0, widget("a", None, None), Some(root));
    let (_, b) = m.create_widget(1, widget("b", None, None), Some(root));
    assert_eq!(root, Index { slot: 0, generation: 0 });
    assert_eq!(a, Index { slot: 1, generation: 0 });
    assert_eq!(b, Index { slot: 2, generation: 0 });
    assert_eq!(m.tree.children[0], vec![a, b]);
    assert_eq!(m.tree.parents[2], Some(root));
    assert_eq!(m.tree.root_node, Some(root));
    // the root is always focusable
    assert_eq!(m.get_focusable(root), Some(true));
    assert_eq!(m.get_focusable(a), None);
}

#[test]
fn render_drains_render_dirty_set() {
    let mut m = WidgetManager::new();
    let (_, root) = m.create_widget(0, widget("root", Some(style(RenderCommand::Layout)), None), None);
    let (_, a) = m.create_widget(0, widget("a", Some(style(RenderCommand::Quad)), None), Some(root));
    assert!(m.is_render_dirty(root));
    assert!(m.is_render_dirty(a));
    m.render(&NoFont);
    assert!(!m.is_render_dirty(root));
    assert!(!m.is_render_dirty(a));
    assert!(m.get_node(&a).is_some());
    assert_eq!(m.get_node(&a).unwrap().z, 1);
    assert_eq!(m.get_node(&root).unwrap().z, 0);
}

#[test]
fn text_auto_size_from_parent_layout() {
    let mut m = WidgetManager::new();
    let (_, root) = m.create_widget(0, widget("root", Some(style(RenderCommand::Layout)), None), None);
    m.set_layout(&root, Rect { x: 0, y: 0, width: 200, height: 100, z_index: 0 });
    let (_, t) = m.create_widget(0, widget("text", Some(style(text("Hello"))), None), Some(root));
    let measured = m.render(&FixedFont);
    assert_eq!(measured, vec![None, Some((80, 20))]);
    let node = m.get_node(&t).unwrap();
    assert_eq!(node.resolved_styles.width, StyleProp::Value(Units::Pixels(80)));
    assert_eq!(node.resolved_styles.height, StyleProp::Value(Units::Pixels(20)));
    match node.primitive {
        RenderPrimitive::Text { parent_width, parent_height, .. } => {
            assert_eq!((parent_width, parent_height), (200, 100));
        },
        _ => panic!("expected a text primitive"),
    }
    // the text widget is bound to its font
    assert_eq!(m.widget_lifetimes[t.slot], vec!["roboto".to_string()]);
}

#[test]
fn text_keeps_declared_size_and_waits_for_font() {
    let mut m = WidgetManager::new();
    let (_, root) = m.create_widget(0, widget("root", Some(style(RenderCommand::Layout)), None), None);
    m.set_layout(&root, Rect { x: 0, y: 0, width: 200, height: 100, z_index: 0 });
    let mut s = style(text("Hello"));
    s.width = StyleProp::Value(Units::Pixels(50));
    let (_, t) = m.create_widget(0, widget("text", Some(s), None), Some(root));
    m.render(&FixedFont);
    let node = m.get_node(&t).unwrap();
    assert_eq!(node.resolved_styles.width, StyleProp::Value(Units::Pixels(50)));
    assert_eq!(node.resolved_styles.height, StyleProp::Value(Units::Pixels(20)));

    let mut m2 = WidgetManager::new();
    let (_, root2) = m2.create_widget(0, widget("root", Some(style(RenderCommand::Layout)), None), None);
    let (_, t2) = m2.create_widget(0, widget("text", Some(style(text("Hello"))), None), Some(root2));
    m2.render(&NoFont);
    let node2 = m2.get_node(&t2).unwrap();
    assert_eq!(node2.resolved_styles.width, StyleProp::Default);
    assert_eq!(node2.resolved_styles.height, StyleProp::Default);
    // a fired font binding marks the widget for re-evaluation
    assert!(!m2.is_reevaluation_dirty(t2));
    m2.binding_changed(t2);
    assert!(m2.is_reevaluation_dirty(t2));
    m2.binding_changed(root2);
    assert!(!m2.is_reevaluation_dirty(root2));
}

#[test]
fn clip_reset_after_clipped_children() {
    let mut m = WidgetManager::new();
    let (_, n) = m.create_widget(0, widget("n", Some(style(RenderCommand::Layout)), None), None);
    let (_, c) = m.create_widget(0, widget("c", Some(style(RenderCommand::Clip)), None), Some(n));
    let (_, _d1) = m.create_widget(0, widget("d1", Some(style(RenderCommand::Quad)), None), Some(c));
    let (_, _d2) = m.create_widget(1, widget("d2", Some(style(RenderCommand::Quad)), None), Some(c));
    let (_, _s) = m.create_widget(1, widget("s", Some(style(RenderCommand::Quad)), None), Some(n));
    m.render(&NoFont);
    let prims = m.build_render_primitives();
    assert_eq!(prims.len(), 7);
    assert!(matches!(prims[0], RenderPrimitive::Empty));
    assert!(matches!(prims[1], RenderPrimitive::Clip { .. }));
    assert!(matches!(prims[2], RenderPrimitive::Quad { .. }));
    assert!(matches!(prims[3], RenderPrimitive::Clip { .. }));
    assert!(matches!(prims[4], RenderPrimitive::Quad { .. }));
    assert!(matches!(prims[5], RenderPrimitive::Clip { .. }));
    assert!(matches!(prims[6], RenderPrimitive::Quad { .. }));
    // clip just behind its content, resets just above the clipped subtree
    assert_eq!(z_of(&prims[1]), 9);
    assert_eq!(z_of(&prims[2]), 19);
    assert_eq!(z_of(&prims[3]), 20);
    assert_eq!(z_of(&prims[4]), 19);
    assert_eq!(z_of(&prims[5]), 20);
    assert!(z_of(&prims[5]) > z_of(&prims[4]));
    assert_eq!(z_of(&prims[6]), 10);
}

#[test]
fn empty_tree_yields_no_primitives() {
    let m = WidgetManager::new();
    assert!(m.build_render_primitives().is_empty());
}

#[test]
fn empty_wrapper_is_flattened() {
    let mut m = WidgetManager::new();
    let (_, root) = m.create_widget(0, widget("root", Some(style(RenderCommand::Layout)), None), None);
    let (_, wrap) = m.create_widget(0, widget("wrap", None, None), Some(root));
    let (_, inner) = m.create_widget(0, widget("inner", Some(style(RenderCommand::Quad)), None), Some(wrap));
    let (_, empty) = m.create_widget(1, widget("empty", Some(style(RenderCommand::Empty)), None), Some(root));
    m.render(&NoFont);
    assert_eq!(m.node_tree.root_node, Some(root));
    assert_eq!(m.node_tree.children[0], vec![inner]);
    assert!(m.node_tree.children[wrap.slot].is_empty());
    assert!(m.node_tree.children[empty.slot].is_empty());
    assert_eq!(m.node_tree.parents[inner.slot], Some(root));
    assert_eq!(m.get_valid_parent(inner), Some(root));
    assert_eq!(m.get_valid_parent(root), None);
}

#[test]
fn focus_kept_while_eligible() {
    let mut m = WidgetManager::new();
    let (_, root) = m.create_widget(0, widget("root", Some(style(RenderCommand::Layout)), None), None);
    let (_, a) = m.create_widget(0, widget("a", Some(style(RenderCommand::Quad)), Some(true)), Some(root));
    let (_, b) = m.create_widget(1, widget("b", Some(style(RenderCommand::Quad)), Some(false)), Some(root));
    m.render(&NoFont);
    assert_eq!(m.focus_tree.nodes, vec![root, a]);
    assert_eq!(m.focus_tree.parents, vec![None, Some(root)]);
    assert!(!m.focus_tree.contains(b));
    m.focus_tree.focus(a);
    m.render(&NoFont);
    assert_eq!(m.focus_tree.current(), Some(a));
    m.set_focusable(Some(false), a, true);
    m.render(&NoFont);
    assert_eq!(m.focus_tree.current(), None);
    assert_eq!(m.focus_tree.nodes, vec![root]);
}

#[test]
fn take_and_repossess() {
    let mut m = WidgetManager::new();
    let (_, root) = m.create_widget(0, widget("root", None, None), None);
    let w = m.take(root);
    assert_eq!(w.name, "root");
    assert_eq!(w.id, root);
    assert!(m.current_widgets[0].is_none());
    assert_eq!(m.get_name(&root), None);
    m.repossess(w);
    assert_eq!(m.get_name(&root), Some("root".to_string()));
}

#[test]
fn dirty_marks_root_or_everything() {
    let mut m = WidgetManager::new();
    let (_, root) = m.create_widget(0, widget("root", None, None), None);
    let (_, a) = m.create_widget(0, widget("a", None, None), Some(root));
    m.render(&NoFont);
    m.dirty(false);
    assert!(m.is_reevaluation_dirty(root));
    assert!(!m.is_reevaluation_dirty(a));
    assert!(!m.is_render_dirty(a));
    m.dirty(true);
    assert!(m.is_reevaluation_dirty(a));
    assert!(m.is_render_dirty(a));
    assert!(m.is_render_dirty(root));
    assert_eq!(m.reevaluation_dirty(), vec![(0, 0), (1, 0)]);
}

#[test]
fn stale_identity_reads_fail() {
    let mut m = WidgetManager::new();
    let (_, root) = m.create_widget(0, widget("root", None, None), None);
    let stale = Index { slot: root.slot, generation: 1 };
    assert_eq!(m.get_layout(&stale), None);
    assert_eq!(m.get_name(&stale), None);
    assert!(m.get_node(&stale).is_none());
    assert_eq!(m.get_layout(&root), Some(Rect { x: 0, y: 0, width: 0, height: 0, z_index: 0 }));
}

#[test]
fn unbind_removes_one_binding() {
    let mut m = WidgetManager::new();
    let (_, root) = m.create_widget(0, widget("root", Some(style(RenderCommand::Layout)), None), None);
    let (_, t) = m.create_widget(0, widget("text", Some(style(text("x"))), None), Some(root));
    m.render(&NoFont);
    assert!(!m.unbind(t, 1));
    assert!(m.unbind(t, 0));
    assert!(m.widget_lifetimes[t.slot].is_empty());
    assert!(!m.unbind(t, 0));
}

#[test]
fn cascade_inherits_from_resolved_parent() {
    let mut m = WidgetManager::new();
    let mut rs = style(RenderCommand::Layout);
    rs.color = StyleProp::Value(7);
    let (_, root) = m.create_widget(0, widget("root", Some(rs), None), None);
    let (_, a) = m.create_widget(0, widget("a", Some(style(RenderCommand::Quad)), None), Some(root));
    m.render(&NoFont);
    let node = m.get_node(&a).unwrap();
    assert_eq!(node.resolved_styles.color, StyleProp::Value(7));
    assert_eq!(node.resolved_styles.background_color, StyleProp::Value(0));
    assert_eq!(node.primitive, RenderPrimitive::Quad { layout: Rect::default(), color: 0 });
}

#[test]
fn focus_parent_follows_full_tree() {
    let mut m = WidgetManager::new();
    let (_, root) = m.create_widget(0, widget("root", None, None), None);
    let (_, mid) = m.create_widget(0, widget("mid", None, Some(false)), Some(root));
    let (_, leaf) = m.create_widget(0, widget("leaf", None, Some(true)), Some(mid));
    let (_, inner) = m.create_widget(0, widget("inner", None, Some(true)), Some(leaf));
    m.render(&NoFont);
    assert_eq!(m.focus_tree.nodes, vec![root, leaf, inner]);
    assert_eq!(m.focus_tree.parents, vec![None, Some(root), Some(leaf)]);
}

#[test]
fn latest_focus_declaration_wins() {
    let mut m = WidgetManager::new();
    let (_, root) = m.create_widget(0, widget("root", None, None), None);
    let (_, a) = m.create_widget(0, widget("a", None, Some(true)), Some(root));
    m.set_focusable(Some(false), a, false);
    assert_eq!(m.get_focusable(a), Some(false));
    m.set_focusable(None, a, true);
    assert_eq!(m.get_focusable(a), None);
    let stale = Index { slot: 9, generation: 0 };
    m.set_focusable(Some(true), stale, true);
    assert_eq!(m.get_focusable(stale), None);
    assert_eq!(m.get_valid_parent(stale), None);
}

#[test]
fn measure_request_names_font_content_and_parent_box() {
    let mut m = WidgetManager::new();
    let (_, root) = m.create_widget(0, widget("root", Some(style(RenderCommand::Layout)), None), None);
    let (_, t) = m.create_widget(0, widget("text", Some(style(text("Hello"))), None), Some(root));
    let s = style(text("Hello"));
    // the root has no resolved node yet: no renderable ancestor, nothing to measure
    assert_eq!(m.text_measure_request(t, &s), None);
    m.set_layout(&root, Rect { x: 0, y: 0, width: 200, height: 100, z_index: 0 });
    m.render(&NoFont);
    assert_eq!(
        m.text_measure_request(t, &s),
        Some(MeasureRequest {
            font: "roboto".to_string(),
            content: "Hello".to_string(),
            size: 14,
            line_height: 18,
            max_width: 200,
            max_height: 100,
        })
    );
    assert_eq!(m.text_measure_request(t, &style(RenderCommand::Quad)), None);
    assert_eq!(m.text_measure_request(Index { slot: 7, generation: 0 }, &s), None);
}

#[test]
fn measurement_step_sets_box_and_unset_sizes() {
    let s = style(text("Hello"));
    let mut prim = RenderPrimitive::from_style(&s);
    let mut styles = s.clone();
    apply_text_measurement(&mut prim, &mut styles, 200, 100, Some((80, 20)));
    assert_eq!(styles.width, StyleProp::Value(Units::Pixels(80)));
    assert_eq!(styles.height, StyleProp::Value(Units::Pixels(20)));
    match prim {
        RenderPrimitive::Text { parent_width, parent_height, .. } => assert_eq!((parent_width, parent_height), (200, 100)),
        _ => panic!("expected a text primitive"),
    }
    let mut prim2 = RenderPrimitive::from_style(&s);
    let mut styles2 = s.clone();
    apply_text_measurement(&mut prim2, &mut styles2, 200, 100, None);
    assert_eq!(styles2, s);
    assert_eq!(prim2, RenderPrimitive::from_style(&s));
}

#[test]
fn font_loaded_marks_bound_widgets() {
    let mut m = WidgetManager::new();
    let (_, root) = m.create_widget(0, widget("root", Some(style(RenderCommand::Layout)), None), None);
    let (_, t) = m.create_widget(0, widget("text", Some(style(text("Hi"))), None), Some(root));
    m.render(&NoFont);
    m.font_loaded(&"other".to_string());
    assert!(!m.is_reevaluation_dirty(t));
    m.font_loaded(&"roboto".to_string());
    assert!(m.is_reevaluation_dirty(t));
    assert!(!m.is_reevaluation_dirty(root));
}

#[test]
fn render_without_widgets_draws_nothing() {
    let mut m = WidgetManager::new();
    assert!(m.render(&NoFont).is_empty());
    assert_eq!(m.node_tree.root_node, None);
    assert!(m.build_render_primitives().is_empty());
}

#[test]
fn created_widget_focusability_is_declared_value() {
    let mut m = WidgetManager::new();
    let (_, root) = m.create_widget(0, widget("root", None, Some(false)), None);
    let (_, a) = m.create_widget(0, widget("a", None, Some(true)), Some(root));
    assert_eq!(m.get_focusable(a), Some(true));
    let (_, a2) = m.create_widget(0, widget("a", None, None), Some(root));
    assert_eq!(a, a2);
    assert_eq!(m.get_focusable(a), None);
}
