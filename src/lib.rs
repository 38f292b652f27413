pub mod dirty_set;
pub mod focus_tree;
pub mod laws;
pub mod render_primitive;
pub mod sequencer;
pub mod styles;
pub mod widget;
pub mod widget_manager;
