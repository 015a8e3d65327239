//! Verified core of a declarative WinUI widget layer.

pub mod widget;
pub mod content_dialog;
pub mod flyout;
pub mod rich_text;
pub mod tables;
pub mod dialog;
pub mod templated;
pub mod scroll_intent;
pub mod containers;
pub mod platform;
pub mod backend;
pub mod scroll_viewer;
pub mod number_box;
pub mod animation;
pub mod handlers;
pub mod events;
pub mod button;
pub mod text_input;
pub mod prop_receiver;
pub mod slots;
pub mod universal;
pub mod revokers;
pub mod kind_props;
pub mod visual_tree;
pub mod prop_route;
pub mod books;
