//! The composition and update core of a terminal interface: panels that share one
//! screen, a scroll-position state machine, a scrollable decorator, and the
//! action queue that connects panels to each other and to the host.
pub mod key;
pub mod scroll;
pub mod action;
pub mod outbox;
pub mod component;
pub mod scrollable;
pub mod topic_details;
pub mod help;
pub mod schemas;
pub mod record_details;
pub mod order;
pub mod text;
pub mod panel;
pub mod dispatch;
