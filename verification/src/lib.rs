//! Composition and session engine of an input method: the state machines that
//! decide what is asked of the host text framework, of the conversion engine
//! and of the candidate window, and what each answer changes.

pub mod composition_mgr;
pub mod display_attribute;
pub mod dll;
pub mod edit_session;
pub mod error;
pub mod factory;
pub mod globals;
pub mod guid;
pub mod host;
pub mod ipc;
pub mod key_event_sink;
pub mod language_bar;
pub mod register;
pub mod text_edit_sink;
pub mod text_service;
pub mod thread_mgr_event_sink;
pub mod ui;
pub mod wide;
