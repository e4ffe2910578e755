//! Core of a tabbed terminal dashboard for host metrics.
//!
//! The library holds everything that can be stated and proved: the view-state
//! machine (tab selection and the scroll cursor), the sampler's timing rules,
//! the main loop's run/shutdown state machine with its error taxonomy, and the
//! render dispatcher that turns a metrics snapshot into a list of draw
//! instructions for the renderer.  Reading the host's metrics and painting the
//! terminal are collaborator concerns and live outside the library.

pub mod dispatch;
pub mod display;
pub mod draw;
pub mod event;
pub mod fmt;
pub mod layout;
pub mod sampler;
pub mod scroll;
pub mod snapshot;
pub mod state;
pub mod tab;
pub mod units;
