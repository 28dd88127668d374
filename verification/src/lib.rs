//! Visibility logic for a "scroll to top" widget.
//!
//! The widget shows a clickable affordance once the page has been scrolled
//! past a configurable threshold, and asks the host viewport to return to the
//! origin when activated. The heart of the widget is the visibility state
//! machine in [`controller`]: it owns the visibility flag, reacts to scroll
//! signals delivered on a subscription, and manages the subscription's
//! lifecycle (mount, threshold reconfiguration, unmount). The laws that the
//! state machine obeys are stated and proved in [`laws`].
//!
//! Rendering and the actual registration with the host window's scroll signal
//! are host-binding concerns and live outside this crate; they drive the
//! controller with plain values and read its state back.

pub mod controller;
pub mod laws;
