//! Overlays: transient surfaces such as menus, tooltips and popups, which are
//! laid out at an anchor of their own, see input before anything below them,
//! and speak to the application in messages.
//!
//! An [`Overlay`] is anything that can be laid out, take events, be drawn and
//! fingerprint its layout. An [`Element`] owns one overlay together with the
//! point at which it is anchored. [`Element::map`] turns an element whose
//! overlay speaks one type of message into an element that speaks another.

pub mod clipboard;
pub mod event;
pub mod geometry;
pub mod hasher;
pub mod layout;
pub mod overlay;
pub mod renderer;

pub use clipboard::Clipboard;
pub use event::{Event, EventInteraction, MouseButton};
pub use geometry::{Point, Size, Vector};
pub use hasher::Hasher;
pub use layout::{Layout, Node};
pub use overlay::{Element, Mapped, Overlay};
pub use renderer::Renderer;
