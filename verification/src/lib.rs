//! A bridge between an operating system's windowing subsystem and an
//! application.
//!
//! The OS delivers input and resize notifications through a single callback
//! registered once per window class. That callback carries only a window
//! identifier and two machine words, so all per-window state lives in a
//! [`registry::Registry`] that maps identifiers to [`state::WindowState`].
//! A pure [`decode::decode`] step turns a raw message triple into a typed
//! [`event::WindowEvent`], and [`dispatch::handle_message`] applies it to the
//! right entry under the registry's single-writer discipline. Application
//! code observes the result through snapshot reads that never see a
//! half-applied update.

pub mod decode;
pub mod dispatch;
pub mod event;
pub mod geom;
pub mod handle;
pub mod laws;
pub mod registry;
pub mod state;

pub use dispatch::ProcOutcome;
pub use dispatch::handle_message;
pub use event::WindowEvent;
pub use geom::Rect2;
pub use geom::Vector2;
pub use handle::WindowHandle;
pub use registry::Registry;
pub use registry::RegistryError;
pub use registry::WindowId;
pub use state::Mouse;
pub use state::WindowState;
