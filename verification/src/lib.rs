//! Core logic of a windowed GPU application framework: a controller that
//! reconciles an asynchronously constructed application instance with a
//! synchronous event loop, buffering the events that arrive too early, and
//! the resize-coalescing state of the presentation surface.

pub mod app;
pub mod event;
pub mod handler;
pub mod laws;
pub mod query;
pub mod size;

pub use app::WgpuApp;
pub use event::{Effect, Event, FramePlan, RenderDiagnostic, RenderFollowUp, RenderOutcome};
pub use handler::{render_follow_up, WgpuAppHandler};
pub use query::parse_url_query_string;
pub use size::Size;
