//! Telescope-guidance display library.
//!
//! Converts raw telemetry from a remote guidance server into a renderable
//! draw state and projects that state onto a fixed-size pixel display:
//! classification of received frames, the guidance state machine with its
//! stale-slew memory, the geometric derivation of everything drawn on
//! screen, and the pixel canvas with its software rotation adapter.

pub mod canvas;
pub mod guidance;
pub mod prefs;
pub mod render;
pub mod rotate;
pub mod telemetry;
pub mod trig;

pub use canvas::Framebuffer;
pub use prefs::AppPrefs;
pub use render::DrawCmd;
pub use guidance::DrawState;
pub use guidance::GuidanceMemory;
pub use rotate::RotatedDisplay;
pub use rotate::Rotation;
pub use telemetry::CedarResponse;
pub use telemetry::ResponseStatus;
pub use telemetry::ServerMode;
pub use telemetry::ServerState;
pub use telemetry::WireFrame;
pub use telemetry::WireSlew;
