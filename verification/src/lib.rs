//! A double-buffered command recorder pipeline.
//!
//! A fixed pool of reusable command recorders cycles between a simulation
//! driver, which fills them, and a presentation driver, which submits them to
//! a device and hands them back. Ownership moves through two ordered handoff
//! queues; nothing else is shared between the two sides.
//!
//! `Pegasus` is the whole pipeline in one place, moved on one step at a
//! time, so that any interleaving of the two drivers can be played through.
//! `App`, `DrawSystem` and `Presenter` are the drivers' own decisions, for a
//! runtime that puts each side on a thread of its own. The module `laws`
//! proves what holds of every interleaving.

pub mod channel;
pub mod draw;
pub mod laws;
pub mod model;
pub mod pipeline;
pub mod presentation;
pub mod recorder;
pub mod simulation;

pub use channel::Handoff;
pub use channel::Received;
pub use draw::DrawSystem;
pub use draw::Painter;
pub use draw::Schedule;
pub use draw::DRAW_NAME;
pub use draw::DRAW_PRIORITY;
pub use model::Acquire;
pub use pipeline::Pegasus;
pub use pipeline::Tick;
pub use presentation::DefaultHandler;
pub use presentation::Device;
pub use presentation::Event;
pub use presentation::EventHandler;
pub use presentation::Presenter;
pub use presentation::Stage;
pub use presentation::Swing;
pub use recorder::Recorder;
pub use recorder::DEFAULT_POOL_SIZE;
pub use recorder::RecorderState;
pub use simulation::App;
pub use simulation::scheduler;
pub use simulation::Init;
