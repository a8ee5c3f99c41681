//! A small interactive terminal form: collects an account identifier, a
//! password, and a numeric "mileage" percentage, then hands the confirmed
//! triple to the caller.
//!
//! The verified core is the focus/edit state machine that interprets key
//! presses, together with the construction of the render model (help hints,
//! panel styles, password masking, gauge label, log tail). Terminal I/O
//! (raw mode, drawing, polling) lives outside the library.

pub mod laws;
pub mod render;
pub mod state;

pub use state::welcome_done;
pub use state::Action;
pub use state::ActionModel;
pub use state::Focus;
pub use state::FormResult;
pub use state::FormState;
pub use state::InputEvent;
pub use state::Key;
pub use state::KeyEvent;
pub use state::Mode;
pub use state::ResultModel;
pub use state::StateModel;
