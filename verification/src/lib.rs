//! Restaurant-tracker terminal client: the session and request logic of the
//! HTTP API, the application state, and the key-driven state machine that
//! moves between screens, edits forms and decides which API call comes next.
//! Terminal drawing, the HTTP transport and JSON decoding live in `app/`.

pub mod text;
pub mod api;
pub mod app;
pub mod form;
pub mod requests;
pub mod handlers;
pub mod replies;
pub mod laws;
pub mod operation_laws;
pub mod display;

