//! Verified core of the Update Night terminal client: the catalog data model,
//! the request builders for the catalog API, the device-login decisions and the
//! state machine behind the terminal interface.

pub mod catalog;
pub mod text;
pub mod api;
pub mod auth;
pub mod app;
pub mod view;
