//! Core of a companion-device link daemon: the device snapshot model, its
//! reconciliation from the device-link tool's output, target resolution, the
//! mount lifecycle, the media-control surface and the request dispatcher.
pub mod model;
pub mod error;
pub mod resolve;
pub mod text;
pub mod devices;
pub mod reply;
pub mod poller;
pub mod events;
pub mod mount;
pub mod media;
pub mod server;
pub mod store;
pub mod client;
