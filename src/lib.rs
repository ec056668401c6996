//! Verified core of a terminal WhatsApp client: the data model, the
//! controller state machine, the render projections and the gateway's
//! request bookkeeping.

pub mod app;
pub mod clock;
pub mod config;
pub mod gateway;
pub mod input;
pub mod keyed;
pub mod order;
pub mod qr;
pub mod render;
pub mod text;
pub mod theme;
pub mod types;
