//! Core logic of a Minitel demonstration application: tab navigation,
//! a calendar that moves month by month, a Wi-Fi connection form, the
//! event-driven state machine that ties them together, and the serial
//! port settings and transfer bookkeeping used on the ESP32 board.
pub mod app;
pub mod calendar;
pub mod keyboard;
pub mod screens;
pub mod tabs;
pub mod text;
pub mod uart;
pub mod wifi;
