//! A verified core for a terminal podcast manager: RSS feed parsing,
//! a podcast collection with unique feed URLs, feed synchronisation and
//! refresh bookkeeping, single-session audio playback management, and a
//! key-driven navigation state machine.

pub mod controller;
pub mod nav;
pub mod player;
pub mod podcast;
pub mod rss;
pub mod strutil;
pub mod sync;
pub mod ui;
pub mod xml;
