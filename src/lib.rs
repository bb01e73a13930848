//! Navigation core of a terminal dashboard for a torrent daemon and a
//! torrent search backend: the screen state machine, its key routing, the
//! refresh-worker protocol, and the pure pieces (search merging, record
//! mapping, command lines) that the screens rely on.

pub mod screen;
pub mod config;
pub mod number;
pub mod key;
pub mod dto;
pub mod mapper;
pub mod search;
pub mod screens;
pub mod refresh;
pub mod router;
pub mod service;
pub mod key_bindings_block;
pub mod torrent_view;
