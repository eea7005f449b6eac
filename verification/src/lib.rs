//! A tick-based entity and event simulation kernel for a tile-grid game.
//!
//! Entities live in an outside container. Each system here takes the rows
//! that the container yields for it as plain values, applies one tick's
//! events to them, and writes its narration to the message log. Within a
//! tick the systems run in a fixed order: the map's bitmaps are rebuilt
//! ([`map`]), then the events are consumed ([`engine`], [`movement`],
//! [`interact`]), then what is seen is worked out ([`visibility`]), then the
//! handheld computer runs ([`planq`]) and its status monitor samples its
//! sources ([`monitor`]).
//!
//! Every function states what it returns and changes; the statements are
//! proved.

pub mod actions;
pub mod artisan;
pub mod camera;
pub mod components;
pub mod engine;
pub mod event;
pub mod input;
pub mod interact;
pub mod map;
pub mod memory;
pub mod menu;
pub mod messagelog;
pub mod monitor;
pub mod movement;
pub mod parser;
pub mod planq;
pub mod position;
pub mod spawn;
pub mod text;
pub mod timer;
pub mod visibility;
