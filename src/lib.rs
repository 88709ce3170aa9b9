//! Scene interaction core: metadata decoding, scene ingestion, a signal bus
//! and the action library that drives level logic tick by tick.

// Text and numbers.
pub mod text;
pub mod number;

// Data: metadata, signals, the world interface, errors, settings, tags.
pub mod meta;
pub mod signal;
pub mod world;
pub mod error;
pub mod settings;
pub mod markers;

// The action library.
pub mod door;
pub mod button;
pub mod delay;
pub mod teleport;
pub mod animation;
pub mod props;
pub mod input;
pub mod chamber;
pub mod audio;
pub mod action;

// Decoding, ingestion and the runtime.
pub mod decoder;
pub mod actor;
pub mod ingest;
pub mod runtime;
pub mod lifecycle;
