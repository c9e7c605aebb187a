//! A zkVM precompile for squaring a 32-bit word modulo a 32-bit modulus: native
//! execution against word-addressed memory, trace generation, and the row-local
//! constraint system that checks each trace row.
pub mod words;
pub mod params;
pub mod event;
pub mod executor;
pub mod columns;
pub mod air;
pub mod chip;
pub mod small_inverses;
