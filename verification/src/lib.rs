//! Substitutes environment and system facts into a text template.
//!
//! A template read by the caller is compiled once, then rendered against a
//! context that carries CPU counts, memory figures and the process
//! environment, all as decimal strings. Five arithmetic helpers (`add`,
//! `sub`, `mul`, `div`, `mod`) over signed 64-bit integers are available to
//! template expressions; division and modulo by zero fail the whole render.

pub mod context;
pub mod decimal;
pub mod helpers;
pub mod renderer;
