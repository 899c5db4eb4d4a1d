//! A verified engine for a generalized Conway's Game of Life: a finite
//! two-dimensional grid of binary cells evolving under configurable
//! birth/survival rules, with dynamic grid resizing, next-state prediction,
//! randomized generation, interactive cell editing and a two-stage reset
//! protocol.

pub mod board;
pub mod carpet;
pub mod change_state;
pub mod expansion;
pub mod glider_gun;
pub mod initial_state;
pub mod life_cycle;
pub mod patterns;
pub mod prediction;
pub mod pulsar;
pub mod randomizer;
pub mod reset;
pub mod rules;
