//! Castle shapes and common tactical threat patterns.

pub mod anaguma;
pub mod common;
pub mod mino;
pub mod yagura;
