//! Incremental German umlaut composition for keyboard input: typing `ae`,
//! `oe`, `ue` and `ss` produces `ä`, `ö`, `ü` and `ß`, a repeated `e` or `s`
//! undoes the composition, and `Shift + 4` produces `€`.
pub mod de;
pub mod platform;
pub mod text;
