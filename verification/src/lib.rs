//! Ara-kees: a type D planet of the space-exploration game, which generates
//! Hydrogen, Oxygen and Carbon, and the structured log records it reports.

pub mod logs;
pub mod planet;
