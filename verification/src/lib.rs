//! Attribute resolution for tiled fill patterns: lengths with units,
//! aspect-ratio directives, and the cascade of sparse pattern attributes
//! along a chain of named fallbacks.

pub mod aspect_ratio;
pub mod chain;
pub mod css;
pub mod error;
pub mod fallback;
pub mod length;
pub mod parsers;
pub mod pattern;
pub mod scalar;
pub mod words;
