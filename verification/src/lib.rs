//! Flattening of a parsed vector-graphics text element into a
//! rendering-ready model: an ordered list of positioned chunks, each holding
//! one or more styled runs of text that share an anchor position.
//!
//! The upstream document parser resolves the CSS cascade and hands this
//! library plain attribute values; paint resolution likewise happens
//! upstream, so fill and stroke arrive as opaque [`geom::Paint`] descriptors.
//! All fractional quantities (coordinates, font sizes, transform
//! coefficients) are fixed-point numbers with three decimal digits: the
//! value `1500` stands for one and a half units, and [`geom::FIXED_ONE`]
//! is one unit.


pub mod chunk;
pub mod decoration;
pub mod font;
pub mod geom;
pub mod laws;
pub mod tree;

