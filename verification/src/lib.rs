//! Legends for map styles.
//!
//! A style is a JSON document whose layers say how features are painted.
//! This library derives, for one layer at a time, the entries of a legend:
//! pairs of a label and a colour or icon. It reads the four expression
//! forms `match`, `case`, `interpolate` and `step`, and plain literals,
//! and lays the entries out as drawings of plain shapes.
//!
//! Every function carries a contract over mathematical values, stated
//! with the `*_of`, `*_legend` and `*_drawing` functions beside it.

pub mod condition;
pub mod drawing;
pub mod entries;
pub mod error;
pub mod expression;
pub mod field;
pub mod json;
pub mod laws;
pub mod layer;
pub mod layout;
pub mod legend;
pub mod markup;
pub mod number;
pub mod plan;
pub mod render;
pub mod sprite;
pub mod text;
