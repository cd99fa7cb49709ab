//! A small retained-mode scene graph for composing vector-graphics visuals
//! (rectangles, circles, styled text) into a nested, positionable tree.
//!
//! A [`scene::Svg`] holds an ordered sequence of [`visual::Visual`]s (later =
//! drawn on top), an aggregate bounding size, and the handles of attached
//! event listeners. Child scenes are composed into a parent at explicit
//! offsets with [`scene::Svg::place`] / [`scene::Svg::place_at`], which
//! translate the child, splice it into the z-order, and grow the parent's
//! bounds. [`state::RenderingState`] carries the text-measurement cache that
//! sizing a [`shapes::Text`] depends on.

pub mod geometry;
pub mod scene;
pub mod shapes;
pub mod state;
pub mod visual;
