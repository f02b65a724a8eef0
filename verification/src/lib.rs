//! CosG: the decision logic of a small GPU user-interface toolkit.
//!
//! The library holds what the toolkit decides without touching the GPU, the
//! window system or floating-point geometry: how a packed RGBA colour code
//! splits into channels, the default violet palette, the interaction state of
//! a button, the order in which nested widgets paint, how a rectangle becomes
//! two triangles, and how window events are routed.
pub mod app;
pub mod color;
pub mod paint;
pub mod theme;
pub mod widget;
pub mod widgets;
