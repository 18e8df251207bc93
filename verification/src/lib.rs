//! Animated scalar values on exact fixed-point arithmetic.
pub mod animated;
pub mod animation;
pub mod checkbox;
pub mod color;
pub mod fixed;
pub mod timing;
pub mod trig;
