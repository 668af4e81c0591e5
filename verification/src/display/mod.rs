//! Display drivers.

pub mod blend;
pub mod cmd;
pub mod co5300;
pub mod color;

pub use blend::{BlendClipped, BlendTarget};
pub use co5300::{Rotation, CO5300, HEIGHT, WIDTH};
