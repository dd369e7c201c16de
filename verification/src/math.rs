pub mod rect;
pub mod size;
pub mod unit;
pub mod vec2;

pub use rect::Rect;
pub use size::Size;
pub use unit::{device_px, DevicePixels};
pub use vec2::{vec2, OneVec, Vec2};
