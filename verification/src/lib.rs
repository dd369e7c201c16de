pub mod arc_string;
pub mod buffers;
pub mod canvas;
pub mod effects;
pub mod math;
pub mod paint;
pub mod scene;
pub mod traits;
pub mod window;

pub use math::{device_px, vec2, DevicePixels, Rect, Size, Vec2};
pub use paint::{Brush, Color, FillStyle, StrokeCap, StrokeJoin, StrokeStyle};
pub use traits::{Half, IsZero, One, Zero};

