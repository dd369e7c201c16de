pub mod atlas_infos;
pub mod recorder;
pub mod render_list;

pub use atlas_infos::AtlasInfoMap;
pub use recorder::CanvasRecorder;
pub use render_list::{RenderList, StageItem};
