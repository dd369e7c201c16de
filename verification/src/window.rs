use vstd::prelude::*;

verus! {

/// What a window is opened with.
#[derive(Debug, Clone)]
pub struct WindowSpecification {
    pub width: u32,
    pub height: u32,
    pub title: &'static str,
}

impl Default for WindowSpecification {
    /// An 800 by 800 window titled "Ski".
    fn default() -> (r: Self)
        ensures
            r.width == 800,
            r.height == 800,
            r.title@ == "Ski"@,
    {
        Self { width: 800, height: 800, title: "Ski" }
    }
}

impl WindowSpecification {
    pub fn with_size(self, width: u32, height: u32) -> (r: Self)
        ensures
            r.width == width,
            r.height == height,
            r.title == self.title,
    {
        let mut s = self;
        s.width = width;
        s.height = height;
        s
    }

    pub fn with_title(self, title: &'static str) -> (r: Self)
        ensures
            r.width == self.width,
            r.height == self.height,
            r.title == title,
    {
        let mut s = self;
        s.title = title;
        s
    }
}

/// The size a GPU surface is made with.
#[derive(Debug, Clone)]
pub struct GpuSurfaceSpecification {
    pub width: u32,
    pub height: u32,
}

/// What the application loop is asked to do.
#[derive(Debug, Clone, Copy, PartialEq, Eq, Hash, Structural)]
pub enum AppAction {
    AppUpdate,
    Quit,
}

} // verus!
