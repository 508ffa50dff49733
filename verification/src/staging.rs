//! The staging-resource description cache.
//!
//! The capture session keeps one reusable staging resource that every
//! acquired frame is copied into. It is created lazily on the first frame
//! and recreated only when the incoming frame's width, height or format
//! differs from the cached description — never once per frame. The decision
//! lives here; the resource itself lives with the session.

use vstd::prelude::*;

use crate::frame::PixelFormat;

verus! {

/// What a staging resource was created for: the source's geometry and
/// format.
#[derive(Clone, Copy, PartialEq, Eq, Structural, Debug)]
pub struct SurfaceDesc {
    pub width: u32,
    pub height: u32,
    pub format: PixelFormat,
}

/// The cached description of the session's staging resource, if one exists.
pub struct StagingCache {
    desc: Option<SurfaceDesc>,
}

impl StagingCache {
    /// The description the staging resource was created with, if any.
    pub closed spec fn cached(self) -> Option<SurfaceDesc> {
        self.desc
    }

    /// No staging resource exists yet.
    pub fn new() -> (r: StagingCache)
        ensures
            r.cached() is None,
    {
        StagingCache { desc: None }
    }

    /// Whether the staging resource must be created or recreated for a frame
    /// of description `desc`: exactly when no resource exists or the cached
    /// description differs.
    pub fn needs_recreate(&self, desc: SurfaceDesc) -> (r: bool)
        ensures
            r == !(self.cached() == Some(desc)),
    {
        match &self.desc {
            Some(d) => !(d.width == desc.width && d.height == desc.height && d.format
                == desc.format),
            None => true,
        }
    }

    /// Records that a staging resource of description `desc` now exists.
    pub fn note_created(&mut self, desc: SurfaceDesc)
        ensures
            final(self).cached() == Some(desc),
    {
        self.desc = Some(desc);
    }

    /// Forgets the resource, as a session teardown does.
    pub fn clear(&mut self)
        ensures
            final(self).cached() is None,
    {
        self.desc = None;
    }
}

} // verus!
