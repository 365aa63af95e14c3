//! A docked client: a foreign window embedded into the tray.
use vstd::prelude::*;
use crate::protocol::Request;

verus! {

#[derive(Clone, Debug)]
pub struct TrayClient {
    pub handle: u32,
    pub cache_name: Option<String>,
}

impl TrayClient {
    /// A client for `handle`, with no name cached yet.
    pub fn new(handle: u32) -> (r: Self)
        ensures
            r.handle == handle,
            r.cache_name.is_none(),
    {
        Self { handle, cache_name: None }
    }

    /// The request that shows (`state`) or hides the client's window.
    pub fn map(&self, state: bool) -> (r: Request)
        ensures
            r == (if state {
                Request::MapWindow { window: self.handle }
            } else {
                Request::UnmapWindow { window: self.handle }
            }),
    {
        if state {
            Request::MapWindow { window: self.handle }
        } else {
            Request::UnmapWindow { window: self.handle }
        }
    }

    /// Caches the display name resolved for the client; `None` when it could
    /// not be resolved, which is tolerated.
    pub fn store_cache_name(&mut self, name: Option<String>)
        ensures
            final(self).handle == old(self).handle,
            final(self).cache_name == name,
    {
        self.cache_name = name;
    }

    /// The request that moves the client's window to `(x, y)` in the tray.
    pub fn reconfigure_placement(&self, x: u32, y: u32) -> (r: Request)
        ensures
            r == (Request::ConfigurePosition { window: self.handle, x, y }),
    {
        Request::ConfigurePosition { window: self.handle, x, y }
    }
}

} // verus!
