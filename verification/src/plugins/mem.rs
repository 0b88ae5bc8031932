//! Memory-usage plugin that renders the used RAM with a magnitude-based unit.

use vstd::prelude::*;

use crate::sys;
use crate::text;

verus! {

/// Shows the used RAM, in kilobytes, megabytes or gigabytes by magnitude.
pub struct MemPlugin {
    mem: sysinfo::System,
    kb: u64,
}

impl MemPlugin {
    /// The currently rendered text: the last-read usage with its unit.
    pub closed spec fn text(&self) -> Seq<char> {
        text::mem_text(self.kb as nat)
    }

    pub fn new() -> (r: Box<MemPlugin>)
        ensures
            r.text() == text::mem_text(0),
    {
        Box::new(MemPlugin { mem: sys::system_new(), kb: 0 })
    }

    /// Reads the memory counters anew; the text becomes the fresh usage.
    pub fn refresh(&mut self)
        ensures
            exists|kb: nat| final(self).text() == text::mem_text(kb),
    {
        sys::refresh_memory(&mut self.mem);
        let bytes = sys::used_memory_bytes(&self.mem);
        self.kb = bytes / 1024;
        proof {
            assert(self.text() == text::mem_text(self.kb as nat));
        }
    }

    pub fn render(&self) -> (r: String)
        ensures
            r@ == self.text(),
    {
        text::mem_string(self.kb)
    }
}

impl crate::Update for MemPlugin {
    fn refresh(&mut self) {
        MemPlugin::refresh(self);
    }
}

} // verus!
