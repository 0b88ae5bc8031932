//! Memory-usage source that renders the used RAM with a magnitude-based unit.

use vstd::prelude::*;

use crate::sys;
use crate::text;

verus! {

/// Shows the used RAM, in kilobytes, megabytes or gigabytes by magnitude.
pub struct MemoryUsage {
    mem: sysinfo::System,
    kb: u64,
}

impl MemoryUsage {
    /// The currently rendered text: the last-read usage with its unit.
    pub closed spec fn text(&self) -> Seq<char> {
        text::mem_text(self.kb as nat)
    }

    pub fn new() -> (r: Box<MemoryUsage>)
        ensures
            r.text() == text::mem_text(0),
    {
        Box::new(MemoryUsage { mem: sys::system_new(), kb: 0 })
    }

    /// Reads the memory counters anew; the text becomes the fresh usage.
    pub fn refresh(&mut self)
        ensures
            exists|kb: nat| final(self).text() == text::mem_text(kb),
    {
        sys::refresh_memory(&mut self.mem);
        let bytes = sys::used_memory_bytes(&self.mem);
        self.kb = bytes / 1024;
        proof {
            assert(self.text() == text::mem_text(self.kb as nat));
        }
    }

    pub fn render(&self) -> (r: String)
        ensures
            r@ == self.text(),
    {
        text::mem_string(self.kb)
    }
}

impl crate::Update for MemoryUsage {
    fn refresh(&mut self) {
        MemoryUsage::refresh(self);
    }
}

} // verus!
