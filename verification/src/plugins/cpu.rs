//! Processor-load plugin that renders as a bare percentage.

use vstd::prelude::*;

use crate::sys;
use crate::text;

verus! {

/// Shows the average processor load as a percentage.
pub struct CpuPlugin {
    /// handle the load is read from
    pub used: sysinfo::System,
    load: u64,
}

impl CpuPlugin {
    /// The currently rendered text: the last-read load as a percentage.
    pub closed spec fn text(&self) -> Seq<char> {
        text::percent_text(self.load as nat)
    }

    pub fn new() -> (r: Box<CpuPlugin>)
        ensures
            r.text() == text::percent_text(0),
    {
        Box::new(CpuPlugin { used: sys::system_new(), load: 0 })
    }

    /// Reads the processor counters anew; the text becomes the fresh load.
    pub fn refresh(&mut self)
        ensures
            exists|h: nat| final(self).text() == text::percent_text(h),
    {
        sys::refresh_cpu(&mut self.used);
        self.load = sys::cpu_usage_hundredths(&self.used);
        proof {
            assert(self.text() == text::percent_text(self.load as nat));
        }
    }

    pub fn render(&self) -> (r: String)
        ensures
            r@ == self.text(),
    {
        text::percent_string(self.load)
    }
}

impl crate::Update for CpuPlugin {
    fn refresh(&mut self) {
        CpuPlugin::refresh(self);
    }
}

} // verus!
