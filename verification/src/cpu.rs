//! Processor-load source that renders with a "Cpu: " prefix.

use vstd::prelude::*;

use crate::sys;
use crate::text;

verus! {

/// The text shown for a processor load of `h` hundredths of a percent.
pub open spec fn cpu_text(h: nat) -> Seq<char> {
    seq!['C', 'p', 'u', ':', ' '] + text::percent_text(h)
}

/// Shows the average processor load as a labelled percentage.
pub struct Cpu {
    /// handle the load is read from
    pub used: sysinfo::System,
    load: u64,
}

impl Cpu {
    /// The currently rendered text: the last-read load as a percentage.
    pub closed spec fn text(&self) -> Seq<char> {
        cpu_text(self.load as nat)
    }

    pub fn new() -> (r: Box<Cpu>)
        ensures
            r.text() == cpu_text(0),
    {
        Box::new(Cpu { used: sys::system_new(), load: 0 })
    }

    /// Reads the processor counters anew; the text becomes the fresh load.
    pub fn refresh(&mut self)
        ensures
            exists|h: nat| final(self).text() == cpu_text(h),
    {
        sys::refresh_cpu(&mut self.used);
        self.load = sys::cpu_usage_hundredths(&self.used);
        proof {
            assert(self.text() == cpu_text(self.load as nat));
        }
    }

    pub fn render(&self) -> (r: String)
        ensures
            r@ == self.text(),
    {
        proof {
            reveal_strlit("Cpu: ");
        }
        let mut s = String::new();
        s.append("Cpu: ");
        let p = text::percent_string(self.load);
        s.append(p.as_str());
        proof {
            assert(s@ =~= self.text());
        }
        s
    }
}

impl crate::Update for Cpu {
    fn refresh(&mut self) {
        Cpu::refresh(self);
    }
}

} // verus!
