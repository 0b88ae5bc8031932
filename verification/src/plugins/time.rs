//! Clock plugin: renders the current local time with a strftime-style
//! format string chosen at construction.

use core::fmt::Write;
use vstd::prelude::*;

verus! {

/// Relies on chrono::Local::now and chrono's strftime formatting: the
/// current local time rendered with the directives in `format`. The result
/// depends on the clock, so nothing is promised of it; a format string the
/// formatter rejects yields the empty text instead of a panic.
#[verifier::external_body]
fn local_time_string(format: &str) -> String {
    let mut s = String::new();
    match write!(&mut s, "{}", chrono::Local::now().format(format)) {
        Ok(()) => s,
        Err(_) => String::new(),
    }
}

/// Displays the current time, re-read from the system clock at each refresh.
pub struct TimePlugin {
    /// holds the time formatted as a string
    pub time: String,
    /// holds the formatting string
    pub format: String,
}

impl TimePlugin {
    /// The currently rendered text: the time read at the last refresh.
    pub open spec fn text(&self) -> Seq<char> {
        self.time@
    }

    pub fn new(format: &str) -> (r: Box<TimePlugin>)
        ensures
            r.format@ == format@,
    {
        let time = local_time_string(format);
        Box::new(TimePlugin { time, format: format.to_owned() })
    }

    /// Reads the clock anew; the format string is kept.
    pub fn refresh(&mut self)
        ensures
            final(self).format == old(self).format,
    {
        self.time = local_time_string(self.format.as_str());
    }

    pub fn render(&self) -> (r: String)
        ensures
            r@ == self.text(),
    {
        self.time.clone()
    }
}

impl Default for TimePlugin {
    /// The default clock shows weekday, date and twelve-hour time.
    fn default() -> (r: TimePlugin)
        ensures
            r.format@ == "%A %D %_I:%M:%S %P"@,
    {
        let format = "%A %D %_I:%M:%S %P";
        let time = local_time_string(format);
        TimePlugin { time, format: format.to_owned() }
    }
}

impl crate::Update for TimePlugin {
    fn refresh(&mut self) {
        TimePlugin::refresh(self);
    }
}

} // verus!
