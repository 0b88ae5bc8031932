//! Battery plugin: shows the charge as a percentage, the temperature, or
//! the predicted remaining time, one mode chosen at construction. A host
//! without a readable power subsystem yields a plugin that renders as
//! empty text instead of failing.

use vstd::prelude::*;

use crate::text;

verus! {

/// How many batteries the handle watches.
pub uninterp spec fn power_count(h: PowerHandle) -> nat;

/// Holds the battery crate's manager and battery list. Opaque to the
/// verifier: that crate's `Battery` type cannot be declared here, since
/// its bounds name items private to the crate.
#[verifier::external_body]
pub struct PowerHandle {
    manager: Option<battery::Manager>,
    batteries: Vec<battery::Battery>,
}

/// Relies on battery::Manager::new: a handle on the power subsystem, or
/// one that holds nothing where the subsystem cannot be opened. No
/// batteries are listed yet.
#[verifier::external_body]
fn power_open() -> (h: PowerHandle)
    ensures
        power_count(h) == 0,
{
    PowerHandle { manager: battery::Manager::new().ok(), batteries: Vec::new() }
}

/// Relies on battery::Manager::batteries: fills the handle with the
/// batteries present, in the order the system lists them; ones that
/// cannot be read are left out.
#[verifier::external_body]
fn power_scan(h: &mut PowerHandle) {
    if let Some(m) = &h.manager {
        if let Ok(iter) = m.batteries() {
            h.batteries = iter.filter_map(|b| b.ok()).collect();
        }
    }
}

/// How many batteries the handle holds.
#[verifier::external_body]
fn power_len(h: &PowerHandle) -> (n: usize)
    ensures
        n == power_count(*h),
{
    h.batteries.len()
}

/// Relies on battery::Manager::refresh: re-reads battery `i` in place; a
/// failed read or an index past the list is ignored.
#[verifier::external_body]
fn power_refresh_at(h: &mut PowerHandle, i: usize)
    ensures
        power_count(*final(h)) == power_count(*old(h)),
{
    if let Some(m) = &h.manager {
        if let Some(b) = h.batteries.get_mut(i) {
            let _ = m.refresh(b);
        }
    }
}

/// Relies on battery::Battery::state_of_charge: battery `i`'s charge as a
/// share of full capacity, rounded to the nearest whole percent.
#[verifier::external_body]
fn power_percent_at(h: &PowerHandle, i: usize) -> u64
    requires
        i < power_count(*h),
{
    h.batteries[i].state_of_charge().get::<battery::units::ratio::percent>().round() as u64
}

/// Relies on battery::Battery::temperature: battery `i`'s temperature
/// where the system reports one, rounded to whole degrees Celsius.
#[verifier::external_body]
fn power_temperature_at(h: &PowerHandle, i: usize) -> Option<i64>
    requires
        i < power_count(*h),
{
    match h.batteries[i].temperature() {
        Some(t) => Some(
            t.get::<battery::units::thermodynamic_temperature::degree_celsius>().round() as i64,
        ),
        None => None,
    }
}

/// Relies on battery::Battery::time_to_empty: battery `i`'s predicted
/// time until empty, None unless discharging, rounded to whole minutes.
#[verifier::external_body]
fn power_time_to_empty_at(h: &PowerHandle, i: usize) -> Option<u64>
    requires
        i < power_count(*h),
{
    match h.batteries[i].time_to_empty() {
        Some(t) => Some(t.get::<battery::units::time::minute>().round() as u64),
        None => None,
    }
}

/// Relies on battery::Battery::time_to_full: battery `i`'s predicted
/// time until full, None unless charging, rounded to whole minutes.
#[verifier::external_body]
fn power_time_to_full_at(h: &PowerHandle, i: usize) -> Option<u64>
    requires
        i < power_count(*h),
{
    match h.batteries[i].time_to_full() {
        Some(t) => Some(t.get::<battery::units::time::minute>().round() as u64),
        None => None,
    }
}

/// Relies on battery::Battery::state: the charging state battery `i`
/// reports, each variant handed on as the matching `BatState`.
#[verifier::external_body]
fn power_state_at(h: &PowerHandle, i: usize) -> BatState
    requires
        i < power_count(*h),
{
    match h.batteries[i].state() {
        battery::State::Charging => BatState::Charging,
        battery::State::Discharging => BatState::Discharging,
        battery::State::Empty => BatState::Empty,
        battery::State::Full => BatState::Full,
        battery::State::Unknown => BatState::Unknown,
        _ => BatState::Other,
    }
}

/// The charging state a battery reports.
#[derive(Clone, Copy, Debug)]
pub enum BatState {
    Unknown,
    Charging,
    Discharging,
    Empty,
    Full,
    /// a state this library does not know by name
    Other,
}

/// One battery's readings, as plain values.
#[derive(Clone, Copy, Debug)]
pub struct BatReading {
    /// charge as a whole percent
    pub percent: u64,
    /// temperature in whole degrees Celsius, where reported
    pub temperature: Option<i64>,
    /// predicted minutes until empty, where reported
    pub to_empty_min: Option<u64>,
    /// predicted minutes until full, where reported
    pub to_full_min: Option<u64>,
    /// reported charging state
    pub state: BatState,
}

/// Which of the battery readings the plugin displays.
#[derive(Clone, Copy, Debug)]
pub enum BatOut {
    Celsius,
    Percent,
    Time,
}

impl Default for BatOut {
    fn default() -> (r: BatOut)
        ensures
            r == BatOut::Percent,
    {
        BatOut::Percent
    }
}

/// Every battery's charge as "N%", concatenated in order.
pub open spec fn percents_text(rs: Seq<BatReading>) -> Seq<char>
    decreases rs.len(),
{
    if rs.len() == 0 {
        Seq::empty()
    } else {
        text::dec_text(rs[0].percent as nat) + seq!['%'] + percents_text(rs.drop_first())
    }
}

/// Every reported battery temperature, concatenated in order.
pub open spec fn temps_text(rs: Seq<BatReading>) -> Seq<char>
    decreases rs.len(),
{
    if rs.len() == 0 {
        Seq::empty()
    } else {
        (match rs[0].temperature {
            Some(t) => text::celsius_text(t as int),
            None => Seq::empty(),
        }) + temps_text(rs.drop_first())
    }
}

/// Every predicted time until empty, concatenated in order.
pub open spec fn to_empty_text(rs: Seq<BatReading>) -> Seq<char>
    decreases rs.len(),
{
    if rs.len() == 0 {
        Seq::empty()
    } else {
        (match rs[0].to_empty_min {
            Some(m) => text::minutes_text(m as nat),
            None => Seq::empty(),
        }) + to_empty_text(rs.drop_first())
    }
}

/// Every predicted time until full, marked as charging, concatenated in
/// order.
pub open spec fn to_full_text(rs: Seq<BatReading>) -> Seq<char>
    decreases rs.len(),
{
    if rs.len() == 0 {
        Seq::empty()
    } else {
        (match rs[0].to_full_min {
            Some(m) => text::charging_text(m as nat),
            None => Seq::empty(),
        }) + to_full_text(rs.drop_first())
    }
}

/// The whole battery display for mode `format` over readings `rs`; in the
/// time mode the first battery's state picks what is shown.
pub open spec fn bat_text(format: BatOut, rs: Seq<BatReading>) -> Seq<char> {
    match format {
        BatOut::Percent => percents_text(rs),
        BatOut::Celsius => temps_text(rs),
        BatOut::Time => {
            if rs.len() == 0 {
                Seq::empty()
            } else {
                match rs[0].state {
                    BatState::Discharging => to_empty_text(rs),
                    BatState::Charging => to_full_text(rs),
                    BatState::Empty => seq!['e', 'm', 'p', 't', 'y'],
                    BatState::Full => seq!['F', 'u', 'l', 'l'],
                    BatState::Unknown => seq!['U', 'n', 'k', 'n', 'o', 'w', 'n'],
                    BatState::Other => seq![
                        'n',
                        'o',
                        'n',
                        'e',
                        'x',
                        'h',
                        'a',
                        's',
                        't',
                        'i',
                        'v',
                        'e',
                    ],
                }
            }
        },
    }
}

fn percents_from(rs: &Vec<BatReading>, i: usize) -> (s: String)
    requires
        i <= rs.len(),
    ensures
        s@ == percents_text(rs@.skip(i as int)),
    decreases rs.len() - i,
{
    if i == rs.len() {
        String::new()
    } else {
        proof {
            reveal_strlit("%");
            assert(rs@.skip(i as int).drop_first() =~= rs@.skip(i as int + 1));
        }
        let mut s = text::dec_string(rs[i].percent);
        s.append("%");
        let rest = percents_from(rs, i + 1);
        s.append(rest.as_str());
        proof {
            assert(s@ =~= percents_text(rs@.skip(i as int)));
        }
        s
    }
}

fn temps_from(rs: &Vec<BatReading>, i: usize) -> (s: String)
    requires
        i <= rs.len(),
    ensures
        s@ == temps_text(rs@.skip(i as int)),
    decreases rs.len() - i,
{
    if i == rs.len() {
        String::new()
    } else {
        proof {
            assert(rs@.skip(i as int).drop_first() =~= rs@.skip(i as int + 1));
        }
        let mut s = match rs[i].temperature {
            Some(t) => text::celsius_string(t),
            None => String::new(),
        };
        let rest = temps_from(rs, i + 1);
        s.append(rest.as_str());
        proof {
            assert(s@ =~= temps_text(rs@.skip(i as int)));
        }
        s
    }
}

fn to_empty_from(rs: &Vec<BatReading>, i: usize) -> (s: String)
    requires
        i <= rs.len(),
    ensures
        s@ == to_empty_text(rs@.skip(i as int)),
    decreases rs.len() - i,
{
    if i == rs.len() {
        String::new()
    } else {
        proof {
            assert(rs@.skip(i as int).drop_first() =~= rs@.skip(i as int + 1));
        }
        let mut s = match rs[i].to_empty_min {
            Some(m) => text::minutes_string(m),
            None => String::new(),
        };
        let rest = to_empty_from(rs, i + 1);
        s.append(rest.as_str());
        proof {
            assert(s@ =~= to_empty_text(rs@.skip(i as int)));
        }
        s
    }
}

fn to_full_from(rs: &Vec<BatReading>, i: usize) -> (s: String)
    requires
        i <= rs.len(),
    ensures
        s@ == to_full_text(rs@.skip(i as int)),
    decreases rs.len() - i,
{
    if i == rs.len() {
        String::new()
    } else {
        proof {
            assert(rs@.skip(i as int).drop_first() =~= rs@.skip(i as int + 1));
        }
        let mut s = match rs[i].to_full_min {
            Some(m) => text::charging_string(m),
            None => String::new(),
        };
        let rest = to_full_from(rs, i + 1);
        s.append(rest.as_str());
        proof {
            assert(s@ =~= to_full_text(rs@.skip(i as int)));
        }
        s
    }
}

/// Renders the battery display for `format` from the given readings.
pub fn bat_display(format: BatOut, rs: &Vec<BatReading>) -> (r: String)
    ensures
        r@ == bat_text(format, rs@),
{
    proof {
        assert(rs@.skip(0) =~= rs@);
    }
    match format {
        BatOut::Percent => percents_from(rs, 0),
        BatOut::Celsius => temps_from(rs, 0),
        BatOut::Time => {
            if rs.len() == 0 {
                String::new()
            } else {
                match rs[0].state {
                    BatState::Discharging => to_empty_from(rs, 0),
                    BatState::Charging => to_full_from(rs, 0),
                    BatState::Empty => {
                        proof {
                            reveal_strlit("empty");
                        }
                        let s = "empty".to_owned();
                        proof {
                            assert(s@ =~= bat_text(format, rs@));
                        }
                        s
                    },
                    BatState::Full => {
                        proof {
                            reveal_strlit("Full");
                        }
                        let s = "Full".to_owned();
                        proof {
                            assert(s@ =~= bat_text(format, rs@));
                        }
                        s
                    },
                    BatState::Unknown => {
                        proof {
                            reveal_strlit("Unknown");
                        }
                        let s = "Unknown".to_owned();
                        proof {
                            assert(s@ =~= bat_text(format, rs@));
                        }
                        s
                    },
                    BatState::Other => {
                        proof {
                            reveal_strlit("nonexhastive");
                        }
                        let s = "nonexhastive".to_owned();
                        proof {
                            assert(s@ =~= bat_text(format, rs@));
                        }
                        s
                    },
                }
            }
        },
    }
}

/// Battery monitor: one of the display modes over the batteries found at
/// construction.
pub struct BatPlugin {
    power: PowerHandle,
    format: BatOut,
    display: String,
}

impl BatPlugin {
    /// The currently rendered text.
    pub closed spec fn text(&self) -> Seq<char> {
        self.display@
    }

    /// Which reading this plugin displays.
    pub closed spec fn mode(&self) -> BatOut {
        self.format
    }

    /// How many batteries the plugin watches.
    pub closed spec fn battery_count(&self) -> nat {
        power_count(self.power)
    }

    fn new() -> (r: BatPlugin)
        ensures
            r.mode() == BatOut::Percent,
            r.text() == Seq::<char>::empty(),
    {
        let mut power = power_open();
        power_scan(&mut power);
        BatPlugin { power, format: BatOut::Percent, display: String::new() }
    }

    /// A battery monitor showing the charge as a percentage.
    pub fn new_percent() -> (r: Box<BatPlugin>)
        ensures
            r.mode() == BatOut::Percent,
            r.text() == Seq::<char>::empty(),
    {
        Box::new(BatPlugin::new())
    }

    /// A battery monitor showing the temperature; not every system
    /// reports one.
    pub fn new_celsius() -> (r: Box<BatPlugin>)
        ensures
            r.mode() == BatOut::Celsius,
            r.text() == Seq::<char>::empty(),
    {
        let mut bat_plug = BatPlugin::new();
        bat_plug.format = BatOut::Celsius;
        Box::new(bat_plug)
    }

    /// A battery monitor showing the predicted remaining time.
    pub fn new_time() -> (r: Box<BatPlugin>)
        ensures
            r.mode() == BatOut::Time,
            r.text() == Seq::<char>::empty(),
    {
        let mut bat_plug = BatPlugin::new();
        bat_plug.format = BatOut::Time;
        Box::new(bat_plug)
    }

    /// Refreshes every battery, then renders the configured mode: the new
    /// text is the battery display of some readings, one per battery.
    pub fn refresh(&mut self)
        ensures
            final(self).mode() == old(self).mode(),
            final(self).battery_count() == old(self).battery_count(),
            exists|rs: Seq<BatReading>|
                rs.len() == old(self).battery_count() && final(self).text() == bat_text(
                    old(self).mode(),
                    rs,
                ),
    {
        let ghost n = power_count(self.power);
        let count = power_len(&self.power);
        let mut i: usize = 0;
        while i < count
            invariant
                power_count(self.power) == n,
                self.format == old(self).format,
            decreases count - i,
        {
            power_refresh_at(&mut self.power, i);
            i = i + 1;
        }
        let mut rs: Vec<BatReading> = Vec::new();
        let mut i: usize = 0;
        while i < count
            invariant
                i <= count,
                power_count(self.power) == n,
                self.format == old(self).format,
                count == n,
                rs@.len() == i,
            decreases count - i,
        {
            rs.push(
                BatReading {
                    percent: power_percent_at(&self.power, i),
                    temperature: power_temperature_at(&self.power, i),
                    to_empty_min: power_time_to_empty_at(&self.power, i),
                    to_full_min: power_time_to_full_at(&self.power, i),
                    state: power_state_at(&self.power, i),
                },
            );
            i = i + 1;
        }
        self.display = bat_display(self.format, &rs);
        proof {
            assert(rs@.len() == old(self).battery_count());
            assert(self.text() == bat_text(old(self).mode(), rs@));
        }
    }

    pub fn render(&self) -> (r: String)
        ensures
            r@ == self.text(),
    {
        self.display.clone()
    }
}

impl crate::Update for BatPlugin {
    fn refresh(&mut self) {
        BatPlugin::refresh(self);
    }
}

} // verus!
