//! Status-bar building blocks. A [`Widget`] pairs one metric source with
//! an update interval and refreshes it only when the interval has elapsed;
//! a [`Bridge`] groups several sources under one shared timer; a [`Bar`]
//! owns the ordered widgets and joins their texts into the one status
//! line that an event loop publishes.

use vstd::prelude::*;

pub mod cpu;
pub mod mem;
pub mod plugins;
mod sys;
pub mod text;

use crate::cpu::Cpu;
use crate::mem::MemoryUsage;
use crate::plugins::battery::{bat_text, BatPlugin, BatReading};
use crate::plugins::cpu::CpuPlugin;
use crate::plugins::mem::MemPlugin;
use crate::plugins::time::TimePlugin;

verus! {

/// Refreshes the widget plugin.
pub trait Update {
    fn refresh(&mut self);
}

/// Relies on std::time::SystemTime::now: the clock's current reading, in
/// whole milliseconds since the Unix epoch; a reading before the epoch is
/// handed on as zero. The clock is machine state, so nothing is promised
/// of the value.
#[verifier::external_body]
fn clock_millis() -> u64 {
    match std::time::SystemTime::now().duration_since(std::time::UNIX_EPOCH) {
        Ok(d) => d.as_millis() as u64,
        Err(_) => 0,
    }
}

/// One of the built-in metric sources.
pub enum Plugin {
    Cpu(Cpu),
    CpuUsage(CpuPlugin),
    Memory(MemoryUsage),
    MemUsage(MemPlugin),
    Battery(BatPlugin),
    Clock(TimePlugin),
}

impl Plugin {
    /// The source's current text.
    pub open spec fn text(&self) -> Seq<char> {
        match self {
            Plugin::Cpu(p) => p.text(),
            Plugin::CpuUsage(p) => p.text(),
            Plugin::Memory(p) => p.text(),
            Plugin::MemUsage(p) => p.text(),
            Plugin::Battery(p) => p.text(),
            Plugin::Clock(p) => p.text(),
        }
    }

    /// What refreshing keeps, and the shape it gives the new text: the
    /// kind of source is kept; a processor or memory source's text
    /// becomes the rendering of some fresh reading; a battery monitor
    /// keeps its mode and battery count and its text becomes the battery
    /// display of that many readings; a clock keeps its format string.
    pub open spec fn refresh_rel(pre: Plugin, post: Plugin) -> bool {
        match (pre, post) {
            (Plugin::Cpu(_), Plugin::Cpu(b)) => exists|h: nat| b.text() == cpu::cpu_text(h),
            (Plugin::CpuUsage(_), Plugin::CpuUsage(b)) => exists|h: nat|
                b.text() == text::percent_text(h),
            (Plugin::Memory(_), Plugin::Memory(b)) => exists|kb: nat|
                b.text() == text::mem_text(kb),
            (Plugin::MemUsage(_), Plugin::MemUsage(b)) => exists|kb: nat|
                b.text() == text::mem_text(kb),
            (Plugin::Battery(a), Plugin::Battery(b)) => b.mode() == a.mode()
                && b.battery_count() == a.battery_count() && exists|rs: Seq<BatReading>|
                rs.len() == a.battery_count() && b.text() == bat_text(a.mode(), rs),
            (Plugin::Clock(a), Plugin::Clock(b)) => b.format == a.format,
            _ => false,
        }
    }

    /// Pulls a fresh value from the source's system facility.
    pub fn refresh(&mut self)
        ensures
            Plugin::refresh_rel(*old(self), *final(self)),
    {
        match self {
            Plugin::Cpu(p) => p.refresh(),
            Plugin::CpuUsage(p) => p.refresh(),
            Plugin::Memory(p) => p.refresh(),
            Plugin::MemUsage(p) => p.refresh(),
            Plugin::Battery(p) => p.refresh(),
            Plugin::Clock(p) => p.refresh(),
        }
    }

    pub fn render(&self) -> (r: String)
        ensures
            r@ == self.text(),
    {
        match self {
            Plugin::Cpu(p) => p.render(),
            Plugin::CpuUsage(p) => p.render(),
            Plugin::Memory(p) => p.render(),
            Plugin::MemUsage(p) => p.render(),
            Plugin::Battery(p) => p.render(),
            Plugin::Clock(p) => p.render(),
        }
    }
}

impl Update for Plugin {
    fn refresh(&mut self) {
        Plugin::refresh(self);
    }
}

/// A [Widget] without any timing control, only for use within a [Bridge].
pub struct SubWidget(Plugin);

impl SubWidget {
    /// The held source.
    pub closed spec fn plugin(&self) -> Plugin {
        self.0
    }

    /// The held source's current text.
    pub open spec fn text(&self) -> Seq<char> {
        self.plugin().text()
    }

    /// What a sub-widget refresh keeps: what the source's own refresh
    /// keeps.
    pub open spec fn refresh_rel(pre: SubWidget, post: SubWidget) -> bool {
        Plugin::refresh_rel(pre.plugin(), post.plugin())
    }

    pub fn new(plugin: Plugin) -> (r: Box<SubWidget>)
        ensures
            r.plugin() == plugin,
    {
        Box::new(SubWidget(plugin))
    }

    /// Refreshes the held source; a bridge drives this for every source
    /// it holds.
    pub fn update(&mut self)
        ensures
            SubWidget::refresh_rel(*old(self), *final(self)),
    {
        self.0.refresh()
    }

    pub fn render(&self) -> (r: String)
        ensures
            r@ == self.text(),
    {
        self.0.render()
    }
}

impl Update for SubWidget {
    fn refresh(&mut self) {
        SubWidget::update(self);
    }
}

/// Allows two or more plugins to be displayed side by side; the held
/// [SubWidget]s share the same timer. An optional delimiter stands
/// between their texts.
pub struct Bridge(Vec<Box<SubWidget>>, Option<String>);

impl Bridge {
    /// The held sub-widgets, in display order.
    pub closed spec fn subs(&self) -> Seq<SubWidget> {
        self.0@.map_values(|sw: Box<SubWidget>| *sw)
    }

    /// The configured delimiter, where one was chosen.
    pub closed spec fn delim(&self) -> Option<Seq<char>> {
        match self.1 {
            None => None,
            Some(d) => Some(d@),
        }
    }

    /// The separator the bridge joins with: a single space, or the
    /// delimiter with a space on either side.
    pub open spec fn sep(&self) -> Seq<char> {
        match self.delim() {
            None => seq![' '],
            Some(d) => seq![' '] + d + seq![' '],
        }
    }

    /// The texts of the held sources, in order.
    pub open spec fn texts(&self) -> Seq<Seq<char>> {
        self.subs().map_values(|sw: SubWidget| sw.text())
    }

    /// The bridge's current text: the source texts joined.
    pub open spec fn text(&self) -> Seq<char> {
        text::join_texts(self.texts(), self.sep())
    }

    /// What a bridge refresh keeps: the delimiter, the number of sources,
    /// and for each source what its own refresh keeps.
    pub open spec fn refresh_rel(pre: Bridge, post: Bridge) -> bool {
        &&& post.delim() == pre.delim()
        &&& post.subs().len() == pre.subs().len()
        &&& forall|i: int|
            0 <= i < pre.subs().len() ==> SubWidget::refresh_rel(
                pre.subs()[i],
                #[trigger] post.subs()[i],
            )
    }

    /// creates a new [Bridge] with no delimiter
    pub fn new(widgets: Vec<Box<SubWidget>>) -> (r: Box<Bridge>)
        ensures
            r.delim() is None,
            r.subs() == widgets@.map_values(|sw: Box<SubWidget>| *sw),
    {
        Box::new(Bridge(widgets, None))
    }

    /// creates a [Bridge] with the default delimiter
    pub fn new_with_delim(widgets: Vec<Box<SubWidget>>) -> (r: Box<Bridge>)
        ensures
            r.delim() == Some(seq!['|']),
            r.subs() == widgets@.map_values(|sw: Box<SubWidget>| *sw),
    {
        proof {
            reveal_strlit("|");
        }
        let d = "|".to_owned();
        proof {
            assert(d@ =~= seq!['|']);
        }
        Box::new(Bridge(widgets, Some(d)))
    }

    /// creates a [Bridge] with a custom delimiter
    pub fn new_with_custom_delim(widgets: Vec<Box<SubWidget>>, delim: &str) -> (r: Box<Bridge>)
        ensures
            r.delim() == Some(delim@),
            r.subs() == widgets@.map_values(|sw: Box<SubWidget>| *sw),
    {
        Box::new(Bridge(widgets, Some(delim.to_owned())))
    }

    /// Refreshes every held source unconditionally: the sub-widgets share
    /// one timer, the owning widget's.
    pub fn refresh(&mut self)
        ensures
            Bridge::refresh_rel(*old(self), *final(self)),
    {
        let n = self.0.len();
        let mut i: usize = 0;
        while i < n
            invariant
                i <= n,
                self.0@.len() == n,
                n == old(self).0@.len(),
                self.1 == old(self).1,
                forall|j: int|
                    0 <= j < i ==> SubWidget::refresh_rel(
                        *old(self).0@[j],
                        *#[trigger] self.0@[j],
                    ),
                forall|j: int| i <= j < n ==> self.0@[j] == old(self).0@[j],
            decreases n - i,
        {
            self.0[i].update();
            i = i + 1;
        }
    }

    /// Renders the joined texts of the held sources.
    pub fn render(&self) -> (r: String)
        ensures
            r@ == self.text(),
    {
        let mut texts: Vec<String> = Vec::new();
        let mut i: usize = 0;
        while i < self.0.len()
            invariant
                i <= self.0@.len(),
                texts@.len() == i,
                forall|j: int| 0 <= j < i ==> (#[trigger] texts@[j])@ == self.texts()[j],
            decreases self.0@.len() - i,
        {
            texts.push(self.0[i].render());
            i = i + 1;
        }
        proof {
            reveal_strlit(" ");
        }
        let sep: String = match &self.1 {
            None => " ".to_owned(),
            Some(d) => {
                let mut s = " ".to_owned();
                s.append(d.as_str());
                s.append(" ");
                s
            },
        };
        proof {
            assert(sep@ =~= self.sep());
            assert(texts@.map_values(|t: String| t@) =~= self.texts());
        }
        text::join_strings(&texts, sep.as_str())
    }
}

impl Update for Bridge {
    fn refresh(&mut self) {
        Bridge::refresh(self);
    }
}

/// What a widget holds: one metric source, or one bridge of several.
pub enum Content {
    Plugin(Plugin),
    Bridge(Bridge),
}

impl Content {
    /// The current text of what is held.
    pub open spec fn text(&self) -> Seq<char> {
        match self {
            Content::Plugin(p) => p.text(),
            Content::Bridge(b) => b.text(),
        }
    }

    /// What refreshing the held content keeps.
    pub open spec fn refresh_rel(pre: Content, post: Content) -> bool {
        match (pre, post) {
            (Content::Plugin(a), Content::Plugin(b)) => Plugin::refresh_rel(a, b),
            (Content::Bridge(a), Content::Bridge(b)) => Bridge::refresh_rel(a, b),
            _ => false,
        }
    }

    /// Refreshes what is held.
    pub fn refresh(&mut self)
        ensures
            Content::refresh_rel(*old(self), *final(self)),
    {
        match self {
            Content::Plugin(p) => p.refresh(),
            Content::Bridge(b) => b.refresh(),
        }
    }

    pub fn render(&self) -> (r: String)
        ensures
            r@ == self.text(),
    {
        match self {
            Content::Plugin(p) => p.render(),
            Content::Bridge(b) => b.render(),
        }
    }
}

impl Update for Content {
    fn refresh(&mut self) {
        Content::refresh(self);
    }
}

/// Handles timing and calling updates for plugins.
pub struct Widget {
    /// holds the plugin or bridge
    pub content: Content,
    /// the update interval, in milliseconds
    pub intervel: u64,
    /// clock milliseconds at the last refresh; None until the first one,
    /// so a fresh widget refreshes on its first tick
    pub elapsed: Option<u64>,
}

impl Widget {
    /// The widget's current text; rendering needs no refresh.
    pub open spec fn text(&self) -> Seq<char> {
        self.content.text()
    }

    /// Due exactly when the widget has never refreshed, or `now` has
    /// reached the last refresh plus the interval.
    pub open spec fn due(&self, now: u64) -> bool {
        match self.elapsed {
            None => true,
            Some(last) => now >= last + self.intervel,
        }
    }

    /// How one tick at clock time `now` changes a widget: not due, it is
    /// left untouched; due, the content is refreshed and the timer reset
    /// to `now`.
    pub open spec fn tick_rel(pre: Widget, now: u64, post: Widget) -> bool {
        if pre.due(now) {
            &&& post.intervel == pre.intervel
            &&& post.elapsed == Some(now)
            &&& Content::refresh_rel(pre.content, post.content)
        } else {
            post == pre
        }
    }

    /// A widget over `content` refreshing every `intervel` seconds.
    pub fn new(content: Content, intervel: u64) -> (r: Widget)
        requires
            intervel * 1000 <= u64::MAX,
        ensures
            r.content == content,
            r.intervel == intervel * 1000,
            r.elapsed is None,
    {
        Widget { content, intervel: intervel * 1000, elapsed: None }
    }

    /// A widget over `content` refreshing every `intervel` milliseconds;
    /// keep the interval above the event loop's own sleep period.
    pub fn new_mili(content: Content, intervel: u64) -> (r: Widget)
        ensures
            r.content == content,
            r.intervel == intervel,
            r.elapsed is None,
    {
        Widget { content, intervel, elapsed: None }
    }

    /// One tick of the scheduler at clock time `now`.
    pub fn update_at(&mut self, now: u64)
        ensures
            Widget::tick_rel(*old(self), now, *final(self)),
    {
        let due = match self.elapsed {
            None => true,
            Some(last) => now >= last && now - last >= self.intervel,
        };
        if due {
            self.content.refresh();
            self.elapsed = Some(now);
        }
    }

    /// One tick at the clock's current reading.
    pub fn update(&mut self)
        ensures
            exists|now: u64| Widget::tick_rel(*old(self), now, *final(self)),
    {
        let now = clock_millis();
        self.update_at(now);
    }

    pub fn render(&self) -> (r: String)
        ensures
            r@ == self.text(),
    {
        self.content.render()
    }
}

/// Vec\<Widget\>
pub type StatusBar = Vec<Widget>;

/// Holds [StatusBar]
pub struct Bar(pub StatusBar);

impl Bar {
    /// The texts of the widgets, in order.
    pub open spec fn texts(&self) -> Seq<Seq<char>> {
        self.0@.map_values(|w: Widget| w.text())
    }

    /// The bar's status line for separator token `token`: the first
    /// widget's text, then every further text behind the spaced token.
    pub open spec fn line(&self, token: Seq<char>) -> Seq<char> {
        text::join_texts(self.texts(), seq![' '] + token + seq![' '])
    }

    /// How one bar tick at clock time `now` changes the widgets: each
    /// one ticks independently, in place and in order.
    pub open spec fn tick_rel(pre: Bar, now: u64, post: Bar) -> bool {
        &&& post.0@.len() == pre.0@.len()
        &&& forall|i: int|
            0 <= i < pre.0@.len() ==> Widget::tick_rel(pre.0@[i], now, #[trigger] post.0@[i])
    }

    /// Ticks every widget at clock time `now`, in insertion order; each
    /// widget decides for itself whether it is due.
    pub fn update_at(&mut self, now: u64)
        ensures
            Bar::tick_rel(*old(self), now, *final(self)),
    {
        let n = self.0.len();
        let mut i: usize = 0;
        while i < n
            invariant
                i <= n,
                self.0@.len() == n,
                n == old(self).0@.len(),
                forall|j: int|
                    0 <= j < i ==> Widget::tick_rel(old(self).0@[j], now, #[trigger] self.0@[j]),
                forall|j: int| i <= j < n ==> self.0@[j] == old(self).0@[j],
            decreases n - i,
        {
            self.0[i].update_at(now);
            i = i + 1;
        }
    }

    /// Ticks every widget at the clock's current reading.
    pub fn update(&mut self)
        ensures
            exists|now: u64| Bar::tick_rel(*old(self), now, *final(self)),
    {
        let now = clock_millis();
        self.update_at(now);
    }

    /// Renders the status line with the default separator token.
    pub fn render(&self) -> (r: String)
        ensures
            r@ == self.line(seq!['|']),
    {
        proof {
            reveal_strlit("|");
            assert("|"@ =~= seq!['|']);
        }
        self.render_with_token("|")
    }

    /// Renders the status line with a custom separator token.
    pub fn render_with_token(&self, token: &str) -> (r: String)
        ensures
            r@ == self.line(token@),
    {
        let mut texts: Vec<String> = Vec::new();
        let mut i: usize = 0;
        while i < self.0.len()
            invariant
                i <= self.0@.len(),
                texts@.len() == i,
                forall|j: int| 0 <= j < i ==> (#[trigger] texts@[j])@ == self.texts()[j],
            decreases self.0@.len() - i,
        {
            texts.push(self.0[i].render());
            i = i + 1;
        }
        proof {
            reveal_strlit(" ");
        }
        let mut sep = " ".to_owned();
        sep.append(token);
        sep.append(" ");
        proof {
            assert(sep@ =~= seq![' '] + token@ + seq![' ']);
            assert(texts@.map_values(|t: String| t@) =~= self.texts());
        }
        text::join_strings(&texts, sep.as_str())
    }
}

/// A tick before the interval has elapsed leaves the widget, and so its
/// rendered text, unchanged.
pub proof fn lemma_stale_tick_keeps_text(pre: Widget, now: u64, post: Widget)
    requires
        Widget::tick_rel(pre, now, post),
        !pre.due(now),
    ensures
        post == pre,
        post.text() == pre.text(),
{
}

/// A due tick resets the timer: at any later reading short of a full
/// further interval — an immediately repeated tick included — the widget
/// is not due, so that tick leaves it unchanged.
pub proof fn lemma_refresh_resets_timer(pre: Widget, now: u64, post: Widget, later: u64)
    requires
        Widget::tick_rel(pre, now, post),
        pre.due(now),
        later < now + pre.intervel,
    ensures
        !post.due(later),
{
}

/// A bridge over zero sources renders empty; over one, that source's own
/// text; over two with a delimiter, the two texts with the spaced
/// delimiter between them.
pub proof fn lemma_bridge_text_small(b: Bridge)
    ensures
        b.subs().len() == 0 ==> b.text() == Seq::<char>::empty(),
        b.subs().len() == 1 ==> b.text() == b.subs()[0].text(),
        b.subs().len() == 2 && b.delim() is Some ==> b.text() == b.subs()[0].text() + seq![' ']
            + b.delim()->0 + seq![' '] + b.subs()[1].text(),
{
    text::lemma_join_small(b.texts(), b.sep());
    if b.subs().len() == 2 && b.delim() is Some {
        assert(b.texts()[0] + (seq![' '] + b.delim()->0 + seq![' ']) + b.texts()[1] =~= b.subs()[0]
            .text() + seq![' '] + b.delim()->0 + seq![' '] + b.subs()[1].text());
    }
}

} // verus!
