//! Widget scheduling, bridge joining and bar rendering, with sources of
//! known text built from the clock plugin's public fields.

use redblocks::cpu::Cpu;
use redblocks::mem::MemoryUsage;
use redblocks::plugins::cpu::CpuPlugin;
use redblocks::plugins::mem::MemPlugin;
use redblocks::plugins::time::TimePlugin;
use redblocks::{Bar, Bridge, Content, Plugin, SubWidget, Widget};

fn fixed(textual: &str) -> Plugin {
    Plugin::Clock(TimePlugin { time: textual.to_string(), format: String::new() })
}

#[test]
fn bridge_of_zero_sources_is_empty() {
    let bridge = Bridge::new(vec![]);
    assert_eq!(bridge.render(), "");
}

#[test]
fn bridge_of_one_source_is_that_text() {
    let bridge = Bridge::new(vec![SubWidget::new(fixed("A"))]);
    assert_eq!(bridge.render(), "A");
}

#[test]
fn bridge_of_two_sources_with_delim() {
    let subs = vec![SubWidget::new(fixed("A")), SubWidget::new(fixed("B"))];
    let bridge = Bridge::new_with_custom_delim(subs, "|");
    assert_eq!(bridge.render(), "A | B");
}

#[test]
fn bridge_default_delim_is_pipe() {
    let subs = vec![SubWidget::new(fixed("A")), SubWidget::new(fixed("B"))];
    let bridge = Bridge::new_with_delim(subs);
    assert_eq!(bridge.render(), "A | B");
}

#[test]
fn bridge_without_delim_uses_single_space() {
    let subs = vec![SubWidget::new(fixed("A")), SubWidget::new(fixed("B"))];
    let bridge = Bridge::new(subs);
    assert_eq!(bridge.render(), "A B");
}

#[test]
fn bar_joins_with_default_separator() {
    let bar = Bar(vec![
        Widget::new(fixed_content("A"), 1),
        Widget::new(fixed_content("B"), 1),
        Widget::new(fixed_content("C"), 1),
    ]);
    assert_eq!(bar.render(), "A | B | C");
}

#[test]
fn bar_joins_with_custom_token() {
    let bar = Bar(vec![
        Widget::new(fixed_content("A"), 1),
        Widget::new(fixed_content("B"), 1),
    ]);
    assert_eq!(bar.render_with_token("*"), "A * B");
}

#[test]
fn bar_of_one_widget_has_no_separator() {
    let bar = Bar(vec![Widget::new(fixed_content("A"), 1)]);
    assert_eq!(bar.render(), "A");
}

#[test]
fn bar_of_no_widgets_renders_empty() {
    let bar = Bar(vec![]);
    assert_eq!(bar.render(), "");
}

fn fixed_content(textual: &str) -> Content {
    Content::Plugin(fixed(textual))
}

#[test]
fn widget_first_tick_refreshes() {
    let mut w = Widget::new(fixed_content("before"), 1);
    assert!(w.elapsed.is_none());
    w.update_at(10_000);
    // the first tick is always due and resets the timer
    assert_eq!(w.elapsed, Some(10_000));
}

#[test]
fn widget_stale_tick_changes_nothing() {
    let mut w = Widget::new(fixed_content("before"), 1);
    w.update_at(10_000);
    let first = w.render();
    w.update_at(10_500);
    // half a second later the one-second widget is not due
    assert_eq!(w.elapsed, Some(10_000));
    assert_eq!(w.render(), first);
}

#[test]
fn widget_due_tick_resets_timer() {
    let mut w = Widget::new(fixed_content("before"), 1);
    w.update_at(10_000);
    w.update_at(11_000);
    assert_eq!(w.elapsed, Some(11_000));
}

#[test]
fn widget_milisecond_interval() {
    let mut w = Widget::new_mili(fixed_content("before"), 250);
    w.update_at(1_000);
    w.update_at(1_200);
    assert_eq!(w.elapsed, Some(1_000));
    w.update_at(1_250);
    assert_eq!(w.elapsed, Some(1_250));
}

#[test]
fn two_close_bar_ticks_render_alike() {
    let mut bar = Bar(vec![Widget::new(fixed_content("start"), 1)]);
    bar.update_at(50_000);
    let first = bar.render();
    bar.update_at(50_400);
    let second = bar.render();
    assert_eq!(second, first);
}

#[test]
fn widget_update_reads_the_clock() {
    let mut w = Widget::new_mili(fixed_content("x"), 0);
    w.update();
    assert!(w.elapsed.is_some());
}

#[test]
fn bar_update_ticks_every_widget() {
    let mut bar = Bar(vec![
        Widget::new_mili(fixed_content("a"), 0),
        Widget::new_mili(fixed_content("b"), 0),
    ]);
    bar.update();
    assert!(bar.0[0].elapsed.is_some());
    assert!(bar.0[1].elapsed.is_some());
}

#[test]
fn fresh_sources_render_their_zero_values() {
    assert_eq!(Cpu::new().render(), "Cpu: 0%");
    assert_eq!(CpuPlugin::new().render(), "0%");
    assert_eq!(MemoryUsage::new().render(), "0 Kb");
    assert_eq!(MemPlugin::new().render(), "0 Kb");
}

#[test]
fn refreshed_memory_has_a_unit() {
    let mut mem = MemPlugin::new();
    mem.refresh();
    let shown = mem.render();
    assert!(
        shown.ends_with(" Kb") || shown.ends_with(" Mb") || shown.ends_with(" Gb"),
        "unexpected memory text: {shown}"
    );
}

#[test]
fn refreshed_cpu_is_a_percentage() {
    let mut cpu = CpuPlugin::new();
    cpu.refresh();
    assert!(cpu.render().ends_with('%'));
}

#[test]
fn clock_formats_hour_digits() {
    let clock = TimePlugin::new("%H");
    assert_eq!(clock.render().len(), 2);
}

#[test]
fn clock_default_format() {
    let clock = TimePlugin::default();
    assert_eq!(clock.format, "%A %D %_I:%M:%S %P");
}

#[test]
fn clock_refresh_keeps_format() {
    let mut clock = TimePlugin::new("%H");
    clock.refresh();
    assert_eq!(clock.format, "%H");
    assert_eq!(clock.render().len(), 2);
}
