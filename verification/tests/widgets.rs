use auravibe::autoplay::Autoplay;
use auravibe::border::{Side, Status};
use auravibe::rebuilds::RebuildCounter;
use auravibe::sidebar::{chevron, Axis, Chevron};
use auravibe::typography::{DisplaySize, TextSize};

#[test]
fn sizes_and_line_heights_follow_the_scale() {
    assert_eq!(TextSize::Sm.metrics(), (14, 20));
    assert_eq!(TextSize::Md.metrics(), (16, 24));
    assert_eq!(DisplaySize::Xxl.metrics(), (72, 90));
    assert_eq!(DisplaySize::Xs.metrics(), (24, 32));
}

#[test]
fn every_size_of_the_scale_is_listed() {
    let text: Vec<(u32, u32)> = [TextSize::Xs, TextSize::Sm, TextSize::Md, TextSize::Lg, TextSize::Xl]
        .iter()
        .map(|s| s.metrics())
        .collect();
    assert_eq!(text, [(12, 18), (14, 20), (16, 24), (18, 28), (20, 30)]);
    let display: Vec<(u32, u32)> = [
        DisplaySize::Xs,
        DisplaySize::Sm,
        DisplaySize::Md,
        DisplaySize::Lg,
        DisplaySize::Xl,
        DisplaySize::Xxl,
    ]
    .iter()
    .map(|s| s.metrics())
    .collect();
    assert_eq!(display, [(24, 32), (30, 38), (36, 44), (48, 60), (60, 72), (72, 90)]);
}

#[test]
fn the_chevron_points_the_way_the_sidebar_will_move() {
    assert_ne!(chevron(Axis::Vertical, false), chevron(Axis::Vertical, true));
    assert_ne!(chevron(Axis::Horizontal, false), chevron(Axis::Horizontal, true));
    assert_ne!(chevron(Axis::Vertical, false), chevron(Axis::Horizontal, false));
    assert_eq!(chevron(Axis::Vertical, false), Chevron::Left);
    assert_eq!(chevron(Axis::Vertical, true), Chevron::Right);
    assert_eq!(chevron(Axis::Horizontal, false), Chevron::Up);
    assert_eq!(chevron(Axis::Horizontal, true), Chevron::Down);
}

#[test]
fn a_sidebar_is_a_column_by_default() {
    assert_eq!(Axis::default(), Axis::Vertical);
}

#[test]
fn a_status_at_rest_has_every_flag_off() {
    let s = Status::default();
    assert!(!s.is_pressed && !s.is_hovered && !s.is_focused && !s.is_disabled);
    assert_ne!(Side::Outer, Side::Inner);
}

#[test]
fn the_rebuild_counter_counts_bumps() {
    let mut c = RebuildCounter::new();
    assert_eq!(c.count(), 0);
    c.bump();
    c.bump();
    assert_eq!(c.count(), 2);
}

#[test]
fn autoplay_fires_first_then_once_per_period() {
    let mut a = Autoplay::new(true);
    assert!(a.enabled());
    let ms = 1_000_000_u64;
    let t0 = 7 * ms;
    assert!(a.tick(t0), "the first tick fires");
    assert!(!a.tick(t0 + 1499 * ms));
    assert!(a.tick(t0 + 1500 * ms));
    assert!(!a.tick(t0 + 2000 * ms), "measured from the last firing");
    assert!(a.tick(t0 + 3000 * ms));
}

#[test]
fn autoplay_remembers_whether_it_is_on() {
    assert!(!Autoplay::new(false).enabled());
}

#[test]
fn a_tick_before_the_last_firing_counts_as_no_time_passed() {
    let mut a = Autoplay::new(true);
    assert!(a.tick(5_000_000_000));
    assert!(!a.tick(1_000_000_000));
    assert!(!a.tick(0));
    assert!(a.tick(6_500_000_000));
}
