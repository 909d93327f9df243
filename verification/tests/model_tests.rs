use pomodoro_timer::model::{
    fmt_duration, fmt_time, meta, Effect, Effects, Filter, Group, HistoryItem, Kind, PomodoroState, Preset,
    RunStatus, SoundKind, Source, Stage, TimerState,
};

fn item(id: u64, name: &str, kind: Kind, date: &str) -> HistoryItem {
    HistoryItem {
        id,
        name: name.to_string(),
        kind,
        seconds: 60,
        date: date.to_string(),
        time: "03-05 10:00".to_string(),
        completed: true,
        source: Source::Timer,
    }
}

#[test]
fn time_formats() {
    assert_eq!(fmt_time(0), "00:00");
    assert_eq!(fmt_time(125), "02:05");
    assert_eq!(fmt_time(3600), "60:00");
    assert_eq!(fmt_duration(125), "2分5秒");
    assert_eq!(fmt_duration(120), "2分");
    assert_eq!(fmt_duration(59), "0分59秒");
}

#[test]
fn stage_and_kind_names() {
    assert_eq!(Stage::Focus.name(), "专注");
    assert_eq!(Stage::ShortRest.name(), "短休息");
    assert_eq!(Stage::LongRest.name(), "长休息");
    assert!(Stage::Focus.is_focus());
    assert_eq!(Stage::LongRest.kind(), Kind::LongRest);
    assert_eq!(Kind::Rest.name(), "休息");
    assert_eq!(Kind::ShortRest.group(), Group::Rest);
    assert_eq!(Kind::Focus.group(), Group::Focus);
    assert_eq!(Kind::from_stage(Stage::ShortRest), Kind::ShortRest);
    assert_eq!(SoundKind::Chime.label(), "风铃");
    assert_eq!(SoundKind::nth(3), Some(SoundKind::Custom));
    assert_eq!(SoundKind::nth(4), None);
    assert_eq!(SoundKind::Ding.position(), 1);
}

#[test]
fn presets_have_their_lengths() {
    let classic = Preset::classic();
    assert_eq!(classic.name, "经典番茄");
    assert_eq!(classic.minutes_for(Stage::Focus), 25);
    assert_eq!(classic.minutes_for(Stage::ShortRest), 5);
    assert_eq!(classic.minutes_for(Stage::LongRest), 15);
    assert_eq!(classic.event_for(Stage::LongRest), "午休");
    let deep = Preset::deep_work();
    assert_eq!(deep.minutes_for(Stage::Focus), 50);
    assert_eq!(deep.sound(), SoundKind::Chime);
}

#[test]
fn filter_by_group_event_and_dates() {
    let mut f = Filter::default();
    assert!(f.is_empty());
    let a = item(1, "阅读", Kind::Focus, "2024-03-05");
    assert!(f.matches(&a));
    f.group = Some(Group::Rest);
    assert!(!f.matches(&a));
    f.group = Some(Group::Focus);
    f.event = Some("阅读".to_string());
    assert!(f.matches(&a));
    f.date_start = Some("2024-03-06".to_string());
    assert!(!f.matches(&a));
    f.date_start = Some("2024-03-05".to_string());
    f.date_end = Some("2024-03-05".to_string());
    assert!(f.matches(&a));
    f.date_end = Some("2024-03-04".to_string());
    assert!(!f.matches(&a));
}

#[test]
fn timer_counts_and_pauses() {
    let mut t = TimerState::fresh();
    assert_eq!(t.elapsed_ms(5_000), 0);
    t.toggle(1_000);
    assert_eq!(t.status, RunStatus::Running);
    assert_eq!(t.elapsed_ms(4_500), 3_500);
    t.toggle(4_500);
    assert_eq!(t.status, RunStatus::Paused);
    assert_eq!(t.elapsed_sec(100_000), 3);
    t.toggle(10_000);
    assert_eq!(t.elapsed_ms(11_000), 4_500);
    t.reset();
    assert_eq!(t.status, RunStatus::Idle);
    assert_eq!(t.elapsed_ms(20_000), 0);
}

#[test]
fn countdown_runs_and_pauses() {
    let p = Preset::classic();
    let mut c = PomodoroState::fresh(&p);
    assert_eq!(c.total_sec(), 1500);
    assert_eq!(c.remaining_sec(0), 1500);
    c.toggle(1_000);
    assert_eq!(c.deadline, Some(1_501_000));
    assert_eq!(c.remaining_ms(2_000), 1_499_000);
    assert_eq!(c.remaining_sec(1_500), 1500);
    assert_eq!(c.elapsed_sec(61_000), 60);
    c.toggle(61_000);
    assert_eq!(c.status, RunStatus::Paused);
    assert_eq!(c.remaining_ms(999_999), 1_440_000);
    c.stop();
    assert_eq!(c.status, RunStatus::Idle);
}

#[test]
fn countdown_normalize_repairs_lengths() {
    let p = Preset::classic();
    let mut c = PomodoroState::fresh(&p);
    c.status = RunStatus::Running;
    c.deadline = Some(5);
    c.total_ms = 0;
    c.remaining_ms = 30_000;
    c.normalize();
    assert_eq!(c.status, RunStatus::Paused);
    assert_eq!(c.deadline, None);
    assert_eq!(c.total_ms, 60_000);
    assert_eq!(c.remaining_ms, 30_000);
}

#[test]
fn effects_queue_in_order() {
    let mut fx = Effects::default();
    fx.toast("a".to_string());
    fx.sound(SoundKind::Ding, "x.wav", true);
    fx.balloon("t".to_string(), "b".to_string());
    assert_eq!(fx.items.len(), 3);
    assert!(matches!(&fx.items[0], Effect::Toast(t) if t == "a"));
    assert!(matches!(&fx.items[1], Effect::Sound { kind: SoundKind::Ding, path, looping: true } if path == "x.wav"));
    assert!(matches!(&fx.items[2], Effect::Balloon { title, body } if title == "t" && body == "b"));
}

#[test]
fn history_meta_line() {
    let mut a = item(1, "阅读", Kind::ShortRest, "2024-03-05");
    assert_eq!(meta(&a), "短休息 · 2024-03-05 03-05 10:00");
    a.completed = false;
    a.source = Source::Pomodoro;
    assert_eq!(meta(&a), "短休息 · 2024-03-05 03-05 10:00 · 提前结束 · 番茄钟");
}
