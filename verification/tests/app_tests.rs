use pomodoro_timer::app::{restore, App};
use pomodoro_timer::clock::LocalTime;
use pomodoro_timer::model::{Effect, Effects, Kind, RunStatus, Source, Stage, STATE_VERSION};

fn clock() -> LocalTime {
    LocalTime { year: 2024, month: 3, day: 5, hour: 9, minute: 7 }
}

fn toasts(fx: &Effects) -> Vec<String> {
    fx.items
        .iter()
        .filter_map(|e| match e {
            Effect::Toast(t) => Some(t.clone()),
            _ => None,
        })
        .collect()
}

#[test]
fn fresh_state() {
    let app = App::default();
    assert_eq!(app.version, STATE_VERSION);
    assert_eq!(app.presets.len(), 2);
    assert_eq!(app.preset().name, "经典番茄");
    assert_eq!(app.activities[0], "写代码");
    assert_eq!(app.pomodoro.remaining_ms, 1_500_000);
    assert!(!app.has_running_timer());
}

#[test]
fn presets_add_select_delete() {
    let mut app = App::default();
    app.add_preset();
    assert_eq!(app.presets.len(), 3);
    assert_eq!(app.active_preset, 2);
    assert_eq!(app.preset().name, "新方案");
    app.select_preset(1);
    assert_eq!(app.preset().name, "深度工作");
    app.select_preset(9);
    assert_eq!(app.active_preset, 1);
    let mut fx = Effects::default();
    app.delete_preset(&mut fx);
    assert_eq!(app.presets.len(), 2);
    assert_eq!(toasts(&fx), vec!["已删除方案".to_string()]);
    app.delete_preset(&mut fx);
    assert_eq!(app.presets.len(), 1);
    app.delete_preset(&mut fx);
    assert_eq!(app.presets.len(), 1);
    assert_eq!(toasts(&fx).last().unwrap(), "至少保留一个方案");
}

#[test]
fn applying_a_preset_sets_the_countdown() {
    let mut app = App::default();
    app.select_preset(1);
    app.apply_preset();
    assert_eq!(app.pomodoro.total_ms, 50 * 60_000);
    assert_eq!(app.pomodoro.activity, "写代码");
    app.pomodoro.stage = Stage::ShortRest;
    app.apply_preset();
    assert_eq!(app.pomodoro.total_ms, 10 * 60_000);
    assert_eq!(app.pomodoro.activity, "散步");
}

#[test]
fn zero_length_stages_are_skipped() {
    let mut app = App::default();
    app.presets[0].short_rest = 0;
    app.pomodoro.stage = Stage::ShortRest;
    app.apply_preset();
    assert_eq!(app.pomodoro.stage, Stage::Focus);
    assert_eq!(app.pomodoro.cycle, 2);
}

#[test]
fn skipping_records_and_moves_on() {
    let mut app = App::default();
    let mut fx = Effects::default();
    app.pomodoro.toggle(0);
    app.skip_pomodoro(120_000, &clock(), &mut fx);
    assert_eq!(app.history.len(), 1);
    assert_eq!(app.history[0].seconds, 120);
    assert!(!app.history[0].completed);
    assert_eq!(app.history[0].source, Source::Pomodoro);
    assert_eq!(app.history[0].date, "2024-03-05");
    assert_eq!(app.history[0].time, "03-05 09:07");
    assert_eq!(app.pomodoro.stage, Stage::ShortRest);
    assert_eq!(app.pomodoro.status, RunStatus::Idle);
    assert_eq!(
        toasts(&fx),
        vec!["已结束并保存：写代码 · 2分".to_string(), "已跳到「短休息」".to_string()]
    );
}

#[test]
fn tick_finishes_a_due_countdown() {
    let mut app = App::default();
    app.pomodoro.toggle(0);
    let mut fx = Effects::default();
    app.tick(1_500_000, &clock(), &mut fx);
    assert_eq!(fx.items.len(), 3);
    assert!(matches!(&fx.items[0], Effect::Sound { looping: false, .. }));
    assert!(matches!(&fx.items[1], Effect::Balloon { title, body } if title == "专注结束" && body == "写代码 · 专注 已结束"));
    assert_eq!(toasts(&fx), vec!["完成！写代码 · 25分".to_string()]);
    assert_eq!(app.history[0].kind, Kind::Focus);
    assert!(app.history[0].completed);
    assert_eq!(app.pomodoro.stage, Stage::ShortRest);
}

#[test]
fn tick_starts_a_pending_stage() {
    let mut app = App::default();
    app.pomodoro.auto_start_at = Some(1_000);
    let mut fx = Effects::default();
    app.tick(999, &clock(), &mut fx);
    assert_eq!(app.pomodoro.status, RunStatus::Idle);
    app.tick(1_000, &clock(), &mut fx);
    assert_eq!(app.pomodoro.status, RunStatus::Running);
    assert_eq!(app.pomodoro.auto_start_at, None);
    assert_eq!(toasts(&fx), vec!["自动开始下一个阶段".to_string()]);
}

#[test]
fn timer_end_and_skip() {
    let mut app = App::default();
    let mut fx = Effects::default();
    app.timer_skip(0, &clock(), &mut fx);
    assert_eq!(app.timer.mode, Kind::Rest);
    assert_eq!(toasts(&fx), vec!["已切到「休息」".to_string()]);
    app.timer.toggle(1_000);
    app.timer_end(66_500, &clock(), &mut fx);
    assert_eq!(app.history.len(), 1);
    assert_eq!(app.history[0].seconds, 65);
    assert_eq!(app.history[0].kind, Kind::Rest);
    assert_eq!(toasts(&fx)[1], "已保存：写代码 · 1分5秒");
    app.timer_end(70_000, &clock(), &mut fx);
    assert_eq!(toasts(&fx)[2], "已跳过");
}

#[test]
fn minutes_and_visible_history() {
    let mut app = App::default();
    let mut fx = Effects::default();
    app.timer.toggle(0);
    app.timer_end(90_000, &clock(), &mut fx);
    app.timer.mode = Kind::Rest;
    app.timer.toggle(0);
    app.timer_end(29_000, &clock(), &mut fx);
    assert_eq!(app.today_minutes(&clock()), (2, 0));
    let other_day = LocalTime { year: 2024, month: 3, day: 6, hour: 0, minute: 0 };
    assert_eq!(app.today_minutes(&other_day), (0, 0));
    assert_eq!(app.visible_history().len(), 2);
    app.filter.group = Some(pomodoro_timer::model::Group::Rest);
    assert_eq!(app.visible_history().len(), 1);
    let ids: Vec<u64> = vec![app.history[0].id];
    app.delete_selected(&ids);
    assert_eq!(app.history.len(), 1);
    assert_eq!(app.history[0].id, 1);
}

#[test]
fn normalize_and_restore() {
    let mut broken = App::default();
    broken.presets.clear();
    broken.activities.clear();
    broken.active_preset = 7;
    broken.visual.window_size = 9;
    broken.visual.pomo_font_weight = 900;
    broken.timer.status = RunStatus::Running;
    broken.timer.started_at = Some(3);
    let restored = restore(Some(broken));
    assert_eq!(restored.presets.len(), 1);
    assert_eq!(restored.preset().name, "经典番茄");
    assert_eq!(restored.active_preset, 0);
    assert_eq!(restored.activities, vec!["写代码".to_string()]);
    assert_eq!(restored.visual.window_size, 3);
    assert_eq!(restored.visual.pomo_font_weight, 800);
    assert_eq!(restored.timer.status, RunStatus::Paused);
    let mut old_format = App::default();
    old_format.version = STATE_VERSION + 1;
    old_format.activities.clear();
    let fresh = restore(Some(old_format));
    assert_eq!(fresh.activities.len(), 9);
    assert_eq!(restore(None).presets.len(), 2);
}

#[test]
fn skipping_goes_on_to_the_next_timed_stage() {
    let mut app = App::default();
    app.presets[0].focus = 0;
    app.presets[0].short_rest = 0;
    app.presets[0].long_rest = 15;
    app.presets[0].cycle = 4;
    app.pomodoro.stage = Stage::Focus;
    app.pomodoro.cycle = 1;
    app.apply_preset();
    assert_eq!(app.pomodoro.stage, Stage::LongRest);
    assert_eq!(app.pomodoro.total_ms, 15 * 60_000);
    assert_eq!(app.pomodoro.remaining_ms, 15 * 60_000);
    assert_eq!(app.pomodoro.status, RunStatus::Idle);

    // From round 0 it takes two more moves, and still lands on the long rest.
    app.pomodoro.stage = Stage::Focus;
    app.pomodoro.cycle = 0;
    app.apply_preset();
    assert_eq!(app.pomodoro.stage, Stage::LongRest);

    // Only the short rest has a length: from the long rest, focus is skipped too.
    app.presets[0].short_rest = 5;
    app.presets[0].long_rest = 0;
    app.pomodoro.stage = Stage::LongRest;
    app.apply_preset();
    assert_eq!(app.pomodoro.stage, Stage::ShortRest);
    assert_eq!(app.pomodoro.cycle, 1);
    assert_eq!(app.pomodoro.total_ms, 5 * 60_000);

    // No stage has a length: three skips, then a minute.
    app.presets[0].short_rest = 0;
    app.pomodoro.stage = Stage::Focus;
    app.pomodoro.cycle = 1;
    app.apply_preset();
    assert_eq!(app.pomodoro.stage, Stage::ShortRest);
    assert_eq!(app.pomodoro.cycle, 2);
    assert_eq!(app.pomodoro.total_ms, 60_000);
}
