use pomodoro_timer::action::{Action, DropId, ViewId};
use pomodoro_timer::app::App;
use pomodoro_timer::clock::LocalTime;
use pomodoro_timer::host::{
    absorb, click_label, fast_interval, follow_running, heartbeat, run_tray_command, toggle_label, tray_tip,
    widget_label, TrayCommand, CMD_QUIT, CMD_SHOW,
};
use pomodoro_timer::model::{Effect, Effects, RunStatus, SoundKind};
use pomodoro_timer::runtime::{Runtime, WidgetMode};
use pomodoro_timer::widget::{
    activity_drop, clamp_to_area, dismiss, drag_starts, first_position, list_open, module, standby_if_idle,
    widget_action, STANDBY_MS,
};

fn clock() -> LocalTime {
    LocalTime { year: 2024, month: 3, day: 5, hour: 9, minute: 7 }
}

fn setup() -> (App, Runtime) {
    let app = App::default();
    let rt = Runtime::new(&app, false, &clock());
    (app, rt)
}

#[test]
fn beat_intervals() {
    assert_eq!(fast_interval(0), 1000);
    assert_eq!(fast_interval(1_250), 750);
    assert_eq!(fast_interval(1_999), 40);
    assert_eq!(fast_interval(1_960), 40);
    assert_eq!(fast_interval(1_959), 41);
}

#[test]
fn tray_tips() {
    let (mut app, _) = setup();
    assert_eq!(tray_tip(&app, 0), "番茄钟 · 计时");
    app.timer.toggle(0);
    assert_eq!(tray_tip(&app, 65_000), "计时中 01:05");
    app.pomodoro.toggle(0);
    assert_eq!(tray_tip(&app, 1_000), "番茄钟 · 专注 24:59");
}

#[test]
fn absorb_shows_toasts_and_hands_out_the_rest() {
    let (_, mut rt) = setup();
    let mut fx = Effects::default();
    fx.toast("one".to_string());
    fx.sound(SoundKind::Bell, "", true);
    fx.balloon("t".to_string(), "b".to_string());
    fx.toast("two".to_string());
    let out = absorb(&mut rt, fx, 10_000);
    assert_eq!(out.len(), 2);
    assert!(matches!(out[0], Effect::Sound { looping: true, .. }));
    assert!(matches!(out[1], Effect::Balloon { .. }));
    assert_eq!(rt.toast, Some(("two".to_string(), 12_200)));
    assert!(rt.sound_loop_playing);
    assert_eq!(rt.sound_until, 3_610_000);
}

#[test]
fn heartbeat_finishes_and_follows() {
    let (mut app, mut rt) = setup();
    app.pomodoro.toggle(0);
    rt.window_dirty = true;
    let beat = heartbeat(&mut app, &mut rt, 1_500_250, &clock());
    assert_eq!(app.history.len(), 1);
    assert_eq!(beat.outside.len(), 2);
    assert_eq!(rt.toast.as_ref().unwrap().0, "完成！写代码 · 25分");
    assert!(beat.fast);
    assert_eq!(beat.interval, 750);
    assert_eq!(beat.resize, Some(2));
    assert!(!rt.window_dirty);
    assert_eq!(beat.tip, "番茄钟 · 计时");
    assert_eq!(rt.widget_module, ViewId::Timer);
    let beat = heartbeat(&mut app, &mut rt, 1_600_000, &clock());
    assert!(rt.toast.is_none());
    assert!(!beat.fast);
    assert_eq!(beat.interval, 1000);
}

#[test]
fn widget_follows_what_starts() {
    let (mut app, mut rt) = setup();
    app.pomodoro.toggle(0);
    follow_running(&app, &mut rt);
    assert_eq!(rt.widget_module, ViewId::Pomodoro);
    rt.widget_module = ViewId::Timer;
    follow_running(&app, &mut rt);
    assert_eq!(rt.widget_module, ViewId::Timer);
}

#[test]
fn tray_commands() {
    let (mut app, _) = setup();
    let mut fx = Effects::default();
    assert_eq!(TrayCommand::from_id(CMD_SHOW), Some(TrayCommand::Show));
    assert_eq!(TrayCommand::from_id(0), None);
    assert_eq!(TrayCommand::Quit.id(), CMD_QUIT);
    assert_eq!(toggle_label(&app), "开始番茄钟");
    let w = run_tray_command(&mut app, TrayCommand::Toggle, 0, &clock(), &mut fx);
    assert_eq!(w, pomodoro_timer::host::TrayWork { show_main: false, toggle_widget: false, restyle_widget: false, save: false, quit: false });
    assert_eq!(app.pomodoro.status, RunStatus::Running);
    assert_eq!(toggle_label(&app), "暂停番茄钟");
    app.timer.toggle(0);
    run_tray_command(&mut app, TrayCommand::Toggle, 5_000, &clock(), &mut fx);
    assert_eq!(app.pomodoro.status, RunStatus::Paused);
    assert_eq!(app.timer.status, RunStatus::Paused);
    run_tray_command(&mut app, TrayCommand::Skip, 6_000, &clock(), &mut fx);
    assert_eq!(app.history.len(), 1);
    assert_eq!(click_label(&app), "小图标点击穿透：关");
    let w = run_tray_command(&mut app, TrayCommand::ClickThrough, 6_000, &clock(), &mut fx);
    assert!(w.restyle_widget && w.save);
    assert_eq!(click_label(&app), "小图标点击穿透：开（从托盘关）");
    assert_eq!(widget_label(&app), "显示桌面小图标");
}

#[test]
fn widget_helpers() {
    let (mut app, mut rt) = setup();
    assert_eq!(module(&app, &rt), ViewId::Timer);
    assert_eq!(activity_drop(ViewId::Pomodoro), DropId::PomoActivity);
    assert_eq!(activity_drop(ViewId::History), DropId::TimerActivity);
    assert!(!list_open(&app, &rt));
    let mut fx = Effects::default();
    widget_action(&mut app, &mut rt, Action::DropToggle(DropId::TimerActivity), 0, &clock(), &mut fx);
    assert!(rt.widget_drop);
    assert!(list_open(&app, &rt));
    dismiss(&mut app, &mut rt, &mut fx, 0);
    assert_eq!(rt.open_drop, None);
    assert_eq!(rt.widget_mode, WidgetMode::Idle);
    dismiss(&mut app, &mut rt, &mut fx, 0);
    assert_eq!(rt.widget_mode, WidgetMode::Standby);
    dismiss(&mut app, &mut rt, &mut fx, 0);
    assert_eq!(rt.widget_mode, WidgetMode::Idle);
}

#[test]
fn widget_dragging_and_placement() {
    assert!(!drag_starts(false, false, 3, 3, 0, 500));
    assert!(drag_starts(false, false, 7, 0, 0, 200));
    assert!(!drag_starts(false, false, 7, 0, 100, 200));
    assert!(drag_starts(false, false, -19, 0, 100, 200));
    assert!(!drag_starts(true, false, -19, 0, 100, 200));
    assert!(!drag_starts(false, true, -19, 0, 100, 200));
    assert_eq!(clamp_to_area(-50, 2000, 200, 100, 0, 0, 1920, 1040), (0, 940));
    assert_eq!(clamp_to_area(500, 500, 3000, 100, 0, 0, 1920, 1040), (0, 500));
    assert_eq!(first_position(186, 0, 0, 1920, 1040), (1706, 260));
}

#[test]
fn widget_stands_by_after_quiet_spell() {
    let (_, mut rt) = setup();
    rt.widget_mode = WidgetMode::Standby;
    rt.open_drop = Some(DropId::PomoActivity);
    standby_if_idle(&mut rt, 1_000, 1_000 + STANDBY_MS - 1);
    assert_eq!(rt.widget_mode, WidgetMode::Standby);
    assert_eq!(rt.open_drop, Some(DropId::PomoActivity));
    standby_if_idle(&mut rt, 1_000, 1_000 + STANDBY_MS);
    assert_eq!(rt.widget_mode, WidgetMode::Idle);
    assert_eq!(rt.open_drop, None);

    rt.widget_mode = WidgetMode::Running;
    rt.widget_editing = true;
    standby_if_idle(&mut rt, 0, 60_000);
    assert_eq!(rt.widget_mode, WidgetMode::Running);
    rt.widget_editing = false;
    standby_if_idle(&mut rt, 50_000, 10_000);
    assert_eq!(rt.widget_mode, WidgetMode::Running);
    standby_if_idle(&mut rt, 0, 60_000);
    assert_eq!(rt.widget_mode, WidgetMode::Idle);
}
