use pomodoro_timer::action::{Action, DropId, EditTarget, NumberTarget, Section, ViewId};
use pomodoro_timer::actions::{
    begin_edit, click_away, commit_edit, edit_cancelled, edit_changed, edit_confirmed, edit_sync, preset_min,
    step_preset, EditSync,
};
use pomodoro_timer::app::App;
use pomodoro_timer::clock::LocalTime;
use pomodoro_timer::color::ThemeId;
use pomodoro_timer::dispatch::apply;
use pomodoro_timer::model::{Effect, Effects, Kind, Preset, RunStatus, Stage};
use pomodoro_timer::runtime::{PendingDialog, Runtime, WidgetMode};

fn clock() -> LocalTime {
    LocalTime { year: 2024, month: 3, day: 5, hour: 9, minute: 7 }
}

fn setup() -> (App, Runtime, Effects) {
    let app = App::default();
    let rt = Runtime::new(&app, false, &clock());
    (app, rt, Effects::default())
}

fn last_toast(fx: &Effects) -> Option<String> {
    fx.items.iter().rev().find_map(|e| match e {
        Effect::Toast(t) => Some(t.clone()),
        _ => None,
    })
}

#[test]
fn mode_change_refused_while_counting() {
    let (mut app, mut rt, mut fx) = setup();
    apply(&mut app, &mut rt, Action::TimerToggle, 1_000, &clock(), &mut fx);
    assert_eq!(app.timer.status, RunStatus::Running);
    apply(&mut app, &mut rt, Action::TimerMode(Kind::Rest), 2_000, &clock(), &mut fx);
    assert_eq!(app.timer.mode, Kind::Focus);
    assert_eq!(last_toast(&fx).unwrap(), "请先结束或重置当前计时");
    apply(&mut app, &mut rt, Action::TimerReset, 3_000, &clock(), &mut fx);
    apply(&mut app, &mut rt, Action::TimerMode(Kind::Rest), 4_000, &clock(), &mut fx);
    assert_eq!(app.timer.mode, Kind::Rest);
}

#[test]
fn stage_choice_applies_the_preset() {
    let (mut app, mut rt, mut fx) = setup();
    apply(&mut app, &mut rt, Action::PomoStage(Stage::LongRest), 0, &clock(), &mut fx);
    assert_eq!(app.pomodoro.stage, Stage::LongRest);
    assert_eq!(app.pomodoro.total_ms, 15 * 60_000);
    apply(&mut app, &mut rt, Action::PomoToggle, 0, &clock(), &mut fx);
    assert_eq!(app.pomodoro.status, RunStatus::Running);
    apply(&mut app, &mut rt, Action::PomoStage(Stage::Focus), 10, &clock(), &mut fx);
    assert_eq!(app.pomodoro.stage, Stage::LongRest);
    apply(&mut app, &mut rt, Action::PomoReset, 20, &clock(), &mut fx);
    assert_eq!(app.pomodoro.status, RunStatus::Idle);
    assert_eq!(app.pomodoro.remaining_ms, 15 * 60_000);
}

#[test]
fn number_steps_stay_in_range() {
    let (mut app, mut rt, mut fx) = setup();
    apply(&mut app, &mut rt, Action::NumberStep(NumberTarget::Focus, -100), 0, &clock(), &mut fx);
    assert_eq!(app.preset().focus, 0);
    apply(&mut app, &mut rt, Action::NumberStep(NumberTarget::Cycle, -100), 0, &clock(), &mut fx);
    assert_eq!(app.preset().cycle, 1);
    apply(&mut app, &mut rt, Action::NumberStep(NumberTarget::LongRest, 5000), 0, &clock(), &mut fx);
    assert_eq!(app.preset().long_rest, 999);
    apply(&mut app, &mut rt, Action::NumberStep(NumberTarget::ShortRest, 1), 0, &clock(), &mut fx);
    assert_eq!(app.preset().short_rest, 6);
    assert_eq!(preset_min(NumberTarget::Cycle), 1);
    assert_eq!(preset_min(NumberTarget::Focus), 0);
    let mut p = Preset::classic();
    step_preset(&mut p, NumberTarget::Focus, 5);
    assert_eq!(p.focus, 30);
}

#[test]
fn focus_step_refreshes_idle_countdown() {
    let (mut app, mut rt, mut fx) = setup();
    apply(&mut app, &mut rt, Action::NumberStep(NumberTarget::Focus, 5), 0, &clock(), &mut fx);
    assert_eq!(app.pomodoro.total_ms, 30 * 60_000);
}

#[test]
fn number_edit_commits_parsed_value() {
    let (mut app, mut rt, mut fx) = setup();
    apply(&mut app, &mut rt, Action::NumberEdit(NumberTarget::Focus), 0, &clock(), &mut fx);
    let edit = rt.edit.as_ref().unwrap();
    assert_eq!(edit.text, "25");
    assert_eq!(edit.target, EditTarget::Number(NumberTarget::Focus));
    let session = edit.id;
    edit_changed(&mut rt, session, " 2000 ".to_string());
    assert!(!rt.edit.as_ref().unwrap().select_all);
    edit_changed(&mut rt, session + 1, "1".to_string());
    assert_eq!(rt.edit.as_ref().unwrap().text, " 2000 ");
    edit_confirmed(&mut app, &mut rt, session, &mut fx, 0);
    assert!(rt.edit.is_none());
    assert_eq!(app.preset().focus, 999);
}

#[test]
fn activities_added_and_refused() {
    let (mut app, mut rt, mut fx) = setup();
    apply(&mut app, &mut rt, Action::ActivityAddStart, 0, &clock(), &mut fx);
    assert_eq!(edit_sync(&rt, false), EditSync::Place);
    assert_eq!(edit_sync(&rt, true), EditSync::Skip);
    let session = rt.edit.as_ref().unwrap().id;
    edit_changed(&mut rt, session, "   ".to_string());
    apply(&mut app, &mut rt, Action::ActivityAddConfirm, 0, &clock(), &mut fx);
    assert_eq!(last_toast(&fx).unwrap(), "请输入事件名称");
    begin_edit(&mut rt, EditTarget::ActivityAdd, "阅读".to_string(), false);
    commit_edit(&mut app, &mut rt, &mut fx, 0);
    assert_eq!(last_toast(&fx).unwrap(), "该事件已存在");
    begin_edit(&mut rt, EditTarget::ActivityAdd, " 冥想 ".to_string(), false);
    commit_edit(&mut app, &mut rt, &mut fx, 0);
    assert_eq!(last_toast(&fx).unwrap(), "已添加「冥想」");
    assert_eq!(app.activities.last().unwrap(), "冥想");
    assert_eq!(edit_sync(&rt, false), EditSync::End);
}

#[test]
fn activity_rename_adds_and_sets() {
    let (mut app, mut rt, mut fx) = setup();
    apply(&mut app, &mut rt, Action::ActivityEdit(true), 0, &clock(), &mut fx);
    let session = rt.edit.as_ref().unwrap().id;
    edit_changed(&mut rt, session, "跑步".to_string());
    edit_confirmed(&mut app, &mut rt, session, &mut fx, 0);
    assert_eq!(app.pomodoro.activity, "跑步");
    assert_eq!(last_toast(&fx).unwrap(), "已添加活动「跑步」");
    begin_edit(&mut rt, EditTarget::ActivityName(false), "x".to_string(), true);
    let s2 = rt.edit.as_ref().unwrap().id;
    edit_cancelled(&mut rt, s2 + 7);
    assert!(rt.edit.is_some());
    edit_cancelled(&mut rt, s2);
    assert!(rt.edit.is_none());
}

#[test]
fn activity_delete_keeps_one_and_repoints_presets() {
    let (mut app, mut rt, mut fx) = setup();
    apply(&mut app, &mut rt, Action::ActivityDelete(0), 0, &clock(), &mut fx);
    assert_eq!(app.activities[0], "阅读");
    assert_eq!(app.presets[0].focus_event, "阅读");
    assert_eq!(app.timer.activity, "阅读");
    app.activities.truncate(1);
    apply(&mut app, &mut rt, Action::ActivityDelete(0), 0, &clock(), &mut fx);
    assert_eq!(app.activities.len(), 1);
    assert_eq!(last_toast(&fx).unwrap(), "至少保留一个事件");
}

#[test]
fn preset_new_save_delete() {
    let (mut app, mut rt, mut fx) = setup();
    apply(&mut app, &mut rt, Action::PresetNew, 0, &clock(), &mut fx);
    assert_eq!(app.presets.len(), 3);
    assert_eq!(rt.edit.as_ref().unwrap().text, "新方案");
    assert_eq!(last_toast(&fx).unwrap(), "已新建方案");
    let w = apply(&mut app, &mut rt, Action::PresetSave, 0, &clock(), &mut fx);
    assert!(w.save);
    assert_eq!(last_toast(&fx).unwrap(), "已保存「新方案」");
    apply(&mut app, &mut rt, Action::PresetDelete, 0, &clock(), &mut fx);
    assert_eq!(app.presets.len(), 2);
    apply(&mut app, &mut rt, Action::UploadSound, 0, &clock(), &mut fx);
    assert_eq!(rt.pending, Some(PendingDialog::SoundFile));
}

#[test]
fn draft_edits_wait_for_apply() {
    let (mut app, mut rt, mut fx) = setup();
    apply(&mut app, &mut rt, Action::Nav(ViewId::Pomodoro), 0, &clock(), &mut fx);
    apply(&mut app, &mut rt, Action::ToggleSection(Section::PomoPreset), 0, &clock(), &mut fx);
    assert!(rt.draft.is_some());
    apply(&mut app, &mut rt, Action::NumberStep(NumberTarget::Focus, 10), 0, &clock(), &mut fx);
    assert_eq!(app.preset().focus, 25);
    assert_eq!(rt.draft.as_ref().unwrap().preset.focus, 35);
    apply(&mut app, &mut rt, Action::PresetApply, 0, &clock(), &mut fx);
    assert!(rt.draft.is_none());
    assert_eq!(app.preset().focus, 35);
    assert_eq!(app.pomodoro.total_ms, 35 * 60_000);
    assert_eq!(last_toast(&fx).unwrap(), "已应用到番茄钟");
}

#[test]
fn navigation_closes_overlays_and_moves_widget() {
    let (mut app, mut rt, mut fx) = setup();
    apply(&mut app, &mut rt, Action::DropToggle(DropId::Preset), 0, &clock(), &mut fx);
    assert_eq!(rt.open_drop, Some(DropId::Preset));
    let w = apply(&mut app, &mut rt, Action::Nav(ViewId::Pomodoro), 0, &clock(), &mut fx);
    assert!(w.scroll_view);
    assert_eq!(rt.open_drop, None);
    assert_eq!(rt.widget_module, ViewId::Pomodoro);
    apply(&mut app, &mut rt, Action::Nav(ViewId::History), 0, &clock(), &mut fx);
    assert_eq!(rt.widget_module, ViewId::Pomodoro);
    assert_eq!(rt.view, ViewId::History);
}

#[test]
fn drop_pick_chooses_preset() {
    let (mut app, mut rt, mut fx) = setup();
    apply(&mut app, &mut rt, Action::DropToggle(DropId::Preset), 0, &clock(), &mut fx);
    apply(&mut app, &mut rt, Action::DropPick(DropId::Preset, 1), 0, &clock(), &mut fx);
    assert_eq!(app.active_preset, 1);
    assert_eq!(app.pomodoro.total_ms, 50 * 60_000);
    assert_eq!(rt.open_drop, None);
}

#[test]
fn themes_custom_and_saved() {
    let (mut app, mut rt, mut fx) = setup();
    apply(&mut app, &mut rt, Action::ThemeCustomNew, 0, &clock(), &mut fx);
    assert_eq!(app.visual.custom_themes.len(), 1);
    assert_eq!(app.visual.custom_themes[0].name, "自定义1");
    assert_eq!(app.visual.theme, ThemeId::Custom);
    let w = apply(&mut app, &mut rt, Action::ThemeSavePreset, 0, &clock(), &mut fx);
    assert!(w.refresh_theme);
    assert_eq!(app.visual.saved_presets.len(), 1);
    assert_eq!(app.visual.theme, ThemeId::Saved);
    apply(&mut app, &mut rt, Action::ThemeCustomDelete(0), 0, &clock(), &mut fx);
    assert_eq!(app.visual.custom_themes.len(), 0);
    assert_eq!(app.visual.theme, ThemeId::A);
    assert_eq!(last_toast(&fx).unwrap(), "已删除自定义颜色");
    apply(&mut app, &mut rt, Action::ThemeSavedDelete(5), 0, &clock(), &mut fx);
    assert_eq!(app.visual.saved_presets.len(), 1);
}

#[test]
fn dark_mode_asks_for_caption() {
    let (mut app, mut rt, mut fx) = setup();
    let w = apply(&mut app, &mut rt, Action::ToggleDarkMode, 0, &clock(), &mut fx);
    assert!(app.visual.dark_mode);
    assert!(w.refresh_theme && w.dark_caption);
    rt.refresh_theme(&app, false);
    assert!(rt.dark);
}

#[test]
fn selection_and_batch_delete() {
    let (mut app, mut rt, mut fx) = setup();
    apply(&mut app, &mut rt, Action::BatchDelete, 0, &clock(), &mut fx);
    assert_eq!(last_toast(&fx).unwrap(), "请先选择记录");
    app.timer.toggle(0);
    app.timer_end(5_000, &clock(), &mut fx);
    app.timer.toggle(0);
    app.timer_end(7_000, &clock(), &mut fx);
    apply(&mut app, &mut rt, Action::ToggleSelect(2), 0, &clock(), &mut fx);
    apply(&mut app, &mut rt, Action::SelectAll(true), 0, &clock(), &mut fx);
    assert_eq!(rt.selected, vec![2, 1]);
    apply(&mut app, &mut rt, Action::ToggleSelect(2), 0, &clock(), &mut fx);
    assert_eq!(rt.selected, vec![1]);
    apply(&mut app, &mut rt, Action::BatchDelete, 0, &clock(), &mut fx);
    assert_eq!(app.history.len(), 1);
    assert_eq!(app.history[0].id, 2);
    assert!(rt.selected.is_empty());
    assert_eq!(last_toast(&fx).unwrap(), "已删除选中记录");
}

#[test]
fn calendar_picks_and_applies_a_range() {
    let (mut app, mut rt, mut fx) = setup();
    let w = apply(&mut app, &mut rt, Action::CalendarToggle, 0, &clock(), &mut fx);
    assert!(w.anchor_calendar && rt.calendar_open);
    assert_eq!((rt.calendar.year, rt.calendar.month), (2024, 3));
    apply(&mut app, &mut rt, Action::CalendarPickDay(20), 0, &clock(), &mut fx);
    apply(&mut app, &mut rt, Action::CalendarPickDay(4), 0, &clock(), &mut fx);
    assert_eq!(rt.calendar.start.as_deref(), Some("2024-03-04"));
    assert_eq!(rt.calendar.end.as_deref(), Some("2024-03-20"));
    apply(&mut app, &mut rt, Action::CalendarApply, 0, &clock(), &mut fx);
    assert_eq!(app.filter.date_start.as_deref(), Some("2024-03-04"));
    assert_eq!(app.filter.date_end.as_deref(), Some("2024-03-20"));
    assert!(!rt.calendar_open);
    apply(&mut app, &mut rt, Action::CalendarToggle, 0, &clock(), &mut fx);
    apply(&mut app, &mut rt, Action::CalendarPickDay(9), 0, &clock(), &mut fx);
    apply(&mut app, &mut rt, Action::CalendarApply, 0, &clock(), &mut fx);
    assert_eq!(app.filter.date_end.as_deref(), Some("2024-03-09"));
    apply(&mut app, &mut rt, Action::CalendarClear, 0, &clock(), &mut fx);
    assert_eq!(app.filter.date_start, None);
}

#[test]
fn calendar_months_wrap() {
    let (mut app, mut rt, mut fx) = setup();
    rt.calendar.month = 1;
    apply(&mut app, &mut rt, Action::CalendarPrev, 0, &clock(), &mut fx);
    assert_eq!((rt.calendar.year, rt.calendar.month), (2023, 12));
    apply(&mut app, &mut rt, Action::CalendarNext, 0, &clock(), &mut fx);
    assert_eq!((rt.calendar.year, rt.calendar.month), (2024, 1));
}

#[test]
fn widget_controls() {
    let (mut app, mut rt, mut fx) = setup();
    apply(&mut app, &mut rt, Action::WidgetModeToggle, 0, &clock(), &mut fx);
    assert_eq!(rt.widget_mode, WidgetMode::Running);
    apply(&mut app, &mut rt, Action::WidgetModeToggle, 0, &clock(), &mut fx);
    assert_eq!(rt.widget_mode, WidgetMode::Idle);
    apply(&mut app, &mut rt, Action::WidgetModule(ViewId::Pomodoro), 0, &clock(), &mut fx);
    apply(&mut app, &mut rt, Action::WidgetEdit, 0, &clock(), &mut fx);
    assert!(rt.widget_editing);
    assert_eq!(rt.edit.as_ref().unwrap().target, EditTarget::ActivityName(true));
    assert_eq!(edit_sync(&rt, true), EditSync::Place);
    let w = apply(&mut app, &mut rt, Action::WidgetOpen, 0, &clock(), &mut fx);
    assert!(w.show_main);
    assert_eq!(rt.view, ViewId::Pomodoro);
    assert!(!rt.widget_editing);
    apply(&mut app, &mut rt, Action::WidgetClickThrough, 0, &clock(), &mut fx);
    assert!(app.visual.widget_click_through);
    assert_eq!(rt.pending, Some(PendingDialog::WidgetStyle));
    apply(&mut app, &mut rt, Action::WindowSize(9), 0, &clock(), &mut fx);
    assert!(!rt.window_dirty);
    apply(&mut app, &mut rt, Action::WindowSize(0), 0, &clock(), &mut fx);
    assert!(rt.window_dirty);
    assert_eq!(app.visual.window_size, 0);
}

#[test]
fn click_away_closes_one_thing() {
    let (mut app, mut rt, mut fx) = setup();
    rt.calendar_open = true;
    rt.open_drop = Some(DropId::FilterGroup);
    click_away(&mut app, &mut rt, &mut fx, 0);
    assert_eq!(rt.open_drop, None);
    assert!(rt.calendar_open);
    click_away(&mut app, &mut rt, &mut fx, 0);
    assert!(!rt.calendar_open);
}

#[test]
fn stop_sound_clears_sound() {
    let (mut app, mut rt, mut fx) = setup();
    rt.sound_started(0, true);
    assert!(rt.sound_active(10));
    let w = apply(&mut app, &mut rt, Action::StopSound, 0, &clock(), &mut fx);
    assert!(w.stop_sound);
    assert!(!rt.sound_active(10));
}
