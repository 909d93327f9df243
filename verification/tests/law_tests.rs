use pomodoro_timer::action::{DropId, EditTarget};
use pomodoro_timer::actions::begin_edit;
use pomodoro_timer::drops::{items, pick, selected};
use pomodoro_timer::action::{Action, Section};
use pomodoro_timer::dispatch::apply;
use pomodoro_timer::model::Effects;
use pomodoro_timer::runtime::{Runtime, WidgetMode};
use pomodoro_timer::widget::dismiss;
use pomodoro_timer::action::ColorTarget;
use pomodoro_timer::actions::{apply_color, current_color_text};
use pomodoro_timer::app::App;
use pomodoro_timer::color::ThemeColors;
use pomodoro_timer::clock::{calendar_cell, date_string, first_weekday, range_selected, today, LocalTime};
use pomodoro_timer::host::fast_interval;
use pomodoro_timer::model::{PomodoroState, Preset, TimerState};

#[test]
fn weekday_counts_days_from_year_one() {
    // 1 January of year 1 was a Monday; 365 days later (a whole number of weeks plus one day)
    // the next year starts on a Tuesday.
    assert_eq!(first_weekday(1, 1), 1);
    assert_eq!(first_weekday(2, 1), 2);
    assert_eq!(first_weekday(1, 2), (1 + 31) % 7);
    assert_eq!(first_weekday(1970, 1), 4);
    assert_eq!(first_weekday(2100, 3), 1);
}

#[test]
fn grid_puts_days_under_their_weekday() {
    // March 2024 starts on a Friday (5): day 1 sits in slot 5, day 31 in slot 35.
    assert_eq!(calendar_cell(2024, 3, 5), (1, true));
    assert_eq!(calendar_cell(2024, 3, 35), (31, true));
    assert_eq!(calendar_cell(2024, 3, 4), (29, false));
    assert_eq!(calendar_cell(2024, 3, 0), (25, false));
    assert_eq!(calendar_cell(2024, 3, 36), (1, false));
    assert_eq!(calendar_cell(2024, 1, 0), (31, false));
}

#[test]
fn date_text_sorts_like_dates() {
    let a = date_string(2023, 12, 31);
    let b = date_string(2024, 1, 1);
    let c = date_string(2024, 1, 10);
    assert!(a < b && b < c);
    assert!(range_selected(&b, &Some(a.clone()), &Some(c.clone())));
    assert!(!range_selected("2024-01-11", &Some(a.clone()), &Some(c.clone())));
    assert!(range_selected(&a, &Some(a.clone()), &None));
    assert!(!range_selected(&b, &Some(a.clone()), &None));
    let t = LocalTime { year: 2024, month: 1, day: 1, hour: 0, minute: 0 };
    assert_eq!(today(&t), b);
}

#[test]
fn fast_beats_land_on_the_second() {
    for now in [0u64, 1, 517, 960, 12_345] {
        assert_eq!((now + fast_interval(now) as u64) % 1000, 0);
    }
}

#[test]
fn timer_pause_and_resume_lose_nothing() {
    let mut t = TimerState::fresh();
    t.toggle(1_000);
    t.toggle(6_000);
    let paused = t.elapsed_ms(9_000);
    t.toggle(20_000);
    assert_eq!(paused, 5_000);
    assert_eq!(t.elapsed_ms(22_000), 7_000);
}

#[test]
fn countdown_pause_moves_deadline() {
    let p = Preset::classic();
    let mut c = PomodoroState::fresh(&p);
    c.toggle(0);
    let before = c.remaining_ms(100_000);
    c.toggle(100_000);
    c.toggle(160_000);
    assert_eq!(c.deadline, Some(1_560_000));
    assert_eq!(c.remaining_ms(160_000), before);
}

#[test]
fn picked_colour_reads_back() {
    let mut app = App::default();
    app.visual.custom_themes.push(ThemeColors::custom_default(0));
    let before_text = current_color_text(&app, ColorTarget::Custom(0, 7)).map(str::to_string);
    apply_color(&mut app, ColorTarget::Custom(0, 2), "#123456".to_string());
    assert_eq!(current_color_text(&app, ColorTarget::Custom(0, 2)), Some("#123456"));
    assert_eq!(current_color_text(&app, ColorTarget::Custom(0, 7)).map(str::to_string), before_text);
    // A field number past the last one names the text colour.
    apply_color(&mut app, ColorTarget::Custom(0, 12), "#abcdef".to_string());
    assert_eq!(current_color_text(&app, ColorTarget::Custom(0, 7)), Some("#abcdef"));
    // No such theme: nothing changes and nothing is read.
    apply_color(&mut app, ColorTarget::Custom(5, 0), "#000000".to_string());
    assert_eq!(current_color_text(&app, ColorTarget::Custom(5, 0)), None);
}

#[test]
fn second_step_undoes_the_first() {
    let clock = LocalTime { year: 2024, month: 3, day: 5, hour: 9, minute: 7 };
    let mut app = App::default();
    let mut rt = Runtime::new(&app, false, &clock);
    let mut fx = Effects::default();

    let sections = rt.sections;
    apply(&mut app, &mut rt, Action::ToggleSection(Section::VisualColor), 0, &clock, &mut fx);
    assert_ne!(rt.sections, sections);
    apply(&mut app, &mut rt, Action::ToggleSection(Section::VisualColor), 0, &clock, &mut fx);
    assert_eq!(rt.sections, sections);

    let names: Vec<String> = app.presets.iter().map(|p| p.name.clone()).collect();
    apply(&mut app, &mut rt, Action::PresetNew, 0, &clock, &mut fx);
    assert_eq!(app.presets.len(), names.len() + 1);
    apply(&mut app, &mut rt, Action::PresetDelete, 0, &clock, &mut fx);
    let after: Vec<String> = app.presets.iter().map(|p| p.name.clone()).collect();
    assert_eq!(after, names);

    let themes = app.visual.custom_themes.len();
    apply(&mut app, &mut rt, Action::ThemeCustomNew, 0, &clock, &mut fx);
    apply(&mut app, &mut rt, Action::ThemeCustomDelete(themes), 0, &clock, &mut fx);
    assert_eq!(app.visual.custom_themes.len(), themes);

    rt.open_drop = None;
    rt.edit = None;
    rt.widget_mode = WidgetMode::Idle;
    dismiss(&mut app, &mut rt, &mut fx, 0);
    assert_eq!(rt.widget_mode, WidgetMode::Standby);
    dismiss(&mut app, &mut rt, &mut fx, 0);
    assert_eq!(rt.widget_mode, WidgetMode::Idle);
}

#[test]
fn picked_entry_shows_as_chosen() {
    let clock = LocalTime { year: 2024, month: 3, day: 5, hour: 9, minute: 7 };
    let ids = [
        DropId::Preset, DropId::FocusEvent, DropId::ShortRestEvent, DropId::LongRestEvent,
        DropId::SoundKind, DropId::FontFamily, DropId::TimerActivity, DropId::PomoActivity,
        DropId::FilterGroup, DropId::FilterEvent,
    ];
    for id in ids {
        let mut app = App::default();
        let mut rt = Runtime::new(&app, false, &clock);
        let count = items(&app, id).len();
        for index in 0..count {
            rt.selected = vec![7];
            pick(&mut app, &mut rt, id, index, 0);
            assert_eq!(selected(&app, id), index);
            if id == DropId::FilterGroup || id == DropId::FilterEvent {
                assert!(rt.selected.is_empty());
            }
        }
    }
}

#[test]
fn widget_mode_button_twice_comes_back() {
    let clock = LocalTime { year: 2024, month: 3, day: 5, hour: 9, minute: 7 };
    let mut app = App::default();
    let mut rt = Runtime::new(&app, false, &clock);
    let mut fx = Effects::default();
    rt.widget_mode = WidgetMode::Running;
    rt.open_drop = Some(DropId::PomoActivity);
    apply(&mut app, &mut rt, Action::WidgetModeToggle, u64::MAX, &clock, &mut fx);
    assert_eq!(rt.widget_mode, WidgetMode::Idle);
    assert_eq!(rt.open_drop, None);
    apply(&mut app, &mut rt, Action::WidgetModeToggle, u64::MAX, &clock, &mut fx);
    assert_eq!(rt.widget_mode, WidgetMode::Running);
}

#[test]
fn edit_sessions_get_new_numbers() {
    let clock = LocalTime { year: 2024, month: 3, day: 5, hour: 9, minute: 7 };
    let app = App::default();
    let mut rt = Runtime::new(&app, false, &clock);
    let mut seen = Vec::new();
    for _ in 0..5 {
        begin_edit(&mut rt, EditTarget::ActivityAdd, String::new(), false);
        seen.push(rt.edit.as_ref().unwrap().id);
    }
    for pair in seen.windows(2) {
        assert!(pair[0] < pair[1]);
    }
}
