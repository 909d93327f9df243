use vstd::prelude::*;

use crate::action::{ColorTarget, EditTarget, NumberTarget, ViewId};
use crate::app::{rests_at, toasted, App};
use crate::color::{theme_field, theme_field_of, theme_with_field, ThemeColors};
use crate::model::{pomo_remaining, Effect, Effects, Preset, RunStatus, SoundKind};
use crate::runtime::{EditState, PresetDraft, Runtime};
use crate::text::{concat3, contains_str, listed, parse_u32, parsed_u32, trim, trimmed};

verus! {

/// The smallest value of a numeric preset setting: 0 minutes (the stage is skipped) for a
/// stage length, 1 for the number of rounds.
pub open spec fn number_min(target: NumberTarget) -> u32 {
    if target == NumberTarget::Cycle { 1 } else { 0 }
}

pub fn preset_min(target: NumberTarget) -> (r: u32)
    ensures
        r == number_min(target),
{
    if target == NumberTarget::Cycle {
        1
    } else {
        0
    }
}

/// The value of a numeric preset setting.
pub open spec fn number_of(p: Preset, target: NumberTarget) -> u32 {
    match target {
        NumberTarget::Focus => p.focus,
        NumberTarget::ShortRest => p.short_rest,
        NumberTarget::LongRest => p.long_rest,
        NumberTarget::Cycle => p.cycle,
    }
}

/// `p` with a numeric setting replaced.
pub open spec fn with_number(p: Preset, target: NumberTarget, value: u32) -> Preset {
    match target {
        NumberTarget::Focus => Preset { focus: value, ..p },
        NumberTarget::ShortRest => Preset { short_rest: value, ..p },
        NumberTarget::LongRest => Preset { long_rest: value, ..p },
        NumberTarget::Cycle => Preset { cycle: value, ..p },
    }
}

pub fn preset_number(preset: &Preset, target: NumberTarget) -> (r: u32)
    ensures
        r == number_of(*preset, target),
{
    match target {
        NumberTarget::Focus => preset.focus,
        NumberTarget::ShortRest => preset.short_rest,
        NumberTarget::LongRest => preset.long_rest,
        NumberTarget::Cycle => preset.cycle,
    }
}

/// Replaces a numeric preset setting.
pub fn set_preset_number(preset: &mut Preset, target: NumberTarget, value: u32)
    ensures
        *final(preset) == with_number(*old(preset), target, value),
{
    match target {
        NumberTarget::Focus => preset.focus = value,
        NumberTarget::ShortRest => preset.short_rest = value,
        NumberTarget::LongRest => preset.long_rest = value,
        NumberTarget::Cycle => preset.cycle = value,
    }
}

/// A 32-bit value read as a signed 32-bit number.
pub open spec fn as_signed(v: u32) -> int {
    if v > i32::MAX { v - 0x1_0000_0000 } else { v as int }
}

/// `v`, read as a signed number, moved by `delta` and kept between `min` and 999.
pub open spec fn stepped(v: u32, delta: i32, min: u32) -> u32 {
    let t = as_signed(v) + delta;
    if t < min { min } else if t > 999 { 999 } else { t as u32 }
}

/// Moves a numeric preset setting by `delta`, keeping it between its smallest value and 999.
pub fn step_preset(preset: &mut Preset, target: NumberTarget, delta: i32)
    requires
        i32::MIN <= as_signed(number_of(*old(preset), target)) + delta <= i32::MAX,
    ensures
        *final(preset) == with_number(*old(preset), target,
            stepped(number_of(*old(preset), target), delta, number_min(target))),
{
    let min = preset_min(target) as i64;
    let v = preset_number(preset, target);
    let signed: i64 = if v > 0x7fff_ffff { v as i64 - 0x1_0000_0000 } else { v as i64 };
    let t = signed + delta as i64;
    let value: u32 = if t < min { min as u32 } else if t > 999 { 999 } else { t as u32 };
    set_preset_number(preset, target, value);
}

/// The value of a numeric setting of the preset in use.
pub fn number_value(app: &App, target: NumberTarget) -> (r: u32)
    requires
        app.presets@.len() > 0,
    ensures
        r == number_of(app.current_preset(), target),
{
    preset_number(app.preset(), target)
}

/// Whether the pomodoro page's draft is in effect: on the pomodoro page with a draft open.
pub open spec fn in_draft_scope(rt: Runtime) -> bool {
    rt.view == ViewId::Pomodoro && rt.draft is Some
}

pub fn draft_scope(rt: &Runtime) -> (r: bool)
    ensures
        r == in_draft_scope(*rt),
{
    rt.view == ViewId::Pomodoro && rt.draft.is_some()
}

/// Starts an inline edit, dropping any edit the desktop widget had going.
pub fn begin_edit(rt: &mut Runtime, target: EditTarget, text: String, select_all: bool)
    ensures
        final(rt).edit == Some(EditState { id: old(rt).next_edit_id, target, text, select_all }),
        final(rt).next_edit_id == old(rt).next_edit_id.wrapping_add(1),
        !final(rt).widget_editing,
        *final(rt) == (Runtime {
            edit: final(rt).edit,
            next_edit_id: final(rt).next_edit_id,
            widget_editing: false,
            ..*old(rt)
        }),
{
    let id = rt.next_edit_id;
    rt.next_edit_id = rt.next_edit_id.wrapping_add(1);
    rt.widget_editing = false;
    rt.edit = Some(EditState::new(id, target, text, select_all));
}

/// Drops the inline edit without applying it.
pub fn cancel_edit(rt: &mut Runtime)
    ensures
        *final(rt) == (Runtime { edit: None, widget_editing: false, ..*old(rt) }),
{
    rt.edit = None;
    rt.widget_editing = false;
}

/// Whether `b` equals `a` but for its activities.
pub open spec fn same_but_activities(a: App, b: App) -> bool {
    &&& a.version == b.version
    &&& a.presets == b.presets
    &&& a.active_preset == b.active_preset
    &&& a.history == b.history
    &&& a.filter == b.filter
    &&& a.visual == b.visual
    &&& a.timer == b.timer
    &&& a.pomodoro == b.pomodoro
}

/// Whether list `b` is list `a` with `text` appended.
pub open spec fn appended(a: Seq<String>, b: Seq<String>, text: Seq<char>) -> bool {
    b.len() == a.len() + 1 && b.drop_last() == a && b.last()@ == text
}

/// Whether `b` is `a` with the numeric setting `target` of the preset in use set to `value`,
/// and applied again if the countdown is idle and has not started.
pub open spec fn number_set(a: App, target: NumberTarget, value: u32, now: u64, b: App) -> bool {
    let p1 = with_number(a.current_preset(), target, value);
    &&& b.presets@ == a.presets@.update(a.active_index(), p1)
    &&& crate::drops::same_but_presets_pomodoro(a, b)
    &&& (if a.pomodoro.status == RunStatus::Idle && pomo_remaining(a.pomodoro, now) == a.pomodoro.total_ms {
        rests_at(p1, a.pomodoro.stage, a.pomodoro.cycle as int, a.pomodoro.activity@, b.pomodoro)
            && b.pomodoro.auto_start_at is None
    } else {
        b.pomodoro == a.pomodoro
    })
}

/// The result of adding activity `text` (already trimmed): refused with a notice when empty or
/// already listed, appended with a notice otherwise.
pub open spec fn activity_added(a0: App, fx0: Seq<Effect>, text: Seq<char>, a1: App, fx1: Seq<Effect>) -> bool {
    if text.len() == 0 {
        a1 == a0 && toasted(fx0, fx1, "请输入事件名称"@)
    } else if listed(a0.activities@, text) {
        a1 == a0 && toasted(fx0, fx1, "该事件已存在"@)
    } else {
        &&& same_but_activities(a0, a1)
        &&& appended(a0.activities@, a1.activities@, text)
        &&& toasted(fx0, fx1, "已添加「"@ + text + "」"@)
    }
}

/// The result of naming the countdown's (or the timer's) activity `text`: nothing when empty;
/// otherwise the name is added to the list (with a notice) if new, and becomes the activity.
pub open spec fn activity_named(a0: App, fx0: Seq<Effect>, pomodoro: bool, text: Seq<char>, a1: App, fx1: Seq<Effect>) -> bool {
    if text.len() == 0 {
        a1 == a0 && fx1 == fx0
    } else {
        &&& a1.version == a0.version
        &&& a1.presets == a0.presets
        &&& a1.active_preset == a0.active_preset
        &&& a1.history == a0.history
        &&& a1.filter == a0.filter
        &&& a1.visual == a0.visual
        &&& (if listed(a0.activities@, text) {
            a1.activities == a0.activities && fx1 == fx0
        } else {
            appended(a0.activities@, a1.activities@, text)
                && toasted(fx0, fx1, "已添加活动「"@ + text + "」"@)
        })
        &&& (if pomodoro {
            a1.timer == a0.timer
                && a1.pomodoro == (crate::model::PomodoroState { activity: a1.pomodoro.activity, ..a0.pomodoro })
                && a1.pomodoro.activity@ == text
        } else {
            a1.pomodoro == a0.pomodoro
                && a1.timer == (crate::model::TimerState { activity: a1.timer.activity, ..a0.timer })
                && a1.timer.activity@ == text
        })
    }
}

/// The result of naming the preset `text`: nothing when empty; the draft's preset when a
/// draft is open; the preset in use otherwise.
pub open spec fn preset_named(a0: App, r0: Runtime, text: Seq<char>, a1: App, r1: Runtime) -> bool {
    if text.len() == 0 {
        a1 == a0 && r1 == r0
    } else if r0.draft is Some {
        &&& a1 == a0
        &&& r1 == (Runtime { draft: r1.draft, ..r0 })
        &&& r1.draft is Some
        &&& r1.draft->0 == (PresetDraft {
            preset: Preset { name: r1.draft->0.preset.name, ..r0.draft->0.preset },
            ..r0.draft->0
        })
        &&& r1.draft->0.preset.name@ == text
    } else {
        &&& r1 == r0
        &&& crate::app::same_but_presets(a0, a1)
        &&& a1.presets@ == a0.presets@.update(a0.active_index(),
            Preset { name: a1.presets@[a0.active_index()].name, ..a0.current_preset() })
        &&& a1.presets@[a0.active_index()].name@ == text
    }
}

/// The result of naming custom theme `index` `text`: renamed if there is such a theme.
pub open spec fn theme_named(a0: App, index: usize, text: Seq<char>, a1: App) -> bool {
    if index < a0.visual.custom_themes@.len() {
        &&& a1 == App { visual: a1.visual, ..a0 }
        &&& a1.visual == crate::app::Visual { custom_themes: a1.visual.custom_themes, ..a0.visual }
        &&& a1.visual.custom_themes@ == a0.visual.custom_themes@.update(index as int,
            ThemeColors { name: a1.visual.custom_themes@[index as int].name, ..a0.visual.custom_themes@[index as int] })
        &&& a1.visual.custom_themes@[index as int].name@ == text
    } else {
        a1 == a0
    }
}

/// The result of entering `text` for numeric setting `target`: nothing unless it reads as a
/// number; that number, kept between the smallest value and 999, goes into the draft when one
/// is open, and into the preset in use otherwise (see `number_set`).
pub open spec fn number_entered(a0: App, r0: Runtime, target: NumberTarget, text: Seq<char>, now: u64, a1: App, r1: Runtime) -> bool {
    match parsed_u32(text) {
        None => a1 == a0 && r1 == r0,
        Some(v) => {
            let value = if v < number_min(target) {
                number_min(target)
            } else if v > 999 {
                999
            } else {
                v
            };
            if r0.draft is Some {
                &&& a1 == a0
                &&& r1 == (Runtime { draft: r1.draft, ..r0 })
                &&& r1.draft == Some(PresetDraft {
                    preset: with_number(r0.draft->0.preset, target, value),
                    ..r0.draft->0
                })
            } else {
                r1 == r0 && number_set(a0, target, value, now, a1)
            }
        },
    }
}

/// Whether committing the inline edit of `r0` at `now` takes `a0`, `r0`, `fx0` to `a1`, `r1`,
/// `fx1`. The edit ends either way, and its text counts without its surrounding white space
/// (see `activity_added`, `activity_named`, `preset_named`, `theme_named`, `number_entered`).
pub open spec fn committed(a0: App, r0: Runtime, fx0: Seq<Effect>, now: u64, a1: App, r1: Runtime, fx1: Seq<Effect>) -> bool {
    match r0.edit {
        None => a1 == a0 && r1 == (Runtime { widget_editing: false, ..r0 }) && fx1 == fx0,
        Some(e) => {
            let text = trimmed(e.text@);
            let base = Runtime { widget_editing: false, edit: None, ..r0 };
            match e.target {
                EditTarget::ActivityAdd => r1 == base && activity_added(a0, fx0, text, a1, fx1),
                EditTarget::ActivityName(pomodoro) => r1 == base && activity_named(a0, fx0, pomodoro, text, a1, fx1),
                EditTarget::PresetName => fx1 == fx0 && preset_named(a0, base, text, a1, r1),
                EditTarget::ThemeName(index) => fx1 == fx0 && r1 == base && theme_named(a0, index, text, a1),
                EditTarget::Number(target) => fx1 == fx0 && number_entered(a0, base, target, text, now, a1, r1),
            }
        },
    }
}

} // verus!

verus! {

fn commit_activity_add(app: &mut App, text: String, fx: &mut Effects)
    ensures
        activity_added(*old(app), old(fx).items@, text@, *final(app), final(fx).items@),
{
    if text.as_str().unicode_len() == 0 {
        fx.toast(String::from_str("请输入事件名称"));
    } else if contains_str(&app.activities, text.as_str()) {
        fx.toast(String::from_str("该事件已存在"));
    } else {
        let message = concat3("已添加「", text.as_str(), "」");
        let ghost before = app.activities@;
        app.activities.push(text);
        assert(app.activities@.drop_last() =~= before);
        fx.toast(message);
    }
}

fn commit_activity_name(app: &mut App, pomodoro: bool, text: String, fx: &mut Effects)
    ensures
        activity_named(*old(app), old(fx).items@, pomodoro, text@, *final(app), final(fx).items@),
{
    if text.as_str().unicode_len() == 0 {
        return;
    }
    if !contains_str(&app.activities, text.as_str()) {
        let message = concat3("已添加活动「", text.as_str(), "」");
        let ghost before = app.activities@;
        app.activities.push(text.clone());
        assert(app.activities@.drop_last() =~= before);
        fx.toast(message);
    }
    if pomodoro {
        app.pomodoro.activity = text;
    } else {
        app.timer.activity = text;
    }
}

fn commit_preset_name(app: &mut App, rt: &mut Runtime, text: String)
    requires
        old(app).presets@.len() > 0,
    ensures
        preset_named(*old(app), *old(rt), text@, *final(app), *final(rt)),
{
    if text.as_str().unicode_len() > 0 {
        if let Some(draft) = rt.draft.as_mut() {
            draft.preset.name = text;
        } else {
            app.preset_mut().name = text;
        }
    }
}

fn commit_theme_name(app: &mut App, index: usize, text: String)
    ensures
        theme_named(*old(app), index, text@, *final(app)),
{
    if index < app.visual.custom_themes.len() {
        let mut theme = app.visual.custom_themes[index].clone();
        theme.name = text;
        app.visual.custom_themes.set(index, theme);
    }
}

fn commit_number(app: &mut App, rt: &mut Runtime, target: NumberTarget, text: &String, now: u64)
    requires
        old(app).presets@.len() > 0,
    ensures
        number_entered(*old(app), *old(rt), target, text@, now, *final(app), *final(rt)),
{
    if let Some(v) = parse_u32(text.as_str()) {
        let min = preset_min(target);
        let value = if v < min {
            min
        } else if v > 999 {
            999
        } else {
            v
        };
        if let Some(draft) = rt.draft.as_mut() {
            set_preset_number(&mut draft.preset, target, value);
        } else {
            set_preset_number(app.preset_mut(), target, value);
            app.refresh_preset_if_idle(now);
        }
    }
}

/// Applies the inline edit in progress and ends it (see `committed`).
pub fn commit_edit(app: &mut App, rt: &mut Runtime, fx: &mut Effects, now: u64)
    requires
        old(app).presets@.len() > 0,
    ensures
        committed(*old(app), *old(rt), old(fx).items@, now, *final(app), *final(rt), final(fx).items@),
{
    rt.widget_editing = false;
    let edit = match rt.edit.take() {
        Some(edit) => edit,
        None => return,
    };
    let text = trim(edit.text.as_str());
    match edit.target {
        EditTarget::ActivityAdd => commit_activity_add(app, text, fx),
        EditTarget::ActivityName(pomodoro) => commit_activity_name(app, pomodoro, text, fx),
        EditTarget::PresetName => commit_preset_name(app, rt, text),
        EditTarget::ThemeName(index) => commit_theme_name(app, index, text),
        EditTarget::Number(target) => commit_number(app, rt, target, &text, now),
    }
}

} // verus!

verus! {

/// Closes an open drop-down, or else commits an inline edit, or else closes the calendar.
pub fn click_away(app: &mut App, rt: &mut Runtime, fx: &mut Effects, now: u64)
    requires
        old(app).presets@.len() > 0,
    ensures
        old(rt).open_drop is Some ==> *final(app) == *old(app) && final(fx).items@ == old(fx).items@
            && *final(rt) == (Runtime { open_drop: None, ..*old(rt) }),
        old(rt).open_drop is None && old(rt).edit is Some ==> committed(*old(app), *old(rt),
            old(fx).items@, now, *final(app), *final(rt), final(fx).items@),
        old(rt).open_drop is None && old(rt).edit is None ==> *final(app) == *old(app)
            && final(fx).items@ == old(fx).items@
            && *final(rt) == (Runtime { calendar_open: false, ..*old(rt) }),
{
    if rt.open_drop.is_some() {
        rt.open_drop = None;
    } else if rt.edit.is_some() {
        commit_edit(app, rt, fx, now);
    } else if rt.calendar_open {
        rt.calendar_open = false;
    }
}

/// Takes a custom sound file: the end sound of the draft (in draft scope) or of the preset in
/// use becomes the custom sound, whose file is `path`.
pub fn apply_sound_path(app: &mut App, rt: &mut Runtime, path: String)
    requires
        old(app).presets@.len() > 0,
    ensures
        final(app).visual == (crate::app::Visual { sound_path: path, ..old(app).visual }),
        in_draft_scope(*old(rt)) ==> final(app).presets == old(app).presets
            && *final(rt) == (Runtime { draft: final(rt).draft, ..*old(rt) })
            && final(rt).draft == Some(PresetDraft {
                preset: Preset { end_sound: SoundKind::Custom, ..old(rt).draft->0.preset },
                ..old(rt).draft->0
            }),
        !in_draft_scope(*old(rt)) ==> *final(rt) == *old(rt)
            && final(app).presets@ == old(app).presets@.update(old(app).active_index(),
                Preset { end_sound: SoundKind::Custom, ..old(app).current_preset() }),
        *final(app) == (App { presets: final(app).presets, visual: final(app).visual, ..*old(app) }),
{
    if draft_scope(rt) {
        if let Some(draft) = rt.draft.as_mut() {
            draft.preset.end_sound = SoundKind::Custom;
        }
    } else {
        app.preset_mut().end_sound = SoundKind::Custom;
    }
    app.visual.sound_path = path;
}

/// Stores a picked colour (as `#rrggbb` text) in a field of a custom or saved theme, if that
/// theme exists.
pub fn apply_color(app: &mut App, target: ColorTarget, hex: String)
    ensures
        match target {
            ColorTarget::Custom(index, field) => if index < old(app).visual.custom_themes@.len() {
                &&& *final(app) == (App { visual: final(app).visual, ..*old(app) })
                &&& final(app).visual == (crate::app::Visual { custom_themes: final(app).visual.custom_themes, ..old(app).visual })
                &&& final(app).visual.custom_themes@.len() == old(app).visual.custom_themes@.len()
                &&& forall|j: int| 0 <= j < old(app).visual.custom_themes@.len() && j != index
                    ==> final(app).visual.custom_themes@[j] == old(app).visual.custom_themes@[j]
                &&& final(app).visual.custom_themes@[index as int]@ == theme_with_field(
                    old(app).visual.custom_themes@[index as int]@, field as int, hex@)
            } else {
                *final(app) == *old(app)
            },
            ColorTarget::Saved(index, field) => if index < old(app).visual.saved_presets@.len() {
                &&& *final(app) == (App { visual: final(app).visual, ..*old(app) })
                &&& final(app).visual == (crate::app::Visual { saved_presets: final(app).visual.saved_presets, ..old(app).visual })
                &&& final(app).visual.saved_presets@.len() == old(app).visual.saved_presets@.len()
                &&& forall|j: int| 0 <= j < old(app).visual.saved_presets@.len() && j != index
                    ==> final(app).visual.saved_presets@[j] == old(app).visual.saved_presets@[j]
                &&& final(app).visual.saved_presets@[index as int]@ == theme_with_field(
                    old(app).visual.saved_presets@[index as int]@, field as int, hex@)
            } else {
                *final(app) == *old(app)
            },
        },
{
    match target {
        ColorTarget::Custom(index, field) => {
            if index < app.visual.custom_themes.len() {
                let mut theme = app.visual.custom_themes[index].clone();
                theme.set_field(field, hex);
                app.visual.custom_themes.set(index, theme);
            }
        },
        ColorTarget::Saved(index, field) => {
            if index < app.visual.saved_presets.len() {
                let mut theme = app.visual.saved_presets[index].clone();
                theme.set_field(field, hex);
                app.visual.saved_presets.set(index, theme);
            }
        },
    }
}

/// The colour text a colour picker for `target` starts from: that field of the theme, or
/// nothing when the theme does not exist (the picker then starts from a default colour).
pub fn current_color_text(app: &App, target: ColorTarget) -> (r: Option<&str>)
    ensures
        match target {
            ColorTarget::Custom(index, field) => if index < app.visual.custom_themes@.len() {
                r matches Some(t) && t@ == theme_field_of(app.visual.custom_themes@[index as int]@, field as int)
            } else {
                r is None
            },
            ColorTarget::Saved(index, field) => if index < app.visual.saved_presets@.len() {
                r matches Some(t) && t@ == theme_field_of(app.visual.saved_presets@[index as int]@, field as int)
            } else {
                r is None
            },
        },
{
    match target {
        ColorTarget::Custom(index, field) => {
            if index < app.visual.custom_themes.len() {
                Some(theme_field(&app.visual.custom_themes[index], field))
            } else {
                None
            }
        },
        ColorTarget::Saved(index, field) => {
            if index < app.visual.saved_presets.len() {
                Some(theme_field(&app.visual.saved_presets[index], field))
            } else {
                None
            }
        },
    }
}

/// A notice from the inline edit control that its text is now `text`: taken into the edit of
/// session `session` if that is the one going on (the text is then no longer all selected),
/// dropped otherwise.
pub fn edit_changed(rt: &mut Runtime, session: u64, text: String)
    ensures
        match old(rt).edit {
            Some(e) => if e.id == session {
                *final(rt) == (Runtime { edit: Some(EditState { text, select_all: false, ..e }), ..*old(rt) })
            } else {
                *final(rt) == *old(rt)
            },
            None => *final(rt) == *old(rt),
        },
{
    match rt.edit.take() {
        Some(mut e) => {
            if e.id == session {
                e.text = text;
                e.select_all = false;
            }
            rt.edit = Some(e);
        },
        None => {},
    }
}

/// Whether `r` has an inline edit going on under session number `session`.
pub open spec fn edit_session_is(r: Runtime, session: u64) -> bool {
    r.edit matches Some(e) && e.id == session
}

/// Enter or a lost focus in the inline edit control: commits the edit of session `session` if
/// that is the one going on (see `committed`), and does nothing otherwise.
pub fn edit_confirmed(app: &mut App, rt: &mut Runtime, session: u64, fx: &mut Effects, now: u64)
    requires
        old(app).presets@.len() > 0,
    ensures
        edit_session_is(*old(rt), session) ==> committed(*old(app), *old(rt), old(fx).items@, now,
            *final(app), *final(rt), final(fx).items@),
        !edit_session_is(*old(rt), session) ==> *final(app) == *old(app) && *final(rt) == *old(rt)
            && final(fx).items@ == old(fx).items@,
{
    let current = match &rt.edit {
        Some(e) => e.id == session,
        None => false,
    };
    if current {
        commit_edit(app, rt, fx, now);
    }
}

/// Escape in the inline edit control: drops the edit of session `session` if that is the one
/// going on, and does nothing otherwise.
pub fn edit_cancelled(rt: &mut Runtime, session: u64)
    ensures
        edit_session_is(*old(rt), session) ==> *final(rt) == (Runtime { edit: None, widget_editing: false, ..*old(rt) }),
        !edit_session_is(*old(rt), session) ==> *final(rt) == *old(rt),
{
    let current = match &rt.edit {
        Some(e) => e.id == session,
        None => false,
    };
    if current {
        cancel_edit(rt);
    }
}

/// What a window does with the inline edit control when it has drawn itself.
#[derive(Clone, Copy, PartialEq, Eq, Debug, Structural)]
pub enum EditSync {
    /// Put the control over the edit box (the edit is this window's).
    Place,
    /// Take the control away (no edit is going on).
    End,
    /// Leave the control alone (the other window's edit is going on).
    Skip,
}

/// What the main window (`for_widget` false) or the desktop widget (`for_widget` true) does
/// with the inline edit control: the edit belongs to the widget exactly when the widget started
/// it.
pub fn edit_sync(rt: &Runtime, for_widget: bool) -> (r: EditSync)
    ensures
        rt.edit is None ==> r == EditSync::End,
        rt.edit is Some ==> r == if rt.widget_editing == for_widget { EditSync::Place } else { EditSync::Skip },
{
    if rt.edit.is_none() {
        EditSync::End
    } else if rt.widget_editing == for_widget {
        EditSync::Place
    } else {
        EditSync::Skip
    }
}

} // verus!
