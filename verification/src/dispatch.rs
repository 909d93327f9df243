use vstd::prelude::*;

use crate::action::{Action, ViewId};
use crate::actions::{commit_edit, committed};
use crate::app::{applied, pomo_skipped, rests_at, same_but_pomodoro, timer_skipped, toasted, App};
use crate::clock::LocalTime;
use crate::model::{
    HistoryItem,
    pomo_toggled, timer_elapsed, timer_toggled, Effect, Effects, PomodoroState, RunStatus, TimerState,
};
use crate::color::ThemeColors;
use crate::runtime::Runtime;

verus! {

/// Work that an action leaves for the host, which owns the windows, the sound device and
/// the settings store.
#[derive(Clone, Copy, PartialEq, Eq, Debug, Structural)]
pub struct HostWork {
    /// Read the system's dark-mode setting again and refresh the theme with it.
    pub refresh_theme: bool,
    /// Match the main window's caption to the dark mode.
    pub dark_caption: bool,
    /// Save the state now.
    pub save: bool,
    /// Stop the end-of-stage sound.
    pub stop_sound: bool,
    /// Bring the main window to the front.
    pub show_main: bool,
    /// Place the drop-down that just opened at the clicked spot.
    pub anchor_drop: bool,
    /// Place the calendar that just opened at the clicked spot.
    pub anchor_calendar: bool,
    /// Make sure the page just shown has a scroll position.
    pub scroll_view: bool,
}

/// No work for the host.
pub open spec fn no_work() -> HostWork {
    HostWork {
        refresh_theme: false,
        dark_caption: false,
        save: false,
        stop_sound: false,
        show_main: false,
        anchor_drop: false,
        anchor_calendar: false,
        scroll_view: false,
    }
}

pub fn idle_work() -> (r: HostWork)
    ensures
        r == no_work(),
{
    HostWork {
        refresh_theme: false,
        dark_caption: false,
        save: false,
        stop_sound: false,
        show_main: false,
        anchor_drop: false,
        anchor_calendar: false,
        scroll_view: false,
    }
}

/// The notice shown when a mode or stage change is asked for while counting.
pub open spec fn busy_text() -> Seq<char> {
    "请先结束或重置当前计时"@
}

/// Whether the timer and countdown actions are safe to carry out on `a` at `now`: the
/// preset list is not empty, the clock reading leaves room to count on,
/// the record ids leave room for one more, and the timers' readings fit in 64 bits.
pub open spec fn timing_room(a: App, now: u64) -> bool {
    &&& a.presets@.len() > 0
    &&& now + 60_000_000 <= u64::MAX
    &&& crate::app::max_id(a.history@) < u64::MAX
    &&& timer_elapsed(a.timer, now) <= u64::MAX
    &&& now + (if a.pomodoro.remaining_ms == 0 { a.pomodoro.total_ms } else { a.pomodoro.remaining_ms }) <= u64::MAX
}

/// What committing an inline edit leaves alone: the preset count, the record ids, the
/// timer's counting, and (up to a re-applied preset) the countdown.
pub proof fn lemma_committed_keeps(a0: App, r0: Runtime, fx0: Seq<Effect>, now: u64, a1: App, r1: Runtime, fx1: Seq<Effect>)
    requires
        committed(a0, r0, fx0, now, a1, r1, fx1),
        a0.presets@.len() > 0,
    ensures
        a1.presets@.len() == a0.presets@.len(),
        a1.history == a0.history,
        a1.timer.status == a0.timer.status,
        a1.timer.accumulated_ms == a0.timer.accumulated_ms,
        a1.timer.started_at == a0.timer.started_at,
        a1.pomodoro.status == a0.pomodoro.status || a1.pomodoro.status == RunStatus::Idle,
        a1.pomodoro.remaining_ms == a0.pomodoro.remaining_ms || a1.pomodoro.remaining_ms <= 59_940_000,
        a1.pomodoro.total_ms == a0.pomodoro.total_ms || a1.pomodoro.total_ms <= 59_940_000,
{
}

/// What the timer and countdown actions do: changing the timer's mode or the countdown's stage
/// is refused with a notice while it is not idle; toggling, skipping and resetting first commit
/// any inline edit where the interface does so (see `committed`); applying the draft puts the
/// draft's preset in its place, chooses it and applies it.
pub open spec fn timing_done(a0: App, r0: Runtime, fx0: Seq<Effect>, action: Action, now: u64, clock: LocalTime, a1: App, r1: Runtime, fx1: Seq<Effect>) -> bool {
    match action {
        Action::TimerMode(kind) => r1 == r0 && if a0.timer.status != RunStatus::Idle {
            a1 == a0 && toasted(fx0, fx1, busy_text())
        } else {
            a1 == (App { timer: TimerState { mode: kind, ..a0.timer }, ..a0 }) && fx1 == fx0
        },
        Action::TimerToggle => exists|am: App, rm: Runtime, fm: Seq<Effect>|
            #[trigger] committed(a0, r0, fx0, now, am, rm, fm) && r1 == rm && fx1 == fm
                && a1 == (App { timer: a1.timer, ..am }) && timer_toggled(am.timer, a1.timer, now),
        Action::TimerSkip => exists|am: App, rm: Runtime, fm: Seq<Effect>|
            #[trigger] committed(a0, r0, fx0, now, am, rm, fm) && r1 == rm
                && timer_skipped(am, fm, now, clock, a1, fx1),
        Action::TimerReset => r1 == r0 && fx1 == fx0 && a1 == (App {
            timer: TimerState { accumulated_ms: 0, started_at: None, status: RunStatus::Idle, ..a0.timer },
            ..a0
        }),
        Action::PomoStage(stage) => r1 == r0 && if a0.pomodoro.status != RunStatus::Idle {
            a1 == a0 && toasted(fx0, fx1, busy_text())
        } else {
            fx1 == fx0 && applied(App { pomodoro: PomodoroState { stage, ..a0.pomodoro }, ..a0 }, a1)
        },
        Action::PomoToggle => exists|am: App, rm: Runtime, fm: Seq<Effect>|
            #[trigger] committed(a0, r0, fx0, now, am, rm, fm) && r1 == rm && fx1 == fm
                && same_but_pomodoro(am, a1)
                && pomo_toggled(PomodoroState { auto_start_at: None, ..am.pomodoro }, a1.pomodoro, now),
        Action::PomoSkip => exists|am: App, rm: Runtime, fm: Seq<Effect>|
            #[trigger] committed(a0, r0, fx0, now, am, rm, fm) && r1 == rm
                && pomo_skipped(am, fm, now, clock, a1, fx1),
        Action::PomoReset => r1 == r0 && fx1 == fx0 && applied(a0, a1),
        Action::PresetApply => match r0.draft {
            None => a1 == a0 && r1 == r0 && fx1 == fx0,
            Some(d) => {
                &&& r1 == (Runtime { draft: None, ..r0 })
                &&& if d.index < a0.presets@.len() {
                    &&& a1.presets@ == a0.presets@.update(d.index as int, d.preset)
                    &&& a1.active_preset == d.index
                    &&& crate::drops::same_but_presets_pomodoro(App { active_preset: d.index, ..a0 }, a1)
                    &&& rests_at(d.preset, a0.pomodoro.stage, a0.pomodoro.cycle as int, a0.pomodoro.activity@, a1.pomodoro)
                    &&& a1.pomodoro.auto_start_at is None
                    &&& toasted(fx0, fx1, "已应用到番茄钟"@)
                } else {
                    a1 == a0 && fx1 == fx0
                }
            },
        },
        _ => false,
    }
}

/// Carries out a timer or countdown action (see `timing_done`).
fn apply_timing(app: &mut App, rt: &mut Runtime, action: Action, now: u64, clock: &LocalTime, fx: &mut Effects)
    requires
        timing_room(*old(app), now),
        action is TimerMode || action is TimerToggle || action is TimerSkip || action is TimerReset
            || action is PomoStage || action is PomoToggle || action is PomoSkip || action is PomoReset
            || action is PresetApply,
    ensures
        timing_done(*old(app), *old(rt), old(fx).items@, action, now, *clock, *final(app), *final(rt), final(fx).items@),
{
    match action {
        Action::TimerMode(kind) => {
            if app.timer.status != RunStatus::Idle {
                fx.toast(String::from_str("请先结束或重置当前计时"));
            } else {
                app.timer.mode = kind;
            }
        },
        Action::TimerToggle => {
            commit_edit(app, rt, fx, now);
            let ghost (am, rm, fm) = (*app, *rt, fx.items@);
            proof {
                lemma_committed_keeps(*old(app), *old(rt), old(fx).items@, now, am, rm, fm);
            }
            app.timer.toggle(now);
            assert(committed(*old(app), *old(rt), old(fx).items@, now, am, rm, fm));
        },
        Action::TimerSkip => {
            commit_edit(app, rt, fx, now);
            let ghost (am, rm, fm) = (*app, *rt, fx.items@);
            proof {
                lemma_committed_keeps(*old(app), *old(rt), old(fx).items@, now, am, rm, fm);
            }
            app.timer_skip(now, clock, fx);
            assert(committed(*old(app), *old(rt), old(fx).items@, now, am, rm, fm));
        },
        Action::TimerReset => {
            app.timer.reset();
        },
        Action::PomoStage(stage) => {
            if app.pomodoro.status != RunStatus::Idle {
                fx.toast(String::from_str("请先结束或重置当前计时"));
            } else {
                app.pomodoro.stage = stage;
                app.apply_preset();
            }
        },
        Action::PomoToggle => {
            commit_edit(app, rt, fx, now);
            let ghost (am, rm, fm) = (*app, *rt, fx.items@);
            proof {
                lemma_committed_keeps(*old(app), *old(rt), old(fx).items@, now, am, rm, fm);
            }
            app.pomodoro.auto_start_at = None;
            app.pomodoro.toggle(now);
            assert(committed(*old(app), *old(rt), old(fx).items@, now, am, rm, fm));
        },
        Action::PomoSkip => {
            commit_edit(app, rt, fx, now);
            let ghost (am, rm, fm) = (*app, *rt, fx.items@);
            proof {
                lemma_committed_keeps(*old(app), *old(rt), old(fx).items@, now, am, rm, fm);
            }
            app.skip_pomodoro(now, clock, fx);
            assert(committed(*old(app), *old(rt), old(fx).items@, now, am, rm, fm));
        },
        Action::PomoReset => {
            app.pomodoro_reset();
        },
        _ => {
            if let Some(draft) = rt.draft.take() {
                if draft.index < app.presets.len() {
                    app.active_preset = draft.index;
                    app.presets.set(draft.index, draft.preset);
                    app.apply_preset();
                    fx.toast(String::from_str("已应用到番茄钟"));
                }
            }
        },
    }
}

} // verus!

verus! {

/// Whether `r1` is `r0` with a new inline edit of `target` started on `text` (see
/// `begin_edit`).
pub open spec fn began(r0: Runtime, r1: Runtime, target: crate::action::EditTarget, text: Seq<char>, select_all: bool) -> bool {
    &&& r1 == (Runtime { edit: r1.edit, next_edit_id: r1.next_edit_id, widget_editing: false, ..r0 })
    &&& r1.edit is Some
    &&& r1.edit->0.id == r0.next_edit_id
    &&& r1.edit->0.target == target
    &&& r1.edit->0.text@ == text
    &&& r1.edit->0.select_all == select_all
    &&& r1.next_edit_id == r0.next_edit_id.wrapping_add(1)
}

/// `p` with every stage event equal to `removed` replaced by `fallback`.
pub open spec fn replace_event(p: crate::model::Preset, removed: Seq<char>, fallback: String) -> crate::model::Preset {
    crate::model::Preset {
        focus_event: if p.focus_event@ == removed { fallback } else { p.focus_event },
        short_rest_event: if p.short_rest_event@ == removed { fallback } else { p.short_rest_event },
        long_rest_event: if p.long_rest_event@ == removed { fallback } else { p.long_rest_event },
        ..p
    }
}

/// `b` is `a` with activity `index` removed and every preset event that named it naming the
/// first remaining activity instead.
pub open spec fn activity_removed(a: App, index: int, b: App) -> bool {
    let removed = a.activities@[index];
    &&& b.activities@ == a.activities@.remove(index)
    &&& b.presets@.len() == a.presets@.len()
    &&& forall|i: int| 0 <= i < a.presets@.len() ==> #[trigger] b.presets@[i] == replace_event(a.presets@[i], removed@, b.activities@[0])
    &&& b == (App { presets: b.presets, activities: b.activities, ..a })
}

/// Whether the preset actions are safe to carry out on `a` and `r` at `now`.
pub open spec fn preset_room(a: App, r: Runtime, action: Action, now: u64) -> bool {
    &&& a.presets@.len() > 0
    &&& a.presets@.len() < usize::MAX
    &&& (action matches Action::NumberStep(target, delta) ==> {
        let p = if crate::actions::in_draft_scope(r) { r.draft->0.preset } else { a.current_preset() };
        i32::MIN <= crate::actions::as_signed(crate::actions::number_of(p, target)) + delta <= i32::MAX
    })
}

/// What the preset and activity-list actions do: stepping a number changes the draft (in draft
/// scope) or the preset in use, applying it again when the countdown is idle and has not
/// started; editing a number or a name starts an inline edit; a new preset is added, chosen,
/// applied and named; saving asks the host to save; deleting removes the preset in use (not
/// the last one) and applies the next; a sound upload opens a file dialog; switches flip the
/// preset's automatic starts and sound looping; deleting an activity (not the last one)
/// re-points the presets' events that named it to the first remaining activity, puts the state
/// in order and applies the preset.
pub open spec fn preset_done(a0: App, r0: Runtime, fx0: Seq<Effect>, action: Action, now: u64, a1: App, r1: Runtime, fx1: Seq<Effect>, w: HostWork) -> bool {
    match action {
        Action::NumberStep(target, delta) => fx1 == fx0 && w == no_work() && if crate::actions::in_draft_scope(r0) {
            &&& a1 == a0
            &&& r1 == (Runtime { draft: r1.draft, ..r0 })
            &&& r1.draft == Some(crate::runtime::PresetDraft {
                preset: crate::actions::with_number(r0.draft->0.preset, target,
                    crate::actions::stepped(crate::actions::number_of(r0.draft->0.preset, target), delta, crate::actions::number_min(target))),
                ..r0.draft->0
            })
        } else {
            r1 == r0 && crate::actions::number_set(a0, target,
                crate::actions::stepped(crate::actions::number_of(a0.current_preset(), target), delta, crate::actions::number_min(target)),
                now, a1)
        },
        Action::NumberEdit(target) => {
            let value = match r0.draft {
                Some(d) => crate::actions::number_of(d.preset, target),
                None => crate::actions::number_of(a0.current_preset(), target),
            };
            a1 == a0 && fx1 == fx0 && w == no_work()
                && began(r0, r1, crate::action::EditTarget::Number(target), crate::text::decimal(value as nat), true)
        },
        Action::PresetNew => exists|am: App| {
            &&& #[trigger] applied(am, a1)
            &&& am.presets@.len() == a0.presets@.len() + 1
            &&& am.presets@.drop_last() == a0.presets@
            &&& crate::model::is_default_preset_body(am.presets@.last())
            &&& am.presets@.last().name@ == "新方案"@
            &&& am == (App { presets: am.presets, active_preset: a0.presets@.len() as usize, ..a0 })
            &&& began(r0, Runtime { open_drop: r0.open_drop, ..r1 }, crate::action::EditTarget::PresetName, "新方案"@, true)
            &&& r1.open_drop is None
            &&& toasted(fx0, fx1, "已新建方案"@)
            &&& w == no_work()
        },
        Action::PresetNameEdit => a1 == a0 && fx1 == fx0 && w == no_work() && r1.open_drop is None
            && began(r0, Runtime { open_drop: r0.open_drop, ..r1 }, crate::action::EditTarget::PresetName,
                a0.current_preset().name@, true),
        Action::PresetSave => a1 == a0 && r1 == r0 && w == (HostWork { save: true, ..no_work() })
            && toasted(fx0, fx1, "已保存「"@ + a0.current_preset().name@ + "」"@),
        Action::PresetDelete => r1 == r0 && w == no_work() && exists|am: App, fm: Seq<Effect>|
            #[trigger] crate::app::preset_deleted(a0, fx0, am, fm) && fx1 == fm && applied(am, a1),
        Action::UploadSound => a1 == a0 && fx1 == fx0 && w == no_work()
            && r1 == (Runtime { pending: Some(crate::runtime::PendingDialog::SoundFile), ..r0 }),
        Action::PresetSwitch(field) => r1 == r0 && fx1 == fx0 && w == no_work() && {
            let p = a0.current_preset();
            let q = match field {
                crate::model::PresetField::AutoFocus => crate::model::Preset { auto_focus: !p.auto_focus, ..p },
                crate::model::PresetField::AutoRest => crate::model::Preset { auto_rest: !p.auto_rest, ..p },
                crate::model::PresetField::SoundLoop => crate::model::Preset { sound_loop: !p.sound_loop, ..p },
                _ => p,
            };
            a1.presets@ == a0.presets@.update(a0.active_index(), q) && crate::app::same_but_presets(a0, a1)
        },
        Action::ActivityDelete(index) => r1 == r0 && w == no_work() && if a0.activities@.len() <= 1 {
            a1 == a0 && toasted(fx0, fx1, "至少保留一个事件"@)
        } else if index < a0.activities@.len() {
            fx1 == fx0 && exists|am: App, an: App| #[trigger] activity_removed(a0, index as int, am)
                && #[trigger] crate::app::normalized_from(am, an) && applied(an, a1)
        } else {
            a1 == a0 && fx1 == fx0
        },
        _ => false,
    }
}

} // verus!

verus! {

fn remove_activity(app: &mut App, index: usize)
    requires
        old(app).activities@.len() > 1,
        index < old(app).activities@.len(),
    ensures
        activity_removed(*old(app), index as int, *final(app)),
{
    let removed = app.activities.remove(index);
    let fallback = app.activities[0].clone();
    let ghost a0 = *old(app);
    let mut i: usize = 0;
    while i < app.presets.len()
        invariant
            i <= app.presets@.len(),
            app.presets@.len() == a0.presets@.len(),
            app.activities@ == a0.activities@.remove(index as int),
            app.activities@.len() > 0,
            fallback == app.activities@[0],
            removed == a0.activities@[index as int],
            forall|j: int| 0 <= j < i ==> #[trigger] app.presets@[j] == replace_event(a0.presets@[j], removed@, fallback),
            forall|j: int| i <= j < app.presets@.len() ==> #[trigger] app.presets@[j] == a0.presets@[j],
            *app == (App { presets: app.presets, activities: app.activities, ..a0 }),
        decreases app.presets@.len() - i,
    {
        let mut p = app.presets[i].clone();
        if p.focus_event == removed {
            p.focus_event = fallback.clone();
        }
        if p.short_rest_event == removed {
            p.short_rest_event = fallback.clone();
        }
        if p.long_rest_event == removed {
            p.long_rest_event = fallback.clone();
        }
        app.presets.set(i, p);
        i = i + 1;
    }
}

/// Carries out a preset or activity-list action (see `preset_done`).
fn apply_preset_action(app: &mut App, rt: &mut Runtime, action: Action, now: u64, fx: &mut Effects) -> (w: HostWork)
    requires
        preset_room(*old(app), *old(rt), action, now),
        action is NumberStep || action is NumberEdit || action is PresetNew || action is PresetNameEdit
            || action is PresetSave || action is PresetDelete || action is UploadSound
            || action is PresetSwitch || action is ActivityDelete,
    ensures
        preset_done(*old(app), *old(rt), old(fx).items@, action, now, *final(app), *final(rt), final(fx).items@, w),
{
    let mut w = idle_work();
    match action {
        Action::NumberStep(target, delta) => {
            if crate::actions::draft_scope(rt) {
                if let Some(draft) = rt.draft.as_mut() {
                    crate::actions::step_preset(&mut draft.preset, target, delta);
                }
            } else {
                crate::actions::step_preset(app.preset_mut(), target, delta);
                app.refresh_preset_if_idle(now);
            }
            assert(preset_done(*old(app), *old(rt), old(fx).items@, action, now, *app, *rt, fx.items@, w));
        },
        Action::NumberEdit(target) => {
            let value = match rt.draft_preset() {
                Some(draft) => crate::actions::preset_number(draft, target),
                None => crate::actions::number_value(app, target),
            };
            let text = crate::text::decimal_string(value as u64);
            crate::actions::begin_edit(rt, crate::action::EditTarget::Number(target), text, true);
            assert(preset_done(*old(app), *old(rt), old(fx).items@, action, now, *app, *rt, fx.items@, w));
        },
        Action::PresetNew => {
            app.add_preset();
            let text = app.preset().name.clone();
            crate::actions::begin_edit(rt, crate::action::EditTarget::PresetName, text, true);
            rt.open_drop = None;
            let ghost am = *app;
            app.apply_preset();
            fx.toast(String::from_str("已新建方案"));
            assert(applied(am, *app));
            assert(preset_done(*old(app), *old(rt), old(fx).items@, action, now, *app, *rt, fx.items@, w));
        },
        Action::PresetNameEdit => {
            let text = app.preset().name.clone();
            crate::actions::begin_edit(rt, crate::action::EditTarget::PresetName, text, true);
            rt.open_drop = None;
            assert(preset_done(*old(app), *old(rt), old(fx).items@, action, now, *app, *rt, fx.items@, w));
        },
        Action::PresetSave => {
            let message = crate::text::concat3("已保存「", app.preset().name.as_str(), "」");
            w.save = true;
            fx.toast(message);
            assert(preset_done(*old(app), *old(rt), old(fx).items@, action, now, *app, *rt, fx.items@, w));
        },
        Action::PresetDelete => {
            app.delete_preset(fx);
            let ghost (am, fm) = (*app, fx.items@);
            app.apply_preset();
            assert(crate::app::preset_deleted(*old(app), old(fx).items@, am, fm));
            assert(preset_done(*old(app), *old(rt), old(fx).items@, action, now, *app, *rt, fx.items@, w));
        },
        Action::UploadSound => {
            rt.pending = Some(crate::runtime::PendingDialog::SoundFile);
            assert(preset_done(*old(app), *old(rt), old(fx).items@, action, now, *app, *rt, fx.items@, w));
        },
        Action::PresetSwitch(field) => {
            let preset = app.preset_mut();
            match field {
                crate::model::PresetField::AutoFocus => preset.auto_focus = !preset.auto_focus,
                crate::model::PresetField::AutoRest => preset.auto_rest = !preset.auto_rest,
                crate::model::PresetField::SoundLoop => preset.sound_loop = !preset.sound_loop,
                _ => {},
            }
            assert(preset_done(*old(app), *old(rt), old(fx).items@, action, now, *app, *rt, fx.items@, w));
        },
        _ => {
            let index = match action {
                Action::ActivityDelete(index) => index,
                _ => 0,
            };
            if app.activities.len() <= 1 {
                fx.toast(String::from_str("至少保留一个事件"));
            } else if index < app.activities.len() {
                remove_activity(app, index);
                let ghost am = *app;
                app.normalize();
                let ghost an = *app;
                app.apply_preset();
                assert(activity_removed(*old(app), index as int, am));
                assert(crate::app::normalized_from(am, an));
            }
            assert(preset_done(*old(app), *old(rt), old(fx).items@, action, now, *app, *rt, fx.items@, w));
        },
    }
    w
}

} // verus!

verus! {

/// Whether `b` is `a` with only its display settings changed to `v`.
pub open spec fn visual_set(a: App, b: App, v: crate::app::Visual) -> bool {
    b == (App { visual: v, ..a })
}

/// Work that refreshes the theme.
pub open spec fn theme_work() -> HostWork {
    HostWork { refresh_theme: true, ..no_work() }
}

/// Work that refreshes the theme and the caption.
pub open spec fn dark_work() -> HostWork {
    HostWork { refresh_theme: true, dark_caption: true, ..no_work() }
}

/// The name a saved copy of theme name `name` gets: `name` (or `预设` if it is blank) followed by
/// ` 副本`.
pub open spec fn copy_name(name: Seq<char>) -> Seq<char> {
    (if crate::text::trimmed(name).len() == 0 { "预设"@ } else { name }) + " 副本"@
}

/// What the display and desktop-widget settings do. Choices and switches take effect at once;
/// choosing, deleting or saving a theme (and switching dark mode) asks the host to refresh the
/// theme; deleting a theme falls back to another one, or to built-in `A` when none is left; a
/// new custom theme is added and chosen; saving copies the theme in effect under a new name;
/// picking a colour and showing, removing or restyling the widget wait for the host; sliders are
/// handled by the host, which knows where the pointer is.
pub open spec fn visual_done(a0: App, r0: Runtime, fx0: Seq<Effect>, action: Action, a1: App, r1: Runtime, fx1: Seq<Effect>, w: HostWork) -> bool {
    let v = a0.visual;
    match action {
        Action::VisualMode(mode) => r1 == r0 && fx1 == fx0 && w == no_work()
            && visual_set(a0, a1, crate::app::Visual { mode, ..v }),
        Action::ToggleHideNumber => r1 == r0 && fx1 == fx0 && w == no_work()
            && visual_set(a0, a1, crate::app::Visual { hide_number: !v.hide_number, ..v }),
        Action::ToggleHideAllText => r1 == r0 && fx1 == fx0 && w == no_work()
            && visual_set(a0, a1, crate::app::Visual { hide_all_text: !v.hide_all_text, ..v }),
        Action::ToggleDarkMode => r1 == r0 && fx1 == fx0 && w == dark_work()
            && visual_set(a0, a1, crate::app::Visual { dark_mode: !v.dark_mode, follow_system: false, ..v }),
        Action::ToggleFollowSystem => r1 == r0 && fx1 == fx0 && w == dark_work()
            && visual_set(a0, a1, crate::app::Visual { follow_system: !v.follow_system, ..v }),
        Action::ThemeBuiltin(id) => r1 == r0 && fx1 == fx0 && w == theme_work()
            && visual_set(a0, a1, crate::app::Visual { theme: id, ..v }),
        Action::ThemeCustomUse(i) => r1 == r0 && if i < v.custom_themes@.len() {
            &&& w == theme_work()
            &&& visual_set(a0, a1, crate::app::Visual { custom_index: i, theme: crate::color::ThemeId::Custom, ..v })
            &&& toasted(fx0, fx1, "已应用自定义颜色"@)
        } else {
            a1 == a0 && fx1 == fx0 && w == no_work()
        },
        Action::ThemeCustomDelete(i) => r1 == r0 && if i < v.custom_themes@.len() {
            let rest = v.custom_themes@.remove(i as int);
            &&& w == theme_work()
            &&& a1 == (App { visual: a1.visual, ..a0 })
            &&& a1.visual.custom_themes@ == rest
            &&& a1.visual == (crate::app::Visual {
                custom_themes: a1.visual.custom_themes,
                custom_index: if rest.len() == 0 {
                    0
                } else if v.custom_index < rest.len() {
                    v.custom_index
                } else {
                    (rest.len() - 1) as usize
                },
                theme: if rest.len() == 0 { crate::color::ThemeId::A } else { v.theme },
                ..v
            })
            &&& toasted(fx0, fx1, "已删除自定义颜色"@)
        } else {
            a1 == a0 && fx1 == fx0 && w == no_work()
        },
        Action::ThemeCustomNew => {
            &&& r1 == r0
            &&& w == no_work()
            &&& a1 == (App { visual: a1.visual, ..a0 })
            &&& a1.visual.custom_themes@.len() == v.custom_themes@.len() + 1
            &&& a1.visual.custom_themes@.drop_last() == v.custom_themes@
            &&& a1.visual.custom_themes@.last()@ == (crate::color::ThemeView {
                name: "自定义"@ + crate::text::decimal((v.custom_themes@.len() + 1) as nat),
                ..crate::color::default_theme_view()
            })
            &&& a1.visual == (crate::app::Visual {
                custom_themes: a1.visual.custom_themes,
                custom_index: v.custom_themes@.len() as usize,
                theme: crate::color::ThemeId::Custom,
                ..v
            })
            &&& toasted(fx0, fx1, "已新建自定义颜色"@)
        },
        Action::ThemeSavedUse(i) => r1 == r0 && fx1 == fx0 && if i < v.saved_presets@.len() {
            &&& w == theme_work()
            &&& visual_set(a0, a1, crate::app::Visual { saved_index: i, theme: crate::color::ThemeId::Saved, ..v })
        } else {
            a1 == a0 && w == no_work()
        },
        Action::ThemeSavedDelete(i) => r1 == r0 && if i < v.saved_presets@.len() {
            let rest = v.saved_presets@.remove(i as int);
            &&& w == theme_work()
            &&& a1 == (App { visual: a1.visual, ..a0 })
            &&& a1.visual.saved_presets@ == rest
            &&& a1.visual == (crate::app::Visual {
                saved_presets: a1.visual.saved_presets,
                saved_index: if rest.len() == 0 {
                    0
                } else if v.saved_index < rest.len() {
                    v.saved_index
                } else {
                    (rest.len() - 1) as usize
                },
                theme: if rest.len() == 0 { crate::color::ThemeId::A } else { v.theme },
                ..v
            })
            &&& toasted(fx0, fx1, "已删除这个预设颜色"@)
        } else {
            a1 == a0 && fx1 == fx0 && w == no_work()
        },
        Action::ThemeSavePreset => {
            &&& r1 == r0
            &&& w == theme_work()
            &&& a1 == (App { visual: a1.visual, ..a0 })
            &&& a1.visual.saved_presets@.len() == v.saved_presets@.len() + 1
            &&& a1.visual.saved_presets@.drop_last() == v.saved_presets@
            &&& a1.visual.saved_presets@.last()@ == (crate::color::ThemeView {
                name: copy_name(r0.theme.name@),
                ..r0.theme@
            })
            &&& a1.visual == (crate::app::Visual {
                saved_presets: a1.visual.saved_presets,
                saved_index: v.saved_presets@.len() as usize,
                theme: crate::color::ThemeId::Saved,
                ..v
            })
            &&& toasted(fx0, fx1, "已保存当前颜色为预设"@)
        },
        Action::ThemeNameEdit(i) => a1 == a0 && fx1 == fx0 && w == no_work() && r1.open_drop is None
            && began(r0, Runtime { open_drop: r0.open_drop, ..r1 }, crate::action::EditTarget::ThemeName(i),
                if i < v.custom_themes@.len() { v.custom_themes@[i as int].name@ } else { Seq::<char>::empty() }, true),
        Action::ColorPick(target) => a1 == a0 && fx1 == fx0 && w == no_work()
            && r1 == (Runtime { pending: Some(crate::runtime::PendingDialog::Color(target)), ..r0 }),
        Action::ToggleBareUi => r1 == r0 && fx1 == fx0 && w == no_work()
            && visual_set(a0, a1, crate::app::Visual { bare_ui: !v.bare_ui, ..v }),
        Action::WindowSize(i) => fx1 == fx0 && w == no_work() && if i < crate::model::WINDOW_SIZE_COUNT {
            visual_set(a0, a1, crate::app::Visual { window_size: i, ..v }) && r1 == (Runtime { window_dirty: true, ..r0 })
        } else {
            a1 == a0 && r1 == r0
        },
        Action::WidgetClose => a1 == a0 && fx1 == fx0 && w == no_work()
            && r1 == (Runtime { pending: Some(crate::runtime::PendingDialog::Widget(false)), ..r0 }),
        Action::WidgetVisible(on) => a1 == a0 && fx1 == fx0 && w == no_work()
            && r1 == (Runtime { pending: Some(crate::runtime::PendingDialog::Widget(on)), ..r0 }),
        Action::WidgetTopmost => fx1 == fx0 && w == no_work()
            && visual_set(a0, a1, crate::app::Visual { widget_topmost: !v.widget_topmost, ..v })
            && r1 == (Runtime { pending: Some(crate::runtime::PendingDialog::WidgetStyle), ..r0 }),
        Action::WidgetClickThrough => fx1 == fx0 && w == no_work()
            && visual_set(a0, a1, crate::app::Visual { widget_click_through: !v.widget_click_through, ..v })
            && r1 == (Runtime { pending: Some(crate::runtime::PendingDialog::WidgetStyle), ..r0 }),
        Action::WidgetLock => r1 == r0 && fx1 == fx0 && w == no_work()
            && visual_set(a0, a1, crate::app::Visual { widget_locked: !v.widget_locked, ..v }),
        Action::FontFamily(_) | Action::SliderFontSize | Action::SliderFontWeight | Action::SliderWidgetScale
        | Action::SliderWidgetFontSize | Action::SliderWidgetFontWeight => a1 == a0 && r1 == r0 && fx1 == fx0
            && w == no_work(),
        _ => false,
    }
}

/// Whether `action` is one of the display and desktop-widget settings.
pub open spec fn is_visual_action(action: Action) -> bool {
    ||| action is VisualMode
    ||| action is ToggleHideNumber
    ||| action is ToggleHideAllText
    ||| action is ToggleDarkMode
    ||| action is ToggleFollowSystem
    ||| action is ThemeBuiltin
    ||| action is ThemeCustomUse
    ||| action is ThemeCustomDelete
    ||| action is ThemeCustomNew
    ||| action is ThemeSavedUse
    ||| action is ThemeSavedDelete
    ||| action is ThemeSavePreset
    ||| action is ThemeNameEdit
    ||| action is ColorPick
    ||| action is ToggleBareUi
    ||| action is WindowSize
    ||| action is WidgetClose
    ||| action is WidgetVisible
    ||| action is WidgetTopmost
    ||| action is WidgetClickThrough
    ||| action is WidgetLock
    ||| action is FontFamily
    ||| action is SliderFontSize
    ||| action is SliderFontWeight
    ||| action is SliderWidgetScale
    ||| action is SliderWidgetFontSize
    ||| action is SliderWidgetFontWeight
}

} // verus!

verus! {

#[verifier::spinoff_prover]
#[verifier::rlimit(60)]
fn apply_theme_action(app: &mut App, rt: &mut Runtime, action: Action, fx: &mut Effects) -> (w: HostWork)
    requires
        action is ThemeCustomNew ==> old(app).visual.custom_themes@.len() < usize::MAX,
        action is ThemeSavePreset ==> old(app).visual.saved_presets@.len() < usize::MAX,
        action is ThemeBuiltin || action is ThemeCustomUse || action is ThemeCustomDelete
            || action is ThemeCustomNew || action is ThemeSavedUse || action is ThemeSavedDelete
            || action is ThemeSavePreset || action is ThemeNameEdit || action is ColorPick,
    ensures
        visual_done(*old(app), *old(rt), old(fx).items@, action, *final(app), *final(rt), final(fx).items@, w),
{
    let mut w = idle_work();
    match action {
        Action::ThemeBuiltin(id) => {
            app.visual.theme = id;
            w.refresh_theme = true;
        },
        Action::ThemeCustomUse(index) => {
            if index < app.visual.custom_themes.len() {
                app.visual.custom_index = index;
                app.visual.theme = crate::color::ThemeId::Custom;
                w.refresh_theme = true;
                fx.toast(String::from_str("已应用自定义颜色"));
            }
        },
        Action::ThemeCustomDelete(index) => {
            if index < app.visual.custom_themes.len() {
                app.visual.custom_themes.remove(index);
                if app.visual.custom_themes.len() == 0 {
                    app.visual.custom_index = 0;
                    app.visual.theme = crate::color::ThemeId::A;
                } else if app.visual.custom_index >= app.visual.custom_themes.len() {
                    app.visual.custom_index = app.visual.custom_themes.len() - 1;
                }
                w.refresh_theme = true;
                fx.toast(String::from_str("已删除自定义颜色"));
            }
        },
        Action::ThemeCustomNew => {
            let theme = ThemeColors::custom_default(app.visual.custom_themes.len());
            let ghost before = app.visual.custom_themes@;
            app.visual.custom_themes.push(theme);
            assert(app.visual.custom_themes@.drop_last() =~= before);
            app.visual.custom_index = app.visual.custom_themes.len() - 1;
            app.visual.theme = crate::color::ThemeId::Custom;
            fx.toast(String::from_str("已新建自定义颜色"));
        },
        Action::ThemeSavedUse(index) => {
            if index < app.visual.saved_presets.len() {
                app.visual.saved_index = index;
                app.visual.theme = crate::color::ThemeId::Saved;
                w.refresh_theme = true;
            }
        },
        Action::ThemeSavedDelete(index) => {
            if index < app.visual.saved_presets.len() {
                app.visual.saved_presets.remove(index);
                if app.visual.saved_presets.len() == 0 {
                    app.visual.saved_index = 0;
                    app.visual.theme = crate::color::ThemeId::A;
                } else if app.visual.saved_index >= app.visual.saved_presets.len() {
                    app.visual.saved_index = app.visual.saved_presets.len() - 1;
                }
                w.refresh_theme = true;
                fx.toast(String::from_str("已删除这个预设颜色"));
            }
        },
        Action::ThemeSavePreset => {
            let mut theme = rt.theme.clone();
            let trimmed = crate::text::trim(theme.name.as_str());
            let name = if trimmed.as_str().unicode_len() == 0 {
                crate::text::concat2("预设", " 副本")
            } else {
                crate::text::concat2(theme.name.as_str(), " 副本")
            };
            theme.name = name;
            let ghost before = app.visual.saved_presets@;
            app.visual.saved_presets.push(theme);
            assert(app.visual.saved_presets@.drop_last() =~= before);
            app.visual.saved_index = app.visual.saved_presets.len() - 1;
            app.visual.theme = crate::color::ThemeId::Saved;
            w.refresh_theme = true;
            fx.toast(String::from_str("已保存当前颜色为预设"));
        },
        Action::ThemeNameEdit(index) => {
            let text = if index < app.visual.custom_themes.len() {
                app.visual.custom_themes[index].name.clone()
            } else {
                String::new()
            };
            crate::actions::begin_edit(rt, crate::action::EditTarget::ThemeName(index), text, true);
            rt.open_drop = None;
        },
        _ => {
            let target = match action {
                Action::ColorPick(target) => target,
                _ => crate::action::ColorTarget::Custom(0, 0),
            };
            rt.pending = Some(crate::runtime::PendingDialog::Color(target));
        },
    }
    w
}

fn toggle_display(app: &mut App, action: Action) -> (w: HostWork)
    requires
        action is VisualMode || action is ToggleHideNumber || action is ToggleHideAllText
            || action is ToggleDarkMode || action is ToggleFollowSystem || action is ToggleBareUi
            || action is WidgetLock,
    ensures
        forall|rt: Runtime, fx: Seq<Effect>| #[trigger] visual_done(*old(app), rt, fx, action, *final(app), rt, fx, w),
{
    match action {
        Action::VisualMode(mode) => {
            app.visual.mode = mode;
            idle_work()
        },
        Action::ToggleHideNumber => {
            app.visual.hide_number = !app.visual.hide_number;
            idle_work()
        },
        Action::ToggleHideAllText => {
            app.visual.hide_all_text = !app.visual.hide_all_text;
            idle_work()
        },
        Action::ToggleDarkMode => {
            app.visual.dark_mode = !app.visual.dark_mode;
            app.visual.follow_system = false;
            HostWork { refresh_theme: true, dark_caption: true, ..idle_work() }
        },
        Action::ToggleFollowSystem => {
            app.visual.follow_system = !app.visual.follow_system;
            HostWork { refresh_theme: true, dark_caption: true, ..idle_work() }
        },
        Action::ToggleBareUi => {
            app.visual.bare_ui = !app.visual.bare_ui;
            idle_work()
        },
        _ => {
            app.visual.widget_locked = !app.visual.widget_locked;
            idle_work()
        },
    }
}

fn set_window(app: &mut App, rt: &mut Runtime, action: Action) -> (w: HostWork)
    requires
        action is WindowSize || action is WidgetClose || action is WidgetVisible || action is WidgetTopmost
            || action is WidgetClickThrough,
    ensures
        forall|fx: Seq<Effect>| #[trigger] visual_done(*old(app), *old(rt), fx, action, *final(app), *final(rt), fx, w),
{
    match action {
        Action::WindowSize(index) => {
            if index < crate::model::WINDOW_SIZE_COUNT {
                app.visual.window_size = index;
                rt.window_dirty = true;
            }
        },
        Action::WidgetClose => {
            rt.pending = Some(crate::runtime::PendingDialog::Widget(false));
        },
        Action::WidgetVisible(on) => {
            rt.pending = Some(crate::runtime::PendingDialog::Widget(on));
        },
        Action::WidgetTopmost => {
            app.visual.widget_topmost = !app.visual.widget_topmost;
            rt.pending = Some(crate::runtime::PendingDialog::WidgetStyle);
        },
        _ => {
            app.visual.widget_click_through = !app.visual.widget_click_through;
            rt.pending = Some(crate::runtime::PendingDialog::WidgetStyle);
        },
    }
    idle_work()
}

} // verus!

verus! {

/// `selected` with each of `ids` appended, in order, unless already there.
pub open spec fn add_missing(selected: Seq<u64>, ids: Seq<u64>) -> Seq<u64>
    decreases ids.len(),
{
    if ids.len() == 0 {
        selected
    } else {
        let t = add_missing(selected, ids.drop_last());
        if t.contains(ids.last()) { t } else { t.push(ids.last()) }
    }
}

/// The selection after clicking the box of record `id`: removed (its first occurrence) if it
/// was selected, added at the end otherwise.
pub open spec fn toggled_selection(selected: Seq<u64>, id: u64) -> Seq<u64> {
    if selected.contains(id) {
        selected.remove(first_idx(selected, id))
    } else {
        selected.push(id)
    }
}

/// Position of the first `x` in `s` (the length of `s` if there is none).
pub open spec fn first_idx(s: Seq<u64>, x: u64) -> int
    decreases s.len(),
{
    if s.len() == 0 {
        0
    } else if s[0] == x {
        0
    } else {
        1 + first_idx(s.drop_first(), x)
    }
}

pub proof fn lemma_first_idx(s: Seq<u64>, x: u64)
    ensures
        0 <= first_idx(s, x) <= s.len(),
        first_idx(s, x) < s.len() <==> s.contains(x),
        first_idx(s, x) < s.len() ==> s[first_idx(s, x)] == x,
        forall|j: int| 0 <= j < first_idx(s, x) ==> s[j] != x,
    decreases s.len(),
{
    if s.len() > 0 {
        lemma_first_idx(s.drop_first(), x);
        if s[0] != x {
            assert forall|j: int| 0 <= j < first_idx(s, x) implies s[j] != x by {
                if j > 0 {
                    assert(s[j] == s.drop_first()[j - 1]);
                }
            }
            if s.contains(x) {
                let i = choose|i: int| 0 <= i < s.len() && s[i] == x;
                assert(s.drop_first()[i - 1] == s[i]);
            }
            if first_idx(s, x) < s.len() {
                assert(s.drop_first()[first_idx(s, x) - 1] == s[first_idx(s, x)]);
            }
        } else {
            assert(s.contains(x));
        }
    }
}

fn position_in(list: &Vec<u64>, x: u64) -> (r: usize)
    ensures
        r == first_idx(list@, x),
{
    proof {
        lemma_first_idx(list@, x);
    }
    let mut i: usize = 0;
    while i < list.len()
        invariant
            i <= list@.len(),
            forall|j: int| 0 <= j < i ==> list@[j] != x,
            0 <= first_idx(list@, x) <= list@.len(),
            first_idx(list@, x) < list@.len() ==> list@[first_idx(list@, x)] == x,
            forall|j: int| 0 <= j < first_idx(list@, x) ==> list@[j] != x,
        decreases list@.len() - i,
    {
        if list[i] == x {
            return i;
        }
        i = i + 1;
    }
    i
}

/// The month before `(year, month)`.
pub open spec fn month_before(year: int, month: int) -> (int, int) {
    if month == 1 { (year - 1, 12) } else { (year, month - 1) }
}

/// The month after `(year, month)`.
pub open spec fn month_after(year: int, month: int) -> (int, int) {
    if month == 12 { (year + 1, 1) } else { (year, month + 1) }
}

/// The range after picking day `date`: a first pick starts a range; a second pick ends it,
/// the two days put in order; a pick after a full range starts a new one.
pub open spec fn picked_range(start: Option<Seq<char>>, end: Option<Seq<char>>, date: Seq<char>) -> (Option<Seq<char>>, Option<Seq<char>>) {
    match (start, end) {
        (None, _) => (Some(date), None),
        (Some(s), None) => if crate::text::seq_less(date, s) { (Some(date), Some(s)) } else { (Some(s), Some(date)) },
        (Some(_), Some(_)) => (Some(date), None),
    }
}

/// The text views of optional strings.
pub open spec fn opt_view(o: Option<String>) -> Option<Seq<char>> {
    match o {
        Some(s) => Some(s@),
        None => None,
    }
}

/// The ids of some records, in order.
pub open spec fn ids_of(h: Seq<HistoryItem>) -> Seq<u64> {
    h.map_values(|x: HistoryItem| x.id)
}

/// Whether the history actions are safe to carry out on `r`: the month shown can move on.
pub open spec fn history_room(r: Runtime, action: Action) -> bool {
    &&& action is CalendarPrev ==> r.calendar.month != 0 && (r.calendar.month == 1 ==> r.calendar.year > i32::MIN)
    &&& action is CalendarNext ==> r.calendar.month < u32::MAX && (r.calendar.month == 12 ==> r.calendar.year < i32::MAX)
}

/// What the history page's actions do: ticking a record's box selects or unselects it; the
/// select-all box adds every record shown (or clears the selection); a batch delete removes
/// the selected records (or asks for a selection first); resetting the filter clears it and the
/// selection; the calendar opens on the current month with the filter's range, moves by month,
/// picks a range, and clears or applies it to the filter (a single day counting as a range of
/// one day).
pub open spec fn history_done(a0: App, r0: Runtime, fx0: Seq<Effect>, action: Action, clock: LocalTime, a1: App, r1: Runtime, fx1: Seq<Effect>, w: HostWork) -> bool {
    let c = r0.calendar;
    match action {
        Action::ToggleSelect(id) => a1 == a0 && fx1 == fx0 && w == no_work()
            && r1 == (Runtime { selected: r1.selected, ..r0 })
            && r1.selected@ == toggled_selection(r0.selected@, id),
        Action::SelectAll(checked) => a1 == a0 && fx1 == fx0 && w == no_work()
            && r1 == (Runtime { selected: r1.selected, ..r0 })
            && r1.selected@ == if checked {
                add_missing(r0.selected@, ids_of(crate::app::visible(a0.history@, a0.filter)))
            } else {
                Seq::<u64>::empty()
            },
        Action::BatchDelete => w == no_work() && if r0.selected@.len() == 0 {
            a1 == a0 && r1 == r0 && toasted(fx0, fx1, "请先选择记录"@)
        } else {
            &&& a1.history@ == crate::app::without_ids(a0.history@, r0.selected@)
            &&& crate::app::same_but_history(a0, a1)
            &&& r1 == (Runtime { selected: r1.selected, ..r0 })
            &&& r1.selected@.len() == 0
            &&& toasted(fx0, fx1, "已删除选中记录"@)
        },
        Action::FilterReset => fx1 == fx0 && w == no_work()
            && a1 == (App { filter: crate::model::Filter { group: None, event: None, date_start: None, date_end: None }, ..a0 })
            && r1 == (Runtime { selected: r1.selected, ..r0 }) && r1.selected@.len() == 0,
        Action::CalendarToggle => a1 == a0 && fx1 == fx0 && if r0.calendar_open {
            r1 == (Runtime { calendar_open: false, ..r0 }) && w == no_work()
        } else {
            &&& w == (HostWork { anchor_calendar: true, ..no_work() })
            &&& r1 == (Runtime {
                calendar_open: true,
                calendar: crate::runtime::CalendarState {
                    year: clock.year as i32,
                    month: clock.month as u32,
                    start: a0.filter.date_start,
                    end: a0.filter.date_end,
                },
                ..r0
            })
        },
        Action::CalendarPrev => a1 == a0 && fx1 == fx0 && w == no_work() && {
            let m = month_before(c.year as int, c.month as int);
            r1 == (Runtime {
                calendar: crate::runtime::CalendarState { year: m.0 as i32, month: m.1 as u32, ..c },
                ..r0
            })
        },
        Action::CalendarNext => a1 == a0 && fx1 == fx0 && w == no_work() && {
            let m = month_after(c.year as int, c.month as int);
            r1 == (Runtime {
                calendar: crate::runtime::CalendarState { year: m.0 as i32, month: m.1 as u32, ..c },
                ..r0
            })
        },
        Action::CalendarPickDay(day) => a1 == a0 && fx1 == fx0 && w == no_work() && {
            let date = crate::clock::date_string_text(c.year as int, c.month as nat, day as nat);
            let picked = picked_range(opt_view(c.start), opt_view(c.end), date);
            &&& r1 == (Runtime { calendar: crate::runtime::CalendarState { start: r1.calendar.start, end: r1.calendar.end, ..c }, ..r0 })
            &&& opt_view(r1.calendar.start) == picked.0
            &&& opt_view(r1.calendar.end) == picked.1
        },
        Action::CalendarClear => fx1 == fx0 && w == no_work()
            && a1 == (App { filter: crate::model::Filter { date_start: None, date_end: None, ..a0.filter }, ..a0 })
            && r1 == (Runtime {
                calendar: crate::runtime::CalendarState { start: None, end: None, ..c },
                selected: r1.selected,
                calendar_open: false,
                ..r0
            })
            && r1.selected@.len() == 0,
        Action::CalendarApply => fx1 == fx0 && w == no_work()
            && a1 == (App {
                filter: crate::model::Filter {
                    date_start: c.start,
                    date_end: if c.end is None { c.start } else { c.end },
                    ..a0.filter
                },
                ..a0
            })
            && r1 == (Runtime { selected: r1.selected, calendar_open: false, ..r0 })
            && r1.selected@.len() == 0,
        _ => false,
    }
}

} // verus!

verus! {

fn apply_selection(app: &mut App, rt: &mut Runtime, action: Action, fx: &mut Effects) -> (w: HostWork)
    requires
        action is ToggleSelect || action is SelectAll || action is BatchDelete || action is FilterReset,
    ensures
        forall|clock: LocalTime| #[trigger] history_done(*old(app), *old(rt), old(fx).items@, action, clock, *final(app), *final(rt), final(fx).items@, w),
{
    match action {
        Action::ToggleSelect(id) => {
            let pos = position_in(&rt.selected, id);
            proof {
                lemma_first_idx(rt.selected@, id);
            }
            if pos < rt.selected.len() {
                rt.selected.remove(pos);
            } else {
                rt.selected.push(id);
            }
        },
        Action::SelectAll(checked) => {
            if checked {
                let visible = app.visible_history();
                let ghost ids = ids_of(crate::app::visible(app.history@, app.filter));
                let mut i: usize = 0;
                while i < visible.len()
                    invariant
                        i <= visible@.len(),
                        visible@.map_values(|h: &HistoryItem| *h) == crate::app::visible(app.history@, app.filter),
                        ids == ids_of(crate::app::visible(app.history@, app.filter)),
                        rt.selected@ == add_missing(old(rt).selected@, ids.take(i as int)),
                        *rt == (Runtime { selected: rt.selected, ..*old(rt) }),
                    decreases visible@.len() - i,
                {
                    let id = visible[i].id;
                    proof {
                        assert(ids.take(i + 1).drop_last() =~= ids.take(i as int));
                        assert(ids[i as int] == visible@.map_values(|h: &HistoryItem| *h)[i as int].id);
                        lemma_first_idx(rt.selected@, id);
                    }
                    let pos = position_in(&rt.selected, id);
                    if pos == rt.selected.len() {
                        rt.selected.push(id);
                    }
                    i = i + 1;
                }
                assert(ids.take(i as int) =~= ids);
            } else {
                rt.selected.clear();
            }
        },
        Action::BatchDelete => {
            if rt.selected.len() == 0 {
                fx.toast(String::from_str("请先选择记录"));
            } else {
                app.delete_selected(rt.selected.as_slice());
                rt.selected.clear();
                fx.toast(String::from_str("已删除选中记录"));
            }
        },
        _ => {
            app.filter.group = None;
            app.filter.event = None;
            app.filter.date_start = None;
            app.filter.date_end = None;
            rt.selected.clear();
        },
    }
    idle_work()
}

} // verus!

verus! {

fn apply_calendar(app: &mut App, rt: &mut Runtime, action: Action, clock: &LocalTime) -> (w: HostWork)
    requires
        history_room(*old(rt), action),
        action is CalendarToggle || action is CalendarPrev || action is CalendarNext
            || action is CalendarPickDay || action is CalendarClear || action is CalendarApply,
    ensures
        forall|fx: Seq<Effect>| #[trigger] history_done(*old(app), *old(rt), fx, action, *clock, *final(app), *final(rt), fx, w),
{
    match action {
        Action::CalendarToggle => {
            rt.calendar_open = !rt.calendar_open;
            if rt.calendar_open {
                let (year, month) = crate::clock::year_month(clock);
                rt.calendar.year = year;
                rt.calendar.month = month;
                rt.calendar.start = crate::model::clone_opt_string(&app.filter.date_start);
                rt.calendar.end = crate::model::clone_opt_string(&app.filter.date_end);
                return HostWork { anchor_calendar: true, ..idle_work() };
            }
        },
        Action::CalendarPrev => {
            if rt.calendar.month == 1 {
                rt.calendar.month = 12;
                rt.calendar.year = rt.calendar.year - 1;
            } else {
                rt.calendar.month = rt.calendar.month - 1;
            }
        },
        Action::CalendarNext => {
            if rt.calendar.month == 12 {
                rt.calendar.month = 1;
                rt.calendar.year = rt.calendar.year + 1;
            } else {
                rt.calendar.month = rt.calendar.month + 1;
            }
        },
        Action::CalendarPickDay(day) => {
            let date = crate::clock::date_string(rt.calendar.year, rt.calendar.month, day);
            if rt.calendar.start.is_none() || rt.calendar.end.is_some() {
                rt.calendar.start = Some(date);
                rt.calendar.end = None;
            } else {
                let before = match &rt.calendar.start {
                    Some(s) => crate::text::str_less(date.as_str(), s.as_str()),
                    None => false,
                };
                if before {
                    let first = crate::model::clone_opt_string(&rt.calendar.start);
                    rt.calendar.start = Some(date);
                    rt.calendar.end = first;
                } else {
                    rt.calendar.end = Some(date);
                }
            }
        },
        Action::CalendarClear => {
            rt.calendar.start = None;
            rt.calendar.end = None;
            app.filter.date_start = None;
            app.filter.date_end = None;
            rt.selected.clear();
            rt.calendar_open = false;
        },
        _ => {
            let start = crate::model::clone_opt_string(&rt.calendar.start);
            let end = if rt.calendar.end.is_none() {
                crate::model::clone_opt_string(&rt.calendar.start)
            } else {
                crate::model::clone_opt_string(&rt.calendar.end)
            };
            app.filter.date_start = start;
            app.filter.date_end = end;
            rt.selected.clear();
            rt.calendar_open = false;
        },
    }
    idle_work()
}

} // verus!

verus! {

/// What the navigation and interface actions do. Switching pages first commits any inline edit,
/// closes the drop-down, the calendar and the draft, and takes the desktop widget along to the
/// timer and countdown pages; a section opens or closes (opening the pomodoro page's preset
/// section starts a draft of the preset in use); a drop-down opens or closes after committing
/// any edit, and picking an entry closes it; activity names are edited inline; the sound is
/// stopped; the desktop widget switches between its running and idle look, is refreshed, edits
/// its activity, brings up the main window on its page, or follows another page.
pub open spec fn interface_done(a0: App, r0: Runtime, fx0: Seq<Effect>, action: Action, now: u64, a1: App, r1: Runtime, fx1: Seq<Effect>, w: HostWork) -> bool {
    if commits_first(action) {
        exists|rm: Runtime| #[trigger] committed(a0, r0, fx0, now, a1, rm, fx1) && ui_settled(rm, action, r1, w)
    } else {
        plain_ui_done(a0, r0, action, now, a1, r1, w) && fx1 == fx0
    }
}

/// The interface actions that first commit any inline edit.
pub open spec fn commits_first(action: Action) -> bool {
    ||| action is Nav
    ||| action is DropToggle
    ||| action is ActivityAddConfirm
    ||| action is WidgetModeToggle
    ||| action is WidgetRefresh
    ||| action is WidgetOpen
    ||| action is WidgetModule
}

/// What an interface action that commits first does to the interface state `rm` left by the
/// commit.
pub open spec fn ui_settled(rm: Runtime, action: Action, r1: Runtime, w: HostWork) -> bool {
    match action {
        Action::Nav(view) => w == (HostWork { scroll_view: true, ..no_work() }) && r1 == (Runtime {
            view,
            widget_module: if view == ViewId::Timer || view == ViewId::Pomodoro { view } else { rm.widget_module },
            open_drop: None,
            calendar_open: false,
            draft: None,
            ..rm
        }),
        Action::DropToggle(id) => if rm.open_drop == Some(id) {
            r1 == (Runtime { open_drop: None, ..rm }) && w == no_work()
        } else {
            r1 == (Runtime { open_drop: Some(id), ..rm }) && w == (HostWork { anchor_drop: true, ..no_work() })
        },
        Action::ActivityAddConfirm => r1 == rm && w == no_work(),
        Action::WidgetModeToggle => w == no_work() && r1 == (Runtime {
            widget_mode: if rm.widget_mode == crate::runtime::WidgetMode::Running {
                crate::runtime::WidgetMode::Idle
            } else {
                crate::runtime::WidgetMode::Running
            },
            open_drop: None,
            ..rm
        }),
        Action::WidgetRefresh => w == no_work() && r1 == (Runtime {
            widget_editing: false,
            open_drop: None,
            pending: Some(crate::runtime::PendingDialog::WidgetRefresh),
            ..rm
        }),
        Action::WidgetOpen => w == (HostWork { show_main: true, ..no_work() }) && r1 == (Runtime {
            widget_editing: false,
            view: rm.widget_module,
            open_drop: None,
            calendar_open: false,
            draft: None,
            ..rm
        }),
        Action::WidgetModule(view) => w == no_work() && r1 == (Runtime { widget_module: view, open_drop: None, ..rm }),
        _ => false,
    }
}

/// What the interface actions that do not commit first do (no notice is shown by any of them).
pub open spec fn plain_ui_done(a0: App, r0: Runtime, action: Action, now: u64, a1: App, r1: Runtime, w: HostWork) -> bool {
    match action {
        Action::ActivityEdit(pomodoro) => a1 == a0 && w == no_work() && r1.open_drop is None
            && began(r0, Runtime { open_drop: r0.open_drop, ..r1 }, crate::action::EditTarget::ActivityName(pomodoro),
                if pomodoro { a0.pomodoro.activity@ } else { a0.timer.activity@ }, true),
        Action::ToggleSection(section) => {
            let i = crate::action::section_index(section) as int;
            let open = !r0.sections@[i];
            &&& a1 == a0 && w == no_work()
            &&& r1 == (Runtime { sections: r1.sections, draft: r1.draft, ..r0 })
            &&& r1.sections@ == r0.sections@.update(i, open)
            &&& r1.draft == if section != crate::action::Section::PomoPreset {
                r0.draft
            } else if open && r0.view == ViewId::Pomodoro {
                Some(crate::runtime::PresetDraft { index: a0.active_preset, preset: a0.current_preset() })
            } else {
                None
            }
        },
        Action::DropPick(id, index) => w == no_work() && exists|rm: Runtime|
            #[trigger] crate::drops::picked(a0, r0, id, index, now, a1, rm) && r1 == (Runtime { open_drop: None, ..rm }),
        Action::ActivityAddStart => a1 == a0 && w == no_work()
            && began(r0, r1, crate::action::EditTarget::ActivityAdd, Seq::<char>::empty(), false),
        Action::ActivityAddCancel => a1 == a0 && w == no_work() && r1 == (Runtime { edit: None, ..r0 }),
        Action::StopSound => a1 == a0 && w == (HostWork { stop_sound: true, ..no_work() })
            && r1 == (Runtime { sound_loop_playing: false, sound_until: 0, ..r0 }),
        Action::WidgetEdit => {
            let pomodoro = r0.widget_module == ViewId::Pomodoro;
            &&& a1 == a0 && w == no_work()
            &&& r1.widget_editing && r1.open_drop is None
            &&& began(r0, Runtime { widget_editing: false, open_drop: r0.open_drop, ..r1 },
                crate::action::EditTarget::ActivityName(pomodoro),
                if pomodoro { a0.pomodoro.activity@ } else { a0.timer.activity@ }, true)
        },
        _ => false,
    }
}

/// Whether `action` is one of the navigation and interface actions.
pub open spec fn is_interface_action(action: Action) -> bool {
    ||| action is Nav
    ||| action is ActivityEdit
    ||| action is ToggleSection
    ||| action is DropToggle
    ||| action is DropPick
    ||| action is ActivityAddStart
    ||| action is ActivityAddConfirm
    ||| action is ActivityAddCancel
    ||| action is StopSound
    ||| action is WidgetModeToggle
    ||| action is WidgetRefresh
    ||| action is WidgetEdit
    ||| action is WidgetOpen
    ||| action is WidgetModule
}

fn edit_activity(app: &App, rt: &mut Runtime, pomodoro: bool)
    ensures
        began(*old(rt), *final(rt), crate::action::EditTarget::ActivityName(pomodoro),
            if pomodoro { app.pomodoro.activity@ } else { app.timer.activity@ }, true),
{
    let text = if pomodoro {
        app.pomodoro.activity.clone()
    } else {
        app.timer.activity.clone()
    };
    crate::actions::begin_edit(rt, crate::action::EditTarget::ActivityName(pomodoro), text, true);
}

/// What the interface actions that commit first do once the edit is committed.
fn settle_ui(rt: &mut Runtime, action: Action) -> (w: HostWork)
    requires
        commits_first(action),
    ensures
        ui_settled(*old(rt), action, *final(rt), w),
{
    match action {
        Action::Nav(view) => {
            rt.view = view;
            if view == ViewId::Timer || view == ViewId::Pomodoro {
                rt.widget_module = view;
            }
            rt.open_drop = None;
            rt.calendar_open = false;
            rt.draft = None;
            HostWork { scroll_view: true, ..idle_work() }
        },
        Action::DropToggle(id) => {
            let same = match rt.open_drop {
                Some(open) => open == id,
                None => false,
            };
            if same {
                rt.open_drop = None;
                idle_work()
            } else {
                rt.open_drop = Some(id);
                HostWork { anchor_drop: true, ..idle_work() }
            }
        },
        Action::ActivityAddConfirm => idle_work(),
        Action::WidgetModeToggle => {
            rt.widget_mode = if rt.widget_mode == crate::runtime::WidgetMode::Running {
                crate::runtime::WidgetMode::Idle
            } else {
                crate::runtime::WidgetMode::Running
            };
            rt.open_drop = None;
            idle_work()
        },
        Action::WidgetRefresh => {
            rt.widget_editing = false;
            rt.open_drop = None;
            rt.pending = Some(crate::runtime::PendingDialog::WidgetRefresh);
            idle_work()
        },
        Action::WidgetOpen => {
            rt.widget_editing = false;
            rt.view = rt.widget_module;
            rt.open_drop = None;
            rt.calendar_open = false;
            rt.draft = None;
            HostWork { show_main: true, ..idle_work() }
        },
        _ => {
            let view = match action {
                Action::WidgetModule(view) => view,
                _ => ViewId::Timer,
            };
            rt.widget_module = view;
            rt.open_drop = None;
            idle_work()
        },
    }
}

/// The interface actions that leave any inline edit as it is, or replace it.
fn apply_plain_ui(app: &mut App, rt: &mut Runtime, action: Action, now: u64) -> (w: HostWork)
    requires
        old(app).presets@.len() > 0,
        is_interface_action(action),
        !commits_first(action),
    ensures
        plain_ui_done(*old(app), *old(rt), action, now, *final(app), *final(rt), w),
{
    match action {
        Action::ActivityEdit(pomodoro) => {
            edit_activity(app, rt, pomodoro);
            rt.open_drop = None;
        },
        Action::ToggleSection(section) => {
            rt.toggle(section);
            if section == crate::action::Section::PomoPreset {
                if rt.is_open(section) && rt.view == ViewId::Pomodoro {
                    rt.draft = Some(crate::runtime::PresetDraft::from_app(app));
                } else {
                    rt.draft = None;
                }
            }
        },
        Action::DropPick(id, index) => {
            crate::drops::pick(app, rt, id, index, now);
            let ghost rm = *rt;
            rt.open_drop = None;
            assert(crate::drops::picked(*old(app), *old(rt), id, index, now, *app, rm));
        },
        Action::ActivityAddStart => {
            crate::actions::begin_edit(rt, crate::action::EditTarget::ActivityAdd, String::new(), false);
        },
        Action::ActivityAddCancel => {
            rt.edit = None;
        },
        Action::StopSound => {
            rt.sound_stopped();
            return HostWork { stop_sound: true, ..idle_work() };
        },
        _ => {
            let pomodoro = crate::widget::module(app, rt) == ViewId::Pomodoro;
            edit_activity(app, rt, pomodoro);
            rt.widget_editing = true;
            rt.open_drop = None;
        },
    }
    idle_work()
}

/// Carries out a navigation or interface action (see `interface_done`).
fn apply_interface(app: &mut App, rt: &mut Runtime, action: Action, now: u64, fx: &mut Effects) -> (w: HostWork)
    requires
        old(app).presets@.len() > 0,
        is_interface_action(action),
    ensures
        interface_done(*old(app), *old(rt), old(fx).items@, action, now, *final(app), *final(rt), final(fx).items@, w),
{
    let first = match action {
        Action::Nav(_) | Action::DropToggle(_) | Action::ActivityAddConfirm | Action::WidgetModeToggle
        | Action::WidgetRefresh | Action::WidgetOpen | Action::WidgetModule(_) => true,
        _ => false,
    };
    if first {
        commit_edit(app, rt, fx, now);
        let ghost rm = *rt;
        let w = settle_ui(rt, action);
        assert(committed(*old(app), *old(rt), old(fx).items@, now, *app, rm, fx.items@));
        w
    } else {
        apply_plain_ui(app, rt, action, now)
    }
}

} // verus!

verus! {

/// Whether `action` is one of the timer and countdown actions.
pub open spec fn is_timing_action(action: Action) -> bool {
    ||| action is TimerMode
    ||| action is TimerToggle
    ||| action is TimerSkip
    ||| action is TimerReset
    ||| action is PomoStage
    ||| action is PomoToggle
    ||| action is PomoSkip
    ||| action is PomoReset
    ||| action is PresetApply
}

/// Whether `action` is one of the preset and activity-list actions.
pub open spec fn is_preset_action(action: Action) -> bool {
    ||| action is NumberStep
    ||| action is NumberEdit
    ||| action is PresetNew
    ||| action is PresetNameEdit
    ||| action is PresetSave
    ||| action is PresetDelete
    ||| action is UploadSound
    ||| action is PresetSwitch
    ||| action is ActivityDelete
}

/// Whether `action` is one of the history page's actions.
pub open spec fn is_history_action(action: Action) -> bool {
    ||| action is ToggleSelect
    ||| action is SelectAll
    ||| action is BatchDelete
    ||| action is FilterReset
    ||| action is CalendarToggle
    ||| action is CalendarPrev
    ||| action is CalendarNext
    ||| action is CalendarPickDay
    ||| action is CalendarClear
    ||| action is CalendarApply
}

/// Whether `action` can be carried out on `a` and `r` at `now` without running out of room:
/// a preset to work with, and the conditions of the action's own group (the timer and
/// countdown actions, the preset actions, the calendar, and room for one more theme where a
/// theme is added).
pub open spec fn apply_room(a: App, r: Runtime, action: Action, now: u64) -> bool {
    &&& a.presets@.len() > 0
    &&& is_timing_action(action) ==> timing_room(a, now)
    &&& is_preset_action(action) ==> preset_room(a, r, action, now)
    &&& is_history_action(action) ==> history_room(r, action)
    &&& action is ThemeCustomNew ==> a.visual.custom_themes@.len() < usize::MAX
    &&& action is ThemeSavePreset ==> a.visual.saved_presets@.len() < usize::MAX
}

/// What carrying out `action` at clock reading `now` (local time `clock`) does, by group (see
/// `timing_done`, `preset_done`, `visual_done`, `history_done` and `interface_done`).
pub open spec fn action_done(a0: App, r0: Runtime, fx0: Seq<Effect>, action: Action, now: u64, clock: LocalTime, a1: App, r1: Runtime, fx1: Seq<Effect>, w: HostWork) -> bool {
    if is_timing_action(action) {
        timing_done(a0, r0, fx0, action, now, clock, a1, r1, fx1) && w == no_work()
    } else if is_preset_action(action) {
        preset_done(a0, r0, fx0, action, now, a1, r1, fx1, w)
    } else if is_visual_action(action) {
        visual_done(a0, r0, fx0, action, a1, r1, fx1, w)
    } else if is_history_action(action) {
        history_done(a0, r0, fx0, action, clock, a1, r1, fx1, w)
    } else {
        interface_done(a0, r0, fx0, action, now, a1, r1, fx1, w)
    }
}

/// Carries out one user action at clock reading `now`, the local time being `clock`: changes the
/// saved state and the interface state, queues notices and sounds in `fx`, and returns the work
/// left for the host (see `action_done`).
pub fn apply(app: &mut App, rt: &mut Runtime, action: Action, now: u64, clock: &LocalTime, fx: &mut Effects) -> (w: HostWork)
    requires
        apply_room(*old(app), *old(rt), action, now),
    ensures
        action_done(*old(app), *old(rt), old(fx).items@, action, now, *clock, *final(app), *final(rt), final(fx).items@, w),
{
    match action {
        Action::TimerMode(_) | Action::TimerToggle | Action::TimerSkip | Action::TimerReset
        | Action::PomoStage(_) | Action::PomoToggle | Action::PomoSkip | Action::PomoReset
        | Action::PresetApply => {
            apply_timing(app, rt, action, now, clock, fx);
            idle_work()
        },
        Action::NumberStep(..) | Action::NumberEdit(_) | Action::PresetNew | Action::PresetNameEdit
        | Action::PresetSave | Action::PresetDelete | Action::UploadSound | Action::PresetSwitch(_)
        | Action::ActivityDelete(_) => apply_preset_action(app, rt, action, now, fx),
        Action::ThemeBuiltin(_) | Action::ThemeCustomUse(_) | Action::ThemeCustomDelete(_)
        | Action::ThemeCustomNew | Action::ThemeSavedUse(_) | Action::ThemeSavedDelete(_)
        | Action::ThemeSavePreset | Action::ThemeNameEdit(_) | Action::ColorPick(_) => {
            apply_theme_action(app, rt, action, fx)
        },
        Action::VisualMode(_) | Action::ToggleHideNumber | Action::ToggleHideAllText | Action::ToggleDarkMode
        | Action::ToggleFollowSystem | Action::ToggleBareUi | Action::WidgetLock => toggle_display(app, action),
        Action::WindowSize(_) | Action::WidgetClose | Action::WidgetVisible(_) | Action::WidgetTopmost
        | Action::WidgetClickThrough => set_window(app, rt, action),
        Action::FontFamily(_) | Action::SliderFontSize | Action::SliderFontWeight | Action::SliderWidgetScale
        | Action::SliderWidgetFontSize | Action::SliderWidgetFontWeight => idle_work(),
        Action::ToggleSelect(_) | Action::SelectAll(_) | Action::BatchDelete | Action::FilterReset => {
            apply_selection(app, rt, action, fx)
        },
        Action::CalendarToggle | Action::CalendarPrev | Action::CalendarNext | Action::CalendarPickDay(_)
        | Action::CalendarClear | Action::CalendarApply => apply_calendar(app, rt, action, clock),
        _ => apply_interface(app, rt, action, now, fx),
    }
}

} // verus!
