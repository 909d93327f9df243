use vstd::prelude::*;

use crate::app::{cycle_target, has_timed_stage, next_stage, rested, visible};
use crate::model::{
    filter_is_empty, pomo_remaining, pomo_toggled, preset_minutes, timer_elapsed, timer_toggled,
    Filter, HistoryItem, PomodoroState, Preset, RunStatus, Stage, TimerState,
};

verus! {

/// Law: toggling the count-up timer at `now` never changes the time it shows at `now`
/// (when it was running, or was stopped with no run in progress).
pub proof fn law_timer_toggle_keeps_count(a: TimerState, b: TimerState, now: u64)
    requires
        timer_toggled(a, b, now),
        a.status == RunStatus::Running || a.started_at is None,
    ensures
        timer_elapsed(b, now) == timer_elapsed(a, now),
{
}

/// Law: a paused count-up timer stands still, and once resumed it counts on from where it
/// stood, as if the pause had not happened.
pub proof fn law_timer_pause_resume(a: TimerState, b: TimerState, c: TimerState, now: u64, later: u64, t: u64)
    requires
        a.status == RunStatus::Running,
        timer_toggled(a, b, now),
        timer_toggled(b, c, later),
        later <= t,
    ensures
        timer_elapsed(b, t) == timer_elapsed(a, now),
        timer_elapsed(c, t) == timer_elapsed(a, now) + (t - later),
{
}

/// Law: pausing a running countdown at `now` and resuming it at `later` moves its deadline
/// back by exactly the length of the pause, as long as time was left when it paused.
pub proof fn law_pomodoro_pause_resume(
    a: PomodoroState,
    b: PomodoroState,
    c: PomodoroState,
    now: u64,
    later: u64,
)
    requires
        a.status == RunStatus::Running,
        a.deadline is Some,
        a.deadline->0 > now,
        now <= later,
        a.deadline->0 + (later - now) <= u64::MAX,
        pomo_toggled(a, b, now),
        pomo_toggled(b, c, later),
    ensures
        pomo_remaining(b, later) == pomo_remaining(a, now),
        c.deadline == Some((a.deadline->0 + (later - now)) as u64),
        pomo_remaining(c, later) == pomo_remaining(a, now),
{
}

/// The stage and round after `n` moves from `stage` in round `cycle`.
pub open spec fn stages_after(stage: Stage, cycle: int, target: int, n: nat) -> (Stage, int)
    decreases n,
{
    if n == 0 {
        (stage, cycle)
    } else {
        let prev = stages_after(stage, cycle, target, (n - 1) as nat);
        next_stage(prev.0, prev.1, target)
    }
}

proof fn lemma_stages_in_cycle(target: int, k: nat)
    requires
        target >= 1,
        k < target,
    ensures
        stages_after(Stage::Focus, 1, target, 2 * k) == (Stage::Focus, k + 1int),
        stages_after(Stage::Focus, 1, target, 2 * k + 1) == (Stage::ShortRest, k + 1int),
    decreases k,
{
    if k > 0 {
        lemma_stages_in_cycle(target, (k - 1) as nat);
        assert(stages_after(Stage::Focus, 1, target, (2 * k - 1) as nat) == (Stage::ShortRest, k as int));
    }
    assert(stages_after(Stage::Focus, 1, target, 2 * k + 1) == next_stage(
        stages_after(Stage::Focus, 1, target, 2 * k).0,
        stages_after(Stage::Focus, 1, target, 2 * k).1,
        target,
    ));
}

/// Law: with `target` rounds to a cycle, starting from the focus of round 1, the countdown
/// alternates focus and short rest round by round, reaches the long rest after exactly
/// `2 * target` moves, and is back at the focus of round 1 after `2 * target + 1`.
pub proof fn law_stage_cycle(p: Preset)
    ensures
        ({
            let t = cycle_target(p);
            &&& forall|k: nat| k < t ==> #[trigger] stages_after(Stage::Focus, 1, t, 2 * k) == (Stage::Focus, k + 1int)
            &&& forall|k: nat| k < t ==> #[trigger] stages_after(Stage::Focus, 1, t, 2 * k + 1) == (Stage::ShortRest, k + 1int)
            &&& stages_after(Stage::Focus, 1, t, (2 * t) as nat) == (Stage::LongRest, 1int)
            &&& stages_after(Stage::Focus, 1, t, (2 * t + 1) as nat) == (Stage::Focus, 1int)
        }),
{
    let t = cycle_target(p);
    assert forall|k: nat| k < t implies #[trigger] stages_after(Stage::Focus, 1, t, 2 * k) == (Stage::Focus, k + 1int) by {
        lemma_stages_in_cycle(t, k);
    }
    assert forall|k: nat| k < t implies #[trigger] stages_after(Stage::Focus, 1, t, 2 * k + 1) == (Stage::ShortRest, k + 1int) by {
        lemma_stages_in_cycle(t, k);
    }
    lemma_stages_in_cycle(t, (t - 1) as nat);
    assert(stages_after(Stage::Focus, 1, t, (2 * t - 1) as nat) == (Stage::ShortRest, t));
    assert(stages_after(Stage::Focus, 1, t, (2 * t) as nat) == next_stage(
        stages_after(Stage::Focus, 1, t, (2 * t - 1) as nat).0,
        stages_after(Stage::Focus, 1, t, (2 * t - 1) as nat).1,
        t,
    ));
    assert(stages_after(Stage::Focus, 1, t, (2 * t + 1) as nat) == next_stage(
        stages_after(Stage::Focus, 1, t, (2 * t) as nat).0,
        stages_after(Stage::Focus, 1, t, (2 * t) as nat).1,
        t,
    ));
}

/// Law: moving on keeps the round number within the cycle: from a round between 1 and the
/// number of rounds, the next stage's round is again between them.
pub proof fn law_round_stays_in_cycle(p: Preset, stage: Stage, cycle: int)
    requires
        1 <= cycle <= cycle_target(p),
    ensures
        1 <= next_stage(stage, cycle, cycle_target(p)).1 <= cycle_target(p),
{
}

/// Law: a stage of length zero means "skip it": when some stage of the preset has a length,
/// skipping from any stage and round reaches a stage that has a length.
pub proof fn law_skipping_reaches_timed_stage(p: Preset, stage: Stage, cycle: int)
    requires
        has_timed_stage(p),
        cycle >= 0,
    ensures
        preset_minutes(p, rested(stage, cycle, p).0) > 0,
{
    crate::app::lemma_rested_timed(stage, cycle, p);
}

/// Law: when some stage of the preset in use has a length, applying the preset rests the
/// countdown, idle, on a stage that has a length, with that stage's whole length left.
pub proof fn law_apply_lands_on_timed_stage(a: crate::app::App, b: crate::app::App)
    requires
        crate::app::applied(a, b),
        has_timed_stage(a.current_preset()),
    ensures
        preset_minutes(a.current_preset(), b.pomodoro.stage) > 0,
        b.pomodoro.total_ms == preset_minutes(a.current_preset(), b.pomodoro.stage) * 60_000,
        b.pomodoro.remaining_ms == b.pomodoro.total_ms,
        b.pomodoro.status == RunStatus::Idle,
{
}

/// Law: with an empty filter, the history shows every record.
pub proof fn law_empty_filter_shows_all(h: Seq<HistoryItem>, f: Filter)
    requires
        filter_is_empty(f),
    ensures
        visible(h, f) == h,
    decreases h.len(),
{
    reveal(Seq::filter);
    if h.len() > 0 {
        law_empty_filter_shows_all(h.drop_last(), f);
        assert(h.drop_last().push(h.last()) =~= h);
    }
}

} // verus!

verus! {

/// Whether the inline edit going on (if any) has a session number other than the next one to be
/// handed out.
pub open spec fn sessions_fresh(r: crate::runtime::Runtime) -> bool {
    r.edit matches Some(e) ==> e.id != r.next_edit_id
}

/// Law: starting a new inline edit retires the one it replaces: notices still carrying the old
/// session number are ignored from then on, and the new session is again fresh.
pub proof fn law_new_edit_retires_old_session(
    r0: crate::runtime::Runtime,
    r1: crate::runtime::Runtime,
    target: crate::action::EditTarget,
    text: Seq<char>,
    select_all: bool,
)
    requires
        sessions_fresh(r0),
        crate::dispatch::began(r0, r1, target, text, select_all),
    ensures
        r0.edit matches Some(e) ==> !crate::actions::edit_session_is(r1, e.id),
        sessions_fresh(r1),
{
}

/// Law: while something counts, the heartbeat lands on whole seconds: from a reading at least
/// 40 ms before the next whole second, the next beat falls exactly on it.
pub proof fn law_fast_beat_on_the_second(now: u64)
    requires
        now % 1000 <= 960,
    ensures
        (now + crate::host::beat_interval(now)) % 1000 == 0,
{
}

/// Law: stepping a numeric preset setting always leaves it between its smallest value (1 for
/// the rounds, 0 for the lengths) and 999.
pub proof fn law_step_stays_in_range(v: u32, delta: i32, target: crate::action::NumberTarget)
    ensures
        crate::actions::number_min(target) <= crate::actions::stepped(v, delta, crate::actions::number_min(target)) <= 999,
{
}

/// Law: two clicks outside the desktop widget's buttons, with nothing open, bring back the look
/// it had.
pub proof fn law_widget_clicks_undo(m: crate::runtime::WidgetMode)
    ensures
        crate::widget::clicked_mode(crate::widget::clicked_mode(m)) == m,
{
}

/// Law: ticking the box of a record that is not selected, and ticking it again, leaves the
/// selection as it was. (For a selected record that is not last in the selection, the second
/// tick adds it back at the end instead of where it was.)
pub proof fn law_select_twice_undoes(s: Seq<u64>, id: u64)
    requires
        !s.contains(id),
    ensures
        crate::dispatch::toggled_selection(crate::dispatch::toggled_selection(s, id), id) == s,
{
    let t = s.push(id);
    assert(t.contains(id)) by {
        assert(t[s.len() as int] == id);
    }
    crate::dispatch::lemma_first_idx(t, id);
    assert(!s.contains(id));
    let k = crate::dispatch::first_idx(t, id);
    if k < s.len() {
        assert(t[k] == s[k]);
        assert(s.contains(id));
    }
    assert(t.remove(s.len() as int) =~= s);
}

} // verus!

verus! {

/// Law: a preset that was just added, deleted again, leaves the preset list as it was.
pub proof fn law_new_preset_deleted_again(
    a0: crate::app::App, r0: crate::runtime::Runtime, fx0: Seq<crate::model::Effect>, now: u64,
    a1: crate::app::App, r1: crate::runtime::Runtime, fx1: Seq<crate::model::Effect>, w1: crate::dispatch::HostWork,
    a2: crate::app::App, r2: crate::runtime::Runtime, fx2: Seq<crate::model::Effect>, w2: crate::dispatch::HostWork,
)
    requires
        0 < a0.presets@.len() < usize::MAX,
        crate::dispatch::preset_done(a0, r0, fx0, crate::action::Action::PresetNew, now, a1, r1, fx1, w1),
        crate::dispatch::preset_done(a1, r1, fx1, crate::action::Action::PresetDelete, now, a2, r2, fx2, w2),
    ensures
        a2.presets@ == a0.presets@,
{
    let am = choose|am: crate::app::App| {
        &&& #[trigger] crate::app::applied(am, a1)
        &&& am.presets@.len() == a0.presets@.len() + 1
        &&& am.presets@.drop_last() == a0.presets@
        &&& am == (crate::app::App { presets: am.presets, active_preset: a0.presets@.len() as usize, ..a0 })
    };
    assert(a1.presets == am.presets);
    assert(a1.active_preset == a0.presets@.len());
    assert(a1.active_index() == a0.presets@.len());
    assert(a1.presets@.remove(a0.presets@.len() as int) =~= a0.presets@);
}

/// Law: a custom theme that was just added, deleted again, leaves the custom theme list as it
/// was.
pub proof fn law_new_theme_deleted_again(
    a0: crate::app::App, r0: crate::runtime::Runtime, fx0: Seq<crate::model::Effect>,
    a1: crate::app::App, r1: crate::runtime::Runtime, fx1: Seq<crate::model::Effect>, w1: crate::dispatch::HostWork,
    a2: crate::app::App, r2: crate::runtime::Runtime, fx2: Seq<crate::model::Effect>, w2: crate::dispatch::HostWork,
)
    requires
        a0.visual.custom_themes@.len() < usize::MAX,
        crate::dispatch::visual_done(a0, r0, fx0, crate::action::Action::ThemeCustomNew, a1, r1, fx1, w1),
        crate::dispatch::visual_done(a1, r1, fx1,
            crate::action::Action::ThemeCustomDelete(a0.visual.custom_themes@.len() as usize), a2, r2, fx2, w2),
    ensures
        a2.visual.custom_themes@ == a0.visual.custom_themes@,
{
    assert(a1.visual.custom_themes@.remove(a0.visual.custom_themes@.len() as int) =~= a0.visual.custom_themes@);
}

/// Law: opening and closing a section (or closing and opening it) leaves the sections as they
/// were.
pub proof fn law_section_twice_undoes(
    a0: crate::app::App, r0: crate::runtime::Runtime, fx0: Seq<crate::model::Effect>, now: u64,
    section: crate::action::Section,
    a1: crate::app::App, r1: crate::runtime::Runtime, fx1: Seq<crate::model::Effect>, w1: crate::dispatch::HostWork,
    a2: crate::app::App, r2: crate::runtime::Runtime, fx2: Seq<crate::model::Effect>, w2: crate::dispatch::HostWork,
)
    requires
        r0.sections@.len() == 9,
        crate::dispatch::interface_done(a0, r0, fx0, crate::action::Action::ToggleSection(section), now, a1, r1, fx1, w1),
        crate::dispatch::interface_done(a1, r1, fx1, crate::action::Action::ToggleSection(section), now, a2, r2, fx2, w2),
    ensures
        r2.sections@ == r0.sections@,
{
    let i = crate::action::section_index(section) as int;
    assert(r2.sections@ =~= r0.sections@);
}

/// Which of a theme's eight colours field number `i` names: 0 to 6 name their own, any other
/// number names the text colour.
pub open spec fn colour_slot(i: int) -> int {
    if 0 <= i < 7 { i } else { 7 }
}

/// Law: a colour picked for a theme field reads back as the colour written (see
/// `ThemeColors::set_field`, `actions::apply_color` and `actions::current_color_text`), and
/// the other colours of the theme stay as they were.
pub proof fn law_picked_colour_reads_back(t: crate::color::ThemeView, field: int, other: int, value: Seq<char>)
    ensures
        crate::color::theme_field_of(crate::color::theme_with_field(t, field, value), field) == value,
        colour_slot(other) != colour_slot(field) ==> crate::color::theme_field_of(
            crate::color::theme_with_field(t, field, value), other) == crate::color::theme_field_of(t, other),
{
}

/// Whether `r1` is `r0` with an inline edit just begun (as `actions::begin_edit` and every
/// action that starts an edit do, see `dispatch::began`): the edit takes the next session
/// number, and the counter moves on by one.
pub open spec fn edit_begun(r0: crate::runtime::Runtime, r1: crate::runtime::Runtime) -> bool {
    &&& r1.edit is Some
    &&& r1.edit->0.id == r0.next_edit_id
    &&& r1.next_edit_id == r0.next_edit_id.wrapping_add(1)
}

/// The session number counted `k` on from `start`, wrapping once past the largest.
pub open spec fn id_after(start: u64, k: int) -> int {
    if start + k <= u64::MAX { start + k } else { start + k - 0x1_0000_0000_0000_0000 }
}

proof fn lemma_ids_counted(rs: Seq<crate::runtime::Runtime>, k: int)
    requires
        rs.len() <= 0x1_0000_0000_0000_0000,
        forall|i: int| 0 < i < rs.len() ==> #[trigger] edit_begun(rs[i - 1], rs[i]),
        0 <= k < rs.len(),
    ensures
        rs[k].next_edit_id == id_after(rs[0].next_edit_id, k),
    decreases k,
{
    if k > 0 {
        lemma_ids_counted(rs, k - 1);
        assert(edit_begun(rs[k - 1], rs[k]));
    }
}

/// Law: in a run of fewer than 2^64 inline edits begun one after the other, no two edits share
/// a session number, so a notice carrying an earlier session's number never matches a later
/// edit; and while the counter has not wrapped, a later edit has the larger number.
pub proof fn law_edit_sessions_distinct(rs: Seq<crate::runtime::Runtime>, i: int, j: int)
    requires
        rs.len() <= 0x1_0000_0000_0000_0000,
        forall|k: int| 0 < k < rs.len() ==> #[trigger] edit_begun(rs[k - 1], rs[k]),
        0 < i < j < rs.len(),
    ensures
        rs[i].edit->0.id != rs[j].edit->0.id,
        rs[0].next_edit_id + (j - 1) <= u64::MAX ==> rs[i].edit->0.id < rs[j].edit->0.id,
{
    assert(edit_begun(rs[i - 1], rs[i]));
    assert(edit_begun(rs[j - 1], rs[j]));
    lemma_ids_counted(rs, i - 1);
    lemma_ids_counted(rs, j - 1);
}

/// Every `actions::begin_edit` begins an edit in the sense of `edit_begun`.
pub proof fn lemma_began_is_edit_begun(
    r0: crate::runtime::Runtime,
    r1: crate::runtime::Runtime,
    target: crate::action::EditTarget,
    text: Seq<char>,
    select_all: bool,
)
    requires
        crate::dispatch::began(r0, r1, target, text, select_all),
    ensures
        edit_begun(r0, r1),
{
}

/// The widget's look after its minus / plus button: running goes to standing by, anything else
/// to running.
pub open spec fn mode_toggled(m: crate::runtime::WidgetMode) -> crate::runtime::WidgetMode {
    if m == crate::runtime::WidgetMode::Running {
        crate::runtime::WidgetMode::Idle
    } else {
        crate::runtime::WidgetMode::Running
    }
}

/// Law: the widget's minus / plus button (after committing any inline edit) switches it
/// between running and standing by and closes any drop-down and edit; pressed twice from
/// running or from standing by unclicked, it brings the look back.
pub proof fn law_widget_mode_toggle(
    a0: crate::app::App, r0: crate::runtime::Runtime, fx0: Seq<crate::model::Effect>, now: u64,
    a1: crate::app::App, r1: crate::runtime::Runtime, fx1: Seq<crate::model::Effect>, w1: crate::dispatch::HostWork,
    a2: crate::app::App, r2: crate::runtime::Runtime, fx2: Seq<crate::model::Effect>, w2: crate::dispatch::HostWork,
)
    requires
        crate::dispatch::interface_done(a0, r0, fx0, crate::action::Action::WidgetModeToggle, now, a1, r1, fx1, w1),
        crate::dispatch::interface_done(a1, r1, fx1, crate::action::Action::WidgetModeToggle, now, a2, r2, fx2, w2),
    ensures
        r1.widget_mode == mode_toggled(r0.widget_mode),
        r1.open_drop is None,
        r1.edit is None,
        r2.widget_mode == mode_toggled(mode_toggled(r0.widget_mode)),
        r0.widget_mode != crate::runtime::WidgetMode::Standby ==> r2.widget_mode == r0.widget_mode,
{
    let rm = choose|rm: crate::runtime::Runtime| #[trigger] crate::actions::committed(a0, r0, fx0, now, a1, rm, fx1)
        && crate::dispatch::ui_settled(rm, crate::action::Action::WidgetModeToggle, r1, w1);
    let rn = choose|rn: crate::runtime::Runtime| #[trigger] crate::actions::committed(a1, r1, fx1, now, a2, rn, fx2)
        && crate::dispatch::ui_settled(rn, crate::action::Action::WidgetModeToggle, r2, w2);
    crate::invariants::lemma_commit_keeps_widget(a0, r0, fx0, now, a1, rm, fx1);
    crate::invariants::lemma_commit_keeps_widget(a1, r1, fx1, now, a2, rn, fx2);
}

/// Whether no two strings of `list` are the same (as adding and renaming activities keep the
/// activity list).
pub open spec fn names_distinct(list: Seq<String>) -> bool {
    forall|i: int, j: int| 0 <= i < j < list.len() ==> (#[trigger] list[i])@ != (#[trigger] list[j])@
}

proof fn lemma_first_position_distinct(list: Seq<String>, k: int)
    requires
        names_distinct(list),
        0 <= k < list.len(),
    ensures
        crate::text::first_position(list, list[k]@) == k,
    decreases k,
{
    if k > 0 {
        assert(list[0]@ != list[k]@);
        let rest = list.drop_first();
        assert(names_distinct(rest)) by {
            assert forall|i: int, j: int| 0 <= i < j < rest.len() implies (#[trigger] rest[i])@ != (#[trigger] rest[j])@ by {
                assert(rest[i] == list[i + 1] && rest[j] == list[j + 1]);
            }
        }
        assert(rest[k - 1] == list[k]);
        lemma_first_position_distinct(rest, k - 1);
    }
}

/// Law: with no preset draft open and no activity listed twice, the entry just picked in a
/// drop-down is the one it shows as chosen (see `drops::pick` and `drops::selected`); picking
/// a history filter also clears the selection.
pub proof fn law_pick_then_selected(
    a0: crate::app::App, r0: crate::runtime::Runtime, id: crate::action::DropId, index: usize, now: u64,
    a1: crate::app::App, r1: crate::runtime::Runtime,
)
    requires
        r0.draft is None,
        a0.presets@.len() > 0,
        names_distinct(a0.activities@),
        index < crate::drops::drop_items(a0, id).len(),
        crate::drops::picked(a0, r0, id, index, now, a1, r1),
    ensures
        crate::drops::drop_selected(a1, id) == index,
        id == crate::action::DropId::FilterGroup || id == crate::action::DropId::FilterEvent ==> r1.selected@.len() == 0,
{
    lemma_font_names_distinct();
    match id {
        crate::action::DropId::FocusEvent | crate::action::DropId::ShortRestEvent
        | crate::action::DropId::LongRestEvent | crate::action::DropId::TimerActivity
        | crate::action::DropId::PomoActivity => {
            lemma_first_position_distinct(a0.activities@, index as int);
        },
        crate::action::DropId::FilterEvent => {
            if index > 0 {
                lemma_first_position_distinct(a0.activities@, index - 1);
            }
        },
        _ => {},
    }
}

proof fn lemma_font_names_distinct()
    ensures
        forall|i: int, j: int| 0 <= i < j < 5 ==> crate::drops::font_value(i) != crate::drops::font_value(j),
{
    reveal_strlit("Microsoft YaHei UI");
    reveal_strlit("Microsoft YaHei");
    reveal_strlit("PingFang SC");
    reveal_strlit("Arial");
    reveal_strlit("Georgia");
    assert(crate::drops::font_value(0).len() == 18);
    assert(crate::drops::font_value(1).len() == 15);
    assert(crate::drops::font_value(2).len() == 11);
    assert(crate::drops::font_value(3).len() == 5);
    assert(crate::drops::font_value(4).len() == 7);
}

} // verus!
