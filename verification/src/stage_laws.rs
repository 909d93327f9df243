use vstd::prelude::*;

use crate::app::{finished, group_seconds, pomo_skipped, App};
use crate::clock::LocalTime;
use crate::model::{filter_matches, Effect, Filter, Group, HistoryItem, Kind, RunStatus, Stage};

verus! {

/// Whether the countdown of `a`, moving on from its current stage, goes to a rest: a focus is
/// always followed by a rest, a short rest by the long rest once the preset's rounds (at least
/// one) are done, and otherwise a rest is followed by a focus.
pub open spec fn rest_comes_next(a: App) -> bool {
    let rounds = if a.current_preset().cycle >= 1 { a.current_preset().cycle as int } else { 1 };
    a.pomodoro.stage == Stage::Focus || (a.pomodoro.stage == Stage::ShortRest && a.pomodoro.cycle + 1 > rounds)
}

/// The automatic start that moving on from `a` at `now` sets: half a second later when the
/// preset's switch for the kind of stage moved to (`auto_rest` for a rest, `auto_focus` for a
/// focus) is on, none otherwise.
pub open spec fn next_auto_start(a: App, now: u64) -> Option<u64> {
    let on = if rest_comes_next(a) { a.current_preset().auto_rest } else { a.current_preset().auto_focus };
    if on { Some((now + 500) as u64) } else { None }
}

/// Law: after a countdown stage is completed, the next stage is set to start by itself exactly
/// when the preset's switch for that next stage is on (the switch of the stage that just ended
/// plays no part); a stage cut short never sets an automatic start. A completed focus goes on to
/// the short rest when the short rest has a length.
pub proof fn law_completed_stage_starts_next_by_its_switch(a: App, b: App, completed: bool, now: u64, clock: LocalTime)
    requires
        a.presets@.len() > 0,
        finished(a, b, completed, now, clock),
    ensures
        completed ==> b.pomodoro.auto_start_at == next_auto_start(a, now),
        !completed ==> b.pomodoro.auto_start_at is None,
        completed && a.pomodoro.stage == Stage::Focus
            && crate::model::preset_minutes(a.current_preset(), Stage::ShortRest) > 0
            ==> b.pomodoro.stage == Stage::ShortRest,
{
    let p = a.current_preset();
    if completed && a.pomodoro.stage == Stage::Focus && crate::model::preset_minutes(p, Stage::ShortRest) > 0 {
        assert(crate::app::settle(Stage::ShortRest, a.pomodoro.cycle as int, p, crate::app::skip_limit(p))
            == (Stage::ShortRest, a.pomodoro.cycle as int));
    }
}

/// Law: after a skip, the stage moved to starts by itself exactly when the preset's switch for
/// that stage is on, whatever the switch of the stage skipped from (for an idle countdown, or
/// one on a stage that has a length).
pub proof fn law_skip_starts_next_by_its_switch(a: App, fx0: Seq<Effect>, now: u64, clock: LocalTime, b: App, fx1: Seq<Effect>)
    requires
        a.presets@.len() > 0,
        pomo_skipped(a, fx0, now, clock, b, fx1),
        a.pomodoro.status == RunStatus::Idle || crate::model::preset_minutes(a.current_preset(), a.pomodoro.stage) > 0,
    ensures
        b.pomodoro.auto_start_at == next_auto_start(a, now),
{
    let p = a.current_preset();
    if a.pomodoro.status != RunStatus::Idle {
        assert(crate::app::settle(a.pomodoro.stage, a.pomodoro.cycle as int, p, crate::app::skip_limit(p))
            == (a.pomodoro.stage, a.pomodoro.cycle as int));
    }
}

/// Law: a history filter that sets only a group lets a record through exactly when the record
/// is a focus (for the focus group) or any kind of rest, count-up, short or long (for the rest
/// group).
pub proof fn law_group_filter_by_kind(f: Filter, item: HistoryItem, g: Group)
    requires
        f.group == Some(g),
        f.event is None,
        f.date_start is None,
        f.date_end is None,
    ensures
        filter_matches(f, item) == (if g == Group::Focus { item.kind == Kind::Focus } else { item.kind != Kind::Focus }),
{
}

/// The seconds of all records of `h`.
pub open spec fn all_seconds(h: Seq<HistoryItem>) -> int
    decreases h.len(),
{
    if h.len() == 0 { 0 } else { all_seconds(h.drop_last()) + h.last().seconds }
}

/// Law: the focus time and the rest time of a history together are all of its time.
pub proof fn law_focus_and_rest_make_all_time(h: Seq<HistoryItem>)
    ensures
        group_seconds(h, Group::Focus) + group_seconds(h, Group::Rest) == all_seconds(h),
    decreases h.len(),
{
    if h.len() > 0 {
        law_focus_and_rest_make_all_time(h.drop_last());
    }
}

/// Law: a single record counts as focus time when it is a focus, and as rest time when it is
/// any kind of rest (count-up, short or long).
pub proof fn law_one_record_counts_by_kind(x: HistoryItem)
    ensures
        group_seconds(seq![x], Group::Focus) == (if x.kind == Kind::Focus { x.seconds as int } else { 0 }),
        group_seconds(seq![x], Group::Rest) == (if x.kind == Kind::Focus { 0 } else { x.seconds as int }),
{
    let s = seq![x];
    assert(s.drop_last() =~= Seq::<HistoryItem>::empty());
    assert(s.last() == x);
    assert(group_seconds(s.drop_last(), Group::Focus) == 0);
    assert(group_seconds(s.drop_last(), Group::Rest) == 0);
}

/// Law: the time of a group in two runs of records put together is the sum of their times.
pub proof fn law_group_time_adds_up(h1: Seq<HistoryItem>, h2: Seq<HistoryItem>, g: Group)
    ensures
        group_seconds(h1 + h2, g) == group_seconds(h1, g) + group_seconds(h2, g),
    decreases h2.len(),
{
    if h2.len() > 0 {
        law_group_time_adds_up(h1, h2.drop_last(), g);
        assert((h1 + h2).drop_last() =~= h1 + h2.drop_last());
    } else {
        assert(h1 + h2 =~= h1);
    }
}

/// Law: stepping a preset number by `delta` (see `actions::step_preset`) moves it by exactly
/// `delta` when the result stays between the setting's smallest value and 999, and never
/// leaves that range.
pub proof fn law_step_moves_by_delta(v: u32, delta: i32, min: u32)
    requires
        v <= i32::MAX,
        min <= 999,
    ensures
        min <= v + delta <= 999 ==> crate::actions::stepped(v, delta, min) == v + delta,
        v + delta < min ==> crate::actions::stepped(v, delta, min) == min,
        v + delta > 999 ==> crate::actions::stepped(v, delta, min) == 999,
{
}

/// Law: one step up and one step down bring a preset number back, while it stays in range.
pub proof fn law_step_up_then_down(v: u32, min: u32)
    requires
        min <= v < 999,
    ensures
        crate::actions::stepped(crate::actions::stepped(v, 1, min), -1i32, min) == v,
        crate::actions::stepped(v, 1, min) == v + 1,
{
}

} // verus!
