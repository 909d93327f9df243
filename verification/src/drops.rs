use vstd::prelude::*;

use crate::action::DropId;
use crate::app::{applied, App};
use crate::model::{
    pomo_remaining, sound_kind_at, sound_kind_position, sound_label, Group, Preset, RunStatus,
    SoundKind, Stage,
};
use crate::runtime::{PresetDraft, Runtime};
use crate::text::{first_position, lemma_first_position, position_of};

verus! {

/// Number of font choices.
pub const FONT_FAMILY_COUNT: usize = 5;

/// The label of font choice `i`.
pub open spec fn font_label(i: int) -> Seq<char> {
    if i == 0 {
        "系统默认"@
    } else if i == 1 {
        "微软雅黑"@
    } else if i == 2 {
        "苹方"@
    } else if i == 3 {
        "Arial"@
    } else {
        "Georgia"@
    }
}

/// The font family name of font choice `i`.
pub open spec fn font_value(i: int) -> Seq<char> {
    if i == 0 {
        "Microsoft YaHei UI"@
    } else if i == 1 {
        "Microsoft YaHei"@
    } else if i == 2 {
        "PingFang SC"@
    } else if i == 3 {
        "Arial"@
    } else {
        "Georgia"@
    }
}

/// The label and the family name of font choice `index`, if there is one.
pub fn font_family(index: usize) -> (r: Option<(&'static str, &'static str)>)
    ensures
        index < FONT_FAMILY_COUNT ==> (r matches Some((l, v)) && l@ == font_label(index as int)
            && v@ == font_value(index as int)),
        index >= FONT_FAMILY_COUNT ==> r is None,
{
    if index == 0 {
        Some(("系统默认", "Microsoft YaHei UI"))
    } else if index == 1 {
        Some(("微软雅黑", "Microsoft YaHei"))
    } else if index == 2 {
        Some(("苹方", "PingFang SC"))
    } else if index == 3 {
        Some(("Arial", "Arial"))
    } else if index == 4 {
        Some(("Georgia", "Georgia"))
    } else {
        None
    }
}

/// The texts of a list of strings.
pub open spec fn texts(list: Seq<String>) -> Seq<Seq<char>> {
    list.map_values(|s: String| s@)
}

proof fn lemma_texts_push(s: Seq<String>, x: String)
    ensures
        texts(s.push(x)) == texts(s).push(x@),
{
    assert(texts(s.push(x)) =~= texts(s).push(x@));
}

/// The entries of drop-down `id`.
pub open spec fn drop_items(app: App, id: DropId) -> Seq<Seq<char>> {
    match id {
        DropId::Preset => app.presets@.map_values(|p: Preset| p.name@),
        DropId::FocusEvent | DropId::ShortRestEvent | DropId::LongRestEvent => texts(app.activities@),
        DropId::SoundKind => seq![sound_label(SoundKind::Bell), sound_label(SoundKind::Ding),
            sound_label(SoundKind::Chime), sound_label(SoundKind::Custom)],
        DropId::FontFamily => seq![font_label(0), font_label(1), font_label(2), font_label(3), font_label(4)],
        DropId::TimerActivity | DropId::PomoActivity => texts(app.activities@),
        DropId::FilterGroup => seq!["全部类型"@, "专注"@, "休息"@],
        DropId::FilterEvent => seq!["全部事件"@] + texts(app.activities@),
    }
}

/// Position of the first string of `list` holding `value`, or 0 if none does.
pub open spec fn index_in(list: Seq<String>, value: Seq<char>) -> int {
    let p = first_position(list, value);
    if p < list.len() { p } else { 0 }
}

/// Position of the font choice whose family is `family`, or 0.
pub open spec fn font_position(family: Seq<char>) -> int {
    if family == font_value(0) {
        0
    } else if family == font_value(1) {
        1
    } else if family == font_value(2) {
        2
    } else if family == font_value(3) {
        3
    } else if family == font_value(4) {
        4
    } else {
        0
    }
}

/// The highlighted entry of drop-down `id`.
pub open spec fn drop_selected(app: App, id: DropId) -> int {
    match id {
        DropId::Preset => app.active_preset as int,
        DropId::FocusEvent => index_in(app.activities@, app.current_preset().focus_event@),
        DropId::ShortRestEvent => index_in(app.activities@, app.current_preset().short_rest_event@),
        DropId::LongRestEvent => index_in(app.activities@, app.current_preset().long_rest_event@),
        DropId::SoundKind => sound_kind_position(app.current_preset().end_sound) as int,
        DropId::FontFamily => font_position(app.visual.pomo_font_family@),
        DropId::TimerActivity => index_in(app.activities@, app.timer.activity@),
        DropId::PomoActivity => index_in(app.activities@, app.pomodoro.activity@),
        DropId::FilterGroup => match app.filter.group {
            None => 0,
            Some(Group::Focus) => 1,
            Some(Group::Rest) => 2,
        },
        DropId::FilterEvent => match app.filter.event {
            None => 0,
            Some(name) => index_in(app.activities@, name@) + 1,
        },
    }
}

/// A copy of a list of strings.
fn copy_strings(list: &Vec<String>) -> (r: Vec<String>)
    ensures
        r@ == list@,
{
    let mut r: Vec<String> = Vec::new();
    let mut i: usize = 0;
    while i < list.len()
        invariant
            i <= list@.len(),
            r@ == list@.take(i as int),
        decreases list@.len() - i,
    {
        r.push(list[i].clone());
        assert(r@ =~= list@.take(i + 1));
        i = i + 1;
    }
    assert(list@.take(i as int) =~= list@);
    r
}

/// The entries of drop-down `id`.
pub fn items(app: &App, id: DropId) -> (r: Vec<String>)
    ensures
        texts(r@) == drop_items(*app, id),
{
    match id {
        DropId::Preset => {
            let mut r: Vec<String> = Vec::new();
            let mut i: usize = 0;
            while i < app.presets.len()
                invariant
                    i <= app.presets@.len(),
                    texts(r@) == app.presets@.take(i as int).map_values(|p: Preset| p.name@),
                decreases app.presets@.len() - i,
            {
                proof {
                    assert(app.presets@.take(i + 1) =~= app.presets@.take(i as int).push(app.presets@[i as int]));
                }
                let ghost before = r@;
                r.push(app.presets[i].name.clone());
                proof {
                    lemma_texts_push(before, app.presets@[i as int].name);
                    assert(app.presets@.take(i + 1).map_values(|p: Preset| p.name@) =~= app.presets@.take(i as int).map_values(|p: Preset| p.name@).push(app.presets@[i as int].name@));
                }
                i = i + 1;
            }
            assert(app.presets@.take(i as int) =~= app.presets@);
            r
        },
        DropId::FocusEvent | DropId::ShortRestEvent | DropId::LongRestEvent | DropId::TimerActivity
        | DropId::PomoActivity => copy_strings(&app.activities),
        DropId::SoundKind => {
            let r = vec![
                String::from_str(SoundKind::Bell.label()),
                String::from_str(SoundKind::Ding.label()),
                String::from_str(SoundKind::Chime.label()),
                String::from_str(SoundKind::Custom.label()),
            ];
            assert(texts(r@) =~= drop_items(*app, id));
            r
        },
        DropId::FontFamily => {
            let r = vec![
                String::from_str("系统默认"),
                String::from_str("微软雅黑"),
                String::from_str("苹方"),
                String::from_str("Arial"),
                String::from_str("Georgia"),
            ];
            assert(texts(r@) =~= drop_items(*app, id));
            r
        },
        DropId::FilterGroup => {
            let r = vec![String::from_str("全部类型"), String::from_str("专注"), String::from_str("休息")];
            assert(texts(r@) =~= drop_items(*app, id));
            r
        },
        DropId::FilterEvent => {
            let mut r = vec![String::from_str("全部事件")];
            let mut i: usize = 0;
            while i < app.activities.len()
                invariant
                    i <= app.activities@.len(),
                    texts(r@) == seq!["全部事件"@] + texts(app.activities@.take(i as int)),
                decreases app.activities@.len() - i,
            {
                proof {
                    assert(app.activities@.take(i + 1) =~= app.activities@.take(i as int).push(app.activities@[i as int]));
                    lemma_texts_push(app.activities@.take(i as int), app.activities@[i as int]);
                }
                let ghost before = r@;
                r.push(app.activities[i].clone());
                proof {
                    lemma_texts_push(before, app.activities@[i as int]);
                    assert(texts(r@) =~= seq!["全部事件"@] + texts(app.activities@.take(i + 1)));
                }
                i = i + 1;
            }
            assert(app.activities@.take(i as int) =~= app.activities@);
            r
        },
    }
}

/// Position of the first string of `list` equal to `value`, or 0 if there is none.
pub fn index_of(list: &Vec<String>, value: &str) -> (r: usize)
    ensures
        r == index_in(list@, value@),
{
    proof {
        lemma_first_position(list@, value@);
    }
    match position_of(list, value) {
        Some(i) => i,
        None => 0,
    }
}

fn font_index(family: &str) -> (r: usize)
    ensures
        r == font_position(family@),
{
    let mut i: usize = 0;
    while i < FONT_FAMILY_COUNT
        invariant
            i <= FONT_FAMILY_COUNT,
            forall|j: int| 0 <= j < i ==> font_value(j) != family@,
        decreases FONT_FAMILY_COUNT - i,
    {
        if let Some((_, value)) = font_family(i) {
            if crate::text::str_eq(value, family) {
                return i;
            }
        }
        i = i + 1;
    }
    0
}

/// The highlighted entry of drop-down `id`.
pub fn selected(app: &App, id: DropId) -> (r: usize)
    requires
        app.presets@.len() > 0,
    ensures
        r == drop_selected(*app, id),
{
    match id {
        DropId::Preset => app.active_preset,
        DropId::FocusEvent => index_of(&app.activities, app.preset().focus_event.as_str()),
        DropId::ShortRestEvent => index_of(&app.activities, app.preset().short_rest_event.as_str()),
        DropId::LongRestEvent => index_of(&app.activities, app.preset().long_rest_event.as_str()),
        DropId::SoundKind => app.preset().end_sound.position(),
        DropId::FontFamily => font_index(app.visual.pomo_font_family.as_str()),
        DropId::TimerActivity => index_of(&app.activities, app.timer.activity.as_str()),
        DropId::PomoActivity => index_of(&app.activities, app.pomodoro.activity.as_str()),
        DropId::FilterGroup => match app.filter.group {
            None => 0,
            Some(Group::Focus) => 1,
            Some(Group::Rest) => 2,
        },
        DropId::FilterEvent => match &app.filter.event {
            None => 0,
            Some(name) => {
                let n = app.activities.len();
                proof {
                    lemma_first_position(app.activities@, name@);
                }
                index_of(&app.activities, name.as_str()) + 1
            },
        },
    }
}

/// The text shown in drop-down `id`: its highlighted entry, or nothing.
pub fn current_label(app: &App, id: DropId) -> (r: String)
    requires
        app.presets@.len() > 0,
    ensures
        r@ == (if 0 <= drop_selected(*app, id) < drop_items(*app, id).len() {
            drop_items(*app, id)[drop_selected(*app, id)]
        } else {
            Seq::<char>::empty()
        }),
{
    let list = items(app, id);
    let index = selected(app, id);
    assert(texts(list@).len() == list@.len());
    if index < list.len() {
        assert(texts(list@)[index as int] == list@[index as int]@);
        list[index].clone()
    } else {
        String::new()
    }
}

/// The highlighted entry of drop-down `id`, where the preset list follows an open draft.
pub fn selected_with(app: &App, rt: &Runtime, id: DropId) -> (r: usize)
    requires
        app.presets@.len() > 0,
    ensures
        r == (if id == DropId::Preset && rt.draft is Some {
            rt.draft->0.index as int
        } else {
            drop_selected(*app, id)
        }),
{
    if id == DropId::Preset {
        if let Some(draft) = &rt.draft {
            return draft.index;
        }
    }
    selected(app, id)
}

} // verus!

verus! {

/// Whether `b` equals `a` but for its presets and countdown.
pub open spec fn same_but_presets_pomodoro(a: App, b: App) -> bool {
    &&& a.version == b.version
    &&& a.active_preset == b.active_preset
    &&& a.activities == b.activities
    &&& a.history == b.history
    &&& a.filter == b.filter
    &&& a.visual == b.visual
    &&& a.timer == b.timer
}

/// Whether drop-down `id` writes into an open draft rather than into the state.
pub open spec fn draft_drop(id: DropId) -> bool {
    id == DropId::Preset || id == DropId::FocusEvent || id == DropId::ShortRestEvent
        || id == DropId::LongRestEvent || id == DropId::SoundKind
}

/// `p` with the event of the stage that drop-down `id` sets replaced by `name`.
pub open spec fn with_event(p: Preset, id: DropId, name: String) -> Preset {
    if id == DropId::FocusEvent {
        Preset { focus_event: name, ..p }
    } else if id == DropId::ShortRestEvent {
        Preset { short_rest_event: name, ..p }
    } else {
        Preset { long_rest_event: name, ..p }
    }
}

/// Whether picking `id` in the draft leaves draft `d1` from draft `d0`: another preset loads
/// that preset into the draft; an event or a sound is written into the draft's preset; an
/// entry past the end changes nothing.
pub open spec fn draft_picked(app: App, d0: PresetDraft, id: DropId, index: usize, d1: PresetDraft) -> bool {
    match id {
        DropId::Preset => if index < app.presets@.len() {
            d1.index == index && d1.preset == app.presets@[index as int]
        } else {
            d1 == d0
        },
        DropId::SoundKind => if index < 4 {
            d1 == (PresetDraft { preset: Preset { end_sound: sound_kind_at(index as int), ..d0.preset }, ..d0 })
        } else {
            d1 == d0
        },
        _ => if index < app.activities@.len() {
            d1 == (PresetDraft { preset: with_event(d0.preset, id, app.activities@[index as int]), ..d0 })
        } else {
            d1 == d0
        },
    }
}

/// Whether picking entry `index` of drop-down `id` at `now` takes state `a0`, `r0` to `a1`,
/// `r1`. With a draft open, a preset, event or sound goes into the draft (see
/// `draft_picked`). Otherwise: a preset is chosen (if there is one) and applied; an event
/// becomes that stage's event of the preset in use, the countdown's activity when the
/// countdown is on that stage, and the preset is applied again if the countdown is idle and
/// has not started; a sound, font or activity is set; a group or event filter is set and the
/// selection cleared. Entries past the end change nothing.
pub open spec fn picked(a0: App, r0: Runtime, id: DropId, index: usize, now: u64, a1: App, r1: Runtime) -> bool {
    if r0.draft is Some && draft_drop(id) {
        &&& a1 == a0
        &&& r1 == (Runtime { draft: r1.draft, ..r0 })
        &&& r1.draft is Some
        &&& draft_picked(a0, r0.draft->0, id, index, r1.draft->0)
    } else {
        match id {
            DropId::Preset => {
                let chosen = App {
                    active_preset: if index < a0.presets@.len() { index } else { a0.active_preset },
                    ..a0
                };
                r1 == r0 && crate::app::applied(chosen, a1)
            },
            DropId::FocusEvent | DropId::ShortRestEvent | DropId::LongRestEvent => {
                if index < a0.activities@.len() {
                    let name = a0.activities@[index as int];
                    let stage_hit = (id == DropId::FocusEvent && a0.pomodoro.stage == Stage::Focus)
                        || (id == DropId::ShortRestEvent && a0.pomodoro.stage == Stage::ShortRest)
                        || (id == DropId::LongRestEvent && a0.pomodoro.stage == Stage::LongRest);
                    let p1 = with_event(a0.current_preset(), id, name);
                    let mid = if stage_hit {
                        crate::model::PomodoroState { activity: name, ..a0.pomodoro }
                    } else {
                        a0.pomodoro
                    };
                    &&& r1 == r0
                    &&& a1.presets@ == a0.presets@.update(a0.active_index(), p1)
                    &&& same_but_presets_pomodoro(a0, a1)
                    &&& (if mid.status == RunStatus::Idle && pomo_remaining(mid, now) == mid.total_ms {
                        crate::app::rests_at(p1, mid.stage, mid.cycle as int, mid.activity@, a1.pomodoro)
                            && a1.pomodoro.auto_start_at is None
                    } else {
                        a1.pomodoro == mid
                    })
                } else {
                    a1 == a0 && r1 == r0
                }
            },
            DropId::SoundKind => {
                &&& r1 == r0
                &&& if index < 4 {
                    &&& a1 == App { presets: a1.presets, ..a0 }
                    &&& a1.presets@ == a0.presets@.update(a0.active_index(),
                        Preset { end_sound: sound_kind_at(index as int), ..a0.current_preset() })
                } else {
                    a1 == a0
                }
            },
            DropId::FontFamily => {
                &&& r1 == r0
                &&& if index < FONT_FAMILY_COUNT {
                    &&& a1 == App { visual: a1.visual, ..a0 }
                    &&& a1.visual == crate::app::Visual { pomo_font_family: a1.visual.pomo_font_family, ..a0.visual }
                    &&& a1.visual.pomo_font_family@ == font_value(index as int)
                } else {
                    a1 == a0
                }
            },
            DropId::TimerActivity => {
                &&& r1 == r0
                &&& if index < a0.activities@.len() {
                    a1 == App { timer: crate::model::TimerState { activity: a0.activities@[index as int], ..a0.timer }, ..a0 }
                } else {
                    a1 == a0
                }
            },
            DropId::PomoActivity => {
                &&& r1 == r0
                &&& if index < a0.activities@.len() {
                    a1 == App { pomodoro: crate::model::PomodoroState { activity: a0.activities@[index as int], ..a0.pomodoro }, ..a0 }
                } else {
                    a1 == a0
                }
            },
            DropId::FilterGroup => {
                &&& r1 == Runtime { selected: r1.selected, ..r0 }
                &&& r1.selected@.len() == 0
                &&& a1 == App {
                    filter: crate::model::Filter {
                        group: if index == 1 {
                            Some(Group::Focus)
                        } else if index == 2 {
                            Some(Group::Rest)
                        } else {
                            None
                        },
                        ..a0.filter
                    },
                    ..a0
                }
            },
            DropId::FilterEvent => {
                &&& r1 == Runtime { selected: r1.selected, ..r0 }
                &&& r1.selected@.len() == 0
                &&& a1 == App {
                    filter: crate::model::Filter {
                        event: if index == 0 || index - 1 >= a0.activities@.len() {
                            None
                        } else {
                            Some(a0.activities@[index - 1])
                        },
                        ..a0.filter
                    },
                    ..a0
                }
            },
        }
    }
}

/// Writes a pick into the open draft; says whether the drop-down is one the draft takes.
fn pick_draft(app: &App, rt: &mut Runtime, id: DropId, index: usize) -> (r: bool)
    requires
        old(rt).draft is Some,
    ensures
        r == draft_drop(id),
        r ==> final(rt).draft is Some && draft_picked(*app, old(rt).draft->0, id, index, final(rt).draft->0)
            && *final(rt) == (Runtime { draft: final(rt).draft, ..*old(rt) }),
        !r ==> *final(rt) == *old(rt),
{
    match id {
        DropId::Preset => {
            if index < app.presets.len() {
                let preset = app.presets[index].clone();
                if let Some(draft) = rt.draft.as_mut() {
                    draft.index = index;
                    draft.preset = preset;
                }
            }
            true
        },
        DropId::FocusEvent | DropId::ShortRestEvent | DropId::LongRestEvent => {
            if index < app.activities.len() {
                let name = app.activities[index].clone();
                if let Some(draft) = rt.draft.as_mut() {
                    match id {
                        DropId::FocusEvent => draft.preset.focus_event = name,
                        DropId::ShortRestEvent => draft.preset.short_rest_event = name,
                        _ => draft.preset.long_rest_event = name,
                    }
                }
            }
            true
        },
        DropId::SoundKind => {
            if let Some(kind) = SoundKind::nth(index) {
                if let Some(draft) = rt.draft.as_mut() {
                    draft.preset.end_sound = kind;
                }
            }
            true
        },
        _ => false,
    }
}

} // verus!

verus! {

fn pick_event(app: &mut App, id: DropId, index: usize, now: u64)
    requires
        old(app).presets@.len() > 0,
        id == DropId::FocusEvent || id == DropId::ShortRestEvent || id == DropId::LongRestEvent,
    ensures
        forall|rt: Runtime| rt.draft is None ==> #[trigger] picked(*old(app), rt, id, index, now, *final(app), rt),
{
    if index >= app.activities.len() {
        return;
    }
    let name = app.activities[index].clone();
    match id {
        DropId::FocusEvent => app.preset_mut().focus_event = name.clone(),
        DropId::ShortRestEvent => app.preset_mut().short_rest_event = name.clone(),
        _ => app.preset_mut().long_rest_event = name.clone(),
    }
    let stage = app.pomodoro.stage;
    let affects_stage = match (id, stage) {
        (DropId::FocusEvent, Stage::Focus) => true,
        (DropId::ShortRestEvent, Stage::ShortRest) => true,
        (DropId::LongRestEvent, Stage::LongRest) => true,
        _ => false,
    };
    if affects_stage {
        app.pomodoro.activity = name;
    }
    app.refresh_preset_if_idle(now);
}

fn pick_setting(app: &mut App, id: DropId, index: usize)
    requires
        old(app).presets@.len() > 0,
        id == DropId::SoundKind || id == DropId::FontFamily || id == DropId::TimerActivity
            || id == DropId::PomoActivity,
    ensures
        forall|rt: Runtime, now: u64| !(rt.draft is Some && draft_drop(id)) ==> #[trigger] picked(*old(app), rt, id, index, now, *final(app), rt),
{
    match id {
        DropId::SoundKind => {
            if let Some(kind) = SoundKind::nth(index) {
                app.preset_mut().end_sound = kind;
            }
        },
        DropId::FontFamily => {
            if let Some((_, value)) = font_family(index) {
                app.visual.pomo_font_family = String::from_str(value);
            }
        },
        _ => {
            if index < app.activities.len() {
                let name = app.activities[index].clone();
                if id == DropId::TimerActivity {
                    app.timer.activity = name;
                } else {
                    app.pomodoro.activity = name;
                }
            }
        },
    }
}

/// Picks entry `index` of drop-down `id` at clock reading `now` (see `picked`).
pub fn pick(app: &mut App, rt: &mut Runtime, id: DropId, index: usize, now: u64)
    requires
        old(app).presets@.len() > 0,
    ensures
        picked(*old(app), *old(rt), id, index, now, *final(app), *final(rt)),
{
    if rt.draft.is_some() && pick_draft(app, rt, id, index) {
        return;
    }
    match id {
        DropId::Preset => {
            app.select_preset(index);
            app.apply_preset();
        },
        DropId::FocusEvent | DropId::ShortRestEvent | DropId::LongRestEvent => {
            pick_event(app, id, index, now);
            assert(picked(*old(app), *rt, id, index, now, *app, *rt));
        },
        DropId::SoundKind | DropId::FontFamily | DropId::TimerActivity | DropId::PomoActivity => {
            pick_setting(app, id, index);
            assert(picked(*old(app), *rt, id, index, now, *app, *rt));
        },
        DropId::FilterGroup => {
            app.filter.group = if index == 1 {
                Some(Group::Focus)
            } else if index == 2 {
                Some(Group::Rest)
            } else {
                None
            };
            rt.selected.clear();
        },
        DropId::FilterEvent => {
            app.filter.event = if index == 0 {
                None
            } else if index - 1 < app.activities.len() {
                Some(app.activities[index - 1].clone())
            } else {
                None
            };
            rt.selected.clear();
        },
    }
}

} // verus!
