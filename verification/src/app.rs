use vstd::prelude::*;

use crate::clock::{self, LocalTime};
use crate::color::{builtin_view, theme_id_view, ThemeColors, ThemeId, ThemeView};
use crate::model::{
    clone_opt_string, duration_text, filter_matches, is_default_preset_body, kind_group, pomo_elapsed_sec,
    pomo_remaining, preset_event, preset_minutes, stage_kind, stage_name, DEFAULT_WINDOW_SIZE, Effect,
    Effects, Filter, Group, HistoryItem, Kind, PomodoroState, Preset, RunStatus, SoundKind, Source,
    Stage, TimerState, VisualMode, STATE_VERSION, WINDOW_SIZE_COUNT, fmt_duration, timer_elapsed,
};
use crate::text::{concat2, concat3};

verus! {

/// Display and desktop-widget settings (the font size and scale settings, which are fractional,
/// are kept by the host beside these).
pub struct Visual {
    pub mode: VisualMode,
    pub hide_number: bool,
    pub hide_all_text: bool,
    pub dark_mode: bool,
    pub follow_system: bool,
    pub theme: ThemeId,
    pub custom_index: usize,
    pub saved_index: usize,
    pub custom_themes: Vec<ThemeColors>,
    pub saved_presets: Vec<ThemeColors>,
    pub pomo_font_family: String,
    pub pomo_font_weight: u32,
    pub sound_path: String,
    /// Draw without the outer cards.
    pub bare_ui: bool,
    /// Main-window size step (0 to 3).
    pub window_size: usize,
    pub widget_visible: bool,
    /// Screen position of the desktop widget, if it was ever placed.
    pub widget_pos: Option<(i32, i32)>,
    pub widget_click_through: bool,
    pub widget_locked: bool,
    pub widget_topmost: bool,
    pub widget_font_weight: u32,
}

/// The display settings of a first start.
pub open spec fn fresh_visual(r: Visual) -> bool {
    &&& r.mode == VisualMode::Simple
    &&& !r.hide_number
    &&& !r.hide_all_text
    &&& !r.dark_mode
    &&& !r.follow_system
    &&& r.theme == ThemeId::A
    &&& r.custom_index == 0
    &&& r.saved_index == 0
    &&& r.custom_themes@.len() == 0
    &&& r.saved_presets@.len() == 0
    &&& r.pomo_font_family@ == "Microsoft YaHei UI"@
    &&& r.pomo_font_weight == 400
    &&& r.sound_path@.len() == 0
    &&& r.bare_ui
    &&& r.window_size == DEFAULT_WINDOW_SIZE
    &&& !r.widget_visible
    &&& r.widget_pos is None
    &&& !r.widget_click_through
    &&& !r.widget_locked
    &&& r.widget_topmost
    &&& r.widget_font_weight == 600
}

impl Default for Visual {
    fn default() -> (r: Self)
        ensures
            fresh_visual(r),
    {
        Visual {
            mode: VisualMode::Simple,
            hide_number: false,
            hide_all_text: false,
            dark_mode: false,
            follow_system: false,
            theme: ThemeId::A,
            custom_index: 0,
            saved_index: 0,
            custom_themes: Vec::new(),
            saved_presets: Vec::new(),
            pomo_font_family: String::from_str("Microsoft YaHei UI"),
            pomo_font_weight: 400,
            sound_path: String::new(),
            bare_ui: true,
            window_size: DEFAULT_WINDOW_SIZE,
            widget_visible: false,
            widget_pos: None,
            widget_click_through: false,
            widget_locked: false,
            widget_topmost: true,
            widget_font_weight: 600,
        }
    }
}

/// The colours in effect: the chosen custom or saved theme if it exists, built-in `A` if it
/// does not, and the chosen built-in or scheme otherwise.
pub open spec fn visual_theme_view(v: Visual, dark: bool) -> ThemeView {
    match v.theme {
        ThemeId::Custom => if v.custom_index < v.custom_themes@.len() {
            v.custom_themes@[v.custom_index as int]@
        } else {
            builtin_view("A"@, dark)
        },
        ThemeId::Saved => if v.saved_index < v.saved_presets@.len() {
            v.saved_presets@[v.saved_index as int]@
        } else {
            builtin_view("A"@, dark)
        },
        other => theme_id_view(other, dark),
    }
}

impl Visual {
    /// Dark mode as set, or as the system has it when following the system.
    pub fn effective_dark(&self, system_dark: bool) -> (r: bool)
        ensures
            r == if self.follow_system { system_dark } else { self.dark_mode },
    {
        if self.follow_system {
            system_dark
        } else {
            self.dark_mode
        }
    }

    pub fn theme_colors(&self, dark: bool) -> (r: ThemeColors)
        ensures
            r@ == visual_theme_view(*self, dark),
    {
        match self.theme {
            ThemeId::Custom => {
                if self.custom_index < self.custom_themes.len() {
                    self.custom_themes[self.custom_index].clone()
                } else {
                    ThemeColors::builtin("A", dark)
                }
            },
            ThemeId::Saved => {
                if self.saved_index < self.saved_presets.len() {
                    self.saved_presets[self.saved_index].clone()
                } else {
                    ThemeColors::builtin("A", dark)
                }
            },
            other => other.colors(dark),
        }
    }
}

/// The whole persistent state of the program.
pub struct App {
    pub version: u32,
    pub presets: Vec<Preset>,
    pub active_preset: usize,
    pub activities: Vec<String>,
    pub history: Vec<HistoryItem>,
    pub filter: Filter,
    pub visual: Visual,
    pub timer: TimerState,
    pub pomodoro: PomodoroState,
}

/// The largest id among the records, 0 for none.
pub open spec fn max_id(h: Seq<HistoryItem>) -> nat
    decreases h.len(),
{
    if h.len() == 0 {
        0
    } else {
        let rest = max_id(h.drop_last());
        if h.last().id > rest { h.last().id as nat } else { rest }
    }
}

/// How many rounds make a cycle: the preset's setting, at least one.
pub open spec fn cycle_target(p: Preset) -> int {
    if p.cycle >= 1 { p.cycle as int } else { 1 }
}

/// The stage and round that follow `stage` in round `cycle`: focus is followed by a short
/// rest in the same round; a short rest by the focus of the next round, or by a long rest
/// (and round 1) once the rounds of the cycle are done; a long rest by the focus of round 1.
pub open spec fn next_stage(stage: Stage, cycle: int, target: int) -> (Stage, int) {
    match stage {
        Stage::Focus => (Stage::ShortRest, cycle),
        Stage::ShortRest => if cycle + 1 > target {
            (Stage::LongRest, 1)
        } else {
            (Stage::Focus, cycle + 1)
        },
        Stage::LongRest => (Stage::Focus, 1),
    }
}

/// The stage reached from `stage` by skipping stages of length zero, at most `n` times.
pub open spec fn settle(stage: Stage, cycle: int, p: Preset, n: nat) -> (Stage, int)
    decreases n,
{
    if n == 0 || preset_minutes(p, stage) > 0 {
        (stage, cycle)
    } else {
        let next = next_stage(stage, cycle, cycle_target(p));
        settle(next.0, next.1, p, (n - 1) as nat)
    }
}

/// Whether some stage of `p` has a length.
pub open spec fn has_timed_stage(p: Preset) -> bool {
    preset_minutes(p, Stage::Focus) > 0 || preset_minutes(p, Stage::ShortRest) > 0
        || preset_minutes(p, Stage::LongRest) > 0
}

/// How many stages of length zero applying `p` may skip in a row: enough to reach a stage with
/// a length from anywhere (two per round of the cycle, and two more), or three when no stage
/// has a length.
pub open spec fn skip_limit(p: Preset) -> nat {
    if has_timed_stage(p) {
        (2 * cycle_target(p) + 2) as nat
    } else {
        3
    }
}

/// The stage and round where applying `p` rests from `stage` and round `cycle`: the next stage
/// that has a length (see `settle` and `skip_limit`).
pub open spec fn rested(stage: Stage, cycle: int, p: Preset) -> (Stage, int) {
    settle(stage, cycle, p, skip_limit(p))
}

/// Whether `b` equals `a` but for its presets.
pub open spec fn same_but_presets(a: App, b: App) -> bool {
    &&& a.version == b.version
    &&& a.active_preset == b.active_preset
    &&& a.activities == b.activities
    &&& a.history == b.history
    &&& a.filter == b.filter
    &&& a.visual == b.visual
    &&& a.timer == b.timer
    &&& a.pomodoro == b.pomodoro
}

/// Whether `b` equals `a` but for its countdown.
pub open spec fn same_but_pomodoro(a: App, b: App) -> bool {
    &&& a.version == b.version
    &&& a.presets == b.presets
    &&& a.active_preset == b.active_preset
    &&& a.activities == b.activities
    &&& a.history == b.history
    &&& a.filter == b.filter
    &&& a.visual == b.visual
    &&& a.timer == b.timer
}

/// `b`, `fx1` are `a`, `fx0` after the preset in use is deleted: refused with a notice when it
/// is the only one; otherwise removed, with a notice, the choice falling back to the first
/// preset when it no longer points at one.
pub open spec fn preset_deleted(a: App, fx0: Seq<Effect>, b: App, fx1: Seq<Effect>) -> bool {
    &&& a.presets@.len() <= 1 ==> b == a && toasted(fx0, fx1, "至少保留一个方案"@)
    &&& a.presets@.len() > 1 ==> {
        &&& b.presets@ == a.presets@.remove(a.active_index())
        &&& b.active_preset == if a.active_preset >= b.presets@.len() { 0 } else { a.active_preset }
        &&& toasted(fx0, fx1, "已删除方案"@)
    }
    &&& same_but_presets(b, App { active_preset: b.active_preset, ..a })
}

impl App {
    /// Index of the preset in use: the chosen one, or the last one if the choice is past the
    /// end.
    pub open spec fn active_index(self) -> int {
        let last = if self.presets@.len() == 0 { 0 } else { self.presets@.len() - 1 };
        if self.active_preset < last { self.active_preset as int } else { last }
    }

    /// The preset in use.
    pub open spec fn current_preset(self) -> Preset {
        self.presets@[self.active_index()]
    }

    pub fn preset(&self) -> (r: &Preset)
        requires
            self.presets@.len() > 0,
        ensures
            *r == self.current_preset(),
    {
        let last = self.presets.len() - 1;
        let idx = if self.active_preset < last { self.active_preset } else { last };
        &self.presets[idx]
    }

    pub fn preset_mut(&mut self) -> (r: &mut Preset)
        requires
            old(self).presets@.len() > 0,
        ensures
            *r == old(self).current_preset(),
            final(self).presets@ == old(self).presets@.update(old(self).active_index(), *final(r)),
            same_but_presets(*old(self), *final(self)),
    {
        let last = self.presets.len() - 1;
        let idx = if self.active_preset < last { self.active_preset } else { last };
        &mut self.presets[idx]
    }

    /// Chooses preset `index` if there is one.
    pub fn select_preset(&mut self, index: usize)
        ensures
            final(self).active_preset == if index < old(self).presets@.len() {
                index
            } else {
                old(self).active_preset
            },
            final(self).presets == old(self).presets,
            same_but_presets(*final(self), App { active_preset: final(self).active_preset, ..*old(self) }),
    {
        if index < self.presets.len() {
            self.active_preset = index;
        }
    }

    /// Appends a fresh preset and chooses it.
    pub fn add_preset(&mut self)
        requires
            old(self).presets@.len() < usize::MAX,
        ensures
            final(self).presets@.len() == old(self).presets@.len() + 1,
            final(self).presets@.drop_last() == old(self).presets@,
            is_default_preset_body(final(self).presets@.last()),
            final(self).presets@.last().name@ == "新方案"@,
            final(self).active_preset == old(self).presets@.len(),
            same_but_presets(*final(self), App { active_preset: final(self).active_preset, ..*old(self) }),
    {
        self.presets.push(Preset::default());
        self.active_preset = self.presets.len() - 1;
    }

    /// Removes the preset in use, unless it is the only one; the choice falls back to the
    /// first preset when it no longer points at one.
    pub fn delete_preset(&mut self, fx: &mut Effects)
        ensures
            preset_deleted(*old(self), old(fx).items@, *final(self), final(fx).items@),
    {
        if self.presets.len() <= 1 {
            fx.toast(String::from_str("至少保留一个方案"));
            return;
        }
        let last = self.presets.len() - 1;
        let idx = if self.active_preset < last { self.active_preset } else { last };
        self.presets.remove(idx);
        if self.active_preset >= self.presets.len() {
            self.active_preset = 0;
        }
        fx.toast(String::from_str("已删除方案"));
    }

    /// One more than the largest record id.
    pub fn next_history_id(&self) -> (r: u64)
        requires
            max_id(self.history@) < u64::MAX,
        ensures
            r == max_id(self.history@) + 1,
    {
        let mut m: u64 = 0;
        let mut i: usize = 0;
        while i < self.history.len()
            invariant
                i <= self.history@.len(),
                m == max_id(self.history@.take(i as int)),
            decreases self.history@.len() - i,
        {
            assert(self.history@.take(i + 1).drop_last() =~= self.history@.take(i as int));
            if self.history[i].id > m {
                m = self.history[i].id;
            }
            i = i + 1;
        }
        assert(self.history@.take(i as int) =~= self.history@);
        m + 1
    }
}

} // verus!

verus! {

/// `b` is `a` with its countdown moved on by `advance_stage`.
pub open spec fn advanced(a: App, b: App) -> bool {
    let next = next_stage(a.pomodoro.stage, a.pomodoro.cycle as int, cycle_target(a.current_preset()));
    &&& same_but_pomodoro(a, b)
    &&& b.pomodoro == PomodoroState { stage: next.0, cycle: next.1 as u32, ..a.pomodoro }
}

/// The activity a countdown takes on at `stage`: the stage's event, unless that is empty.
pub open spec fn mapped_activity(p: Preset, stage: Stage, prev: Seq<char>) -> Seq<char> {
    if preset_event(p, stage).len() > 0 {
        preset_event(p, stage)
    } else {
        prev
    }
}

/// Whether countdown `q` rests at the stage reached from `stage` and round `cycle` by skipping
/// the stages of `p` of length zero (see `rested`): idle, at the full length of that stage,
/// and with that stage's activity (see `mapped_activity`). When some stage of `p` has a length,
/// the stage reached is one that has a length; when none has, it is a stage of length zero,
/// run for a minute.
pub open spec fn rests_at(p: Preset, stage: Stage, cycle: int, activity: Seq<char>, q: PomodoroState) -> bool {
    let s = rested(stage, cycle, p);
    let m = preset_minutes(p, s.0);
    let total = (if m >= 1 { m as int } else { 1 }) * 60_000;
    &&& q.stage == s.0
    &&& q.cycle == s.1
    &&& has_timed_stage(p) ==> preset_minutes(p, q.stage) > 0
        && q.total_ms == preset_minutes(p, q.stage) * 60_000
    &&& q.total_ms == total
    &&& q.remaining_ms == total
    &&& q.status == RunStatus::Idle
    &&& q.deadline is None
    &&& q.activity@ == mapped_activity(p, s.0, activity)
}

/// `b` is `a` with the preset in use applied to its countdown from stage `stage` and round
/// `cycle` (see `rests_at`), with no automatic start pending.
pub open spec fn applied_from(a: App, stage: Stage, cycle: int, b: App) -> bool {
    &&& same_but_pomodoro(a, b)
    &&& rests_at(a.current_preset(), stage, cycle, a.pomodoro.activity@, b.pomodoro)
    &&& b.pomodoro.auto_start_at is None
}

/// `b` is `a` with the preset in use applied to its countdown (see `applied_from`).
pub open spec fn applied(a: App, b: App) -> bool {
    applied_from(a, a.pomodoro.stage, a.pomodoro.cycle as int, b)
}

proof fn lemma_settle_step(stage: Stage, cycle: int, p: Preset, n: nat)
    requires
        preset_minutes(p, stage) == 0,
    ensures
        settle(stage, cycle, p, n + 1) == settle(
            next_stage(stage, cycle, cycle_target(p)).0,
            next_stage(stage, cycle, cycle_target(p)).1,
            p,
            n,
        ),
{
}

/// The round reached by skipping stays between 0 and the larger of the round started from
/// and the number of rounds in a cycle.
pub proof fn lemma_settle_range(stage: Stage, cycle: int, p: Preset, n: nat)
    requires
        cycle >= 0,
    ensures
        0 <= settle(stage, cycle, p, n).1,
        settle(stage, cycle, p, n).1 <= cycle || settle(stage, cycle, p, n).1 <= cycle_target(p),
    decreases n,
{
    if n > 0 && preset_minutes(p, stage) == 0 {
        let next = next_stage(stage, cycle, cycle_target(p));
        lemma_settle_range(next.0, next.1, p, (n - 1) as nat);
    }
}

/// Once skipping has reached a stage with a length, more room to skip changes nothing.
proof fn lemma_settle_done(stage: Stage, cycle: int, p: Preset, n: nat, m: nat)
    requires
        preset_minutes(p, settle(stage, cycle, p, n).0) > 0,
        n <= m,
    ensures
        settle(stage, cycle, p, m) == settle(stage, cycle, p, n),
    decreases n,
{
    if preset_minutes(p, stage) == 0 {
        if n == 0 {
        } else {
            let next = next_stage(stage, cycle, cycle_target(p));
            lemma_settle_done(next.0, next.1, p, (n - 1) as nat, (m - 1) as nat);
        }
    }
}

/// Moves from `stage` in round `cycle` to the long rest when only the long rest has a length.
pub open spec fn long_rest_distance(stage: Stage, cycle: int, target: int) -> int {
    let from_short = if cycle + 1 > target { 1 } else { 2 * (target - cycle) + 1 };
    match stage {
        Stage::LongRest => 0,
        Stage::ShortRest => from_short,
        Stage::Focus => from_short + 1,
    }
}

pub open spec fn stage_rank(stage: Stage) -> int {
    match stage {
        Stage::LongRest => 0,
        Stage::ShortRest => 1,
        Stage::Focus => 2,
    }
}

/// With only the long rest of length, skipping reaches it within `long_rest_distance` moves.
proof fn lemma_long_rest_reached(stage: Stage, cycle: int, p: Preset, n: nat)
    requires
        preset_minutes(p, Stage::Focus) == 0,
        preset_minutes(p, Stage::ShortRest) == 0,
        preset_minutes(p, Stage::LongRest) > 0,
        cycle >= 0,
        n >= long_rest_distance(stage, cycle, cycle_target(p)),
    ensures
        settle(stage, cycle, p, n).0 == Stage::LongRest,
    decreases (if cycle < cycle_target(p) { cycle_target(p) - cycle } else { 0 }), stage_rank(stage),
{
    let t = cycle_target(p);
    match stage {
        Stage::LongRest => {},
        Stage::ShortRest => {
            if cycle + 1 > t {
                assert(settle(stage, cycle, p, n) == settle(Stage::LongRest, 1, p, (n - 1) as nat));
            } else {
                assert(settle(stage, cycle, p, n) == settle(Stage::Focus, cycle + 1, p, (n - 1) as nat));
                lemma_long_rest_reached(Stage::Focus, cycle + 1, p, (n - 1) as nat);
            }
        },
        Stage::Focus => {
            assert(settle(stage, cycle, p, n) == settle(Stage::ShortRest, cycle, p, (n - 1) as nat));
            lemma_long_rest_reached(Stage::ShortRest, cycle, p, (n - 1) as nat);
        },
    }
}

/// With a focus or short rest of length, three skips reach a stage with a length.
proof fn lemma_three_skips_reach(p: Preset, stage: Stage, cycle: int)
    requires
        preset_minutes(p, Stage::Focus) > 0 || preset_minutes(p, Stage::ShortRest) > 0,
    ensures
        preset_minutes(p, settle(stage, cycle, p, 3).0) > 0,
{
    let t = cycle_target(p);
    let n1 = next_stage(stage, cycle, t);
    let n2 = next_stage(n1.0, n1.1, t);
    if preset_minutes(p, stage) > 0 {
        assert(settle(stage, cycle, p, 3) == (stage, cycle));
    } else {
        assert(settle(stage, cycle, p, 3) == settle(n1.0, n1.1, p, 2));
        if preset_minutes(p, n1.0) > 0 {
            assert(settle(n1.0, n1.1, p, 2) == (n1.0, n1.1));
        } else {
            assert(settle(n1.0, n1.1, p, 2) == settle(n2.0, n2.1, p, 1));
            assert(preset_minutes(p, n2.0) > 0);
            assert(settle(n2.0, n2.1, p, 1) == (n2.0, n2.1));
        }
    }
}

/// When some stage of `p` has a length, applying `p` rests on such a stage.
pub proof fn lemma_rested_timed(stage: Stage, cycle: int, p: Preset)
    requires
        has_timed_stage(p),
        cycle >= 0,
    ensures
        preset_minutes(p, rested(stage, cycle, p).0) > 0,
{
    let n = skip_limit(p);
    if preset_minutes(p, Stage::Focus) > 0 || preset_minutes(p, Stage::ShortRest) > 0 {
        lemma_three_skips_reach(p, stage, cycle);
        lemma_settle_done(stage, cycle, p, 3, n);
    } else {
        lemma_long_rest_reached(stage, cycle, p, n);
    }
}

proof fn lemma_settle_stop(stage: Stage, cycle: int, p: Preset, n: nat)
    requires
        preset_minutes(p, stage) > 0,
    ensures
        settle(stage, cycle, p, n) == (stage, cycle),
{
}

impl App {
    /// Moves the countdown on to the stage that follows (see `next_stage`).
    pub fn advance_stage(&mut self)
        requires
            old(self).presets@.len() > 0,
        ensures
            advanced(*old(self), *final(self)),
    {
        let target = if self.preset().cycle >= 1 { self.preset().cycle } else { 1 };
        match self.pomodoro.stage {
            Stage::Focus => self.pomodoro.stage = Stage::ShortRest,
            Stage::ShortRest => {
                if self.pomodoro.cycle >= target {
                    self.pomodoro.stage = Stage::LongRest;
                    self.pomodoro.cycle = 1;
                } else {
                    self.pomodoro.stage = Stage::Focus;
                    self.pomodoro.cycle = self.pomodoro.cycle + 1;
                }
            },
            Stage::LongRest => {
                self.pomodoro.stage = Stage::Focus;
                self.pomodoro.cycle = 1;
            },
        }
    }

    /// Takes the event of the current stage as the countdown's activity, unless it is empty.
    pub fn map_activity(&mut self)
        requires
            old(self).presets@.len() > 0,
        ensures
            same_but_pomodoro(*old(self), *final(self)),
            final(self).pomodoro == (PomodoroState { activity: final(self).pomodoro.activity, ..old(self).pomodoro }),
            final(self).pomodoro.activity@ == (if preset_event(old(self).current_preset(), old(self).pomodoro.stage).len() > 0 {
                preset_event(old(self).current_preset(), old(self).pomodoro.stage)
            } else {
                old(self).pomodoro.activity@
            }),
    {
        let stage = self.pomodoro.stage;
        let mapped = String::from_str(self.preset().event_for(stage));
        if mapped.as_str().unicode_len() > 0 {
            self.pomodoro.activity = mapped;
        }
    }

    /// Applies the preset in use again: the stages of length zero are skipped up to the next
    /// stage that has a length (see `rested`), and the countdown rests at the full length of
    /// the stage reached.
    pub fn apply_preset(&mut self)
        requires
            old(self).presets@.len() > 0,
        ensures
            applied(*old(self), *final(self)),
    {
        let ghost orig = *self;
        let ghost p = orig.current_preset();
        let timed = self.preset().minutes_for(Stage::Focus) > 0 || self.preset().minutes_for(Stage::ShortRest) > 0
            || self.preset().minutes_for(Stage::LongRest) > 0;
        let target: u64 = if self.preset().cycle >= 1 { self.preset().cycle as u64 } else { 1 };
        let limit: u64 = if timed { 2 * target + 2 } else { 3 };
        assert(limit == skip_limit(p));
        let mut i: u64 = 0;
        while i < limit
            invariant
                0 <= i <= limit,
                limit == skip_limit(p),
                p == orig.current_preset(),
                self.presets@.len() > 0,
                same_but_pomodoro(orig, *self),
                self.pomodoro == (PomodoroState { stage: self.pomodoro.stage, cycle: self.pomodoro.cycle, ..orig.pomodoro }),
                rested(orig.pomodoro.stage, orig.pomodoro.cycle as int, p)
                    == settle(self.pomodoro.stage, self.pomodoro.cycle as int, p, (limit - i) as nat),
            ensures
                self.presets@.len() > 0,
                same_but_pomodoro(orig, *self),
                self.pomodoro == (PomodoroState { stage: self.pomodoro.stage, cycle: self.pomodoro.cycle, ..orig.pomodoro }),
                rested(orig.pomodoro.stage, orig.pomodoro.cycle as int, p)
                    == (self.pomodoro.stage, self.pomodoro.cycle as int),
            decreases limit - i,
        {
            if self.preset().minutes_for(self.pomodoro.stage) > 0 {
                proof {
                    lemma_settle_stop(self.pomodoro.stage, self.pomodoro.cycle as int, p, (limit - i) as nat);
                }
                break;
            }
            proof {
                lemma_settle_step(self.pomodoro.stage, self.pomodoro.cycle as int, p, (limit - i - 1) as nat);
            }
            self.advance_stage();
            i = i + 1;
        }
        proof {
            if has_timed_stage(p) {
                lemma_rested_timed(orig.pomodoro.stage, orig.pomodoro.cycle as int, p);
            }
        }
        let stage = self.pomodoro.stage;
        let m = self.preset().minutes_for(stage);
        let minutes = if m >= 1 { m } else { 1 };
        self.pomodoro.total_ms = minutes as u64 * 60_000;
        self.pomodoro.remaining_ms = self.pomodoro.total_ms;
        self.pomodoro.status = RunStatus::Idle;
        self.pomodoro.deadline = None;
        self.pomodoro.auto_start_at = None;
        self.map_activity();
    }

    /// After a preset is edited: applies it again only while the countdown is idle and has not
    /// started.
    pub fn refresh_preset_if_idle(&mut self, now: u64)
        requires
            old(self).presets@.len() > 0,
        ensures
            (if old(self).pomodoro.status == RunStatus::Idle && pomo_remaining(old(self).pomodoro, now)
                == old(self).pomodoro.total_ms {
                applied(*old(self), *final(self))
            } else {
                *final(self) == *old(self)
            }),
    {
        if self.pomodoro.status == RunStatus::Idle && self.pomodoro.remaining_ms(now) == self.pomodoro.total_ms {
            self.apply_preset();
        }
    }
}

} // verus!

verus! {

/// Whether `item` is the record with these fields, dated by clock reading `clock`.
pub open spec fn is_record(
    item: HistoryItem,
    id: int,
    name: Seq<char>,
    kind: Kind,
    seconds: int,
    clock: LocalTime,
    completed: bool,
    source: Source,
) -> bool {
    &&& item.id == id
    &&& item.name@ == name
    &&& item.kind == kind
    &&& item.seconds == seconds
    &&& item.date@ == clock::date_text(clock.year as nat, clock.month as nat, clock.day as nat)
    &&& item.time@ == clock::stamp_text(clock)
    &&& item.completed == completed
    &&& item.source == source
}

/// `after` is `before` with such a record put in front, under the next free id.
pub open spec fn recorded(
    before: Seq<HistoryItem>,
    after: Seq<HistoryItem>,
    name: Seq<char>,
    kind: Kind,
    seconds: int,
    clock: LocalTime,
    completed: bool,
    source: Source,
) -> bool {
    &&& after.len() == before.len() + 1
    &&& after.skip(1) == before
    &&& is_record(after[0], max_id(before) + 1int, name, kind, seconds, clock, completed, source)
}

/// Whether `b` equals `a` but for its history.
pub open spec fn same_but_history(a: App, b: App) -> bool {
    &&& a.version == b.version
    &&& a.presets == b.presets
    &&& a.active_preset == b.active_preset
    &&& a.activities == b.activities
    &&& a.filter == b.filter
    &&& a.visual == b.visual
    &&& a.timer == b.timer
    &&& a.pomodoro == b.pomodoro
}

/// Whether `b` equals `a` but for its history and countdown.
pub open spec fn same_but_history_pomodoro(a: App, b: App) -> bool {
    &&& a.version == b.version
    &&& a.presets == b.presets
    &&& a.active_preset == b.active_preset
    &&& a.activities == b.activities
    &&& a.filter == b.filter
    &&& a.visual == b.visual
    &&& a.timer == b.timer
}

/// Whether `b` equals `a` but for its history and count-up timer.
pub open spec fn same_but_history_timer(a: App, b: App) -> bool {
    &&& a.version == b.version
    &&& a.presets == b.presets
    &&& a.active_preset == b.active_preset
    &&& a.activities == b.activities
    &&& a.filter == b.filter
    &&& a.visual == b.visual
    &&& a.pomodoro == b.pomodoro
}

/// The stage and round a countdown goes on from after it ends: the next one when the stage
/// was completed, the same one when it was cut short.
pub open spec fn stage_after_finish(a: App, completed: bool) -> (Stage, int) {
    if completed {
        next_stage(a.pomodoro.stage, a.pomodoro.cycle as int, cycle_target(a.current_preset()))
    } else {
        (a.pomodoro.stage, a.pomodoro.cycle as int)
    }
}

/// Whether the preset starts `stage` by itself.
pub open spec fn auto_starts(p: Preset, stage: Stage) -> bool {
    if stage == Stage::Focus { p.auto_focus } else { p.auto_rest }
}

/// `b` is `a` after its countdown ended at `now`, completed or cut short: the seconds spent
/// (if any) are recorded under the countdown's activity, the countdown goes on from the stage
/// of `stage_after_finish` and rests there, and after a completed stage the next one is set to
/// start by itself half a second later when the preset says so.
pub open spec fn finished(a: App, b: App, completed: bool, now: u64, clock: LocalTime) -> bool {
    let p = a.current_preset();
    let e = pomo_elapsed_sec(a.pomodoro, now);
    let s1 = stage_after_finish(a, completed);
    &&& same_but_history_pomodoro(a, b)
    &&& e > 0 ==> recorded(a.history@, b.history@, a.pomodoro.activity@, stage_kind(a.pomodoro.stage), e, clock, completed, Source::Pomodoro)
    &&& e == 0 ==> b.history == a.history
    &&& rests_at(p, s1.0, s1.1, a.pomodoro.activity@, b.pomodoro)
    &&& b.pomodoro.auto_start_at == (if completed && auto_starts(p, s1.0) {
        Some((now + 500) as u64)
    } else {
        None
    })
}

/// The message shown after a countdown ends with `seconds` spent.
pub open spec fn finish_text(completed: bool, activity: Seq<char>, seconds: nat) -> Seq<char> {
    if completed {
        "完成！"@ + activity + " · "@ + duration_text(seconds)
    } else {
        "已结束并保存："@ + activity + " · "@ + duration_text(seconds)
    }
}

/// `after` is `before` with one message of text `text` added.
pub open spec fn toasted(before: Seq<Effect>, after: Seq<Effect>, text: Seq<char>) -> bool {
    &&& after.len() == before.len() + 1
    &&& after.drop_last() == before
    &&& after.last() is Toast
    &&& after.last()->Toast_0@ == text
}

impl App {
    /// Records a session at the front of the history, under the next free id, dated by the
    /// clock reading `clock`.
    pub fn add_history(
        &mut self,
        name: String,
        kind: Kind,
        seconds: u64,
        completed: bool,
        source: Source,
        clock: &LocalTime,
    ) -> (r: HistoryItem)
        requires
            max_id(old(self).history@) < u64::MAX,
        ensures
            recorded(old(self).history@, final(self).history@, name@, kind, seconds as int, *clock, completed, source),
            r == final(self).history@[0],
            same_but_history(*old(self), *final(self)),
    {
        let item = HistoryItem {
            id: self.next_history_id(),
            name,
            kind,
            seconds,
            date: clock::today(clock),
            time: clock::stamp(clock),
            completed,
            source,
        };
        let ghost before = self.history@;
        self.history.insert(0, item.clone());
        assert(self.history@.skip(1) =~= before);
        item
    }

    /// Ends the countdown at `now`, completed or cut short (see `finished`), and says so when
    /// time was recorded.
    pub fn finish_pomodoro(&mut self, completed: bool, now: u64, clock: &LocalTime, fx: &mut Effects)
        requires
            old(self).presets@.len() > 0,
            now + 500 <= u64::MAX,
            pomo_elapsed_sec(old(self).pomodoro, now) > 0 ==> max_id(old(self).history@) < u64::MAX,
        ensures
            finished(*old(self), *final(self), completed, now, *clock),
            pomo_elapsed_sec(old(self).pomodoro, now) > 0 ==> toasted(old(fx).items@, final(fx).items@,
                finish_text(completed, old(self).pomodoro.activity@, pomo_elapsed_sec(old(self).pomodoro, now) as nat)),
            pomo_elapsed_sec(old(self).pomodoro, now) == 0 ==> final(fx).items@ == old(fx).items@,
    {
        let ghost a = *self;
        let elapsed_sec = self.pomodoro.elapsed_sec(now);
        let stage = self.pomodoro.stage;
        let activity = self.pomodoro.activity.clone();
        self.pomodoro.stop();
        if elapsed_sec > 0 {
            self.add_history(activity.clone(), stage.kind(), elapsed_sec, completed, Source::Pomodoro, clock);
            let mut text = if completed {
                concat3("完成！", activity.as_str(), " · ")
            } else {
                concat3("已结束并保存：", activity.as_str(), " · ")
            };
            text.append(fmt_duration(elapsed_sec).as_str());
            assert(text@ == finish_text(completed, a.pomodoro.activity@, elapsed_sec as nat));
            fx.toast(text);
        }
        let ghost b = *self;
        assert(b.current_preset() == a.current_preset());
        if completed {
            self.advance_stage();
            let auto = if self.pomodoro.stage.is_focus() {
                self.preset().auto_focus
            } else {
                self.preset().auto_rest
            };
            self.apply_preset();
            if auto {
                self.pomodoro.auto_start_at = Some(now + 500);
            }
        } else {
            self.apply_preset();
        }
    }
}

} // verus!

verus! {

/// Where a skip goes on from: a running or paused countdown first ends cut short (see
/// `finished`), an idle one stays where it is. Gives the stage, round and activity.
pub open spec fn skip_origin(a: App) -> (Stage, int, Seq<char>) {
    let p = a.current_preset();
    if a.pomodoro.status != RunStatus::Idle {
        let s = rested(a.pomodoro.stage, a.pomodoro.cycle as int, p);
        (s.0, s.1, mapped_activity(p, s.0, a.pomodoro.activity@))
    } else {
        (a.pomodoro.stage, a.pomodoro.cycle as int, a.pomodoro.activity@)
    }
}

/// Whether a skip from `a` at `now` records the time spent first.
pub open spec fn skip_records(a: App, now: u64) -> bool {
    a.pomodoro.status != RunStatus::Idle && pomo_elapsed_sec(a.pomodoro, now) > 0
}

/// The notice shown after a skip to `stage`.
pub open spec fn skip_text(stage: Stage) -> Seq<char> {
    "已跳到「"@ + stage_name(stage) + "」"@
}

/// Whether the countdown of `a` is due at `now`: running and past its deadline.
pub open spec fn pomo_due(a: App, now: u64) -> bool {
    a.pomodoro.status == RunStatus::Running && a.pomodoro.deadline is Some
        && now >= a.pomodoro.deadline->0
}

/// The title of the notification at the end of `stage`.
pub open spec fn alert_title(stage: Stage) -> Seq<char> {
    stage_name(stage) + "结束"@
}

/// The body of the notification at the end of `stage` spent on `activity`.
pub open spec fn alert_body(activity: Seq<char>, stage: Stage) -> Seq<char> {
    activity + " · "@ + stage_name(stage) + " 已结束"@
}

/// `b`, `fx1` are `a`, `fx0` after a skip at `now`: a running or paused countdown first
/// ends cut short (its time recorded, see `finished`), then the countdown moves on to the
/// next stage and rests there; that stage starts by itself half a second later when the
/// preset says so, and a notice names it.
pub open spec fn pomo_skipped(a: App, fx0: Seq<Effect>, now: u64, clock: LocalTime, b: App, fx1: Seq<Effect>) -> bool {
    let p = a.current_preset();
    let o = skip_origin(a);
    let s1 = next_stage(o.0, o.1, cycle_target(p));
    &&& same_but_history_pomodoro(a, b)
    &&& skip_records(a, now) ==> recorded(a.history@, b.history@, a.pomodoro.activity@,
        stage_kind(a.pomodoro.stage), pomo_elapsed_sec(a.pomodoro, now), clock, false, Source::Pomodoro)
    &&& !skip_records(a, now) ==> b.history == a.history
    &&& rests_at(p, s1.0, s1.1, o.2, b.pomodoro)
    &&& b.pomodoro.auto_start_at == (if auto_starts(p, s1.0) {
        Some((now + 500) as u64)
    } else {
        None
    })
    &&& fx1.len() > 0
    &&& fx1.last() is Toast
    &&& fx1.last()->Toast_0@ == skip_text(b.pomodoro.stage)
    &&& skip_records(a, now) ==> toasted(fx0, fx1.drop_last(),
        finish_text(false, a.pomodoro.activity@, pomo_elapsed_sec(a.pomodoro, now) as nat))
    &&& !skip_records(a, now) ==> fx1.drop_last() == fx0
}

/// What `tick` does at `now`: a countdown past its deadline plays its sound, shows a
/// notification and ends completed (see `finished`); otherwise a pending automatic start that
/// is due is cleared and starts the countdown if it is idle, with a notice.
#[verifier::opaque]
pub open spec fn ticked(a0: App, fx0: Seq<Effect>, now: u64, clock: LocalTime, a1: App, fx1: Seq<Effect>) -> bool {
    &&& (pomo_due(a0, now) ==> {
        let n = fx0.len() as int;
        let mid = fx1.take(n + 2);
        let p = a0.current_preset();
        let e = pomo_elapsed_sec(a0.pomodoro, now);
        &&& finished(a0, a1, true, now, clock)
        &&& fx1.len() >= n + 2
        &&& mid.take(n) == fx0
        &&& mid[n] matches Effect::Sound { kind, path, looping }
            && kind == p.end_sound && path@ == a0.visual.sound_path@ && looping == p.sound_loop
        &&& mid[n + 1] matches Effect::Balloon { title, body }
            && title@ == alert_title(a0.pomodoro.stage)
            && body@ == alert_body(a0.pomodoro.activity@, a0.pomodoro.stage)
        &&& e > 0 ==> toasted(mid, fx1, finish_text(true, a0.pomodoro.activity@, e as nat))
        &&& e == 0 ==> fx1 == mid
    })
    &&& (!pomo_due(a0, now) ==> {
        let fires = a0.pomodoro.auto_start_at is Some && now >= a0.pomodoro.auto_start_at->0;
        let starts = fires && a0.pomodoro.status == RunStatus::Idle;
        let rem = if a0.pomodoro.remaining_ms == 0 {
            a0.pomodoro.total_ms
        } else {
            a0.pomodoro.remaining_ms
        };
        &&& !fires ==> a1 == a0 && fx1 == fx0
        &&& fires && !starts ==> same_but_pomodoro(a0, a1)
            && a1.pomodoro == (PomodoroState { auto_start_at: None, ..a0.pomodoro })
            && fx1 == fx0
        &&& starts ==> same_but_pomodoro(a0, a1)
            && a1.pomodoro == (PomodoroState {
                auto_start_at: None,
                status: RunStatus::Running,
                remaining_ms: rem,
                deadline: Some((now + rem) as u64),
                ..a0.pomodoro
            })
            && toasted(fx0, fx1, "自动开始下一个阶段"@)
    })
}

/// A tick leaves everything but the countdown and the history as it was.
pub proof fn lemma_ticked_keeps(a0: App, fx0: Seq<Effect>, now: u64, clock: LocalTime, a1: App, fx1: Seq<Effect>)
    requires
        ticked(a0, fx0, now, clock, a1, fx1),
    ensures
        same_but_history_pomodoro(a0, a1),
{
    reveal(ticked);
}

impl App {
    /// Skips to the next stage: a running or paused countdown is first ended cut short (its
    /// time is recorded); then the countdown moves on and rests at the next stage, which
    /// starts by itself half a second later when the preset says so.
    pub fn skip_pomodoro(&mut self, now: u64, clock: &LocalTime, fx: &mut Effects)
        requires
            old(self).presets@.len() > 0,
            now + 500 <= u64::MAX,
            max_id(old(self).history@) < u64::MAX,
        ensures
            pomo_skipped(*old(self), old(fx).items@, now, *clock, *final(self), final(fx).items@),
    {
        let ghost a = *self;
        if self.pomodoro.status != RunStatus::Idle {
            self.finish_pomodoro(false, now, clock, fx);
        }
        let ghost b = *self;
        assert(b.current_preset() == a.current_preset());
        self.advance_stage();
        let auto = if self.pomodoro.stage.is_focus() {
            self.preset().auto_focus
        } else {
            self.preset().auto_rest
        };
        self.apply_preset();
        self.pomodoro.auto_start_at = if auto { Some(now + 500) } else { None };
        let text = concat3("已跳到「", self.pomodoro.stage.name(), "」");
        let ghost before = fx.items@;
        fx.toast(text);
    }

    /// Stops the countdown and rests it at the start of the current stage again.
    pub fn pomodoro_reset(&mut self)
        requires
            old(self).presets@.len() > 0,
        ensures
            applied(*old(self), *final(self)),
    {
        self.pomodoro.stop();
        self.apply_preset();
    }

    /// The end-of-stage sound: the preset's kind, the custom sound file, and whether it loops.
    pub fn pomodoro_sound(&self) -> (r: (SoundKind, String, bool))
        requires
            self.presets@.len() > 0,
        ensures
            r.0 == self.current_preset().end_sound,
            r.1 == self.visual.sound_path,
            r.2 == self.current_preset().sound_loop,
    {
        let preset = self.preset();
        (preset.sound(), self.visual.sound_path.clone(), preset.sound_loop)
    }

    /// Moves the timers on to clock reading `now`. A countdown past its deadline plays its
    /// sound, shows a notification and ends completed (see `finished`); otherwise a pending
    /// automatic start that is due starts an idle countdown.
    pub fn tick(&mut self, now: u64, clock: &LocalTime, fx: &mut Effects)
        requires
            old(self).presets@.len() > 0,
            now + 500 <= u64::MAX,
            max_id(old(self).history@) < u64::MAX,
            now + (if old(self).pomodoro.remaining_ms == 0 {
                old(self).pomodoro.total_ms
            } else {
                old(self).pomodoro.remaining_ms
            }) <= u64::MAX,
        ensures
            ticked(*old(self), old(fx).items@, now, *clock, *final(self), final(fx).items@),
    {
        proof {
            reveal(ticked);
        }
        let ghost a = *self;
        let ghost fx0 = fx.items@;
        if self.pomodoro.status == RunStatus::Running {
            if let Some(deadline) = self.pomodoro.deadline {
                if now >= deadline {
                    let (kind, path, looping) = self.pomodoro_sound();
                    fx.sound(kind, path.as_str(), looping);
                    let stage = self.pomodoro.stage;
                    let title = concat2(stage.name(), "结束");
                    let mut body = concat3(self.pomodoro.activity.as_str(), " · ", stage.name());
                    body.append(" 已结束");
                    fx.balloon(title, body);
                    let ghost fx_mid = fx.items@;
                    self.finish_pomodoro(true, now, clock, fx);
                    assert(fx.items@.take(fx0.len() + 2int) =~= fx_mid);
                    assert(fx_mid.take(fx0.len() as int) =~= fx0);
                }
            }
        }
        if let Some(at) = self.pomodoro.auto_start_at {
            if now >= at {
                self.pomodoro.auto_start_at = None;
                if self.pomodoro.status == RunStatus::Idle {
                    self.pomodoro.toggle(now);
                    fx.toast(String::from_str("自动开始下一个阶段"));
                }
            }
        }
    }
}

} // verus!

verus! {

/// The notice shown after the count-up timer saved `seconds` on `activity`.
pub open spec fn timer_saved_text(activity: Seq<char>, seconds: nat) -> Seq<char> {
    "已保存："@ + activity + " · "@ + duration_text(seconds)
}

/// The notice shown after the count-up timer switched to `mode`.
pub open spec fn timer_switch_text(mode: Kind) -> Seq<char> {
    "已切到「"@ + crate::model::kind_name(mode) + "」"@
}

/// The mode the count-up timer switches to when skipped while stopped.
pub open spec fn other_mode(mode: Kind) -> Kind {
    match mode {
        Kind::Rest => Kind::Focus,
        _ => Kind::Rest,
    }
}

/// Total seconds of the records of `group`.
pub open spec fn group_seconds(items: Seq<HistoryItem>, group: Group) -> int
    decreases items.len(),
{
    if items.len() == 0 {
        0
    } else {
        group_seconds(items.drop_last(), group) + if kind_group(items.last().kind) == group {
            items.last().seconds as int
        } else {
            0
        }
    }
}

/// Seconds rounded to whole minutes (half a minute rounds up), as a 32-bit count.
pub open spec fn rounded_minutes(seconds: int) -> int {
    ((seconds + 30) / 60) % 0x1_0000_0000
}

proof fn lemma_group_seconds_bound(items: Seq<HistoryItem>, group: Group)
    ensures
        0 <= group_seconds(items, group),
    decreases items.len(),
{
    if items.len() > 0 {
        lemma_group_seconds_bound(items.drop_last(), group);
    }
}

proof fn lemma_group_seconds_prefix(items: Seq<HistoryItem>, group: Group, i: int)
    requires
        0 <= i <= items.len(),
    ensures
        group_seconds(items.take(i), group) <= group_seconds(items, group),
    decreases items.len() - i,
{
    if i < items.len() {
        lemma_group_seconds_prefix(items, group, i + 1);
        assert(items.take(i + 1).drop_last() =~= items.take(i));
    } else {
        assert(items.take(i) =~= items);
    }
}

/// `b`, `fx1` are `a`, `fx0` after the count-up timer is stopped at `now`: it is cleared,
/// the whole seconds it counted (if any) are recorded under its activity and mode, and a notice
/// says what was saved, or that nothing was.
pub open spec fn timer_ended(a: App, fx0: Seq<Effect>, now: u64, clock: LocalTime, b: App, fx1: Seq<Effect>) -> bool {
    let secs = timer_elapsed(a.timer, now) / 1000;
    &&& same_but_history_timer(a, b)
    &&& b.timer == (TimerState { accumulated_ms: 0, started_at: None, status: RunStatus::Idle, ..a.timer })
    &&& secs > 0 ==> recorded(a.history@, b.history@, a.timer.activity@, a.timer.mode, secs, clock,
        false, Source::Timer)
    &&& secs > 0 ==> toasted(fx0, fx1, timer_saved_text(a.timer.activity@, secs as nat))
    &&& secs == 0 ==> b.history == a.history
    &&& secs == 0 ==> toasted(fx0, fx1, "已跳过"@)
}

/// `b`, `fx1` are `a`, `fx0` after the timer's skip button at `now`: a counting or paused
/// timer is stopped (see `timer_ended`); a stopped one is cleared and switches between focus
/// and rest, with a notice naming the new mode.
pub open spec fn timer_skipped(a: App, fx0: Seq<Effect>, now: u64, clock: LocalTime, b: App, fx1: Seq<Effect>) -> bool {
    if a.timer.status != RunStatus::Idle {
        timer_ended(a, fx0, now, clock, b, fx1)
    } else {
        &&& same_but_history_timer(a, b)
        &&& b.history == a.history
        &&& b.timer == (TimerState {
            accumulated_ms: 0,
            started_at: None,
            status: RunStatus::Idle,
            mode: other_mode(a.timer.mode),
            ..a.timer
        })
        &&& toasted(fx0, fx1, timer_switch_text(b.timer.mode))
    }
}

impl App {
    /// Stops the count-up timer: the time counted (if any whole second) is recorded under its
    /// activity and mode; the notice says what was saved, or that nothing was.
    pub fn timer_end(&mut self, now: u64, clock: &LocalTime, fx: &mut Effects)
        requires
            timer_elapsed(old(self).timer, now) <= u64::MAX,
            timer_elapsed(old(self).timer, now) >= 1000 ==> max_id(old(self).history@) < u64::MAX,
        ensures
            timer_ended(*old(self), old(fx).items@, now, *clock, *final(self), final(fx).items@),
    {
        let seconds = self.timer.elapsed_sec(now);
        let activity = self.timer.activity.clone();
        let mode = self.timer.mode;
        self.timer.reset();
        if seconds > 0 {
            self.add_history(activity.clone(), mode, seconds, false, Source::Timer, clock);
            let mut text = concat3("已保存：", activity.as_str(), " · ");
            text.append(fmt_duration(seconds).as_str());
            fx.toast(text);
        } else {
            fx.toast(String::from_str("已跳过"));
        }
    }

    /// While counting, ends the count-up timer (see `timer_end`); while stopped, clears it and
    /// switches between focus and rest.
    pub fn timer_skip(&mut self, now: u64, clock: &LocalTime, fx: &mut Effects)
        requires
            timer_elapsed(old(self).timer, now) <= u64::MAX,
            max_id(old(self).history@) < u64::MAX,
        ensures
            timer_skipped(*old(self), old(fx).items@, now, *clock, *final(self), final(fx).items@),
    {
        if self.timer.status != RunStatus::Idle {
            self.timer_end(now, clock, fx);
            return;
        }
        self.timer.reset();
        self.timer.mode = match self.timer.mode {
            Kind::Rest => Kind::Focus,
            _ => Kind::Rest,
        };
        let text = concat3("已切到「", self.timer.mode.name(), "」");
        fx.toast(text);
    }

    /// Focus minutes and rest minutes of some records, each rounded to whole minutes.
    pub fn minutes_of(&self, items: &[&HistoryItem]) -> (r: (u32, u32))
        requires
            group_seconds(items@.map_values(|h: &HistoryItem| *h), Group::Focus) + 30 <= u64::MAX,
            group_seconds(items@.map_values(|h: &HistoryItem| *h), Group::Rest) + 30 <= u64::MAX,
        ensures
            r.0 == rounded_minutes(group_seconds(items@.map_values(|h: &HistoryItem| *h), Group::Focus)),
            r.1 == rounded_minutes(group_seconds(items@.map_values(|h: &HistoryItem| *h), Group::Rest)),
    {
        let ghost all = items@.map_values(|h: &HistoryItem| *h);
        let mut focus: u64 = 0;
        let mut rest: u64 = 0;
        let mut i: usize = 0;
        while i < items.len()
            invariant
                i <= items@.len(),
                all == items@.map_values(|h: &HistoryItem| *h),
                focus == group_seconds(all.take(i as int), Group::Focus),
                rest == group_seconds(all.take(i as int), Group::Rest),
                group_seconds(all, Group::Focus) + 30 <= u64::MAX,
                group_seconds(all, Group::Rest) + 30 <= u64::MAX,
            decreases items@.len() - i,
        {
            proof {
                assert(all.take(i + 1).drop_last() =~= all.take(i as int));
                lemma_group_seconds_prefix(all, Group::Focus, i + 1);
                lemma_group_seconds_prefix(all, Group::Rest, i + 1);
                lemma_group_seconds_bound(all.take(i as int), Group::Focus);
            }
            let item = items[i];
            match item.kind.group() {
                Group::Focus => focus = focus + item.seconds,
                Group::Rest => rest = rest + item.seconds,
            }
            i = i + 1;
        }
        assert(all.take(i as int) =~= all);
        let f = (focus + 30) / 60;
        let s = (rest + 30) / 60;
        assert(f as u32 == f % 0x1_0000_0000) by (bit_vector);
        assert(s as u32 == s % 0x1_0000_0000) by (bit_vector);
        (f as u32, s as u32)
    }
}

} // verus!

verus! {

/// The records dated `date`.
pub open spec fn dated(h: Seq<HistoryItem>, date: Seq<char>) -> Seq<HistoryItem> {
    h.filter(|x: HistoryItem| x.date@ == date)
}

/// The records that pass filter `f`.
pub open spec fn visible(h: Seq<HistoryItem>, f: Filter) -> Seq<HistoryItem> {
    h.filter(|x: HistoryItem| filter_matches(f, x))
}

/// The records whose id is not among `ids`.
pub open spec fn without_ids(h: Seq<HistoryItem>, ids: Seq<u64>) -> Seq<HistoryItem> {
    h.filter(|x: HistoryItem| !ids.contains(x.id))
}

/// Whether a loaded state is in order: at least one preset and a valid choice of one, at least
/// one activity and both timers on a listed activity, nothing counting, a countdown of positive
/// length with no more time left than that, a valid window size step, a font weight from 200 to
/// 800, and theme choices that point at a theme or are 0.
pub open spec fn normalized(a: App) -> bool {
    &&& a.presets@.len() > 0
    &&& a.active_preset < a.presets@.len()
    &&& a.activities@.len() > 0
    &&& crate::text::listed(a.activities@, a.timer.activity@)
    &&& crate::text::listed(a.activities@, a.pomodoro.activity@)
    &&& a.timer.status != RunStatus::Running
    &&& a.pomodoro.status != RunStatus::Running
    &&& a.pomodoro.deadline is None
    &&& a.pomodoro.auto_start_at is None
    &&& a.pomodoro.total_ms > 0
    &&& a.pomodoro.remaining_ms <= a.pomodoro.total_ms
    &&& a.visual.window_size < WINDOW_SIZE_COUNT
    &&& 200 <= a.visual.pomo_font_weight <= 800
    &&& (a.visual.custom_index < a.visual.custom_themes@.len() || a.visual.custom_index == 0)
    &&& (a.visual.saved_index < a.visual.saved_presets@.len() || a.visual.saved_index == 0)
}

impl App {
    /// Focus and rest minutes recorded on the date of clock reading `clock`.
    pub fn today_minutes(&self, clock: &LocalTime) -> (r: (u32, u32))
        requires
            ({
                let d = dated(self.history@, clock::date_text(clock.year as nat, clock.month as nat, clock.day as nat));
                group_seconds(d, Group::Focus) + 30 <= u64::MAX && group_seconds(d, Group::Rest) + 30 <= u64::MAX
            }),
        ensures
            ({
                let d = dated(self.history@, clock::date_text(clock.year as nat, clock.month as nat, clock.day as nat));
                r == (rounded_minutes(group_seconds(d, Group::Focus)) as u32, rounded_minutes(group_seconds(d, Group::Rest)) as u32)
            }),
    {
        let today = clock::today(clock);
        let ghost pred = |x: HistoryItem| x.date@ == today@;
        let mut items: Vec<&HistoryItem> = Vec::new();
        let mut i: usize = 0;
        while i < self.history.len()
            invariant
                i <= self.history@.len(),
                items@.map_values(|h: &HistoryItem| *h) == self.history@.take(i as int).filter(pred),
                pred == (|x: HistoryItem| x.date@ == today@),
            decreases self.history@.len() - i,
        {
            proof {
                reveal(Seq::filter);
                assert(self.history@.take(i + 1).drop_last() =~= self.history@.take(i as int));
            }
            let h = &self.history[i];
            if crate::text::str_eq(h.date.as_str(), today.as_str()) {
                items.push(h);
            }
            proof {
                assert(items@.map_values(|h: &HistoryItem| *h) =~= self.history@.take(i + 1).filter(pred));
            }
            i = i + 1;
        }
        assert(self.history@.take(i as int) =~= self.history@);
        self.minutes_of(items.as_slice())
    }

    /// The records that pass the history filter, in order.
    pub fn visible_history(&self) -> (r: Vec<&HistoryItem>)
        ensures
            r@.map_values(|h: &HistoryItem| *h) == visible(self.history@, self.filter),
    {
        let ghost pred = |x: HistoryItem| filter_matches(self.filter, x);
        let mut items: Vec<&HistoryItem> = Vec::new();
        let mut i: usize = 0;
        while i < self.history.len()
            invariant
                i <= self.history@.len(),
                items@.map_values(|h: &HistoryItem| *h) == self.history@.take(i as int).filter(pred),
                pred == (|x: HistoryItem| filter_matches(self.filter, x)),
            decreases self.history@.len() - i,
        {
            proof {
                reveal(Seq::filter);
                assert(self.history@.take(i + 1).drop_last() =~= self.history@.take(i as int));
            }
            let h = &self.history[i];
            if self.filter.matches(h) {
                items.push(h);
            }
            proof {
                assert(items@.map_values(|h: &HistoryItem| *h) =~= self.history@.take(i + 1).filter(pred));
            }
            i = i + 1;
        }
        assert(self.history@.take(i as int) =~= self.history@);
        items
    }

    /// Removes the records whose id is among `ids`.
    pub fn delete_selected(&mut self, ids: &[u64])
        ensures
            final(self).history@ == without_ids(old(self).history@, ids@),
            same_but_history(*old(self), *final(self)),
    {
        let ghost pred = |x: HistoryItem| !ids@.contains(x.id);
        let mut kept: Vec<HistoryItem> = Vec::new();
        let mut i: usize = 0;
        while i < self.history.len()
            invariant
                i <= self.history@.len(),
                kept@ == self.history@.take(i as int).filter(pred),
                pred == (|x: HistoryItem| !ids@.contains(x.id)),
            decreases self.history@.len() - i,
        {
            proof {
                reveal(Seq::filter);
                assert(self.history@.take(i + 1).drop_last() =~= self.history@.take(i as int));
            }
            let id = self.history[i].id;
            let mut found = false;
            let mut j: usize = 0;
            while j < ids.len()
                invariant
                    j <= ids@.len(),
                    found == ids@.take(j as int).contains(id),
                decreases ids@.len() - j,
            {
                let ghost before = ids@.take(j as int);
                let ghost after = ids@.take(j + 1);
                proof {
                    assert(after =~= before.push(ids@[j as int]));
                    assert(after[j as int] == ids@[j as int]);
                    if before.contains(id) {
                        let k = choose|k: int| 0 <= k < before.len() && before[k] == id;
                        assert(after[k] == id);
                    }
                    if after.contains(id) && ids@[j as int] != id {
                        let k = choose|k: int| 0 <= k < after.len() && after[k] == id;
                        assert(before[k] == id);
                    }
                }
                if ids[j] == id {
                    found = true;
                }
                j = j + 1;
            }
            assert(ids@.take(j as int) =~= ids@);
            if !found {
                kept.push(self.history[i].clone());
            }
            proof {
                assert(kept@ =~= self.history@.take(i + 1).filter(pred));
            }
            i = i + 1;
        }
        assert(self.history@.take(i as int) =~= self.history@);
        self.history = kept;
    }

    /// Whether anything is counting, or a countdown is about to start by itself.
    pub fn has_running_timer(&self) -> (r: bool)
        ensures
            r == (self.timer.status == RunStatus::Running || self.pomodoro.status == RunStatus::Running
                || self.pomodoro.auto_start_at is Some),
    {
        self.timer.status == RunStatus::Running || self.pomodoro.status == RunStatus::Running
            || self.pomodoro.auto_start_at.is_some()
    }
}

} // verus!

verus! {

/// `b` is `a` put in order by `normalize`.
pub open spec fn normalized_from(a: App, b: App) -> bool {
    &&& a.presets@.len() > 0 ==> b.presets == a.presets
    &&& a.presets@.len() == 0 ==> b.presets@.len() == 1
            && is_default_preset_body(b.presets@[0])
            && b.presets@[0].name@ == "经典番茄"@
    &&& b.active_preset == (if a.active_preset < b.presets@.len() {
            a.active_preset
        } else {
            0
        })
    &&& a.activities@.len() > 0 ==> b.activities == a.activities
    &&& a.activities@.len() == 0 ==> b.activities@.len() == 1
            && b.activities@[0]@ == "写代码"@
    &&& b.timer.activity@ == (if crate::text::listed(b.activities@, a.timer.activity@) {
            a.timer.activity@
        } else {
            b.activities@[0]@
        })
    &&& b.pomodoro.activity@ == (if crate::text::listed(b.activities@, a.pomodoro.activity@) {
            a.pomodoro.activity@
        } else {
            b.activities@[0]@
        })
    &&& b.timer.status == (if a.timer.status == RunStatus::Running {
            RunStatus::Paused
        } else {
            a.timer.status
        })
    &&& b.timer.started_at == (if a.timer.status == RunStatus::Running {
            None
        } else {
            a.timer.started_at
        })
    &&& b.timer.accumulated_ms == a.timer.accumulated_ms
    &&& b.timer.mode == a.timer.mode
    &&& b.pomodoro.deadline is None
    &&& b.pomodoro.auto_start_at is None
    &&& b.pomodoro.status == (if a.pomodoro.status == RunStatus::Running {
            RunStatus::Paused
        } else {
            a.pomodoro.status
        })
    &&& b.pomodoro.total_ms == (if a.pomodoro.total_ms == 0 {
            if a.pomodoro.remaining_ms > 60_000 { a.pomodoro.remaining_ms } else { 60_000 }
        } else {
            a.pomodoro.total_ms
        })
    &&& b.pomodoro.remaining_ms == (if a.pomodoro.remaining_ms < b.pomodoro.total_ms {
            a.pomodoro.remaining_ms
        } else {
            b.pomodoro.total_ms
        })
    &&& b.pomodoro.stage == a.pomodoro.stage
    &&& b.pomodoro.cycle == a.pomodoro.cycle
    &&& b.visual == (Visual {
            window_size: if a.visual.window_size < WINDOW_SIZE_COUNT {
                a.visual.window_size
            } else {
                (WINDOW_SIZE_COUNT - 1) as usize
            },
            pomo_font_weight: if a.visual.pomo_font_weight < 200 {
                200
            } else if a.visual.pomo_font_weight > 800 {
                800
            } else {
                a.visual.pomo_font_weight
            },
            custom_index: if a.visual.custom_index < a.visual.custom_themes@.len() {
                a.visual.custom_index
            } else {
                0
            },
            saved_index: if a.visual.saved_index < a.visual.saved_presets@.len() {
                a.visual.saved_index
            } else {
                0
            },
            ..a.visual
        })
    &&& b.version == a.version
    &&& b.history == a.history
    &&& b.filter == a.filter
}

impl App {
    /// Puts a loaded state in order (the result is `normalized`, and a `normalized` state is
    /// left as it is): a missing preset list gets the classic preset, an out-of-range preset
    /// choice becomes the first, a missing activity list gets the default activity, a timer
    /// on an unlisted activity moves to the first one, counting stops (see the timers'
    /// `normalize`), and the window size step, font weight and theme choices are brought into
    /// range.
    pub fn normalize(&mut self)
        ensures
            normalized(*final(self)),
            normalized(*old(self)) ==> *final(self) == *old(self),
            normalized_from(*old(self), *final(self)),
    {
        self.normalize_lists();
        self.timer.normalize();
        self.pomodoro.normalize();
        self.visual.normalize_ranges();
    }

    fn normalize_lists(&mut self)
        ensures
            old(self).presets@.len() > 0 ==> final(self).presets == old(self).presets,
            old(self).presets@.len() == 0 ==> final(self).presets@.len() == 1
                && is_default_preset_body(final(self).presets@[0])
                && final(self).presets@[0].name@ == "经典番茄"@,
            final(self).active_preset == (if old(self).active_preset < final(self).presets@.len() {
                old(self).active_preset
            } else {
                0
            }),
            old(self).activities@.len() > 0 ==> final(self).activities == old(self).activities,
            old(self).activities@.len() == 0 ==> final(self).activities@.len() == 1
                && final(self).activities@[0]@ == "写代码"@,
            final(self).timer.activity@ == (if crate::text::listed(final(self).activities@, old(self).timer.activity@) {
                old(self).timer.activity@
            } else {
                final(self).activities@[0]@
            }),
            final(self).pomodoro.activity@ == (if crate::text::listed(final(self).activities@, old(self).pomodoro.activity@) {
                old(self).pomodoro.activity@
            } else {
                final(self).activities@[0]@
            }),
            crate::text::listed(old(self).activities@, old(self).timer.activity@) ==> final(self).timer == old(self).timer,
            crate::text::listed(old(self).activities@, old(self).pomodoro.activity@) ==> final(self).pomodoro == old(self).pomodoro,
            final(self).timer == (TimerState { activity: final(self).timer.activity, ..old(self).timer }),
            final(self).pomodoro == (PomodoroState { activity: final(self).pomodoro.activity, ..old(self).pomodoro }),
            final(self).presets@.len() > 0,
            final(self).active_preset < final(self).presets@.len(),
            final(self).activities@.len() > 0,
            crate::text::listed(final(self).activities@, final(self).timer.activity@),
            crate::text::listed(final(self).activities@, final(self).pomodoro.activity@),
            final(self).visual == old(self).visual,
            final(self).version == old(self).version,
            final(self).history == old(self).history,
            final(self).filter == old(self).filter,
    {
        if self.presets.len() == 0 {
            self.presets.push(Preset::classic());
        }
        if self.active_preset >= self.presets.len() {
            self.active_preset = 0;
        }
        if self.activities.len() == 0 {
            self.activities.push(String::from_str("写代码"));
        }
        if !crate::text::contains_str(&self.activities, self.timer.activity.as_str()) {
            self.timer.activity = self.activities[0].clone();
        }
        if !crate::text::contains_str(&self.activities, self.pomodoro.activity.as_str()) {
            self.pomodoro.activity = self.activities[0].clone();
        }
        assert(crate::text::listed(self.activities@, self.activities@[0]@));
    }
}

impl Visual {
    /// Brings the window size step, the font weight and the theme choices into range.
    #[verifier::spinoff_prover]
    pub fn normalize_ranges(&mut self)
        ensures
            *final(self) == (Visual {
                window_size: if old(self).window_size < WINDOW_SIZE_COUNT {
                    old(self).window_size
                } else {
                    (WINDOW_SIZE_COUNT - 1) as usize
                },
                pomo_font_weight: if old(self).pomo_font_weight < 200 {
                    200
                } else if old(self).pomo_font_weight > 800 {
                    800
                } else {
                    old(self).pomo_font_weight
                },
                custom_index: if old(self).custom_index < old(self).custom_themes@.len() {
                    old(self).custom_index
                } else {
                    0
                },
                saved_index: if old(self).saved_index < old(self).saved_presets@.len() {
                    old(self).saved_index
                } else {
                    0
                },
                ..*old(self)
            }),
    {
        if self.window_size >= WINDOW_SIZE_COUNT {
            self.window_size = WINDOW_SIZE_COUNT - 1;
        }
        if self.pomo_font_weight < 200 {
            self.pomo_font_weight = 200;
        } else if self.pomo_font_weight > 800 {
            self.pomo_font_weight = 800;
        }
        if self.custom_index >= self.custom_themes.len() {
            self.custom_index = 0;
        }
        if self.saved_index >= self.saved_presets.len() {
            self.saved_index = 0;
        }
    }
}

} // verus!

verus! {

/// The activities a fresh state offers, in order.
pub open spec fn default_activities() -> Seq<Seq<char>> {
    seq!["写代码"@, "阅读"@, "写作"@, "学习"@, "游戏"@, "散步"@, "喝水"@, "听音乐"@, "午休"@]
}

/// The state a first start begins with: the two built-in presets (the classic one chosen),
/// the default activities, no history, no filter, both clocks idle at their start, the
/// countdown set for a 25-minute focus stage, and the display settings of `fresh_visual`.
pub open spec fn fresh_state(r: App) -> bool {
    &&& r.version == STATE_VERSION
    &&& r.presets@.len() == 2
    &&& is_default_preset_body(r.presets@[0])
    &&& r.presets@[0].name@ == "经典番茄"@
    &&& r.presets@[1].name@ == "深度工作"@
    &&& r.presets@[1].focus == 50 && r.presets@[1].short_rest == 10 && r.presets@[1].long_rest == 20
        && r.presets@[1].cycle == 3
    &&& r.active_preset == 0
    &&& r.activities@.map_values(|s: String| s@) == default_activities()
    &&& r.history@.len() == 0
    &&& crate::model::filter_is_empty(r.filter)
    &&& r.timer.status == RunStatus::Idle && r.timer.mode == Kind::Focus && r.timer.accumulated_ms == 0
        && r.timer.started_at is None && r.timer.activity@ == "写代码"@
    &&& r.pomodoro.status == RunStatus::Idle && r.pomodoro.stage == Stage::Focus && r.pomodoro.cycle == 1
        && r.pomodoro.total_ms == 1_500_000 && r.pomodoro.remaining_ms == 1_500_000
        && r.pomodoro.deadline is None && r.pomodoro.auto_start_at is None
        && r.pomodoro.activity@ == "写代码"@
    &&& fresh_visual(r.visual)
}

/// The state to start from, given what was read from the settings file (`None` when there was
/// no file or it did not parse): the loaded state put in order when it has the current format,
/// the first-start state otherwise.
pub fn restore(loaded: Option<App>) -> (r: App)
    ensures
        normalized(r),
        match loaded {
            Some(a) => if a.version == STATE_VERSION { normalized_from(a, r) } else { fresh_state(r) },
            None => fresh_state(r),
        },
{
    let mut app = match loaded {
        Some(a) => if a.version == STATE_VERSION {
            a
        } else {
            App::default()
        },
        None => App::default(),
    };
    let ghost before = app;
    app.normalize();
    app
}

impl Default for App {
    fn default() -> (r: Self)
        ensures
            fresh_state(r),
            normalized(r),
    {
        let presets = vec![Preset::classic(), Preset::deep_work()];
        let pomodoro = PomodoroState::fresh(&presets[0]);
        let activities = vec![
            String::from_str("写代码"),
            String::from_str("阅读"),
            String::from_str("写作"),
            String::from_str("学习"),
            String::from_str("游戏"),
            String::from_str("散步"),
            String::from_str("喝水"),
            String::from_str("听音乐"),
            String::from_str("午休"),
        ];
        let r = App {
            version: STATE_VERSION,
            presets,
            active_preset: 0,
            activities,
            history: Vec::new(),
            filter: Filter::default(),
            visual: Visual::default(),
            timer: TimerState::fresh(),
            pomodoro,
        };
        assert(r.activities@.map_values(|s: String| s@) =~= default_activities());
        assert(crate::text::listed(r.activities@, r.activities@[0]@));
        r
    }
}

/// Whether no two records share an id.
pub open spec fn ids_distinct(h: Seq<HistoryItem>) -> bool {
    forall|i: int, j: int| 0 <= i < h.len() && 0 <= j < h.len() && i != j ==> h[i].id != h[j].id
}

/// Every record's id is at most the largest one.
pub proof fn lemma_max_id(h: Seq<HistoryItem>)
    ensures
        forall|i: int| 0 <= i < h.len() ==> h[i].id <= max_id(h),
    decreases h.len(),
{
    if h.len() > 0 {
        lemma_max_id(h.drop_last());
        assert forall|i: int| 0 <= i < h.len() implies h[i].id <= max_id(h) by {
            if i < h.len() - 1 {
                assert(h[i] == h.drop_last()[i]);
            }
        }
    }
}

/// Law: a new record never shares its id with an older one, so records keep distinct ids.
pub proof fn law_record_ids_stay_distinct(
    before: Seq<HistoryItem>,
    after: Seq<HistoryItem>,
    name: Seq<char>,
    kind: Kind,
    seconds: int,
    clock: LocalTime,
    completed: bool,
    source: Source,
)
    requires
        ids_distinct(before),
        recorded(before, after, name, kind, seconds, clock, completed, source),
    ensures
        ids_distinct(after),
        forall|i: int| 1 <= i < after.len() ==> (#[trigger] after[i]).id < after[0].id,
{
    lemma_max_id(before);
    assert forall|i: int| 1 <= i < after.len() implies (#[trigger] after[i]).id < after[0].id by {
        assert(after[i] == after.skip(1)[i - 1]);
    }
    assert forall|i: int, j: int| 0 <= i < after.len() && 0 <= j < after.len() && i != j implies after[i].id
        != after[j].id by {
        if i > 0 && j > 0 {
            assert(after[i] == after.skip(1)[i - 1]);
            assert(after[j] == after.skip(1)[j - 1]);
        }
    }
}

} // verus!
