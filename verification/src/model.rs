use vstd::prelude::*;

use crate::text::{concat2, concat3, decimal, decimal_string, padded, padded_string};

verus! {

/// Version number of the persisted state layout.
pub const STATE_VERSION: u32 = 1;

/// Number of main-window size steps (compact / small / standard / large).
pub const WINDOW_SIZE_COUNT: usize = 4;

/// Default main-window size step.
pub const DEFAULT_WINDOW_SIZE: usize = 2;

/// A stage of the pomodoro cycle.
#[derive(Clone, Copy, PartialEq, Eq, Debug, Structural)]
pub enum Stage {
    Focus,
    ShortRest,
    LongRest,
}

impl Default for Stage {
    fn default() -> (r: Self)
        ensures
            r == Stage::Focus,
    {
        Stage::Focus
    }
}

pub open spec fn stage_kind(s: Stage) -> Kind {
    match s {
        Stage::Focus => Kind::Focus,
        Stage::ShortRest => Kind::ShortRest,
        Stage::LongRest => Kind::LongRest,
    }
}

pub open spec fn stage_name(s: Stage) -> Seq<char> {
    match s {
        Stage::Focus => "专注"@,
        Stage::ShortRest => "短休息"@,
        Stage::LongRest => "长休息"@,
    }
}

pub open spec fn stage_index(s: Stage) -> nat {
    match s {
        Stage::Focus => 0,
        Stage::ShortRest => 1,
        Stage::LongRest => 2,
    }
}

impl Stage {
    pub fn is_focus(self) -> (r: bool)
        ensures
            r == (self == Stage::Focus),
    {
        self == Stage::Focus
    }

    pub fn kind(self) -> (r: Kind)
        ensures
            r == stage_kind(self),
    {
        match self {
            Stage::Focus => Kind::Focus,
            Stage::ShortRest => Kind::ShortRest,
            Stage::LongRest => Kind::LongRest,
        }
    }

    pub fn name(self) -> (r: &'static str)
        ensures
            r@ == stage_name(self),
    {
        match self {
            Stage::Focus => "专注",
            Stage::ShortRest => "短休息",
            Stage::LongRest => "长休息",
        }
    }

    pub fn index(self) -> (r: usize)
        ensures
            r == stage_index(self),
    {
        match self {
            Stage::Focus => 0,
            Stage::ShortRest => 1,
            Stage::LongRest => 2,
        }
    }
}

/// The two groups a history record falls into.
#[derive(Clone, Copy, PartialEq, Eq, Debug, Structural)]
pub enum Group {
    Focus,
    Rest,
}

/// The kind of a timed session.
#[derive(Clone, Copy, PartialEq, Eq, Debug, Structural)]
pub enum Kind {
    Focus,
    Rest,
    ShortRest,
    LongRest,
}

impl Default for Kind {
    fn default() -> (r: Self)
        ensures
            r == Kind::Focus,
    {
        Kind::Focus
    }
}

pub open spec fn kind_group(k: Kind) -> Group {
    match k {
        Kind::Focus => Group::Focus,
        _ => Group::Rest,
    }
}

pub open spec fn kind_name(k: Kind) -> Seq<char> {
    match k {
        Kind::Focus => "专注"@,
        Kind::Rest => "休息"@,
        Kind::ShortRest => "短休息"@,
        Kind::LongRest => "长休息"@,
    }
}

impl Kind {
    pub fn group(self) -> (r: Group)
        ensures
            r == kind_group(self),
    {
        match self {
            Kind::Focus => Group::Focus,
            _ => Group::Rest,
        }
    }

    pub fn name(self) -> (r: &'static str)
        ensures
            r@ == kind_name(self),
    {
        match self {
            Kind::Focus => "专注",
            Kind::Rest => "休息",
            Kind::ShortRest => "短休息",
            Kind::LongRest => "长休息",
        }
    }

    pub fn from_stage(stage: Stage) -> (r: Kind)
        ensures
            r == stage_kind(stage),
    {
        stage.kind()
    }
}

/// Whether a timer is idle, running or paused.
#[derive(Clone, Copy, PartialEq, Eq, Debug, Structural)]
pub enum RunStatus {
    Idle,
    Running,
    Paused,
}

impl Default for RunStatus {
    fn default() -> (r: Self)
        ensures
            r == RunStatus::Idle,
    {
        RunStatus::Idle
    }
}

/// The sound played when a pomodoro stage ends.
#[derive(Clone, Copy, PartialEq, Eq, Debug, Structural)]
pub enum SoundKind {
    Bell,
    Ding,
    Chime,
    Custom,
}

impl Default for SoundKind {
    fn default() -> (r: Self)
        ensures
            r == SoundKind::Bell,
    {
        SoundKind::Bell
    }
}

pub open spec fn sound_label(k: SoundKind) -> Seq<char> {
    match k {
        SoundKind::Bell => "铃声"@,
        SoundKind::Ding => "叮咚"@,
        SoundKind::Chime => "风铃"@,
        SoundKind::Custom => "自定义"@,
    }
}

/// The sound kinds in the order the selection list shows them.
pub open spec fn sound_kind_at(i: int) -> SoundKind {
    if i == 0 {
        SoundKind::Bell
    } else if i == 1 {
        SoundKind::Ding
    } else if i == 2 {
        SoundKind::Chime
    } else {
        SoundKind::Custom
    }
}

pub open spec fn sound_kind_position(k: SoundKind) -> nat {
    match k {
        SoundKind::Bell => 0,
        SoundKind::Ding => 1,
        SoundKind::Chime => 2,
        SoundKind::Custom => 3,
    }
}

impl SoundKind {
    /// Number of sound kinds.
    pub const COUNT: usize = 4;

    pub fn label(self) -> (r: &'static str)
        ensures
            r@ == sound_label(self),
    {
        match self {
            SoundKind::Bell => "铃声",
            SoundKind::Ding => "叮咚",
            SoundKind::Chime => "风铃",
            SoundKind::Custom => "自定义",
        }
    }

    /// The `index`-th sound kind of the selection list, if there is one.
    pub fn nth(index: usize) -> (r: Option<SoundKind>)
        ensures
            index < 4 ==> r == Some(sound_kind_at(index as int)),
            index >= 4 ==> r is None,
    {
        if index == 0 {
            Some(SoundKind::Bell)
        } else if index == 1 {
            Some(SoundKind::Ding)
        } else if index == 2 {
            Some(SoundKind::Chime)
        } else if index == 3 {
            Some(SoundKind::Custom)
        } else {
            None
        }
    }

    /// Position of this kind in the selection list.
    pub fn position(self) -> (r: usize)
        ensures
            r == sound_kind_position(self),
            sound_kind_at(r as int) == self,
    {
        match self {
            SoundKind::Bell => 0,
            SoundKind::Ding => 1,
            SoundKind::Chime => 2,
            SoundKind::Custom => 3,
        }
    }
}

/// Which part of the program produced a history record.
#[derive(Clone, Copy, PartialEq, Eq, Debug, Structural)]
pub enum Source {
    Timer,
    Pomodoro,
}

/// How the pomodoro countdown is drawn.
#[derive(Clone, Copy, PartialEq, Eq, Debug, Structural)]
pub enum VisualMode {
    Simple,
    Bar,
    Ring,
}

impl Default for VisualMode {
    fn default() -> (r: Self)
        ensures
            r == VisualMode::Simple,
    {
        VisualMode::Simple
    }
}

pub open spec fn visual_mode_label(m: VisualMode) -> Seq<char> {
    match m {
        VisualMode::Simple => "简洁"@,
        VisualMode::Bar => "条形"@,
        VisualMode::Ring => "环形"@,
    }
}

impl VisualMode {
    pub fn label(self) -> (r: &'static str)
        ensures
            r@ == visual_mode_label(self),
    {
        match self {
            VisualMode::Simple => "简洁",
            VisualMode::Bar => "条形",
            VisualMode::Ring => "环形",
        }
    }
}

/// The toggles of a preset that the settings page flips.
#[derive(Clone, Copy, PartialEq, Eq, Debug, Structural)]
pub enum PresetField {
    Focus,
    ShortRest,
    LongRest,
    Cycle,
    FocusEvent,
    ShortRestEvent,
    LongRestEvent,
    EndSound,
    AutoFocus,
    AutoRest,
    SoundLoop,
}

} // verus!

verus! {

/// A pomodoro plan: stage lengths in minutes, stage events and end-of-stage behaviour.
pub struct Preset {
    pub name: String,
    pub focus: u32,
    pub short_rest: u32,
    pub long_rest: u32,
    pub cycle: u32,
    pub focus_event: String,
    pub short_rest_event: String,
    pub long_rest_event: String,
    pub end_sound: SoundKind,
    pub auto_focus: bool,
    pub auto_rest: bool,
    pub sound_loop: bool,
}

impl Clone for Preset {
    fn clone(&self) -> (r: Self)
        ensures
            r == *self,
    {
        Preset {
            name: self.name.clone(),
            focus: self.focus,
            short_rest: self.short_rest,
            long_rest: self.long_rest,
            cycle: self.cycle,
            focus_event: self.focus_event.clone(),
            short_rest_event: self.short_rest_event.clone(),
            long_rest_event: self.long_rest_event.clone(),
            end_sound: self.end_sound,
            auto_focus: self.auto_focus,
            auto_rest: self.auto_rest,
            sound_loop: self.sound_loop,
        }
    }
}

/// The preset a fresh preset starts from (`name` aside).
pub open spec fn is_default_preset_body(p: Preset) -> bool {
    &&& p.focus == 25
    &&& p.short_rest == 5
    &&& p.long_rest == 15
    &&& p.cycle == 4
    &&& p.focus_event@ == "写代码"@
    &&& p.short_rest_event@ == "喝水"@
    &&& p.long_rest_event@ == "午休"@
    &&& p.end_sound == SoundKind::Bell
    &&& !p.auto_focus
    &&& !p.auto_rest
    &&& !p.sound_loop
}

/// The raw minute setting of a stage.
pub open spec fn preset_stage_minutes(p: Preset, stage: Stage) -> u32 {
    match stage {
        Stage::Focus => p.focus,
        Stage::ShortRest => p.short_rest,
        Stage::LongRest => p.long_rest,
    }
}

/// Length of a stage in minutes, limited to 999.
pub open spec fn preset_minutes(p: Preset, stage: Stage) -> u32 {
    let m = preset_stage_minutes(p, stage);
    if m > 999 { 999 } else { m }
}

/// The event a stage is recorded under.
pub open spec fn preset_event(p: Preset, stage: Stage) -> Seq<char> {
    match stage {
        Stage::Focus => p.focus_event@,
        Stage::ShortRest => p.short_rest_event@,
        Stage::LongRest => p.long_rest_event@,
    }
}

impl Default for Preset {
    fn default() -> (r: Self)
        ensures
            is_default_preset_body(r),
            r.name@ == "新方案"@,
    {
        Preset {
            name: String::from_str("新方案"),
            focus: 25,
            short_rest: 5,
            long_rest: 15,
            cycle: 4,
            focus_event: String::from_str("写代码"),
            short_rest_event: String::from_str("喝水"),
            long_rest_event: String::from_str("午休"),
            end_sound: SoundKind::Bell,
            auto_focus: false,
            auto_rest: false,
            sound_loop: false,
        }
    }
}

impl Preset {
    /// The classic 25 / 5 / 15 plan.
    pub fn classic() -> (r: Self)
        ensures
            is_default_preset_body(r),
            r.name@ == "经典番茄"@,
    {
        let mut p = Preset::default();
        p.name = String::from_str("经典番茄");
        p
    }

    /// The 50 / 10 / 20 plan.
    pub fn deep_work() -> (r: Self)
        ensures
            r.name@ == "深度工作"@,
            r.focus == 50,
            r.short_rest == 10,
            r.long_rest == 20,
            r.cycle == 3,
            r.focus_event@ == "写代码"@,
            r.short_rest_event@ == "散步"@,
            r.long_rest_event@ == "午休"@,
            r.end_sound == SoundKind::Chime,
            !r.auto_focus,
            !r.auto_rest,
            !r.sound_loop,
    {
        let mut p = Preset::default();
        p.name = String::from_str("深度工作");
        p.focus = 50;
        p.short_rest = 10;
        p.long_rest = 20;
        p.cycle = 3;
        p.short_rest_event = String::from_str("散步");
        p.end_sound = SoundKind::Chime;
        p
    }

    pub fn minutes_for(&self, stage: Stage) -> (r: u32)
        ensures
            r == preset_minutes(*self, stage),
            r <= 999,
    {
        let m = match stage {
            Stage::Focus => self.focus,
            Stage::ShortRest => self.short_rest,
            Stage::LongRest => self.long_rest,
        };
        if m > 999 { 999 } else { m }
    }

    pub fn event_for(&self, stage: Stage) -> (r: &str)
        ensures
            r@ == preset_event(*self, stage),
    {
        match stage {
            Stage::Focus => self.focus_event.as_str(),
            Stage::ShortRest => self.short_rest_event.as_str(),
            Stage::LongRest => self.long_rest_event.as_str(),
        }
    }

    pub fn sound(&self) -> (r: SoundKind)
        ensures
            r == self.end_sound,
    {
        self.end_sound
    }
}

/// One saved timing record.
pub struct HistoryItem {
    pub id: u64,
    pub name: String,
    pub kind: Kind,
    pub seconds: u64,
    pub date: String,
    pub time: String,
    pub completed: bool,
    pub source: Source,
}

impl Clone for HistoryItem {
    fn clone(&self) -> (r: Self)
        ensures
            r == *self,
    {
        HistoryItem {
            id: self.id,
            name: self.name.clone(),
            kind: self.kind,
            seconds: self.seconds,
            date: self.date.clone(),
            time: self.time.clone(),
            completed: self.completed,
            source: self.source,
        }
    }
}

} // verus!

verus! {

/// The second line of a history record: its kind, date and time, then whether it ended early
/// and whether the countdown recorded it.
pub open spec fn meta_text(item: HistoryItem) -> Seq<char> {
    kind_name(item.kind) + " · "@ + item.date@ + " "@ + item.time@
        + (if item.completed { Seq::<char>::empty() } else { " · 提前结束"@ })
        + (if item.source == Source::Pomodoro { " · 番茄钟"@ } else { Seq::<char>::empty() })
}

pub fn meta(item: &HistoryItem) -> (r: String)
    ensures
        r@ == meta_text(*item),
{
    let mut text = concat3(item.kind.name(), " · ", item.date.as_str());
    text.append(" ");
    text.append(item.time.as_str());
    if !item.completed {
        text.append(" · 提前结束");
    }
    if item.source == Source::Pomodoro {
        text.append(" · 番茄钟");
    }
    assert(text@ =~= meta_text(*item));
    text
}

/// A copy of an optional string.
pub fn clone_opt_string(o: &Option<String>) -> (r: Option<String>)
    ensures
        r == *o,
{
    match o {
        Some(s) => Some(s.clone()),
        None => None,
    }
}

/// The history filter: by group, by event name and by an inclusive date range.
pub struct Filter {
    pub group: Option<Group>,
    pub event: Option<String>,
    pub date_start: Option<String>,
    pub date_end: Option<String>,
}

impl Clone for Filter {
    fn clone(&self) -> (r: Self)
        ensures
            r == *self,
    {
        Filter {
            group: self.group,
            event: clone_opt_string(&self.event),
            date_start: clone_opt_string(&self.date_start),
            date_end: clone_opt_string(&self.date_end),
        }
    }
}

impl Default for Filter {
    fn default() -> (r: Self)
        ensures
            r.group is None,
            r.event is None,
            r.date_start is None,
            r.date_end is None,
    {
        Filter { group: None, event: None, date_start: None, date_end: None }
    }
}

/// Whether a record passes the filter. Dates are compared as text, so `YYYY-MM-DD` dates
/// compare by calendar order.
pub open spec fn filter_matches(f: Filter, item: HistoryItem) -> bool {
    &&& (f.group matches Some(g) ==> kind_group(item.kind) == g)
    &&& (f.event matches Some(e) ==> item.name@ == e@)
    &&& (f.date_start matches Some(s) ==> !crate::text::seq_less(item.date@, s@))
    &&& (f.date_end matches Some(e) ==> !crate::text::seq_less(e@, item.date@))
}

pub open spec fn filter_is_empty(f: Filter) -> bool {
    f.group is None && f.event is None && f.date_start is None && f.date_end is None
}

impl Filter {
    pub fn matches(&self, item: &HistoryItem) -> (r: bool)
        ensures
            r == filter_matches(*self, *item),
    {
        if let Some(group) = self.group {
            if item.kind.group() != group {
                return false;
            }
        }
        if let Some(event) = &self.event {
            if !(item.name == *event) {
                return false;
            }
        }
        if let Some(start) = &self.date_start {
            if crate::text::str_less(item.date.as_str(), start.as_str()) {
                return false;
            }
        }
        if let Some(end) = &self.date_end {
            if crate::text::str_less(end.as_str(), item.date.as_str()) {
                return false;
            }
        }
        true
    }

    pub fn is_empty(&self) -> (r: bool)
        ensures
            r == filter_is_empty(*self),
    {
        self.group.is_none() && self.event.is_none() && self.date_start.is_none()
            && self.date_end.is_none()
    }
}

/// The count-up timer.
pub struct TimerState {
    pub status: RunStatus,
    pub mode: Kind,
    pub activity: String,
    /// Time accumulated before the current run, in milliseconds.
    pub accumulated_ms: u64,
    /// Clock reading at which the current run started, while running.
    pub started_at: Option<u64>,
}

impl Default for TimerState {
    fn default() -> (r: Self)
        ensures
            r.status == RunStatus::Idle,
            r.mode == Kind::Focus,
            r.activity@ == Seq::<char>::empty(),
            r.accumulated_ms == 0,
            r.started_at is None,
    {
        TimerState {
            status: RunStatus::Idle,
            mode: Kind::Focus,
            activity: String::new(),
            accumulated_ms: 0,
            started_at: None,
        }
    }
}

/// Milliseconds counted by the timer at clock reading `now`.
pub open spec fn timer_elapsed(t: TimerState, now: u64) -> int {
    t.accumulated_ms + match t.started_at {
        Some(s) => if now >= s { now - s } else { 0 },
        None => 0,
    }
}

/// `b` is timer `a` toggled at `now`: a running timer pauses with the time counted so far
/// kept; any other starts running from `now`, keeping the time counted before.
pub open spec fn timer_toggled(a: TimerState, b: TimerState, now: u64) -> bool {
    &&& a.status == RunStatus::Running ==> {
        &&& b.status == RunStatus::Paused
        &&& b.started_at is None
        &&& b.accumulated_ms == timer_elapsed(a, now)
    }
    &&& a.status != RunStatus::Running ==> {
        &&& b.status == RunStatus::Running
        &&& b.started_at == Some(now)
        &&& b.accumulated_ms == a.accumulated_ms
    }
    &&& b.mode == a.mode
    &&& b.activity == a.activity
}

impl TimerState {
    pub fn fresh() -> (r: Self)
        ensures
            r.status == RunStatus::Idle,
            r.mode == Kind::Focus,
            r.activity@ == "写代码"@,
            r.accumulated_ms == 0,
            r.started_at is None,
    {
        TimerState {
            status: RunStatus::Idle,
            mode: Kind::Focus,
            activity: String::from_str("写代码"),
            accumulated_ms: 0,
            started_at: None,
        }
    }

    pub fn elapsed_ms(&self, now: u64) -> (r: u64)
        requires
            timer_elapsed(*self, now) <= u64::MAX,
        ensures
            r == timer_elapsed(*self, now),
    {
        let run = match self.started_at {
            Some(t) => now.saturating_sub(t),
            None => 0,
        };
        self.accumulated_ms + run
    }

    pub fn elapsed_sec(&self, now: u64) -> (r: u64)
        requires
            timer_elapsed(*self, now) <= u64::MAX,
        ensures
            r == timer_elapsed(*self, now) / 1000,
    {
        self.elapsed_ms(now) / 1000
    }

    /// Starts or resumes a stopped timer, or pauses a running one (see `timer_toggled`).
    pub fn toggle(&mut self, now: u64)
        requires
            old(self).status == RunStatus::Running ==> timer_elapsed(*old(self), now) <= u64::MAX,
        ensures
            timer_toggled(*old(self), *final(self), now),
    {
        match self.status {
            RunStatus::Running => {
                self.accumulated_ms = self.elapsed_ms(now);
                self.started_at = None;
                self.status = RunStatus::Paused;
            },
            _ => {
                self.started_at = Some(now);
                self.status = RunStatus::Running;
            },
        }
    }

    pub fn reset(&mut self)
        ensures
            final(self).accumulated_ms == 0,
            final(self).started_at is None,
            final(self).status == RunStatus::Idle,
            final(self).mode == old(self).mode,
            final(self).activity == old(self).activity,
    {
        self.accumulated_ms = 0;
        self.started_at = None;
        self.status = RunStatus::Idle;
    }

    /// Brings a timer loaded from disk to rest: a run that was in progress becomes paused.
    pub fn normalize(&mut self)
        ensures
            old(self).status == RunStatus::Running ==> final(self).status == RunStatus::Paused
                && final(self).started_at is None,
            old(self).status != RunStatus::Running ==> final(self).status == old(self).status
                && final(self).started_at == old(self).started_at,
            final(self).accumulated_ms == old(self).accumulated_ms,
            final(self).mode == old(self).mode,
            final(self).activity == old(self).activity,
    {
        if self.status == RunStatus::Running {
            self.started_at = None;
            self.status = RunStatus::Paused;
        }
    }
}

} // verus!

verus! {

/// The pomodoro countdown.
pub struct PomodoroState {
    pub status: RunStatus,
    pub stage: Stage,
    pub activity: String,
    /// Which round of the current cycle this is (counted from 1).
    pub cycle: u32,
    pub total_ms: u64,
    /// Milliseconds left when not running.
    pub remaining_ms: u64,
    /// Clock reading at which the stage ends, while running.
    pub deadline: Option<u64>,
    /// Clock reading at which the next stage starts by itself, if it does.
    pub auto_start_at: Option<u64>,
}

impl Default for PomodoroState {
    fn default() -> (r: Self)
        ensures
            r.status == RunStatus::Idle,
            r.stage == Stage::Focus,
            r.activity@ == Seq::<char>::empty(),
            r.cycle == 0,
            r.total_ms == 0,
            r.remaining_ms == 0,
            r.deadline is None,
            r.auto_start_at is None,
    {
        PomodoroState {
            status: RunStatus::Idle,
            stage: Stage::Focus,
            activity: String::new(),
            cycle: 0,
            total_ms: 0,
            remaining_ms: 0,
            deadline: None,
            auto_start_at: None,
        }
    }
}

/// Milliseconds left at clock reading `now`.
pub open spec fn pomo_remaining(p: PomodoroState, now: u64) -> int {
    match (p.status, p.deadline) {
        (RunStatus::Running, Some(d)) => if d >= now { d - now } else { 0 },
        _ => p.remaining_ms as int,
    }
}

/// Whole seconds left at `now`, rounded up.
pub open spec fn pomo_remaining_sec(p: PomodoroState, now: u64) -> int {
    (pomo_remaining(p, now) + 999) / 1000
}

/// Whole seconds already spent at `now`: the stage length in whole seconds less the seconds
/// left, and never below zero.
pub open spec fn pomo_elapsed_sec(p: PomodoroState, now: u64) -> int {
    let d = p.total_ms / 1000 - pomo_remaining_sec(p, now);
    if d > 0 { d } else { 0 }
}

/// The time a stopped countdown runs for when started: what is left, or the full length when
/// nothing is.
pub open spec fn resume_ms(p: PomodoroState) -> int {
    if p.remaining_ms == 0 { p.total_ms as int } else { p.remaining_ms as int }
}

/// `b` is countdown `a` toggled at `now`: a running countdown pauses with the time left at
/// `now` kept; any other runs from `now` for `resume_ms(a)`.
pub open spec fn pomo_toggled(a: PomodoroState, b: PomodoroState, now: u64) -> bool {
    &&& a.status == RunStatus::Running ==> {
        &&& b.status == RunStatus::Paused
        &&& b.deadline is None
        &&& b.remaining_ms == pomo_remaining(a, now)
    }
    &&& a.status != RunStatus::Running ==> {
        &&& b.status == RunStatus::Running
        &&& b.remaining_ms == resume_ms(a)
        &&& b.deadline == Some((now + resume_ms(a)) as u64)
    }
    &&& b.stage == a.stage
    &&& b.activity == a.activity
    &&& b.cycle == a.cycle
    &&& b.total_ms == a.total_ms
    &&& b.auto_start_at == a.auto_start_at
}

impl PomodoroState {
    /// A countdown at the start of the focus stage of `preset`.
    pub fn fresh(preset: &Preset) -> (r: Self)
        ensures
            r.status == RunStatus::Idle,
            r.stage == Stage::Focus,
            r.activity == preset.focus_event,
            r.cycle == 1,
            r.total_ms == preset_minutes(*preset, Stage::Focus) * 60_000,
            r.remaining_ms == r.total_ms,
            r.deadline is None,
            r.auto_start_at is None,
    {
        let total = preset.minutes_for(Stage::Focus) as u64 * 60_000;
        PomodoroState {
            status: RunStatus::Idle,
            stage: Stage::Focus,
            activity: preset.focus_event.clone(),
            cycle: 1,
            total_ms: total,
            remaining_ms: total,
            deadline: None,
            auto_start_at: None,
        }
    }

    pub fn remaining_ms(&self, now: u64) -> (r: u64)
        ensures
            r == pomo_remaining(*self, now),
    {
        match (self.status, self.deadline) {
            (RunStatus::Running, Some(deadline)) => deadline.saturating_sub(now),
            _ => self.remaining_ms,
        }
    }

    pub fn remaining_sec(&self, now: u64) -> (r: u64)
        ensures
            r == pomo_remaining_sec(*self, now),
    {
        let ms = self.remaining_ms(now);
        ms / 1000 + if ms % 1000 > 0 { 1 } else { 0 }
    }

    pub fn total_sec(&self) -> (r: u64)
        ensures
            r == self.total_ms / 1000,
    {
        self.total_ms / 1000
    }

    pub fn elapsed_sec(&self, now: u64) -> (r: u64)
        ensures
            r == pomo_elapsed_sec(*self, now),
    {
        self.total_sec().saturating_sub(self.remaining_sec(now))
    }

    /// Starts or resumes a stopped countdown, or pauses a running one (see `pomo_toggled`).
    pub fn toggle(&mut self, now: u64)
        requires
            old(self).status != RunStatus::Running ==> now + resume_ms(*old(self)) <= u64::MAX,
        ensures
            pomo_toggled(*old(self), *final(self), now),
    {
        match self.status {
            RunStatus::Running => {
                self.remaining_ms = self.remaining_ms(now);
                self.deadline = None;
                self.status = RunStatus::Paused;
            },
            _ => {
                if self.remaining_ms == 0 {
                    self.remaining_ms = self.total_ms;
                }
                self.deadline = Some(now + self.remaining_ms);
                self.status = RunStatus::Running;
            },
        }
    }

    pub fn stop(&mut self)
        ensures
            final(self).deadline is None,
            final(self).status == RunStatus::Idle,
            final(self).auto_start_at is None,
            final(self).stage == old(self).stage,
            final(self).activity == old(self).activity,
            final(self).cycle == old(self).cycle,
            final(self).total_ms == old(self).total_ms,
            final(self).remaining_ms == old(self).remaining_ms,
    {
        self.deadline = None;
        self.status = RunStatus::Idle;
        self.auto_start_at = None;
    }

    /// Brings a countdown loaded from disk to rest: no deadline, no pending auto start, a run
    /// in progress becomes paused, a zero length becomes the time left (at least a minute), and
    /// the time left never exceeds the length.
    pub fn normalize(&mut self)
        ensures
            final(self).deadline is None,
            final(self).auto_start_at is None,
            final(self).status == (if old(self).status == RunStatus::Running {
                RunStatus::Paused
            } else {
                old(self).status
            }),
            final(self).total_ms == (if old(self).total_ms == 0 {
                if old(self).remaining_ms > 60_000 { old(self).remaining_ms } else { 60_000 }
            } else {
                old(self).total_ms
            }),
            final(self).remaining_ms == (if old(self).remaining_ms < final(self).total_ms {
                old(self).remaining_ms
            } else {
                final(self).total_ms
            }),
            final(self).total_ms > 0,
            final(self).remaining_ms <= final(self).total_ms,
            final(self).stage == old(self).stage,
            final(self).activity == old(self).activity,
            final(self).cycle == old(self).cycle,
    {
        self.deadline = None;
        self.auto_start_at = None;
        if self.status == RunStatus::Running {
            self.status = RunStatus::Paused;
        }
        if self.total_ms == 0 {
            self.total_ms = if self.remaining_ms > 60_000 { self.remaining_ms } else { 60_000 };
        }
        if self.remaining_ms > self.total_ms {
            self.remaining_ms = self.total_ms;
        }
    }
}

/// A side effect that the host carries out after a state change.
pub enum Effect {
    Toast(String),
    Sound { kind: SoundKind, path: String, looping: bool },
    Balloon { title: String, body: String },
}

/// The side effects collected during one step, in order.
pub struct Effects {
    pub items: Vec<Effect>,
}

impl Default for Effects {
    fn default() -> (r: Self)
        ensures
            r.items@.len() == 0,
    {
        Effects { items: Vec::new() }
    }
}

impl Effects {
    pub fn toast(&mut self, text: String)
        ensures
            final(self).items@ == old(self).items@.push(Effect::Toast(text)),
            final(self).items@.drop_last() == old(self).items@,
    {
        self.items.push(Effect::Toast(text));
        assert(self.items@.drop_last() =~= old(self).items@);
    }

    pub fn sound(&mut self, kind: SoundKind, path: &str, looping: bool)
        ensures
            final(self).items@.len() == old(self).items@.len() + 1,
            final(self).items@.drop_last() == old(self).items@,
            final(self).items@.last() matches Effect::Sound { kind: k, path: p, looping: l }
                && k == kind && p@ == path@ && l == looping,
    {
        self.items.push(Effect::Sound { kind, path: String::from_str(path), looping });
        assert(self.items@.drop_last() =~= old(self).items@);
    }

    pub fn balloon(&mut self, title: String, body: String)
        ensures
            final(self).items@ == old(self).items@.push(Effect::Balloon { title, body }),
            final(self).items@.drop_last() == old(self).items@,
    {
        self.items.push(Effect::Balloon { title, body });
        assert(self.items@.drop_last() =~= old(self).items@);
    }
}

/// `MM:SS` text of a number of seconds (minutes are not wrapped into hours).
pub open spec fn time_text(seconds: nat) -> Seq<char> {
    padded(seconds / 60, 2) + ":"@ + padded(seconds % 60, 2)
}

/// `M分S秒` text of a number of seconds, or `M分` when the seconds are zero.
pub open spec fn duration_text(seconds: nat) -> Seq<char> {
    if seconds % 60 > 0 {
        decimal(seconds / 60) + "分"@ + decimal(seconds % 60) + "秒"@
    } else {
        decimal(seconds / 60) + "分"@
    }
}

pub fn fmt_time(seconds: u64) -> (r: String)
    ensures
        r@ == time_text(seconds as nat),
{
    let m = padded_string(seconds / 60, 2);
    let s = padded_string(seconds % 60, 2);
    concat3(m.as_str(), ":", s.as_str())
}

pub fn fmt_duration(seconds: u64) -> (r: String)
    ensures
        r@ == duration_text(seconds as nat),
{
    let m = decimal_string(seconds / 60);
    let s = seconds % 60;
    if s > 0 {
        let mut r = concat2(m.as_str(), "分");
        r.append(decimal_string(s).as_str());
        r.append("秒");
        r
    } else {
        concat2(m.as_str(), "分")
    }
}

} // verus!
