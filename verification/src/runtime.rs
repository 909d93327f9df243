use vstd::prelude::*;

use crate::action::{section_index, ColorTarget, DropId, EditTarget, Section, ViewId};
use crate::app::{visual_theme_view, App};
use crate::clock::LocalTime;
use crate::color::ThemeColors;
use crate::model::Preset;

verus! {

/// An inline text edit in progress.
pub struct EditState {
    /// Session number: notices from the edit control carry it, so stale ones can be dropped.
    pub id: u64,
    pub target: EditTarget,
    pub text: String,
    pub select_all: bool,
}

impl EditState {
    pub fn new(id: u64, target: EditTarget, text: String, select_all: bool) -> (r: Self)
        ensures
            r.id == id,
            r.target == target,
            r.text == text,
            r.select_all == select_all,
    {
        EditState { id, target, text, select_all }
    }
}

/// The date-range picker: the month shown and the range picked so far.
pub struct CalendarState {
    pub year: i32,
    pub month: u32,
    pub start: Option<String>,
    pub end: Option<String>,
}

impl CalendarState {
    /// The picker showing the month of clock reading `clock`, with nothing picked.
    pub fn new(clock: &LocalTime) -> (r: Self)
        ensures
            r.year == clock.year,
            r.month == clock.month,
            r.start is None,
            r.end is None,
    {
        let (year, month) = crate::clock::year_month(clock);
        CalendarState { year, month, start: None, end: None }
    }
}

/// Work that has to wait until the host is no longer busy with the current message (a modal
/// dialog, or creating and destroying the desktop widget).
#[derive(Clone, Copy, PartialEq, Eq, Debug, Structural)]
pub enum PendingDialog {
    /// Pick a colour for a theme field.
    Color(ColorTarget),
    SoundFile,
    /// Show or remove the desktop widget.
    Widget(bool),
    /// Re-attach the desktop widget (size, heartbeat, repaint).
    WidgetRefresh,
    /// Re-apply the desktop widget's window style (click-through, topmost).
    WidgetStyle,
}

/// A draft of the preset in use, edited on the pomodoro page until it is applied.
pub struct PresetDraft {
    pub index: usize,
    pub preset: Preset,
}

impl PresetDraft {
    pub fn from_app(app: &App) -> (r: Self)
        requires
            app.presets@.len() > 0,
        ensures
            r.index == app.active_preset,
            r.preset == app.current_preset(),
    {
        PresetDraft { index: app.active_preset, preset: app.preset().clone() }
    }
}

/// The three states of the desktop widget.
#[derive(Clone, Copy, PartialEq, Eq, Debug, Structural)]
pub enum WidgetMode {
    /// Standing by, not clicked: only the numbers or graphic and the activity.
    Idle,
    /// Standing by, clicked: a row of icon buttons too, without start / stop / reset.
    Standby,
    /// Running: the icon row and the control row.
    Running,
}

impl WidgetMode {
    /// Whether the icon row shows.
    pub fn buttons(self) -> (r: bool)
        ensures
            r == (self != WidgetMode::Idle),
    {
        self != WidgetMode::Idle
    }

    /// Whether the control row shows.
    pub fn running(self) -> (r: bool)
        ensures
            r == (self == WidgetMode::Running),
    {
        self == WidgetMode::Running
    }
}

/// How long a notice stays up, in milliseconds.
pub const TOAST_MS: u64 = 2200;

/// How long a looping end-of-stage sound is taken to play, in milliseconds.
pub const SOUND_LOOP_MS: u64 = 3_600_000;

/// How long a single end-of-stage sound is taken to play, in milliseconds.
pub const SOUND_ONCE_MS: u64 = 2500;

/// The state of the user interface that is not saved.
pub struct Runtime {
    pub view: ViewId,
    pub sections: [bool; 9],
    /// The notice shown and the clock reading until which it shows.
    pub toast: Option<(String, u64)>,
    pub edit: Option<EditState>,
    /// Session number for the next inline edit.
    pub next_edit_id: u64,
    pub open_drop: Option<DropId>,
    pub selected: Vec<u64>,
    pub calendar: CalendarState,
    pub calendar_open: bool,
    pub theme: ThemeColors,
    pub dark: bool,
    pub system_dark: bool,
    pub sound_loop_playing: bool,
    pub sound_until: u64,
    pub pending: Option<PendingDialog>,
    pub draft: Option<PresetDraft>,
    pub window_dirty: bool,
    pub widget_mode: WidgetMode,
    /// The page the desktop widget follows.
    pub widget_module: ViewId,
    /// The page last seen running, so the widget follows whatever starts running.
    pub widget_running_seen: Option<ViewId>,
    /// Whether the open drop-down belongs to the desktop widget.
    pub widget_drop: bool,
    /// Whether the desktop widget is editing the activity name.
    pub widget_editing: bool,
}

impl Runtime {
    /// The interface state at start-up, with the theme of `app` in the dark mode it calls
    /// for (`system_dark` is whether the system uses dark mode).
    pub fn new(app: &App, system_dark: bool, clock: &LocalTime) -> (r: Self)
        ensures
            r.view == ViewId::Timer,
            r.sections@ == seq![false, false, false, false, false, false, false, false, false],
            r.toast is None,
            r.edit is None,
            r.next_edit_id == 1,
            r.open_drop is None,
            r.selected@.len() == 0,
            r.calendar.year == clock.year && r.calendar.month == clock.month,
            r.calendar.start is None && r.calendar.end is None,
            !r.calendar_open,
            r.system_dark == system_dark,
            r.dark == (if app.visual.follow_system { system_dark } else { app.visual.dark_mode }),
            r.theme@ == visual_theme_view(app.visual, r.dark),
            !r.sound_loop_playing,
            r.sound_until == 0,
            r.pending is None,
            r.draft is None,
            !r.window_dirty,
            r.widget_mode == WidgetMode::Idle,
            r.widget_module == ViewId::Timer,
            r.widget_running_seen is None,
            !r.widget_drop,
            !r.widget_editing,
    {
        let dark = app.visual.effective_dark(system_dark);
        let theme = app.visual.theme_colors(dark);
        let r = Runtime {
            view: ViewId::Timer,
            sections: [false; 9],
            toast: None,
            edit: None,
            next_edit_id: 1,
            open_drop: None,
            selected: Vec::new(),
            calendar: CalendarState::new(clock),
            calendar_open: false,
            theme,
            dark,
            system_dark,
            sound_loop_playing: false,
            sound_until: 0,
            pending: None,
            draft: None,
            window_dirty: false,
            widget_mode: WidgetMode::Idle,
            widget_module: ViewId::Timer,
            widget_running_seen: None,
            widget_drop: false,
            widget_editing: false,
        };
        assert(r.sections@ =~= seq![false, false, false, false, false, false, false, false, false]);
        r
    }

    /// Takes the system's dark-mode setting again and the theme that `app` calls for with it.
    pub fn refresh_theme(&mut self, app: &App, system_dark: bool)
        ensures
            final(self).system_dark == system_dark,
            final(self).dark == (if app.visual.follow_system { system_dark } else { app.visual.dark_mode }),
            final(self).theme@ == visual_theme_view(app.visual, final(self).dark),
            *final(self) == (Runtime {
                system_dark: final(self).system_dark,
                dark: final(self).dark,
                theme: final(self).theme,
                ..*old(self)
            }),
    {
        self.system_dark = system_dark;
        self.dark = app.visual.effective_dark(system_dark);
        self.theme = app.visual.theme_colors(self.dark);
    }

    pub fn is_open(&self, section: Section) -> (r: bool)
        ensures
            r == self.sections@[section_index(section) as int],
    {
        self.sections[section.index()]
    }

    /// Opens a closed section or closes an open one.
    pub fn toggle(&mut self, section: Section)
        ensures
            final(self).sections@ == old(self).sections@.update(
                section_index(section) as int,
                !old(self).sections@[section_index(section) as int],
            ),
            *final(self) == (Runtime { sections: final(self).sections, ..*old(self) }),
    {
        let idx = section.index();
        let open = self.sections[idx];
        self.sections[idx] = !open;
    }

    /// Shows a notice until 2.2 seconds after `now`.
    pub fn show_toast(&mut self, text: String, now: u64)
        requires
            now + TOAST_MS <= u64::MAX,
        ensures
            final(self).toast == Some((text, (now + TOAST_MS) as u64)),
            *final(self) == (Runtime { toast: final(self).toast, ..*old(self) }),
    {
        self.toast = Some((text, now + TOAST_MS));
    }

    /// Whether no notice is up at `now`.
    pub fn toast_expired(&self, now: u64) -> (r: bool)
        ensures
            r == match self.toast {
                Some((_, until)) => now >= until,
                None => true,
            },
    {
        match &self.toast {
            Some((_, until)) => now >= *until,
            None => true,
        }
    }

    /// Whether an end-of-stage sound is playing at `now`.
    pub fn sound_active(&self, now: u64) -> (r: bool)
        ensures
            r == (self.sound_until > now),
    {
        self.sound_until > now
    }

    /// Notes that an end-of-stage sound started at `now`: a looping one is taken to play for an
    /// hour, a single one for 2.5 seconds.
    pub fn sound_started(&mut self, now: u64, looping: bool)
        requires
            now + SOUND_LOOP_MS <= u64::MAX,
        ensures
            final(self).sound_loop_playing == looping,
            final(self).sound_until == now + if looping { SOUND_LOOP_MS } else { SOUND_ONCE_MS },
            *final(self) == (Runtime {
                sound_loop_playing: final(self).sound_loop_playing,
                sound_until: final(self).sound_until,
                ..*old(self)
            }),
    {
        self.sound_loop_playing = looping;
        self.sound_until = if looping { now + SOUND_LOOP_MS } else { now + SOUND_ONCE_MS };
    }

    /// Notes that the end-of-stage sound stopped.
    pub fn sound_stopped(&mut self)
        ensures
            !final(self).sound_loop_playing,
            final(self).sound_until == 0,
            *final(self) == (Runtime {
                sound_loop_playing: final(self).sound_loop_playing,
                sound_until: final(self).sound_until,
                ..*old(self)
            }),
    {
        self.sound_loop_playing = false;
        self.sound_until = 0;
    }

    /// The draft preset, if a draft is open.
    pub fn draft_preset(&self) -> (r: Option<&Preset>)
        ensures
            match self.draft {
                Some(d) => r == Some(&d.preset),
                None => r is None,
            },
    {
        match &self.draft {
            Some(draft) => Some(&draft.preset),
            None => None,
        }
    }

    /// The draft preset, for changing it, if a draft is open.
    pub fn draft_preset_mut(&mut self) -> (r: Option<&mut Preset>)
        ensures
            match old(self).draft {
                None => r is None && *final(self) == *old(self),
                Some(d) => r is Some && *r.unwrap() == d.preset && *final(self) == (Runtime {
                    draft: Some(PresetDraft { preset: *final(r.unwrap()), ..d }),
                    ..*old(self)
                }),
            },
    {
        match &mut self.draft {
            Some(draft) => Some(&mut draft.preset),
            None => None,
        }
    }
}

} // verus!
