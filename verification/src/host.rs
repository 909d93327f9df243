use vstd::prelude::*;

use crate::action::ViewId;
use crate::app::{max_id, ticked, App};
use crate::clock::LocalTime;
use crate::model::{
    fmt_time, pomo_remaining_sec, resume_ms, stage_name, time_text, timer_elapsed, Effect, Effects,
    RunStatus,
};
use crate::runtime::{Runtime, SOUND_LOOP_MS, SOUND_ONCE_MS, TOAST_MS};
use crate::text::concat3;

verus! {

/// The heartbeat interval while nothing counts, in milliseconds.
pub const SLOW_INTERVAL: u32 = 1000;

/// The time to the next whole second of clock reading `now`, kept from 40 to 1000 ms.
pub open spec fn beat_interval(now: u64) -> u32 {
    let d = 1000 - now % 1000;
    (if d < 40 { 40 } else if d > 1000 { 1000 } else { d }) as u32
}

/// The heartbeat interval while something counts: up to the next whole second, so that the
/// display moves on once a second, on the second.
pub fn fast_interval(now: u64) -> (r: u32)
    ensures
        r == beat_interval(now),
        40 <= r <= 1000,
{
    let d = 1000 - now % 1000;
    if d < 40 {
        40
    } else if d > 1000 {
        1000
    } else {
        d as u32
    }
}

/// The tray icon's tool tip at `now`: the countdown's stage and time left while it runs, else
/// the count-up timer's time while it runs, else the program's name.
pub open spec fn tip_text(a: App, now: u64) -> Seq<char> {
    if a.pomodoro.status == RunStatus::Running {
        "番茄钟 · "@ + stage_name(a.pomodoro.stage) + " "@ + time_text(pomo_remaining_sec(a.pomodoro, now) as nat)
    } else if a.timer.status == RunStatus::Running {
        "计时中 "@ + time_text((timer_elapsed(a.timer, now) / 1000) as nat)
    } else {
        "番茄钟 · 计时"@
    }
}

pub fn tray_tip(app: &App, now: u64) -> (r: String)
    requires
        timer_elapsed(app.timer, now) <= u64::MAX,
    ensures
        r@ == tip_text(*app, now),
{
    if app.pomodoro.status == RunStatus::Running {
        let mut r = concat3("番茄钟 · ", app.pomodoro.stage.name(), " ");
        r.append(fmt_time(app.pomodoro.remaining_sec(now)).as_str());
        r
    } else if app.timer.status == RunStatus::Running {
        let mut r = String::from_str("计时中 ");
        r.append(fmt_time(app.timer.elapsed_sec(now)).as_str());
        r
    } else {
        String::from_str("番茄钟 · 计时")
    }
}

/// The page whose clock is going: the countdown's when it is not idle, else the timer's when
/// it is not idle.
pub open spec fn running_page(a: App) -> Option<ViewId> {
    if a.pomodoro.status != RunStatus::Idle {
        Some(ViewId::Pomodoro)
    } else if a.timer.status != RunStatus::Idle {
        Some(ViewId::Timer)
    } else {
        None
    }
}

/// `r` after noticing which page's clock is going in `a`: when that changed, the desktop widget
/// moves to the page that just started (and stays where it is when nothing runs any more).
pub open spec fn followed(r: Runtime, a: App) -> Runtime {
    let run = running_page(a);
    if run != r.widget_running_seen {
        Runtime {
            widget_running_seen: run,
            widget_module: match run {
                Some(v) => v,
                None => r.widget_module,
            },
            ..r
        }
    } else {
        r
    }
}

/// Lets the desktop widget follow whatever starts running (see `followed`); the user can still
/// point it elsewhere afterwards.
pub fn follow_running(app: &App, rt: &mut Runtime)
    ensures
        *final(rt) == followed(*old(rt), *app),
{
    let running = if app.pomodoro.status != RunStatus::Idle {
        Some(ViewId::Pomodoro)
    } else if app.timer.status != RunStatus::Idle {
        Some(ViewId::Timer)
    } else {
        None
    };
    let changed = match (running, rt.widget_running_seen) {
        (Some(a), Some(b)) => a != b,
        (None, None) => false,
        _ => true,
    };
    if changed {
        rt.widget_running_seen = running;
        if let Some(view) = running {
            rt.widget_module = view;
        }
    }
}

/// The interface state after the host took in effects `items` at `now`: each notice shows
/// (the last one staying up), and each end-of-stage sound is noted as started.
pub open spec fn absorbed(r: Runtime, items: Seq<Effect>, now: u64) -> Runtime
    decreases items.len(),
{
    if items.len() == 0 {
        r
    } else {
        let before = absorbed(r, items.drop_last(), now);
        match items.last() {
            Effect::Toast(text) => Runtime { toast: Some((text, (now + TOAST_MS) as u64)), ..before },
            Effect::Sound { looping, .. } => Runtime {
                sound_loop_playing: looping,
                sound_until: (now + if looping { SOUND_LOOP_MS } else { SOUND_ONCE_MS }) as u64,
                ..before
            },
            Effect::Balloon { .. } => before,
        }
    }
}

/// The effects that only the host can carry out (sounds and notifications), in order.
pub open spec fn outside_work(items: Seq<Effect>) -> Seq<Effect>
    decreases items.len(),
{
    if items.len() == 0 {
        Seq::empty()
    } else {
        let before = outside_work(items.drop_last());
        if items.last() is Toast {
            before
        } else {
            before.push(items.last())
        }
    }
}

/// Takes in effects at `now`: shows the notices and notes the sounds as started (see
/// `absorbed`), and hands back the sounds and notifications for the host to play and show.
pub fn absorb(rt: &mut Runtime, effects: Effects, now: u64) -> (out: Vec<Effect>)
    requires
        now + SOUND_LOOP_MS <= u64::MAX,
    ensures
        *final(rt) == absorbed(*old(rt), effects.items@, now),
        out@ == outside_work(effects.items@),
{
    let ghost all = effects.items@;
    let mut items = effects.items;
    let count = items.len();
    assert(all.len() == count);
    let mut out: Vec<Effect> = Vec::new();
    let mut i: usize = 0;
    while items.len() > 0
        invariant
            now + SOUND_LOOP_MS <= u64::MAX,
            i <= all.len(),
            all.len() <= usize::MAX,
            items@ == all.skip(i as int),
            *rt == absorbed(*old(rt), all.take(i as int), now),
            out@ == outside_work(all.take(i as int)),
        decreases items@.len(),
    {
        proof {
            assert(all.take(i + 1).drop_last() =~= all.take(i as int));
            assert(all[i as int] == items@[0]);
        }
        let e = items.remove(0);
        match e {
            Effect::Toast(text) => {
                rt.show_toast(text, now);
            },
            Effect::Sound { kind, path, looping } => {
                rt.sound_started(now, looping);
                out.push(Effect::Sound { kind, path, looping });
            },
            Effect::Balloon { title, body } => {
                out.push(Effect::Balloon { title, body });
            },
        }
        i = i + 1;
        proof {
            assert(items@ =~= all.skip(i as int));
        }
    }
    proof {
        assert(all.take(i as int) =~= all);
    }
    out
}

/// What one heartbeat leaves for the host to do.
pub struct Beat {
    /// Whether the heartbeat should run fast (something counts, or a notice is up).
    pub fast: bool,
    /// The interval until the next heartbeat, in milliseconds.
    pub interval: u32,
    /// The main window's new size step, when it changed.
    pub resize: Option<usize>,
    /// The tray icon's tool tip.
    pub tip: String,
    /// Sounds to play and notifications to show, in order.
    pub outside: Vec<Effect>,
}

/// Whether no notice is up at `now`.
pub open spec fn toast_gone(r: Runtime, now: u64) -> bool {
    match r.toast {
        Some((_, until)) => now >= until,
        None => true,
    }
}

/// Whether a heartbeat at `now` has room to move the clocks on in `a`.
pub open spec fn beat_room(a: App, now: u64) -> bool {
    &&& a.presets@.len() > 0
    &&& now + SOUND_LOOP_MS <= u64::MAX
    &&& max_id(a.history@) < u64::MAX
    &&& now + resume_ms(a.pomodoro) <= u64::MAX
    &&& timer_elapsed(a.timer, now) <= u64::MAX
}

/// What a heartbeat at `now` does besides moving the clocks on (which took the state to `a1`
/// and produced effects `fx`): an expired notice goes away, the effects are taken in (see
/// `absorbed`), the desktop widget follows whatever started running (see `followed`), a
/// pending window resize is handed over, and the next interval is chosen: up to the next whole
/// second while something counts or a notice is up, a second otherwise.
pub open spec fn beat_done(r0: Runtime, fx: Seq<Effect>, now: u64, a1: App, r1: Runtime, beat: Beat) -> bool {
    let cleared = if toast_gone(r0, now) { Runtime { toast: None, ..r0 } } else { r0 };
    let seen = followed(absorbed(cleared, fx, now), a1);
    let fast = a1.timer.status == RunStatus::Running || a1.pomodoro.status == RunStatus::Running
        || a1.pomodoro.auto_start_at is Some || seen.toast is Some;
    &&& r1 == (Runtime { window_dirty: false, ..seen })
    &&& beat.outside@ == outside_work(fx)
    &&& beat.tip@ == tip_text(a1, now)
    &&& beat.fast == fast
    &&& beat.interval == if fast { beat_interval(now) } else { SLOW_INTERVAL }
    &&& beat.resize == if r0.window_dirty { Some(a1.visual.window_size) } else { None }
}

/// The rest of a heartbeat once the clocks have moved on to `app`, producing `fx`.
fn settle_beat(app: &App, rt: &mut Runtime, fx: Effects, now: u64) -> (beat: Beat)
    requires
        now + SOUND_LOOP_MS <= u64::MAX,
        timer_elapsed(app.timer, now) <= u64::MAX,
    ensures
        beat_done(*old(rt), fx.items@, now, *app, *final(rt), beat),
{
    let resize_wanted = rt.window_dirty;
    if rt.toast_expired(now) {
        rt.toast = None;
    }
    let outside = absorb(rt, fx, now);
    let tip = tray_tip(app, now);
    follow_running(app, rt);
    let fast = app.has_running_timer() || rt.toast.is_some();
    let interval = if fast {
        fast_interval(now)
    } else {
        SLOW_INTERVAL
    };
    rt.window_dirty = false;
    let resize = if resize_wanted {
        Some(app.visual.window_size)
    } else {
        None
    };
    Beat { fast, interval, resize, tip, outside }
}

/// One heartbeat at clock reading `now`, the local time being `clock`: moves the clocks on (see
/// `App::tick`) and does the rest of `beat_done`.
pub fn heartbeat(app: &mut App, rt: &mut Runtime, now: u64, clock: &LocalTime) -> (beat: Beat)
    requires
        beat_room(*old(app), now),
    ensures
        exists|fx: Seq<Effect>| #[trigger] ticked(*old(app), Seq::empty(), now, *clock, *final(app), fx)
            && beat_done(*old(rt), fx, now, *final(app), *final(rt), beat),
{
    let mut fx = Effects::default();
    assert(fx.items@ =~= Seq::<Effect>::empty());
    app.tick(now, clock, &mut fx);
    let ghost produced = fx.items@;
    proof {
        crate::app::lemma_ticked_keeps(*old(app), Seq::empty(), now, *clock, *app, produced);
    }
    let beat = settle_beat(app, rt, fx, now);
    assert(ticked(*old(app), Seq::empty(), now, *clock, *app, produced));
    beat
}

/// Menu item ids of the tray icon's menu.
pub const CMD_SHOW: usize = 100;
pub const CMD_TOGGLE: usize = 101;
pub const CMD_SKIP: usize = 102;
pub const CMD_QUIT: usize = 103;
pub const CMD_WIDGET: usize = 104;
pub const CMD_CLICK_THROUGH: usize = 105;

/// A command picked from the tray icon's menu.
#[derive(Clone, Copy, PartialEq, Eq, Debug, Structural)]
pub enum TrayCommand {
    /// Bring up the main window.
    Show,
    /// Start or pause the countdown (pausing the count-up timer along with it).
    Toggle,
    /// Skip to the next stage.
    Skip,
    Quit,
    /// Show or remove the desktop widget.
    Widget,
    /// Switch the desktop widget's click-through on or off.
    ClickThrough,
}

pub open spec fn command_of(id: usize) -> Option<TrayCommand> {
    if id == CMD_SHOW {
        Some(TrayCommand::Show)
    } else if id == CMD_TOGGLE {
        Some(TrayCommand::Toggle)
    } else if id == CMD_SKIP {
        Some(TrayCommand::Skip)
    } else if id == CMD_QUIT {
        Some(TrayCommand::Quit)
    } else if id == CMD_WIDGET {
        Some(TrayCommand::Widget)
    } else if id == CMD_CLICK_THROUGH {
        Some(TrayCommand::ClickThrough)
    } else {
        None
    }
}

impl TrayCommand {
    /// The command of a menu item id; 0 (the menu was closed) and unknown ids give none.
    pub fn from_id(id: usize) -> (r: Option<TrayCommand>)
        ensures
            r == command_of(id),
    {
        if id == CMD_SHOW {
            Some(TrayCommand::Show)
        } else if id == CMD_TOGGLE {
            Some(TrayCommand::Toggle)
        } else if id == CMD_SKIP {
            Some(TrayCommand::Skip)
        } else if id == CMD_QUIT {
            Some(TrayCommand::Quit)
        } else if id == CMD_WIDGET {
            Some(TrayCommand::Widget)
        } else if id == CMD_CLICK_THROUGH {
            Some(TrayCommand::ClickThrough)
        } else {
            None
        }
    }

    /// The menu item id of the command.
    pub fn id(self) -> (r: usize)
        ensures
            command_of(r) == Some(self),
    {
        match self {
            TrayCommand::Show => CMD_SHOW,
            TrayCommand::Toggle => CMD_TOGGLE,
            TrayCommand::Skip => CMD_SKIP,
            TrayCommand::Quit => CMD_QUIT,
            TrayCommand::Widget => CMD_WIDGET,
            TrayCommand::ClickThrough => CMD_CLICK_THROUGH,
        }
    }
}

/// Work that a tray command leaves for the host.
#[derive(Clone, Copy, PartialEq, Eq, Debug, Structural)]
pub struct TrayWork {
    pub show_main: bool,
    pub toggle_widget: bool,
    /// Re-apply the desktop widget's click-through style.
    pub restyle_widget: bool,
    /// Save the state at the next heartbeat.
    pub save: bool,
    pub quit: bool,
}

pub open spec fn no_tray_work() -> TrayWork {
    TrayWork { show_main: false, toggle_widget: false, restyle_widget: false, save: false, quit: false }
}

/// Whether the tray commands have room to act on `a` at `now`.
pub open spec fn tray_room(a: App, now: u64) -> bool {
    &&& a.presets@.len() > 0
    &&& now + 500 <= u64::MAX
    &&& max_id(a.history@) < u64::MAX
    &&& now + resume_ms(a.pomodoro) <= u64::MAX
    &&& timer_elapsed(a.timer, now) <= u64::MAX
}

/// What a tray command does. Showing the window, the widget switch and quitting are the
/// host's; the start / pause item pauses whatever runs (both clocks toggle when either is
/// running) or else starts the countdown; skipping skips the countdown's stage (see
/// `pomo_skipped`); the click-through item flips the widget's click-through, the one way back
/// when the widget itself cannot be clicked.
pub open spec fn tray_done(a0: App, fx0: Seq<Effect>, cmd: TrayCommand, now: u64, clock: LocalTime, a1: App, fx1: Seq<Effect>, w: TrayWork) -> bool {
    match cmd {
        TrayCommand::Show => a1 == a0 && fx1 == fx0 && w == (TrayWork { show_main: true, ..no_tray_work() }),
        TrayCommand::Widget => a1 == a0 && fx1 == fx0 && w == (TrayWork { toggle_widget: true, ..no_tray_work() }),
        TrayCommand::Quit => a1 == a0 && fx1 == fx0 && w == (TrayWork { quit: true, ..no_tray_work() }),
        TrayCommand::Toggle => fx1 == fx0 && w == no_tray_work()
            && a1 == (App { timer: a1.timer, pomodoro: a1.pomodoro, ..a0 })
            && crate::model::pomo_toggled(a0.pomodoro, a1.pomodoro, now)
            && if a0.timer.status == RunStatus::Running || a0.pomodoro.status == RunStatus::Running {
                crate::model::timer_toggled(a0.timer, a1.timer, now)
            } else {
                a1.timer == a0.timer
            },
        TrayCommand::Skip => w == no_tray_work() && crate::app::pomo_skipped(a0, fx0, now, clock, a1, fx1),
        TrayCommand::ClickThrough => fx1 == fx0 && w == (TrayWork { restyle_widget: true, save: true, ..no_tray_work() })
            && a1 == (App {
                visual: crate::app::Visual { widget_click_through: !a0.visual.widget_click_through, ..a0.visual },
                ..a0
            }),
    }
}

/// Carries out a tray command at clock reading `now`, the local time being `clock` (see
/// `tray_done`).
pub fn run_tray_command(app: &mut App, cmd: TrayCommand, now: u64, clock: &LocalTime, fx: &mut Effects) -> (w: TrayWork)
    requires
        tray_room(*old(app), now),
    ensures
        tray_done(*old(app), old(fx).items@, cmd, now, *clock, *final(app), final(fx).items@, w),
{
    let none = TrayWork { show_main: false, toggle_widget: false, restyle_widget: false, save: false, quit: false };
    match cmd {
        TrayCommand::Show => TrayWork { show_main: true, ..none },
        TrayCommand::Widget => TrayWork { toggle_widget: true, ..none },
        TrayCommand::Quit => TrayWork { quit: true, ..none },
        TrayCommand::Toggle => {
            if app.timer.status == RunStatus::Running || app.pomodoro.status == RunStatus::Running {
                app.timer.toggle(now);
                app.pomodoro.toggle(now);
            } else {
                app.pomodoro.toggle(now);
            }
            none
        },
        TrayCommand::Skip => {
            app.skip_pomodoro(now, clock, fx);
            none
        },
        TrayCommand::ClickThrough => {
            app.visual.widget_click_through = !app.visual.widget_click_through;
            TrayWork { restyle_widget: true, save: true, ..none }
        },
    }
}

/// The label of the menu's start / pause item.
pub fn toggle_label(app: &App) -> (r: &'static str)
    ensures
        r@ == if app.pomodoro.status == RunStatus::Running { "暂停番茄钟"@ } else { "开始番茄钟"@ },
{
    if app.pomodoro.status == RunStatus::Running {
        "暂停番茄钟"
    } else {
        "开始番茄钟"
    }
}

/// The label of the menu's desktop widget item.
pub fn widget_label(app: &App) -> (r: &'static str)
    ensures
        r@ == if app.visual.widget_visible { "删除桌面小图标"@ } else { "显示桌面小图标"@ },
{
    if app.visual.widget_visible {
        "删除桌面小图标"
    } else {
        "显示桌面小图标"
    }
}

/// The label of the menu's click-through item.
pub fn click_label(app: &App) -> (r: &'static str)
    ensures
        r@ == if app.visual.widget_click_through { "小图标点击穿透：开（从托盘关）"@ } else { "小图标点击穿透：关"@ },
{
    if app.visual.widget_click_through {
        "小图标点击穿透：开（从托盘关）"
    } else {
        "小图标点击穿透：关"
    }
}

} // verus!
