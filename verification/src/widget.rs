use vstd::prelude::*;

use crate::action::{Action, DropId, ViewId};
use crate::actions::{click_away, committed};
use crate::app::App;
use crate::clock::LocalTime;
use crate::dispatch::{action_done, apply, apply_room, HostWork};
use crate::model::{Effect, Effects};
use crate::runtime::{Runtime, WidgetMode};

verus! {

/// The page the desktop widget follows: it moves along when the main window switches to the
/// timer or the countdown, or when one of them is picked on the widget itself; the history and
/// settings pages leave it where it was.
pub fn module(app: &App, rt: &Runtime) -> (r: ViewId)
    ensures
        r == rt.widget_module,
{
    rt.widget_module
}

/// The activity list that belongs to page `module`.
pub open spec fn activity_drop_of(module: ViewId) -> DropId {
    if module == ViewId::Pomodoro {
        DropId::PomoActivity
    } else {
        DropId::TimerActivity
    }
}

pub fn activity_drop(module: ViewId) -> (r: DropId)
    ensures
        r == activity_drop_of(module),
{
    if module == ViewId::Pomodoro {
        DropId::PomoActivity
    } else {
        DropId::TimerActivity
    }
}

/// Whether the desktop widget has its activity list open.
pub fn list_open(app: &App, rt: &Runtime) -> (r: bool)
    ensures
        r == (rt.widget_drop && rt.open_drop == Some(activity_drop_of(rt.widget_module))),
{
    let wanted = activity_drop(module(app, rt));
    rt.widget_drop && match rt.open_drop {
        Some(id) => id == wanted,
        None => false,
    }
}

/// How far the pointer must move (in pixels, either way) before a press on the widget can
/// become a drag.
pub const DRAG_SLOP: i32 = 6;

/// How long a press must last (in milliseconds) before a short move drags the widget.
pub const DRAG_DELAY_MS: u64 = 160;

/// Whether a press on the widget turns into a drag now: the widget is not locked, is not being
/// dragged yet, and the pointer moved `dx`, `dy` past the slop after a long enough press, or far
/// enough (more than 18 pixels) at once.
pub open spec fn starts_drag(locked: bool, dragging: bool, dx: int, dy: int, held_ms: int) -> bool {
    let moved = dx > DRAG_SLOP || -dx > DRAG_SLOP || dy > DRAG_SLOP || -dy > DRAG_SLOP;
    let decided = held_ms >= DRAG_DELAY_MS || dx > 18 || -dx > 18 || dy > 18 || -dy > 18;
    !locked && !dragging && moved && decided
}

pub fn drag_starts(locked: bool, dragging: bool, dx: i32, dy: i32, pressed_at: u64, now: u64) -> (r: bool)
    requires
        dx > i32::MIN,
        dy > i32::MIN,
    ensures
        r == starts_drag(locked, dragging, dx as int, dy as int, if now >= pressed_at { now - pressed_at } else { 0 }),
{
    let ax = if dx < 0 { -dx } else { dx };
    let ay = if dy < 0 { -dy } else { dy };
    let moved = ax > DRAG_SLOP || ay > DRAG_SLOP;
    let decided = now.saturating_sub(pressed_at) >= DRAG_DELAY_MS || ax > 18 || ay > 18;
    !locked && !dragging && moved && decided
}

/// `v` kept between `low` and `high`, `low` winning when they cross.
pub open spec fn kept_between(v: int, low: int, high: int) -> int {
    if high < low {
        low
    } else if v < low {
        low
    } else if v > high {
        high
    } else {
        v
    }
}

/// Where a widget of `width` by `height` placed at `x`, `y` goes so that it stays on the work
/// area `left`, `top`, `right`, `bottom` of its screen (its top left corner stays on the area
/// when it is larger than the area).
pub fn clamp_to_area(x: i32, y: i32, width: i32, height: i32, left: i32, top: i32, right: i32, bottom: i32) -> (r: (i32, i32))
    requires
        i32::MIN <= right - width <= i32::MAX,
        i32::MIN <= bottom - height <= i32::MAX,
    ensures
        r.0 == kept_between(x as int, left as int, if right - width > left { right - width } else { left as int }),
        r.1 == kept_between(y as int, top as int, if bottom - height > top { bottom - height } else { top as int }),
{
    let max_x = if right - width > left { right - width } else { left };
    let max_y = if bottom - height > top { bottom - height } else { top };
    let cx = if x < left {
        left
    } else if x > max_x {
        max_x
    } else {
        x
    };
    let cy = if y < top {
        top
    } else if y > max_y {
        max_y
    } else {
        y
    };
    (cx, cy)
}

/// Where a widget of `width` goes the first time it shows: 28 pixels in from the right edge of
/// the work area, a quarter of the way down.
pub fn first_position(width: i32, left: i32, top: i32, right: i32, bottom: i32) -> (r: (i32, i32))
    requires
        i32::MIN <= right - width <= i32::MAX,
        i32::MIN <= right - width - 28 <= i32::MAX,
        i32::MIN <= bottom - top <= i32::MAX,
    ensures
        r.0 == right - width - 28,
        r.1 == top + crate::clock::quot(bottom - top, 4),
{
    (right - width - 28, top + (bottom - top) / 4)
}

/// The widget's look after a click outside its buttons with nothing open: standing by, it
/// shows or hides its buttons; running, it stays as it is.
pub open spec fn clicked_mode(m: WidgetMode) -> WidgetMode {
    match m {
        WidgetMode::Idle => WidgetMode::Standby,
        WidgetMode::Standby => WidgetMode::Idle,
        WidgetMode::Running => WidgetMode::Running,
    }
}

/// A click on the widget outside its buttons: with a drop-down or an edit open, only that is
/// closed (see `click_away`); otherwise the widget's look changes as `clicked_mode` says.
pub fn dismiss(app: &mut App, rt: &mut Runtime, fx: &mut Effects, now: u64)
    requires
        old(app).presets@.len() > 0,
    ensures
        old(rt).open_drop is Some ==> *final(app) == *old(app) && final(fx).items@ == old(fx).items@
            && *final(rt) == (Runtime { open_drop: None, ..*old(rt) }),
        old(rt).open_drop is None && old(rt).edit is Some ==> committed(*old(app), *old(rt),
            old(fx).items@, now, *final(app), *final(rt), final(fx).items@),
        old(rt).open_drop is None && old(rt).edit is None ==> *final(app) == *old(app)
            && final(fx).items@ == old(fx).items@
            && *final(rt) == (Runtime { calendar_open: false, widget_mode: clicked_mode(old(rt).widget_mode), ..*old(rt) }),
{
    let had_overlay = rt.open_drop.is_some() || rt.edit.is_some();
    click_away(app, rt, fx, now);
    if !had_overlay {
        rt.widget_mode = match rt.widget_mode {
            WidgetMode::Idle => WidgetMode::Standby,
            WidgetMode::Standby => WidgetMode::Idle,
            WidgetMode::Running => WidgetMode::Running,
        };
    }
}

/// A button pressed on the widget: a drop-down it opens belongs to the widget; then the action
/// is carried out as from the main window (see `action_done`).
pub fn widget_action(app: &mut App, rt: &mut Runtime, action: Action, now: u64, clock: &LocalTime, fx: &mut Effects) -> (w: HostWork)
    requires
        apply_room(*old(app), *old(rt), action, now),
    ensures
        action_done(*old(app),
            if action is DropToggle { Runtime { widget_drop: true, ..*old(rt) } } else { *old(rt) },
            old(fx).items@, action, now, *clock, *final(app), *final(rt), final(fx).items@, w),
{
    if let Action::DropToggle(_) = action {
        rt.widget_drop = true;
    }
    apply(app, rt, action, now, clock, fx)
}

/// How long (in milliseconds) the widget may go untouched with its buttons showing before it
/// puts them away.
pub const STANDBY_MS: u64 = 15_000;

/// The widget's own beat: when its buttons show, no edit is open on it and nobody touched it
/// for `STANDBY_MS` since `last_active`, it goes back to standing by and closes its drop-down.
pub fn standby_if_idle(rt: &mut Runtime, last_active: u64, now: u64)
    ensures
        ({
            let idle = now >= last_active && now - last_active >= STANDBY_MS;
            if old(rt).widget_mode != WidgetMode::Idle && !old(rt).widget_editing && idle {
                *final(rt) == (Runtime { widget_mode: WidgetMode::Idle, open_drop: None, ..*old(rt) })
            } else {
                *final(rt) == *old(rt)
            }
        }),
{
    if rt.widget_mode.buttons() && !rt.widget_editing && now.saturating_sub(last_active) >= STANDBY_MS {
        rt.widget_mode = WidgetMode::Idle;
        rt.open_drop = None;
    }
}

} // verus!
