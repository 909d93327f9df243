use vstd::prelude::*;

use crate::action::{Action, EditTarget};
use crate::actions::committed;
use crate::app::App;
use crate::clock::LocalTime;
use crate::dispatch::{action_done, HostWork};
use crate::model::Effect;
use crate::runtime::Runtime;

verus! {

/// Whether the state is usable: at least one preset, a preset chosen among them, at least one
/// activity, and theme choices that point at a theme or are 0.
pub open spec fn in_order(a: App) -> bool {
    &&& a.presets@.len() > 0
    &&& a.active_preset < a.presets@.len()
    &&& a.activities@.len() > 0
    &&& (a.visual.custom_index < a.visual.custom_themes@.len() || a.visual.custom_index == 0)
    &&& (a.visual.saved_index < a.visual.saved_presets@.len() || a.visual.saved_index == 0)
}

/// Committing an inline edit keeps the state usable.
pub proof fn lemma_committed_in_order(a0: App, r0: Runtime, fx0: Seq<Effect>, now: u64, a1: App, r1: Runtime, fx1: Seq<Effect>)
    requires
        in_order(a0),
        committed(a0, r0, fx0, now, a1, r1, fx1),
    ensures
        in_order(a1),
{
    if let Some(e) = r0.edit {
        match e.target {
            EditTarget::ActivityAdd => {
                if a1.activities@.len() != a0.activities@.len() {
                    assert(a1.activities@.drop_last() == a0.activities@);
                }
            },
            EditTarget::ActivityName(_) => {
                if a1.activities != a0.activities {
                    assert(a1.activities@.drop_last() == a0.activities@);
                }
            },
            _ => {},
        }
    }
}

/// Whatever an inline edit's commit leads to is usable when the start was.
proof fn lemma_commits_in_order(a0: App, r0: Runtime, fx0: Seq<Effect>, now: u64)
    requires
        in_order(a0),
    ensures
        forall|a1: App, r1: Runtime, fx1: Seq<Effect>| #[trigger] committed(a0, r0, fx0, now, a1, r1, fx1) ==> in_order(a1),
{
    assert forall|a1: App, r1: Runtime, fx1: Seq<Effect>| #[trigger] committed(a0, r0, fx0, now, a1, r1, fx1) implies in_order(a1) by {
        lemma_committed_in_order(a0, r0, fx0, now, a1, r1, fx1);
    }
}

/// Law: every user action keeps the state usable (see `in_order`): no action leaves the
/// program without a preset, without a chosen preset, or without an activity, nor with a theme
/// choice that points past the themes.
pub proof fn law_actions_keep_order(
    a0: App, r0: Runtime, fx0: Seq<Effect>, action: Action, now: u64, clock: LocalTime,
    a1: App, r1: Runtime, fx1: Seq<Effect>, w: HostWork,
)
    requires
        in_order(a0),
        action_done(a0, r0, fx0, action, now, clock, a1, r1, fx1, w),
    ensures
        in_order(a1),
{
    lemma_commits_in_order(a0, r0, fx0, now);
}

/// Law: a heartbeat keeps the state usable.
pub proof fn law_heartbeat_keeps_order(a0: App, fx0: Seq<Effect>, now: u64, clock: LocalTime, a1: App, fx1: Seq<Effect>)
    requires
        in_order(a0),
        crate::app::ticked(a0, fx0, now, clock, a1, fx1),
    ensures
        in_order(a1),
{
    crate::app::lemma_ticked_keeps(a0, fx0, now, clock, a1, fx1);
}

/// Law: a tray command keeps the state usable.
pub proof fn law_tray_keeps_order(
    a0: App, fx0: Seq<Effect>, cmd: crate::host::TrayCommand, now: u64, clock: LocalTime,
    a1: App, fx1: Seq<Effect>, w: crate::host::TrayWork,
)
    requires
        in_order(a0),
        crate::host::tray_done(a0, fx0, cmd, now, clock, a1, fx1, w),
    ensures
        in_order(a1),
{
}

/// Law: a state put in order (as every start's state is, see `restore`) is usable.
pub proof fn law_normalized_in_order(r: App)
    requires
        crate::app::normalized(r),
    ensures
        in_order(r),
{
}

/// Committing an inline edit leaves the widget's look as it was and ends the edit.
pub proof fn lemma_commit_keeps_widget(a0: App, r0: Runtime, fx0: Seq<Effect>, now: u64, a1: App, r1: Runtime, fx1: Seq<Effect>)
    requires
        committed(a0, r0, fx0, now, a1, r1, fx1),
    ensures
        r1.widget_mode == r0.widget_mode,
        r1.edit is None,
{
}

} // verus!
