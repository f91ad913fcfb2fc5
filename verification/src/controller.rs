//! Saving a clip by buttons of a game controller.

use std::collections::HashSet;
use vstd::prelude::*;

verus! {

/// What a controller reports.
#[derive(Clone, Copy, Debug, PartialEq, Eq, Structural)]
pub enum ControllerEvent {
    /// The button of this code was pressed.
    Pressed(u32),
    /// The button of this code was released.
    Released(u32),
    /// The controller is gone.
    Disconnected,
    /// Something else.
    Other,
}

/// Which buttons are held, and whether they have saved a clip since they are.
pub struct Grip {
    /// The codes of the buttons that are held.
    pub held: Set<u32>,
    /// Whether a clip was saved since the combination is held.
    pub triggered: bool,
}

/// Whether the buttons that are held make up the combination that saves a clip.
pub type Combo = spec_fn(Set<u32>) -> bool;

impl Grip {
    /// The buttons that are held after an event.
    pub open spec fn held_after(self, event: ControllerEvent) -> Set<u32> {
        match event {
            ControllerEvent::Pressed(b) => self.held.insert(b),
            ControllerEvent::Released(b) => self.held.remove(b),
            ControllerEvent::Disconnected => Set::empty(),
            ControllerEvent::Other => self.held,
        }
    }

    /// Whether a clip was saved since the combination is held, after an event, given whether
    /// the combination is held now.
    pub open spec fn triggered_after(self, event: ControllerEvent, satisfied: bool) -> bool {
        match event {
            ControllerEvent::Pressed(_) => self.triggered || satisfied,
            ControllerEvent::Released(_) => self.triggered && satisfied,
            ControllerEvent::Disconnected => false,
            ControllerEvent::Other => self.triggered,
        }
    }

    /// Whether an event saves a clip, given whether the combination is held now.
    pub open spec fn saves(self, event: ControllerEvent, satisfied: bool) -> bool {
        event is Pressed && satisfied && !self.triggered
    }

    /// The state after an event.
    pub open spec fn after(self, combo: Combo, event: ControllerEvent) -> Grip {
        let held = self.held_after(event);
        Grip { held, triggered: self.triggered_after(event, combo(held)) }
    }

    /// Whether an event saves a clip.
    pub open spec fn fires(self, combo: Combo, event: ControllerEvent) -> bool {
        self.saves(event, combo(self.held_after(event)))
    }

    /// The state after a row of events.
    pub open spec fn after_all(self, combo: Combo, events: Seq<ControllerEvent>) -> Grip
        decreases events.len(),
    {
        if events.len() == 0 {
            self
        } else {
            self.after_all(combo, events.drop_last()).after(combo, events.last())
        }
    }
}

/// Watches a controller.
#[derive(Debug)]
pub struct ControllerManager {
    /// The codes of the buttons that are held.
    pub held: HashSet<u32>,
    /// Whether a clip was saved since the combination is held.
    pub combo_already_triggered: bool,
}

impl View for ControllerManager {
    type V = Grip;

    open spec fn view(&self) -> Grip {
        Grip { held: self.held@, triggered: self.combo_already_triggered }
    }
}

impl ControllerManager {
    /// Watches a controller whose buttons are all released.
    pub fn new() -> (r: ControllerManager)
        ensures
            r@ == (Grip { held: Set::empty(), triggered: false }),
    {
        broadcast use vstd::std_specs::hash::group_hash_axioms;

        let r: ControllerManager = ControllerManager {
            held: HashSet::new(),
            combo_already_triggered: false,
        };
        assert(r.held@ =~= Set::empty());
        r
    }

    /// Takes note of the buttons that are held after an event. Whether they make up the
    /// combination is for [`ControllerManager::on_event`], which follows.
    pub fn hold(&mut self, event: ControllerEvent)
        ensures
            final(self)@ == (Grip { held: old(self)@.held_after(event), ..old(self)@ }),
    {
        broadcast use vstd::std_specs::hash::group_hash_axioms;

        match event {
            ControllerEvent::Pressed(b) => {
                self.held.insert(b);
            },
            ControllerEvent::Released(b) => {
                self.held.remove(&b);
            },
            ControllerEvent::Disconnected => {
                self.held.clear();
                assert(self.held@ =~= Set::empty());
            },
            ControllerEvent::Other => {},
        }
    }

    /// Decides on an event whose buttons are noted, given whether those that are held make up
    /// the combination. Tells whether a clip is saved.
    pub fn on_event(&mut self, event: ControllerEvent, satisfied: bool) -> (r: bool)
        ensures
            r == old(self)@.saves(event, satisfied),
            final(self)@ == (Grip {
                triggered: old(self)@.triggered_after(event, satisfied),
                ..old(self)@
            }),
    {
        match event {
            ControllerEvent::Pressed(_) => {
                if satisfied && !self.combo_already_triggered {
                    self.combo_already_triggered = true;
                    return true;
                }
                false
            },
            ControllerEvent::Released(_) => {
                if !satisfied {
                    self.combo_already_triggered = false;
                }
                false
            },
            ControllerEvent::Disconnected => {
                self.combo_already_triggered = false;
                false
            },
            ControllerEvent::Other => false,
        }
    }
}

/// Whether a row of events neither releases a button nor loses the controller.
pub open spec fn only_presses(events: Seq<ControllerEvent>) -> bool {
    forall|i: int|
        0 <= i < events.len() ==> (#[trigger] events[i]) is Pressed || events[i] is Other
}

/// To note an event and to decide on it by a combination is the step that the laws speak of.
pub proof fn law_hold_and_decide_is_one_step(grip: Grip, combo: Combo, event: ControllerEvent)
    ensures
        ({
            let noted = Grip { held: grip.held_after(event), ..grip };
            &&& noted.saves(event, combo(noted.held)) == grip.fires(combo, event)
            &&& (Grip { triggered: noted.triggered_after(event, combo(noted.held)), ..noted })
                == grip.after(combo, event)
        }),
{
}

/// Once a held combination has saved a clip, it saves no other one before a button is
/// released or the controller is lost.
pub proof fn law_combo_fires_once(
    grip: Grip,
    combo: Combo,
    first: ControllerEvent,
    events: Seq<ControllerEvent>,
    next: ControllerEvent,
)
    requires
        grip.fires(combo, first),
        only_presses(events),
    ensures
        grip.after(combo, first).after_all(combo, events).triggered,
        !grip.after(combo, first).after_all(combo, events).fires(combo, next),
    decreases events.len(),
{
    if events.len() > 0 {
        assert(events.last() is Pressed || events.last() is Other);
        assert(only_presses(events.drop_last()));
        law_combo_fires_once(grip, combo, first, events.drop_last(), events.last());
    }
}

/// A combination that is let go by one button and taken up again by it saves another clip.
pub proof fn law_combo_rearms(grip: Grip, combo: Combo, b: u32)
    requires
        combo(grip.held.insert(b)),
        !combo(grip.held.remove(b)),
    ensures
        grip.after(combo, ControllerEvent::Released(b)).fires(
            combo,
            ControllerEvent::Pressed(b),
        ),
{
    assert(grip.held.remove(b).insert(b) =~= grip.held.insert(b));
}

/// Losing the controller forgets all that was held.
pub proof fn law_disconnect_forgets(grip: Grip, combo: Combo)
    ensures
        grip.after(combo, ControllerEvent::Disconnected) == (Grip {
            held: Set::empty(),
            triggered: false,
        }),
{
}

/// A button is held from its press to its release, and no other button is touched by either;
/// anything else that is reported changes nothing.
pub proof fn law_buttons_are_held_until_released(grip: Grip, combo: Combo, b: u32, other: u32)
    ensures
        grip.after(combo, ControllerEvent::Pressed(b)).held.contains(b),
        !grip.after(combo, ControllerEvent::Released(b)).held.contains(b),
        other != b ==> (grip.after(combo, ControllerEvent::Pressed(b)).held.contains(other)
            <==> grip.held.contains(other)),
        other != b ==> (grip.after(combo, ControllerEvent::Released(b)).held.contains(other)
            <==> grip.held.contains(other)),
        grip.after(combo, ControllerEvent::Other) == grip,
        !grip.after(combo, ControllerEvent::Disconnected).held.contains(other),
{
}

/// A clip is saved exactly by the press that completes the combination, unless the combination
/// saved one and was not let go since.
pub proof fn law_completing_press_saves(grip: Grip, combo: Combo, event: ControllerEvent, b: u32)
    ensures
        combo(grip.held.insert(b)) && !grip.triggered ==> grip.fires(
            combo,
            ControllerEvent::Pressed(b),
        ),
        !combo(grip.held.insert(b)) || grip.triggered ==> !grip.fires(
            combo,
            ControllerEvent::Pressed(b),
        ),
        !(event is Pressed) ==> !grip.fires(combo, event),
        grip.fires(combo, event) ==> grip.after(combo, event).triggered,
{
}

/// A release lets the combination save again only where it lets go of the combination.
pub proof fn law_release_rearms_only_when_let_go(grip: Grip, combo: Combo, b: u32)
    ensures
        combo(grip.held.remove(b)) ==> grip.after(combo, ControllerEvent::Released(b)).triggered
            == grip.triggered,
        !combo(grip.held.remove(b)) ==> !grip.after(combo, ControllerEvent::Released(b)).triggered,
{
}

} // verus!
