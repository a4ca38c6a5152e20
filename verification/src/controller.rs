//! Raw input state handed in by the input collaborator each tick.

use vstd::prelude::*;

verus! {

/// One digital control. `pressed` is this tick's raw state; `held_down`
/// says it was already pressed on the prior tick, so a rising edge is
/// pressed-and-not-held.
#[derive(Clone, Copy, Debug, PartialEq, Eq, Structural)]
pub struct Input {
    pub pressed: bool,
    pub held_down: bool,
}

impl Input {
    /// The state after the input collaborator reports this tick's raw flag.
    pub open spec fn spec_after(self, now: bool) -> Input {
        Input { pressed: now, held_down: self.pressed && now }
    }

    /// A rising edge: pressed this tick without being held from the prior
    /// one.
    pub open spec fn rising_edge(self) -> bool {
        self.pressed && !self.held_down
    }

    /// A released control.
    pub fn new() -> (i: Input)
        ensures
            i == (Input { pressed: false, held_down: false }),
    {
        Input { pressed: false, held_down: false }
    }

    /// Feeds this tick's raw pressed flag; the prior tick's flag becomes the
    /// held-down marker.
    pub fn set_pressed(&mut self, now: bool)
        ensures
            *final(self) == old(self).spec_after(now),
    {
        let was = self.pressed;
        self.pressed = now;
        self.held_down = was && now;
    }

    pub fn is_pressed(&self) -> (r: bool)
        ensures
            r == self.pressed,
    {
        self.pressed
    }

    pub fn is_held_down(&self) -> (r: bool)
        ensures
            r == self.held_down,
    {
        self.held_down
    }
}

/// The set of controls the behavior system reads.
#[derive(Clone, Copy, Debug, PartialEq, Eq, Structural)]
pub struct ControllerInputs {
    pub primary: Input,
    pub secondary: Input,
    pub jump: Input,
    pub respawn: Input,
}

impl ControllerInputs {
    /// All controls released.
    pub fn new() -> (c: ControllerInputs)
        ensures
            c == (ControllerInputs {
                primary: Input { pressed: false, held_down: false },
                secondary: Input { pressed: false, held_down: false },
                jump: Input { pressed: false, held_down: false },
                respawn: Input { pressed: false, held_down: false },
            }),
    {
        ControllerInputs {
            primary: Input::new(),
            secondary: Input::new(),
            jump: Input::new(),
            respawn: Input::new(),
        }
    }
}

/// Per-actor controller state: the inputs the behavior handlers read.
#[derive(Clone, Copy, Debug, PartialEq, Eq, Structural)]
pub struct Controller {
    pub inputs: ControllerInputs,
}

impl Controller {
    pub fn new() -> (c: Controller)
        ensures
            c.inputs == (ControllerInputs {
                primary: Input { pressed: false, held_down: false },
                secondary: Input { pressed: false, held_down: false },
                jump: Input { pressed: false, held_down: false },
                respawn: Input { pressed: false, held_down: false },
            }),
    {
        Controller { inputs: ControllerInputs::new() }
    }
}

/// An input pressed and then held across consecutive ticks raises its edge on
/// the first tick only.
pub proof fn lemma_held_input_edges_once(i0: Input)
    requires
        !i0.pressed,
    ensures
        i0.spec_after(true).rising_edge(),
        !i0.spec_after(true).spec_after(true).rising_edge(),
{
}

} // verus!
