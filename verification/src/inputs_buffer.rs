use vstd::prelude::*;

verus! {

/// Which way the player is told to turn.
#[derive(Copy, Clone, PartialEq, Eq, Structural, Debug)]
pub enum lookCommand_t {
    RIGHT,
    LEFT,
    NONE,
}

/// Which way the player is told to walk, relative to where it looks.
#[derive(Copy, Clone, PartialEq, Eq, Structural, Debug)]
pub enum moveCommand_t {
    NORTH,
    SOUTH,
    EAST,
    WEST,
    NORTH_EAST,
    NORTH_WEST,
    SOUTH_EAST,
    SOUTH_WEST,
    NONE,
}

/// Whether the player is told to open a door.
#[derive(Copy, Clone, PartialEq, Eq, Structural, Debug)]
pub enum doorCommand_t {
    OPEN,
    NONE,
}

impl Default for lookCommand_t {
    fn default() -> (d: Self)
        ensures
            d == lookCommand_t::NONE,
    {
        lookCommand_t::NONE
    }
}

impl Default for moveCommand_t {
    fn default() -> (d: Self)
        ensures
            d == moveCommand_t::NONE,
    {
        moveCommand_t::NONE
    }
}

impl Default for doorCommand_t {
    fn default() -> (d: Self)
        ensures
            d == doorCommand_t::NONE,
    {
        doorCommand_t::NONE
    }
}

/// One thing that the input devices report.
#[derive(Copy, Clone, PartialEq, Eq, Structural, Debug)]
pub enum InputEvent {
    /// The window was asked to close.
    Quit,
    /// The escape key went down.
    EscapeDown,
    /// The mouse moved by `xrel` to the right.
    MouseMotion { xrel: i32 },
    /// Anything else.
    Other,
}

/// Which keys and buttons are down.
#[derive(Copy, Clone, PartialEq, Eq, Structural, Debug)]
pub struct KeyboardState {
    pub W: bool,
    pub S: bool,
    pub A: bool,
    pub D: bool,
    pub SPACE: bool,
    pub LEFT: bool,
    pub RIGHT: bool,
    pub FIRE: bool,
}

/// The commands of one tick.
#[derive(Copy, Clone, PartialEq, Eq, Structural, Debug)]
pub struct InputsBuffer {
    pub lookCommand: lookCommand_t,
    pub moveCommand: moveCommand_t,
    pub doorCommand: doorCommand_t,
    pub quit: bool,
    pub fireWeapon: bool,
    /// How far the mouse moved sideways, whichever way.
    pub mouseAbsXrel: i32,
    /// How far the mouse moved to the right in the tick before.
    pub prevXrel: i32,
}

/// The magnitude of `x`, or the greatest number where the magnitude has
/// none.
pub open spec fn abs_i32(x: i32) -> i32 {
    if x == i32::MIN {
        i32::MAX
    } else if x < 0 {
        (-x) as i32
    } else {
        x
    }
}

/// The walking command that the keys give: forward with `W`, back with
/// `S`, to the left with `A` and to the right with `D`, and forward or
/// back and to a side at once with two of them. `W` goes before `S`, and
/// `A` before `D`.
pub open spec fn move_command(keys: KeyboardState) -> moveCommand_t {
    if keys.W && keys.A {
        moveCommand_t::NORTH_WEST
    } else if keys.W && keys.D {
        moveCommand_t::NORTH_EAST
    } else if keys.W {
        moveCommand_t::NORTH
    } else if keys.S && keys.A {
        moveCommand_t::SOUTH_WEST
    } else if keys.S && keys.D {
        moveCommand_t::SOUTH_EAST
    } else if keys.S {
        moveCommand_t::SOUTH
    } else if keys.A {
        moveCommand_t::WEST
    } else if keys.D {
        moveCommand_t::EAST
    } else {
        moveCommand_t::NONE
    }
}

/// The turning command that the arrow keys give.
pub open spec fn look_command(keys: KeyboardState) -> lookCommand_t {
    if keys.LEFT {
        lookCommand_t::LEFT
    } else if keys.RIGHT {
        lookCommand_t::RIGHT
    } else {
        lookCommand_t::NONE
    }
}

impl InputsBuffer {
    /// The buffer once the events `events` were read, one after the other.
    /// A request to quit or the escape key sets `quit`, and what follows
    /// it is not read. A motion of the mouse sets the turning command by
    /// its sense, and `mouseAbsXrel` and `prevXrel` by its size.
    pub open spec fn scanned(self, events: Seq<InputEvent>) -> InputsBuffer
        decreases events.len(),
    {
        if events.len() == 0 {
            self
        } else {
            match events[0] {
                InputEvent::Quit | InputEvent::EscapeDown => InputsBuffer { quit: true, ..self },
                InputEvent::MouseMotion { xrel } => (InputsBuffer {
                    lookCommand: if xrel > 0 {
                        lookCommand_t::RIGHT
                    } else if xrel < 0 {
                        lookCommand_t::LEFT
                    } else {
                        self.lookCommand
                    },
                    mouseAbsXrel: abs_i32(xrel),
                    prevXrel: xrel,
                    ..self
                }).scanned(events.drop_first()),
                InputEvent::Other => self.scanned(events.drop_first()),
            }
        }
    }

    /// The buffer after a tick in which the devices reported `events`, the
    /// mouse was at rest or not, and the keys `keys` were down. The mouse
    /// has stopped, and the player no longer turns, when it moved as far in
    /// this tick as in the one before and is at rest.
    pub open spec fn updated(self, events: Seq<InputEvent>, mouseAtRest: bool, keys: KeyboardState) -> InputsBuffer {
        let scanned = (InputsBuffer { prevXrel: 0, ..self }).scanned(events);
        let stopped = scanned.prevXrel == self.prevXrel && mouseAtRest;
        InputsBuffer {
            lookCommand: if stopped {
                lookCommand_t::NONE
            } else {
                scanned.lookCommand
            },
            mouseAbsXrel: if stopped {
                0
            } else {
                scanned.mouseAbsXrel
            },
            moveCommand: move_command(keys),
            doorCommand: if keys.SPACE {
                doorCommand_t::OPEN
            } else {
                doorCommand_t::NONE
            },
            fireWeapon: keys.FIRE,
            ..scanned
        }
    }

    /// The buffer without commands.
    pub open spec fn fresh() -> InputsBuffer {
        InputsBuffer {
            lookCommand: lookCommand_t::NONE,
            moveCommand: moveCommand_t::NONE,
            doorCommand: doorCommand_t::NONE,
            quit: false,
            fireWeapon: false,
            mouseAbsXrel: 0,
            prevXrel: 0,
        }
    }

    /// A buffer without commands.
    pub fn New() -> (b: Self)
        ensures
            b == InputsBuffer::fresh(),
    {
        InputsBuffer {
            lookCommand: lookCommand_t::NONE,
            moveCommand: moveCommand_t::NONE,
            doorCommand: doorCommand_t::NONE,
            quit: false,
            fireWeapon: false,
            mouseAbsXrel: 0,
            prevXrel: 0,
        }
    }

    /// Takes in what the input devices reported in one tick.
    pub fn Update(&mut self, events: &Vec<InputEvent>, mouseAtRest: bool, keys: &KeyboardState)
        ensures
            *final(self) == old(self).updated(events@, mouseAtRest, *keys),
    {
        /* Escape key and mouse */
        let prevXrel: i32 = self.prevXrel;
        let mut currXrel: i32 = 0;
        self.prevXrel = 0;
        let ghost start = *self;
        let mut i: usize = 0;
        assert(events@.skip(0) =~= events@);
        while i < events.len()
            invariant
                0 <= i <= events@.len(),
                currXrel == self.prevXrel,
                start.scanned(events@) == self.scanned(events@.skip(i as int)),
            ensures
                *self == start.scanned(events@),
                currXrel == self.prevXrel,
            decreases events@.len() - i,
        {
            let ghost rest = events@.skip(i as int);
            proof {
                assert(rest.drop_first() =~= events@.skip(i + 1));
            }
            match events[i] {
                InputEvent::Quit | InputEvent::EscapeDown => {
                    self.quit = true;
                    break ;
                },
                InputEvent::MouseMotion { xrel } => {
                    currXrel = xrel;
                    if currXrel > 0 {
                        self.lookCommand = lookCommand_t::RIGHT;
                    } else if currXrel < 0 {
                        self.lookCommand = lookCommand_t::LEFT;
                    }
                    self.mouseAbsXrel = if currXrel == i32::MIN {
                        i32::MAX
                    } else if currXrel < 0 {
                        -currXrel
                    } else {
                        currXrel
                    };
                    self.prevXrel = currXrel;
                },
                InputEvent::Other => {},
            }
            i = i + 1;
        }

        // Detect when mouse is not moving anymore
        if currXrel == prevXrel && mouseAtRest {
            self.mouseAbsXrel = 0;
            self.lookCommand = lookCommand_t::NONE;
        }
        self.prevXrel = currXrel;

        /* Keyboard buttons */
        let W = keys.W;
        let S = keys.S;
        let A = keys.A;
        let D = keys.D;
        let SPACE = keys.SPACE;

        if W && A {
            self.moveCommand = moveCommand_t::NORTH_WEST;
        } else if W && D {
            self.moveCommand = moveCommand_t::NORTH_EAST;
        } else if W {
            self.moveCommand = moveCommand_t::NORTH;
        } else if S && A {
            self.moveCommand = moveCommand_t::SOUTH_WEST;
        } else if S && D {
            self.moveCommand = moveCommand_t::SOUTH_EAST;
        } else if S {
            self.moveCommand = moveCommand_t::SOUTH;
        } else if A {
            self.moveCommand = moveCommand_t::WEST;
        } else if D {
            self.moveCommand = moveCommand_t::EAST;
        } else {
            self.moveCommand = moveCommand_t::NONE;
        }

        self.doorCommand = if SPACE {
            doorCommand_t::OPEN
        } else {
            doorCommand_t::NONE
        };
        self.fireWeapon = keys.FIRE;
    }
}

/// Sets the walking and turning commands from the keys alone.
pub fn ParseInputs(keys: &KeyboardState, inputsBuffer: &mut InputsBuffer)
    ensures
        *final(inputsBuffer) == (InputsBuffer {
            moveCommand: move_command(*keys),
            lookCommand: look_command(*keys),
            ..*old(inputsBuffer)
        }),
{
    let LEFT = keys.LEFT;
    let RIGHT = keys.RIGHT;
    let W = keys.W;
    let S = keys.S;
    let A = keys.A;
    let D = keys.D;

    if W && A {
        inputsBuffer.moveCommand = moveCommand_t::NORTH_WEST;
    } else if W && D {
        inputsBuffer.moveCommand = moveCommand_t::NORTH_EAST;
    } else if W {
        inputsBuffer.moveCommand = moveCommand_t::NORTH;
    } else if S && A {
        inputsBuffer.moveCommand = moveCommand_t::SOUTH_WEST;
    } else if S && D {
        inputsBuffer.moveCommand = moveCommand_t::SOUTH_EAST;
    } else if S {
        inputsBuffer.moveCommand = moveCommand_t::SOUTH;
    } else if A {
        inputsBuffer.moveCommand = moveCommand_t::WEST;
    } else if D {
        inputsBuffer.moveCommand = moveCommand_t::EAST;
    } else {
        inputsBuffer.moveCommand = moveCommand_t::NONE;
    }

    if LEFT {
        inputsBuffer.lookCommand = lookCommand_t::LEFT;
    } else if RIGHT {
        inputsBuffer.lookCommand = lookCommand_t::RIGHT;
    } else {
        inputsBuffer.lookCommand = lookCommand_t::NONE;
    }
}

} // verus!
