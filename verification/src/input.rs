//! The logical input set: directional, face, trigger and menu buttons for
//! up to four local players. Each logical input reduces physical sources (a
//! keyboard binding, a gamepad button or axis) to a boolean, OR-combined
//! across sources. Reading the physical devices is the platform's job; the
//! decision tables and the combination rule live here.

use vstd::prelude::*;

verus! {

/// How many local players a session serves.
pub const PLAYER_COUNT: usize = 4;

/// How many logical inputs each player has.
pub const INPUT_COUNT: usize = 11;

/// One state cell per player and logical input.
pub const INPUT_CELLS: usize = 44;

/// One of the up-to-four local players.
#[derive(Copy, Clone, PartialEq, Eq, Structural, Debug)]
pub enum Player {
    Alpha,
    Bravo,
    Charlie,
    Delta,
}

impl Player {
    /// The player's position in state tables.
    pub open spec fn spec_index(self) -> int {
        match self {
            Player::Alpha => 0,
            Player::Bravo => 1,
            Player::Charlie => 2,
            Player::Delta => 3,
        }
    }

    pub fn index(&self) -> (i: usize)
        ensures
            i == self.spec_index(),
            i < PLAYER_COUNT,
    {
        match self {
            Player::Alpha => 0,
            Player::Bravo => 1,
            Player::Charlie => 2,
            Player::Delta => 3,
        }
    }
}

/// One logical input of the fixed set: four directions, four face buttons,
/// two triggers and one menu button.
#[derive(Copy, Clone, PartialEq, Eq, Structural, Debug)]
pub enum GamepadInput {
    DirUp,
    DirRight,
    DirDown,
    DirLeft,
    FaceUp,
    FaceRight,
    FaceDown,
    FaceLeft,
    TriggerLeft,
    TriggerRight,
    Menu,
}

impl GamepadInput {
    /// The input's position in state tables.
    pub open spec fn spec_index(self) -> int {
        match self {
            GamepadInput::DirUp => 0,
            GamepadInput::DirRight => 1,
            GamepadInput::DirDown => 2,
            GamepadInput::DirLeft => 3,
            GamepadInput::FaceUp => 4,
            GamepadInput::FaceRight => 5,
            GamepadInput::FaceDown => 6,
            GamepadInput::FaceLeft => 7,
            GamepadInput::TriggerLeft => 8,
            GamepadInput::TriggerRight => 9,
            GamepadInput::Menu => 10,
        }
    }

    pub fn index(&self) -> (i: usize)
        ensures
            i == self.spec_index(),
            i < INPUT_COUNT,
    {
        match self {
            GamepadInput::DirUp => 0,
            GamepadInput::DirRight => 1,
            GamepadInput::DirDown => 2,
            GamepadInput::DirLeft => 3,
            GamepadInput::FaceUp => 4,
            GamepadInput::FaceRight => 5,
            GamepadInput::FaceDown => 6,
            GamepadInput::FaceLeft => 7,
            GamepadInput::TriggerLeft => 8,
            GamepadInput::TriggerRight => 9,
            GamepadInput::Menu => 10,
        }
    }
}

/// The flat table cell for a player and input.
pub open spec fn spec_cell(p: Player, inp: GamepadInput) -> int {
    p.spec_index() * INPUT_COUNT + inp.spec_index()
}

/// Per-player input state, one layer per physical source class: the
/// keyboard layer and the gamepad layer. A logical input is down when any
/// source holds it down.
pub struct InputState {
    pub keyboard: [bool; INPUT_CELLS],
    pub gamepad: [bool; INPUT_CELLS],
}

impl InputState {
    /// The all-released state.
    pub fn new() -> (s: InputState)
        ensures
            forall|c: int| 0 <= c < INPUT_CELLS ==> !s.keyboard@[c] && !s.gamepad@[c],
    {
        InputState { keyboard: [false; INPUT_CELLS], gamepad: [false; INPUT_CELLS] }
    }

    /// Records a keyboard-sourced press or release for one player's logical
    /// input, leaving every other cell and the gamepad layer unchanged.
    pub fn set_key_state(&mut self, player: Player, input: GamepadInput, down: bool)
        ensures
            final(self).keyboard@[spec_cell(player, input)] == down,
            forall|c: int|
                0 <= c < INPUT_CELLS && c != spec_cell(player, input)
                    ==> final(self).keyboard@[c] == old(self).keyboard@[c],
            final(self).gamepad == old(self).gamepad,
    {
        let c = player.index() * INPUT_COUNT + input.index();
        self.keyboard[c] = down;
    }

    /// Records a gamepad-button press or release for one player's logical
    /// input, leaving every other cell and the keyboard layer unchanged.
    pub fn set_pad_state(&mut self, player: Player, input: GamepadInput, down: bool)
        ensures
            final(self).gamepad@[spec_cell(player, input)] == down,
            forall|c: int|
                0 <= c < INPUT_CELLS && c != spec_cell(player, input) ==> final(self).gamepad@[c]
                    == old(self).gamepad@[c],
            final(self).keyboard == old(self).keyboard,
    {
        let c = player.index() * INPUT_COUNT + input.index();
        self.gamepad[c] = down;
    }

    /// Whether a logical input is down: the OR of its keyboard and gamepad
    /// sources.
    pub fn get_input(&self, player: Player, input: GamepadInput) -> (down: bool)
        ensures
            down == (self.keyboard@[spec_cell(player, input)] || self.gamepad@[spec_cell(
                player,
                input,
            )]),
    {
        let c = player.index() * INPUT_COUNT + input.index();
        self.keyboard[c] || self.gamepad[c]
    }

    /// Reduces a stick axis reading to the two opposed directions: past a
    /// quarter of the range one direction is down and its opposite is up;
    /// inside the dead zone both are up. The horizontal axis drives
    /// left/right, the vertical axis up/down (positive values point down).
    pub fn apply_pad_axis(&mut self, player: Player, axis: PadAxis, value: i16)
        ensures
            ({
                let (pos, neg) = spec_axis_targets(axis);
                &&& final(self).gamepad@[spec_cell(player, pos)] == (value > 8191)
                &&& final(self).gamepad@[spec_cell(player, neg)] == (value < -8192)
                &&& forall|c: int|
                    0 <= c < INPUT_CELLS && c != spec_cell(player, pos) && c != spec_cell(
                        player,
                        neg,
                    ) ==> final(self).gamepad@[c] == old(self).gamepad@[c]
                &&& final(self).keyboard == old(self).keyboard
            }),
    {
        let (pos, neg) = match axis {
            PadAxis::Horizontal => (GamepadInput::DirRight, GamepadInput::DirLeft),
            PadAxis::Vertical => (GamepadInput::DirDown, GamepadInput::DirUp),
        };
        if value > 8191 {
            self.set_pad_state(player, pos, true);
            self.set_pad_state(player, neg, false);
        } else if value < -8192 {
            self.set_pad_state(player, pos, false);
            self.set_pad_state(player, neg, true);
        } else {
            self.set_pad_state(player, pos, false);
            self.set_pad_state(player, neg, false);
        }
    }
}

/// A gamepad stick axis.
#[derive(Copy, Clone, PartialEq, Eq, Structural, Debug)]
pub enum PadAxis {
    Horizontal,
    Vertical,
}

/// The (positive-direction, negative-direction) inputs an axis drives.
pub open spec fn spec_axis_targets(axis: PadAxis) -> (GamepadInput, GamepadInput) {
    match axis {
        PadAxis::Horizontal => (GamepadInput::DirRight, GamepadInput::DirLeft),
        PadAxis::Vertical => (GamepadInput::DirDown, GamepadInput::DirUp),
    }
}

/// A key on the host keyboard, as the platform layer reports it.
#[derive(Copy, Clone, PartialEq, Eq, Structural, Debug)]
#[non_exhaustive]
pub enum Keycode {
    Unknown,
    Return,
    Escape,
    Backspace,
    Tab,
    Space,
    Comma,
    Period,
    Num0,
    Num1,
    Num2,
    Num3,
    Num4,
    Num5,
    Num6,
    Num7,
    Num8,
    Num9,
    A,
    B,
    C,
    D,
    E,
    F,
    G,
    H,
    I,
    J,
    K,
    L,
    M,
    N,
    O,
    P,
    Q,
    R,
    S,
    T,
    U,
    V,
    W,
    X,
    Y,
    Z,
    PrintScreen,
    PauseBreak,
}

/// The key a platform key code names. Printable keys carry their character
/// code (lower case for letters); a few control keys have small fixed
/// codes; anything else is unknown.
pub open spec fn spec_keycode(value: u32) -> Keycode {
    if value == 13 {
        Keycode::Return
    } else if value == 27 {
        Keycode::Escape
    } else if value == 8 {
        Keycode::Backspace
    } else if value == 9 {
        Keycode::Tab
    } else if value == 32 {
        Keycode::Space
    } else if value == 44 {
        Keycode::Comma
    } else if value == 46 {
        Keycode::Period
    } else if value == 48 {
        Keycode::Num0
    } else if value == 49 {
        Keycode::Num1
    } else if value == 50 {
        Keycode::Num2
    } else if value == 51 {
        Keycode::Num3
    } else if value == 52 {
        Keycode::Num4
    } else if value == 53 {
        Keycode::Num5
    } else if value == 54 {
        Keycode::Num6
    } else if value == 55 {
        Keycode::Num7
    } else if value == 56 {
        Keycode::Num8
    } else if value == 57 {
        Keycode::Num9
    } else if value == 97 {
        Keycode::A
    } else if value == 98 {
        Keycode::B
    } else if value == 99 {
        Keycode::C
    } else if value == 100 {
        Keycode::D
    } else if value == 101 {
        Keycode::E
    } else if value == 102 {
        Keycode::F
    } else if value == 103 {
        Keycode::G
    } else if value == 104 {
        Keycode::H
    } else if value == 105 {
        Keycode::I
    } else if value == 106 {
        Keycode::J
    } else if value == 107 {
        Keycode::K
    } else if value == 108 {
        Keycode::L
    } else if value == 109 {
        Keycode::M
    } else if value == 110 {
        Keycode::N
    } else if value == 111 {
        Keycode::O
    } else if value == 112 {
        Keycode::P
    } else if value == 113 {
        Keycode::Q
    } else if value == 114 {
        Keycode::R
    } else if value == 115 {
        Keycode::S
    } else if value == 116 {
        Keycode::T
    } else if value == 117 {
        Keycode::U
    } else if value == 118 {
        Keycode::V
    } else if value == 119 {
        Keycode::W
    } else if value == 120 {
        Keycode::X
    } else if value == 121 {
        Keycode::Y
    } else if value == 122 {
        Keycode::Z
    } else if value == 0x40000046 {
        Keycode::PrintScreen
    } else if value == 0x40000048 {
        Keycode::PauseBreak
    } else {
        Keycode::Unknown
    }
}

/// Converts a platform key code to the binding's enumerated key type.
pub fn sdl_keycode_to_keycode(value: u32) -> (k: Keycode)
    ensures
        k == spec_keycode(value),
{
    match value {
        13 => Keycode::Return,
        27 => Keycode::Escape,
        8 => Keycode::Backspace,
        9 => Keycode::Tab,
        32 => Keycode::Space,
        44 => Keycode::Comma,
        46 => Keycode::Period,
        48 => Keycode::Num0,
        49 => Keycode::Num1,
        50 => Keycode::Num2,
        51 => Keycode::Num3,
        52 => Keycode::Num4,
        53 => Keycode::Num5,
        54 => Keycode::Num6,
        55 => Keycode::Num7,
        56 => Keycode::Num8,
        57 => Keycode::Num9,
        97 => Keycode::A,
        98 => Keycode::B,
        99 => Keycode::C,
        100 => Keycode::D,
        101 => Keycode::E,
        102 => Keycode::F,
        103 => Keycode::G,
        104 => Keycode::H,
        105 => Keycode::I,
        106 => Keycode::J,
        107 => Keycode::K,
        108 => Keycode::L,
        109 => Keycode::M,
        110 => Keycode::N,
        111 => Keycode::O,
        112 => Keycode::P,
        113 => Keycode::Q,
        114 => Keycode::R,
        115 => Keycode::S,
        116 => Keycode::T,
        117 => Keycode::U,
        118 => Keycode::V,
        119 => Keycode::W,
        120 => Keycode::X,
        121 => Keycode::Y,
        122 => Keycode::Z,
        0x40000046 => Keycode::PrintScreen,
        0x40000048 => Keycode::PauseBreak,
        _ => Keycode::Unknown,
    }
}

/// The built-in keyboard layout: WASD-cluster keys drive the first player,
/// IJKL-cluster keys the second; other keys are unbound.
pub open spec fn spec_key_binding(k: Keycode) -> Option<(Player, GamepadInput)> {
    match k {
        Keycode::W => Some((Player::Alpha, GamepadInput::DirUp)),
        Keycode::A => Some((Player::Alpha, GamepadInput::DirLeft)),
        Keycode::S => Some((Player::Alpha, GamepadInput::DirDown)),
        Keycode::D => Some((Player::Alpha, GamepadInput::DirRight)),
        Keycode::Q => Some((Player::Alpha, GamepadInput::TriggerLeft)),
        Keycode::E => Some((Player::Alpha, GamepadInput::TriggerRight)),
        Keycode::Z => Some((Player::Alpha, GamepadInput::FaceLeft)),
        Keycode::C => Some((Player::Alpha, GamepadInput::FaceRight)),
        Keycode::X => Some((Player::Alpha, GamepadInput::FaceUp)),
        Keycode::V => Some((Player::Alpha, GamepadInput::FaceDown)),
        Keycode::I => Some((Player::Bravo, GamepadInput::DirUp)),
        Keycode::J => Some((Player::Bravo, GamepadInput::DirLeft)),
        Keycode::K => Some((Player::Bravo, GamepadInput::DirDown)),
        Keycode::L => Some((Player::Bravo, GamepadInput::DirRight)),
        Keycode::U => Some((Player::Bravo, GamepadInput::TriggerLeft)),
        Keycode::O => Some((Player::Bravo, GamepadInput::TriggerRight)),
        Keycode::N => Some((Player::Bravo, GamepadInput::FaceLeft)),
        Keycode::M => Some((Player::Bravo, GamepadInput::FaceRight)),
        Keycode::Comma => Some((Player::Bravo, GamepadInput::FaceUp)),
        Keycode::Period => Some((Player::Bravo, GamepadInput::FaceDown)),
        _ => None,
    }
}

/// Looks a key up in the built-in keyboard layout.
pub fn key_binding(k: Keycode) -> (r: Option<(Player, GamepadInput)>)
    ensures
        r == spec_key_binding(k),
{
    match k {
        Keycode::W => Some((Player::Alpha, GamepadInput::DirUp)),
        Keycode::A => Some((Player::Alpha, GamepadInput::DirLeft)),
        Keycode::S => Some((Player::Alpha, GamepadInput::DirDown)),
        Keycode::D => Some((Player::Alpha, GamepadInput::DirRight)),
        Keycode::Q => Some((Player::Alpha, GamepadInput::TriggerLeft)),
        Keycode::E => Some((Player::Alpha, GamepadInput::TriggerRight)),
        Keycode::Z => Some((Player::Alpha, GamepadInput::FaceLeft)),
        Keycode::C => Some((Player::Alpha, GamepadInput::FaceRight)),
        Keycode::X => Some((Player::Alpha, GamepadInput::FaceUp)),
        Keycode::V => Some((Player::Alpha, GamepadInput::FaceDown)),
        Keycode::I => Some((Player::Bravo, GamepadInput::DirUp)),
        Keycode::J => Some((Player::Bravo, GamepadInput::DirLeft)),
        Keycode::K => Some((Player::Bravo, GamepadInput::DirDown)),
        Keycode::L => Some((Player::Bravo, GamepadInput::DirRight)),
        Keycode::U => Some((Player::Bravo, GamepadInput::TriggerLeft)),
        Keycode::O => Some((Player::Bravo, GamepadInput::TriggerRight)),
        Keycode::N => Some((Player::Bravo, GamepadInput::FaceLeft)),
        Keycode::M => Some((Player::Bravo, GamepadInput::FaceRight)),
        Keycode::Comma => Some((Player::Bravo, GamepadInput::FaceUp)),
        Keycode::Period => Some((Player::Bravo, GamepadInput::FaceDown)),
        _ => None,
    }
}

/// A physical gamepad control, as the platform layer reports it.
#[derive(Copy, Clone, PartialEq, Eq, Structural, Debug)]
#[non_exhaustive]
pub enum PadButton {
    North,
    East,
    South,
    West,
    DpadUp,
    DpadRight,
    DpadDown,
    DpadLeft,
    LeftShoulder,
    RightShoulder,
    Back,
    Start,
    Other,
}

/// The logical input a physical gamepad button drives: face buttons by
/// compass position, the directional pad directly, shoulders as triggers,
/// and both Back and Start as the menu button.
pub open spec fn spec_pad_button_input(b: PadButton) -> Option<GamepadInput> {
    match b {
        PadButton::North => Some(GamepadInput::FaceUp),
        PadButton::East => Some(GamepadInput::FaceRight),
        PadButton::South => Some(GamepadInput::FaceDown),
        PadButton::West => Some(GamepadInput::FaceLeft),
        PadButton::DpadUp => Some(GamepadInput::DirUp),
        PadButton::DpadRight => Some(GamepadInput::DirRight),
        PadButton::DpadDown => Some(GamepadInput::DirDown),
        PadButton::DpadLeft => Some(GamepadInput::DirLeft),
        PadButton::LeftShoulder => Some(GamepadInput::TriggerLeft),
        PadButton::RightShoulder => Some(GamepadInput::TriggerRight),
        PadButton::Back => Some(GamepadInput::Menu),
        PadButton::Start => Some(GamepadInput::Menu),
        PadButton::Other => None,
    }
}

/// Maps a physical gamepad button to its logical input.
pub fn pad_button_input(b: PadButton) -> (r: Option<GamepadInput>)
    ensures
        r == spec_pad_button_input(b),
{
    match b {
        PadButton::North => Some(GamepadInput::FaceUp),
        PadButton::East => Some(GamepadInput::FaceRight),
        PadButton::South => Some(GamepadInput::FaceDown),
        PadButton::West => Some(GamepadInput::FaceLeft),
        PadButton::DpadUp => Some(GamepadInput::DirUp),
        PadButton::DpadRight => Some(GamepadInput::DirRight),
        PadButton::DpadDown => Some(GamepadInput::DirDown),
        PadButton::DpadLeft => Some(GamepadInput::DirLeft),
        PadButton::LeftShoulder => Some(GamepadInput::TriggerLeft),
        PadButton::RightShoulder => Some(GamepadInput::TriggerRight),
        PadButton::Back => Some(GamepadInput::Menu),
        PadButton::Start => Some(GamepadInput::Menu),
        PadButton::Other => None,
    }
}

} // verus!
