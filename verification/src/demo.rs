use vstd::prelude::*;

verus! {

/// The boards the demo runs on.
#[derive(PartialEq, Eq, Structural, Clone, Copy, Debug)]
pub enum Board {
    /// ESP32: display only.
    Esp32,
    /// ESP32-C3: display and a blinking LED.
    Esp32c3,
}

/// The GPIO pad of the ESP32-C3 LED.
pub const ESP32C3_LED_GPIO: u32 = 3;

/// The I2C data pad of the ESP32-C3 display.
pub const ESP32C3_I2C_SDA: u32 = 5;

/// The I2C clock pad of the ESP32-C3 display.
pub const ESP32C3_I2C_SCL: u32 = 6;

/// The I2C data pad of the ESP32 display.
pub const ESP32_I2C_SDA: u32 = 21;

/// The I2C clock pad of the ESP32 display.
pub const ESP32_I2C_SCL: u32 = 22;

/// The I2C bus frequency of the display, in Hz.
pub const DISPLAY_I2C_FREQ: u32 = 190_000;

/// Empty iterations spun between two frames.
pub const FRAME_SPINS: u32 = 50_000;

/// A line of text drawn with its top-left corner at (`x`, `y`).
#[derive(Clone, Copy, Debug)]
pub struct TextLine {
    /// The text.
    pub text: &'static str,
    /// Horizontal position of the top-left corner, in pixels.
    pub x: i32,
    /// Vertical position of the top-left corner, in pixels.
    pub y: i32,
}

/// What one turn of the demo loop shows.
#[derive(Clone, Copy, Debug)]
pub struct Frame {
    /// The LED level to set (`true` high, `false` low), on boards with an LED.
    pub led_high: Option<bool>,
    /// The title line.
    pub title: TextLine,
    /// The greeting line, under the title.
    pub greeting: TextLine,
}

/// The demo loop: blinks the LED and alternates the greeting on the display.
#[derive(Clone, Copy, Debug)]
pub struct Demo {
    /// The board it runs on.
    pub board: Board,
    /// The phase of the blink.
    pub state: bool,
}

/// The title drawn on `board`.
pub open spec fn title_text(board: Board) -> Seq<char> {
    match board {
        Board::Esp32 => "Hello ESP32"@,
        Board::Esp32c3 => "Hello ESP32C3"@,
    }
}

/// The greeting drawn when the blink phase is `state`.
pub open spec fn greeting_text(state: bool) -> Seq<char> {
    if state {
        "Hello Rust!"@
    } else {
        "Hola Rust!"@
    }
}

/// The LED level of a turn that starts in phase `state`.
pub open spec fn led_level(board: Board, state: bool) -> Option<bool> {
    match board {
        Board::Esp32 => None,
        Board::Esp32c3 => Some(state),
    }
}

/// The frame a turn that starts in phase `state` shows: the LED follows the
/// phase the turn starts in, the greeting the phase it ends in.
pub open spec fn frame_ok(f: Frame, board: Board, state: bool) -> bool {
    &&& f.led_high == led_level(board, state)
    &&& f.title.text@ == title_text(board)
    &&& f.title.x == 0
    &&& f.title.y == 0
    &&& f.greeting.text@ == greeting_text(!state)
    &&& f.greeting.x == 0
    &&& f.greeting.y == 16
}

impl Demo {
    /// The demo on `board`, in its first phase.
    pub fn new(board: Board) -> (d: Demo)
        ensures
            d.board == board,
            d.state,
    {
        Demo { board, state: true }
    }

    /// One turn of the loop: the frame to show, and the phase flips.
    pub fn step(&mut self) -> (f: Frame)
        ensures
            final(self).board == old(self).board,
            final(self).state == !old(self).state,
            frame_ok(f, old(self).board, old(self).state),
    {
        let led_high = match self.board {
            Board::Esp32 => None,
            Board::Esp32c3 => Some(self.state),
        };
        self.state = !self.state;
        let title = match self.board {
            Board::Esp32 => "Hello ESP32",
            Board::Esp32c3 => "Hello ESP32C3",
        };
        let greeting = if self.state {
            "Hello Rust!"
        } else {
            "Hola Rust!"
        };
        Frame {
            led_high,
            title: TextLine { text: title, x: 0, y: 0 },
            greeting: TextLine { text: greeting, x: 0, y: 16 },
        }
    }
}

/// The greeting alternates: the turns that start in the two phases show
/// different greetings, and two turns bring the same greeting back.
pub proof fn lemma_greeting_alternates(state: bool)
    ensures
        greeting_text(!state) != greeting_text(state),
        greeting_text(!!state) == greeting_text(state),
{
    reveal_strlit("Hello Rust!");
    reveal_strlit("Hola Rust!");
    assert("Hello Rust!"@.len() != "Hola Rust!"@.len());
}

/// On the ESP32-C3 the LED and the greeting are out of step: the LED is set
/// high exactly on the turns that show "Hola Rust!", low on those that show
/// "Hello Rust!". The ESP32 has no LED to set.
pub proof fn lemma_led_against_greeting(state: bool)
    ensures
        led_level(Board::Esp32c3, state) == Some(true) <==> greeting_text(!state)
            == "Hola Rust!"@,
        led_level(Board::Esp32c3, state) == Some(false) <==> greeting_text(!state)
            == "Hello Rust!"@,
        led_level(Board::Esp32, state) is None,
{
    lemma_greeting_alternates(state);
}

/// A turn draws the title at the top-left corner and the greeting 16 pixels
/// under it, at the same left edge, so the two lines of the 10-pixel font do
/// not overlap; the title names the board, the ESP32-C3 one extending the
/// ESP32 one with "C3"; the LED exists on the ESP32-C3 only and is set to the
/// phase the turn starts in.
pub proof fn lemma_frame_layout(f: Frame, board: Board, state: bool)
    requires
        frame_ok(f, board, state),
    ensures
        f.title.x == 0 && f.title.y == 0,
        f.greeting.x == f.title.x,
        f.greeting.y == f.title.y + 16,
        f.title.text@ == (match board {
            Board::Esp32 => "Hello ESP32"@,
            Board::Esp32c3 => "Hello ESP32C3"@,
        }),
        title_text(Board::Esp32c3) == title_text(Board::Esp32) + "C3"@,
        f.greeting.text@ == (if state { "Hola Rust!"@ } else { "Hello Rust!"@ }),
        f.led_high == (if board == Board::Esp32c3 { Some(state) } else { None::<bool> }),
{
    reveal_strlit("Hello ESP32");
    reveal_strlit("Hello ESP32C3");
    reveal_strlit("C3");
    assert(title_text(Board::Esp32c3) =~= title_text(Board::Esp32) + "C3"@);
}

} // verus!
