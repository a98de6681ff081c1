//! Driver for an HD44780-style character display behind an I2C I/O
//! expander (the LCM1602 backpack).
//!
//! The expander passes one byte per bus write to the display: the upper four
//! bits are the data lines, the lower four are control lines (register
//! select, enable strobe, backlight). The display is therefore driven in its
//! 4-bit mode, every command or character going out as two nibbles, and every
//! nibble as two bus writes: one with the strobe raised, one with it lowered.

use vstd::prelude::*;
use crate::bus::{transfers, BusOp, OnFailure, Transaction};

verus! {

/// The bus address these displays usually answer on, and the one a driver
/// uses unless it is given another.
pub const ADDR: u8 = 0x27;

/// The control line that strobes a nibble into the display.
pub const ENABLE: u8 = 0x04;

/// Time the display needs after power-on before it listens, in milliseconds.
pub const POWER_ON_MS: u32 = 80;

/// Pause after each of the three wake-up writes, in milliseconds.
pub const WAKE_GAP_MS: u32 = 5;

/// Time the display needs to latch a nibble, in microseconds.
pub const LATCH_US: u32 = 700;

/// Time the display needs to finish a clear or a return-home, in
/// milliseconds.
pub const SETTLE_MS: u32 = 2;

/// Number of character cells between the start of one row and the next in
/// the display's memory.
pub const ROW_STRIDE: u8 = 40;

/// Flags of the display-control command.
#[derive(Clone, Copy, Debug, PartialEq, Eq, Structural)]
pub enum DisplayControl {
    Off,
    CursorBlink,
    CursorOn,
    DisplayOn,
}

impl DisplayControl {
    /// The flag's bit in the command byte.
    pub open spec fn spec_bits(self) -> u8 {
        match self {
            DisplayControl::Off => 0x00,
            DisplayControl::CursorBlink => 0x01,
            DisplayControl::CursorOn => 0x02,
            DisplayControl::DisplayOn => 0x04,
        }
    }

    #[verifier::when_used_as_spec(spec_bits)]
    pub fn bits(self) -> (b: u8)
        ensures
            b == self.spec_bits(),
    {
        match self {
            DisplayControl::Off => 0x00,
            DisplayControl::CursorBlink => 0x01,
            DisplayControl::CursorOn => 0x02,
            DisplayControl::DisplayOn => 0x04,
        }
    }
}

/// State of the backlight.
#[derive(Clone, Copy, Debug, PartialEq, Eq, Structural)]
pub enum Backlight {
    Off,
    On,
}

impl Backlight {
    /// The backlight's control line as it goes into every byte on the bus.
    pub open spec fn spec_bits(self) -> u8 {
        match self {
            Backlight::Off => 0x00,
            Backlight::On => 0x08,
        }
    }

    #[verifier::when_used_as_spec(spec_bits)]
    pub fn bits(self) -> (b: u8)
        ensures
            b == self.spec_bits(),
    {
        match self {
            Backlight::Off => 0x00,
            Backlight::On => 0x08,
        }
    }
}

/// What a byte sent to the display is, as the register-select line says it:
/// a command, or character data.
#[derive(Clone, Copy, Debug, PartialEq, Eq, Structural)]
pub enum Mode {
    Cmd,
    Data,
}

impl Mode {
    /// The register-select line in the byte on the bus.
    pub open spec fn spec_bits(self) -> u8 {
        match self {
            Mode::Cmd => 0x00,
            Mode::Data => 0x01,
        }
    }

    #[verifier::when_used_as_spec(spec_bits)]
    pub fn bits(self) -> (b: u8)
        ensures
            b == self.spec_bits(),
    {
        match self {
            Mode::Cmd => 0x00,
            Mode::Data => 0x01,
        }
    }
}

/// Command codes: whole commands, and the base codes of the commands that
/// take flags.
#[derive(Clone, Copy, Debug, PartialEq, Eq, Structural)]
pub enum Commands {
    Clear,
    ReturnHome,
    EntryMode,
    DisplayControl,
    ShiftCursor,
    FunctionSet,
}

impl Commands {
    pub open spec fn spec_code(self) -> u8 {
        match self {
            Commands::Clear => 0x01,
            Commands::ReturnHome => 0x02,
            Commands::EntryMode => 0x04,
            Commands::DisplayControl => 0x08,
            Commands::ShiftCursor => 0x14,
            Commands::FunctionSet => 0x20,
        }
    }

    #[verifier::when_used_as_spec(spec_code)]
    pub fn code(self) -> (b: u8)
        ensures
            b == self.spec_code(),
    {
        match self {
            Commands::Clear => 0x01,
            Commands::ReturnHome => 0x02,
            Commands::EntryMode => 0x04,
            Commands::DisplayControl => 0x08,
            Commands::ShiftCursor => 0x14,
            Commands::FunctionSet => 0x20,
        }
    }
}

/// Width of the display's data interface, as the function-set command
/// encodes it.
#[derive(Clone, Copy, Debug, PartialEq, Eq, Structural)]
pub enum BitMode {
    Bit4,
    Bit8,
}

impl BitMode {
    pub open spec fn spec_bits(self) -> u8 {
        match self {
            BitMode::Bit4 => 0x00,
            BitMode::Bit8 => 0x10,
        }
    }

    #[verifier::when_used_as_spec(spec_bits)]
    pub fn bits(self) -> (b: u8)
        ensures
            b == self.spec_bits(),
    {
        match self {
            BitMode::Bit4 => 0x00,
            BitMode::Bit8 => 0x10,
        }
    }
}

/// Where the driver stands between construction and use.
#[derive(Clone, Copy, Debug, PartialEq, Eq, Structural)]
pub enum Phase {
    /// Being configured; nothing has been sent to the display.
    Unconfigured,
    /// The initialisation sequence has been handed out and its outcome is
    /// not known yet.
    Initializing,
    /// Initialised: the display takes commands and text.
    Ready,
}

/// Everything the driver knows about its display.
#[derive(Clone, Copy, Debug, PartialEq, Eq, Structural)]
pub struct DisplayState {
    /// Bus address of the display.
    pub address: u8,
    /// Number of rows: 1 or 2, or 0 while it has not been set.
    pub rows: u8,
    pub backlight: Backlight,
    pub cursor_on: bool,
    pub cursor_blink: bool,
    pub phase: Phase,
}

/// A display operation was asked of a driver that cannot take it.
#[derive(Clone, Copy, Debug, PartialEq, Eq, Structural)]
pub enum LcdError {
    /// The display has not been initialised.
    NotReady,
}

/// One byte on the bus, as the expander hands it to the display: `nibble` on
/// the four data lines, then the backlight line, the strobe line and the
/// register-select line (raised for character data, low for a command).
pub open spec fn frame(nibble: u8, select: bool, strobe: bool, light: Backlight) -> u8 {
    (16 * nibble + light.spec_bits() + (if strobe {
        4int
    } else {
        0int
    }) + (if select {
        1int
    } else {
        0int
    })) as u8
}

/// Strobing `data` into the display: `data` with the strobe and the
/// backlight line or-ed in, the same `data` with the backlight line alone,
/// then the time to latch it. `data` holds a nibble in its upper half.
pub open spec fn strobe_ops(address: u8, data: u8, light: Backlight) -> Seq<BusOp> {
    seq![
        BusOp::Write { address, byte: data | ENABLE | light.spec_bits() },
        BusOp::Write { address, byte: data | light.spec_bits() },
        BusOp::DelayUs(LATCH_US),
    ]
}

/// Handing one nibble to the display: the nibble with the strobe raised, the
/// same nibble with the strobe lowered, then the time to latch it.
pub open spec fn nibble_ops(address: u8, nibble: u8, select: bool, light: Backlight) -> Seq<
    BusOp,
> {
    seq![
        BusOp::Write { address, byte: frame(nibble, select, true, light) },
        BusOp::Write { address, byte: frame(nibble, select, false, light) },
        BusOp::DelayUs(LATCH_US),
    ]
}

/// Sending one byte: its upper nibble, then its lower nibble.
pub open spec fn send_ops(address: u8, data: u8, select: bool, light: Backlight) -> Seq<BusOp> {
    nibble_ops(address, data / 16, select, light) + nibble_ops(address, data % 16, select, light)
}

/// Sending one command byte.
pub open spec fn command_ops(address: u8, data: u8, light: Backlight) -> Seq<BusOp> {
    send_ops(address, data, false, light)
}

/// The function-set command for a display of `rows` rows, with the 5x8
/// font: two-line mode for two rows (or more), one-line mode otherwise.
pub open spec fn function_set(rows: u8) -> u8 {
    if rows >= 2 {
        0x28
    } else {
        0x20
    }
}

/// The display-control command: display on, cursor and blinking as asked.
pub open spec fn display_control(cursor_on: bool, cursor_blink: bool) -> u8 {
    (0x0C + (if cursor_on {
        2int
    } else {
        0int
    }) + (if cursor_blink {
        1int
    } else {
        0int
    })) as u8
}

/// The entry-mode command sent at initialisation.
pub open spec fn entry_mode() -> u8 {
    0x04
}

/// The single write that sets the backlight line: the strobe raised, nothing
/// on the data lines.
pub open spec fn backlight_ops(address: u8, light: Backlight) -> Seq<BusOp> {
    seq![BusOp::Write { address, byte: frame(0, false, true, light) }]
}

/// One wake-up write, which asks for the 8-bit interface, and the pause
/// that follows it.
pub open spec fn wake_ops(address: u8, light: Backlight) -> Seq<BusOp> {
    nibble_ops(address, 3, false, light) + seq![BusOp::DelayMs(WAKE_GAP_MS)]
}

/// The initialisation sequence of a display in state `s`.
///
/// After the power-on wait, three writes ask for the 8-bit interface, which
/// brings the controller to a known state whatever it was in; a fourth
/// switches to the 4-bit interface. From then on whole commands follow:
/// function set, display control, clear, entry mode. The backlight comes
/// last.
pub open spec fn init_ops(s: DisplayState) -> Seq<BusOp> {
    seq![BusOp::DelayMs(POWER_ON_MS)] + wake_ops(s.address, s.backlight) + wake_ops(
        s.address,
        s.backlight,
    ) + wake_ops(s.address, s.backlight) + nibble_ops(s.address, 2, false, s.backlight)
        + command_ops(s.address, function_set(s.rows), s.backlight) + command_ops(
        s.address,
        display_control(s.cursor_on, s.cursor_blink),
        s.backlight,
    ) + command_ops(s.address, 0x01, s.backlight) + command_ops(
        s.address,
        entry_mode(),
        s.backlight,
    ) + backlight_ops(s.address, s.backlight)
}

/// Clearing the display: the command, then the time it takes.
pub open spec fn clear_ops(address: u8, light: Backlight) -> Seq<BusOp> {
    command_ops(address, 0x01, light) + seq![BusOp::DelayMs(SETTLE_MS)]
}

/// Moving the cursor to the upper left corner: the command, then the time
/// it takes.
pub open spec fn home_ops(address: u8, light: Backlight) -> Seq<BusOp> {
    command_ops(address, 0x02, light) + seq![BusOp::DelayMs(SETTLE_MS)]
}

/// `ops`, `n` times over.
pub open spec fn repeat_ops(ops: Seq<BusOp>, n: nat) -> Seq<BusOp>
    decreases n,
{
    if n == 0 {
        Seq::empty()
    } else {
        repeat_ops(ops, (n - 1) as nat) + ops
    }
}

/// Number of cells between the upper left corner and column `col` of row
/// `row`.
pub open spec fn cursor_offset(row: u8, col: u8) -> nat {
    (row * ROW_STRIDE + col) as nat
}

/// Moving the cursor to `(row, col)`: home, then one shift to the right for
/// every cell on the way.
pub open spec fn set_cursor_ops(address: u8, row: u8, col: u8, light: Backlight) -> Seq<BusOp> {
    home_ops(address, light) + repeat_ops(command_ops(address, 0x14, light), cursor_offset(row, col))
}

/// The low eight bits of a character's code.
pub open spec fn low_byte(c: char) -> u8 {
    (c as u32 % 256) as u8
}

/// Writing `text`: each character's low eight bits sent as data, in order.
pub open spec fn text_ops(address: u8, text: Seq<char>, light: Backlight) -> Seq<BusOp>
    decreases text.len(),
{
    if text.len() == 0 {
        Seq::empty()
    } else {
        text_ops(address, text.drop_last(), light) + send_ops(
            address,
            low_byte(text.last()),
            true,
            light,
        )
    }
}

/// Driver of one display.
#[derive(Debug)]
pub struct Lcd {
    state: DisplayState,
}

impl View for Lcd {
    type V = DisplayState;

    closed spec fn view(&self) -> DisplayState {
        self.state
    }
}

impl Lcd {
    /// A driver that is yet to be configured: the usual address, no rows,
    /// backlight on, no cursor.
    pub fn new() -> (lcd: Lcd)
        ensures
            lcd@ == (DisplayState {
                address: ADDR,
                rows: 0,
                backlight: Backlight::On,
                cursor_on: false,
                cursor_blink: false,
                phase: Phase::Unconfigured,
            }),
    {
        Lcd {
            state: DisplayState {
                address: ADDR,
                rows: 0,
                backlight: Backlight::On,
                cursor_on: false,
                cursor_blink: false,
                phase: Phase::Unconfigured,
            },
        }
    }

    /// What the driver knows about its display.
    pub fn state(&self) -> (s: DisplayState)
        ensures
            s == self@,
    {
        self.state
    }

    /// Sets the number of rows, 1 or 2. Once initialisation has started the
    /// configuration is fixed and the call changes nothing.
    pub fn rows(self, rows: u8) -> (lcd: Lcd)
        ensures
            self@.phase == Phase::Unconfigured ==> lcd@ == (DisplayState { rows, ..self@ }),
            self@.phase != Phase::Unconfigured ==> lcd@ == self@,
    {
        let mut lcd = self;
        if lcd.state.phase == Phase::Unconfigured {
            lcd.state.rows = rows;
        }
        lcd
    }

    /// Sets the bus address. Once initialisation has started the
    /// configuration is fixed and the call changes nothing.
    pub fn address(self, address: u8) -> (lcd: Lcd)
        ensures
            self@.phase == Phase::Unconfigured ==> lcd@ == (DisplayState { address, ..self@ }),
            self@.phase != Phase::Unconfigured ==> lcd@ == self@,
    {
        let mut lcd = self;
        if lcd.state.phase == Phase::Unconfigured {
            lcd.state.address = address;
        }
        lcd
    }

    /// Makes the cursor visible or not. Once initialisation has started the
    /// configuration is fixed and the call changes nothing.
    pub fn cursor_on(self, on: bool) -> (lcd: Lcd)
        ensures
            self@.phase == Phase::Unconfigured ==> lcd@ == (DisplayState { cursor_on: on, ..self@ }),
            self@.phase != Phase::Unconfigured ==> lcd@ == self@,
    {
        let mut lcd = self;
        if lcd.state.phase == Phase::Unconfigured {
            lcd.state.cursor_on = on;
        }
        lcd
    }

    /// Makes the cursor blink or not. Once initialisation has started the
    /// configuration is fixed and the call changes nothing.
    pub fn cursor_blink(self, blink: bool) -> (lcd: Lcd)
        ensures
            self@.phase == Phase::Unconfigured ==> lcd@ == (DisplayState {
                cursor_blink: blink,
                ..self@
            }),
            self@.phase != Phase::Unconfigured ==> lcd@ == self@,
    {
        let mut lcd = self;
        if lcd.state.phase == Phase::Unconfigured {
            lcd.state.cursor_blink = blink;
        }
        lcd
    }

    /// Starts the initialisation: returns the sequence to carry out, and the
    /// driver waiting for its outcome.
    ///
    /// The configuration is not changed. Any bus error ends the sequence.
    pub fn init(self) -> (r: (Lcd, Transaction))
        ensures
            r.0@ == (DisplayState { phase: Phase::Initializing, ..self@ }),
            r.1.ops@ == init_ops(self@),
            r.1.on_failure == OnFailure::Abort,
    {
        let mut ops: Vec<BusOp> = Vec::new();
        // Wait for the display to come up after power-on.
        ops.push(BusOp::DelayMs(POWER_ON_MS));

        // Ask for the 8-bit interface three times over.
        let mode_8bit: u8 = Commands::FunctionSet.code() | BitMode::Bit8.bits();
        assert((0x20u8 | 0x10u8) & 0x0e == 0 && (0x20u8 | 0x10u8) >> 4 == 3 && (0x20u8 | 0x10u8) & 1
            == 0) by (bit_vector);
        proof {
            lemma_write4bits_frames(self@.address, mode_8bit, self@.backlight);
        }
        self.append_nibble(&mut ops, mode_8bit);
        ops.push(BusOp::DelayMs(WAKE_GAP_MS));
        self.append_nibble(&mut ops, mode_8bit);
        ops.push(BusOp::DelayMs(WAKE_GAP_MS));
        self.append_nibble(&mut ops, mode_8bit);
        ops.push(BusOp::DelayMs(WAKE_GAP_MS));

        // Switch to the 4-bit interface.
        let mode_4bit: u8 = Commands::FunctionSet.code() | BitMode::Bit4.bits();
        assert((0x20u8 | 0x00u8) & 0x0e == 0 && (0x20u8 | 0x00u8) >> 4 == 2 && (0x20u8 | 0x00u8) & 1
            == 0) by (bit_vector);
        proof {
            lemma_write4bits_frames(self@.address, mode_4bit, self@.backlight);
        }
        self.append_nibble(&mut ops, mode_4bit);

        // Rows and font (5x8: 0x00, 5x10: 0x04).
        let lines: u8 = if self.state.rows >= 2 {
            0x08
        } else {
            0x00
        };
        assert(0x20u8 | 0x08u8 == 0x28u8 && 0x20u8 | 0x00u8 == 0x20u8) by (bit_vector);
        self.append_command(&mut ops, Commands::FunctionSet.code() | lines);

        let display_ctrl: u8 = if self.state.cursor_on {
            DisplayControl::DisplayOn.bits() | DisplayControl::CursorOn.bits()
        } else {
            DisplayControl::DisplayOn.bits()
        };
        let blink: u8 = if self.state.cursor_blink {
            DisplayControl::CursorBlink.bits()
        } else {
            DisplayControl::Off.bits()
        };
        assert(0x04u8 | 0x02u8 == 0x06u8) by (bit_vector);
        assert(0x08u8 | display_ctrl | blink == 0x08 + display_ctrl + blink) by (bit_vector)
            requires
                display_ctrl == 4 || display_ctrl == 6,
                blink == 0 || blink == 1,
        ;
        self.append_command(&mut ops, Commands::DisplayControl.code() | display_ctrl | blink);
        self.append_command(&mut ops, Commands::Clear.code());
        self.append_command(&mut ops, Commands::EntryMode.code());
        self.append_light(&mut ops);
        assert(ops@ =~= init_ops(self@));
        let lcd = Lcd { state: DisplayState { phase: Phase::Initializing, ..self.state } };
        (lcd, Transaction { ops, on_failure: OnFailure::Abort })
    }

    /// Ends the initialisation with the `outcome` of its sequence: on
    /// success the driver comes back ready, on failure the error does, and
    /// the driver is gone.
    ///
    /// A driver that was not waiting for this stays in the phase it was in.
    pub fn complete_init<E>(self, outcome: Result<(), E>) -> (r: Result<Lcd, E>)
        ensures
            match outcome {
                Ok(_) => r is Ok && r->Ok_0@ == (DisplayState {
                    phase: if self@.phase == Phase::Initializing {
                        Phase::Ready
                    } else {
                        self@.phase
                    },
                    ..self@
                }),
                Err(e) => r == Err::<Lcd, E>(e),
            },
    {
        match outcome {
            Ok(_) => {
                let mut lcd = self;
                if lcd.state.phase == Phase::Initializing {
                    lcd.state.phase = Phase::Ready;
                }
                Ok(lcd)
            },
            Err(e) => Err(e),
        }
    }

    /// Appends to `ops` what strobes `data` into the display.
    fn append_nibble(&self, ops: &mut Vec<BusOp>, data: u8)
        ensures
            final(ops)@ == old(ops)@ + strobe_ops(self@.address, data, self@.backlight),
    {
        let light: u8 = self.state.backlight.bits();
        ops.push(BusOp::Write { address: self.state.address, byte: data | ENABLE | light });
        ops.push(BusOp::Write { address: self.state.address, byte: data | light });
        ops.push(BusOp::DelayUs(LATCH_US));
        assert(ops@ =~= old(ops)@ + strobe_ops(self@.address, data, self@.backlight));
    }

    /// Appends to `ops` what sends the byte `data` as a command or as
    /// character data.
    fn append_byte(&self, ops: &mut Vec<BusOp>, data: u8, mode: Mode)
        ensures
            final(ops)@ == old(ops)@ + send_ops(
                self@.address,
                data,
                mode == Mode::Data,
                self@.backlight,
            ),
    {
        let high_bits: u8 = data & 0xf0;
        let low_bits: u8 = (data << 4) & 0xf0;
        proof {
            lemma_send_bytes(self@.address, data, mode, self@.backlight);
        }
        self.append_nibble(ops, high_bits | mode.bits());
        self.append_nibble(ops, low_bits | mode.bits());
        assert(ops@ =~= old(ops)@ + send_ops(
            self@.address,
            data,
            mode == Mode::Data,
            self@.backlight,
        ));
    }

    /// Appends to `ops` what sends the command byte `data`.
    fn append_command(&self, ops: &mut Vec<BusOp>, data: u8)
        ensures
            final(ops)@ == old(ops)@ + command_ops(self@.address, data, self@.backlight),
    {
        self.append_byte(ops, data, Mode::Cmd)
    }

    /// Appends to `ops` the write that sets the backlight line.
    fn append_light(&self, ops: &mut Vec<BusOp>)
        ensures
            final(ops)@ == old(ops)@ + backlight_ops(self@.address, self@.backlight),
    {
        let light: u8 = self.state.backlight.bits();
        assert(0x04u8 | light == light + 4) by (bit_vector)
            requires
                light == 0 || light == 8,
        ;
        ops.push(
            BusOp::Write { address: self.state.address, byte: DisplayControl::DisplayOn.bits() | light },
        );
        assert(ops@ =~= old(ops)@ + backlight_ops(self@.address, self@.backlight));
    }

    /// The physical primitive: strobes `data` into the display. `data` has
    /// a nibble in its upper half; it goes out once with the strobe and the
    /// backlight line or-ed in, once with the backlight line alone, and the
    /// display is given the time to latch it.
    pub fn write4bits(&self, data: u8) -> (r: Result<Transaction, LcdError>)
        ensures
            self@.phase != Phase::Ready ==> r == Err::<Transaction, LcdError>(LcdError::NotReady),
            self@.phase == Phase::Ready ==> {
                &&& r is Ok
                &&& r->Ok_0.ops@ == strobe_ops(self@.address, data, self@.backlight)
                &&& r->Ok_0.on_failure == OnFailure::Abort
            },
    {
        if self.state.phase != Phase::Ready {
            return Err(LcdError::NotReady);
        }
        let mut ops: Vec<BusOp> = Vec::new();
        self.append_nibble(&mut ops, data);
        Ok(Transaction { ops, on_failure: OnFailure::Abort })
    }

    /// Sends the byte `data` as a command or as character data: its upper
    /// nibble, then its lower nibble, each strobed in.
    pub fn send(&self, data: u8, mode: Mode) -> (r: Result<Transaction, LcdError>)
        ensures
            self@.phase != Phase::Ready ==> r == Err::<Transaction, LcdError>(LcdError::NotReady),
            self@.phase == Phase::Ready ==> {
                &&& r is Ok
                &&& r->Ok_0.ops@ == send_ops(
                    self@.address,
                    data,
                    mode == Mode::Data,
                    self@.backlight,
                )
                &&& r->Ok_0.on_failure == OnFailure::Abort
            },
    {
        if self.state.phase != Phase::Ready {
            return Err(LcdError::NotReady);
        }
        let mut ops: Vec<BusOp> = Vec::new();
        self.append_byte(&mut ops, data, mode);
        Ok(Transaction { ops, on_failure: OnFailure::Abort })
    }

    /// Sends the command byte `data`.
    pub fn command(&self, data: u8) -> (r: Result<Transaction, LcdError>)
        ensures
            self@.phase != Phase::Ready ==> r == Err::<Transaction, LcdError>(LcdError::NotReady),
            self@.phase == Phase::Ready ==> {
                &&& r is Ok
                &&& r->Ok_0.ops@ == command_ops(self@.address, data, self@.backlight)
                &&& r->Ok_0.on_failure == OnFailure::Abort
            },
    {
        self.send(data, Mode::Cmd)
    }

    /// Switches the backlight. The new state goes out with this write and
    /// with every byte sent from now on.
    pub fn backlight(&mut self, backlight: Backlight) -> (r: Result<Transaction, LcdError>)
        ensures
            old(self)@.phase != Phase::Ready ==> final(self)@ == old(self)@ && r == Err::<
                Transaction,
                LcdError,
            >(LcdError::NotReady),
            old(self)@.phase == Phase::Ready ==> {
                &&& final(self)@ == (DisplayState { backlight, ..old(self)@ })
                &&& r is Ok
                &&& r->Ok_0.ops@ == backlight_ops(old(self)@.address, backlight)
                &&& r->Ok_0.on_failure == OnFailure::Abort
            },
    {
        if self.state.phase != Phase::Ready {
            return Err(LcdError::NotReady);
        }
        self.state.backlight = backlight;
        let mut ops: Vec<BusOp> = Vec::new();
        self.append_light(&mut ops);
        Ok(Transaction { ops, on_failure: OnFailure::Abort })
    }

    /// Writes `data` at the cursor, one character after the other. Of each
    /// character the low eight bits are sent.
    pub fn write_str(&self, data: &str) -> (r: Result<Transaction, LcdError>)
        ensures
            self@.phase != Phase::Ready ==> r == Err::<Transaction, LcdError>(LcdError::NotReady),
            self@.phase == Phase::Ready ==> {
                &&& r is Ok
                &&& r->Ok_0.ops@ == text_ops(self@.address, data@, self@.backlight)
                &&& r->Ok_0.on_failure == OnFailure::Abort
            },
    {
        if self.state.phase != Phase::Ready {
            return Err(LcdError::NotReady);
        }
        let mut ops: Vec<BusOp> = Vec::new();
        for c in it: data.chars()
            invariant
                it.seq() == data@,
                ops@ == text_ops(self@.address, data@.take(it.index()), self@.backlight),
        {
            proof {
                let upto = data@.take(it.index() + 1);
                assert(upto.drop_last() == data@.take(it.index()));
                assert(upto.last() == c);
            }
            let low: u8 = (c as u32 % 256) as u8;
            self.append_byte(&mut ops, low, Mode::Data);
        }
        proof {
            assert(data@.take(data@.len() as int) == data@);
        }
        Ok(Transaction { ops, on_failure: OnFailure::Abort })
    }

    /// Clears the display.
    pub fn clear(&self) -> (r: Result<Transaction, LcdError>)
        ensures
            self@.phase != Phase::Ready ==> r == Err::<Transaction, LcdError>(LcdError::NotReady),
            self@.phase == Phase::Ready ==> {
                &&& r is Ok
                &&& r->Ok_0.ops@ == clear_ops(self@.address, self@.backlight)
                &&& r->Ok_0.on_failure == OnFailure::Abort
            },
    {
        if self.state.phase != Phase::Ready {
            return Err(LcdError::NotReady);
        }
        let mut ops: Vec<BusOp> = Vec::new();
        self.append_command(&mut ops, Commands::Clear.code());
        ops.push(BusOp::DelayMs(SETTLE_MS));
        Ok(Transaction { ops, on_failure: OnFailure::Abort })
    }

    /// Returns the cursor to the upper left corner, (0, 0).
    pub fn return_home(&self) -> (r: Result<Transaction, LcdError>)
        ensures
            self@.phase != Phase::Ready ==> r == Err::<Transaction, LcdError>(LcdError::NotReady),
            self@.phase == Phase::Ready ==> {
                &&& r is Ok
                &&& r->Ok_0.ops@ == home_ops(self@.address, self@.backlight)
                &&& r->Ok_0.on_failure == OnFailure::Abort
            },
    {
        if self.state.phase != Phase::Ready {
            return Err(LcdError::NotReady);
        }
        let mut ops: Vec<BusOp> = Vec::new();
        self.append_home(&mut ops);
        Ok(Transaction { ops, on_failure: OnFailure::Abort })
    }

    /// Appends to `ops` what returns the cursor to the upper left corner.
    fn append_home(&self, ops: &mut Vec<BusOp>)
        ensures
            final(ops)@ == old(ops)@ + home_ops(self@.address, self@.backlight),
    {
        self.append_command(ops, Commands::ReturnHome.code());
        ops.push(BusOp::DelayMs(SETTLE_MS));
        assert(ops@ =~= old(ops)@ + home_ops(self@.address, self@.backlight));
    }

    /// Sets the cursor to (row, col). Coordinates are zero-based.
    pub fn set_cursor(&self, row: u8, col: u8) -> (r: Result<Transaction, LcdError>)
        ensures
            self@.phase != Phase::Ready ==> r == Err::<Transaction, LcdError>(LcdError::NotReady),
            self@.phase == Phase::Ready ==> {
                &&& r is Ok
                &&& r->Ok_0.ops@ == set_cursor_ops(self@.address, row, col, self@.backlight)
                &&& r->Ok_0.on_failure == OnFailure::Abort
            },
    {
        if self.state.phase != Phase::Ready {
            return Err(LcdError::NotReady);
        }
        let mut ops: Vec<BusOp> = Vec::new();
        self.append_home(&mut ops);
        let shift: u32 = row as u32 * ROW_STRIDE as u32 + col as u32;
        let mut i: u32 = 0;
        while i < shift
            invariant
                i <= shift,
                ops@ == home_ops(self@.address, self@.backlight) + repeat_ops(
                    command_ops(self@.address, 0x14, self@.backlight),
                    i as nat,
                ),
            decreases shift - i,
        {
            self.append_command(&mut ops, Commands::ShiftCursor.code());
            i = i + 1;
        }
        Ok(Transaction { ops, on_failure: OnFailure::Abort })
    }
}

/// A frame is its nibble shifted onto the data lines, or-ed with the
/// control lines; each line can be read back from the byte.
pub proof fn lemma_frame_lines(nibble: u8, select: bool, strobe: bool, light: Backlight)
    requires
        nibble < 16,
    ensures
        frame(nibble, select, strobe, light) == (nibble << 4) | light.spec_bits() | (if strobe {
            ENABLE
        } else {
            0u8
        }) | (if select {
            1u8
        } else {
            0u8
        }),
        frame(nibble, select, strobe, light) >> 4 == nibble,
        frame(nibble, select, strobe, light) & 0x08 == light.spec_bits(),
        (frame(nibble, select, strobe, light) & ENABLE == ENABLE) == strobe,
        (frame(nibble, select, strobe, light) & 0x01 == 0x01) == select,
        frame(nibble, select, strobe, light) & 0x02 == 0,
{
    let f: u8 = frame(nibble, select, strobe, light);
    let l: u8 = light.spec_bits();
    let e: u8 = if strobe {
        4
    } else {
        0
    };
    let r: u8 = if select {
        1
    } else {
        0
    };
    assert(f == 16 * nibble + l + e + r);
    assert({
        &&& f == (nibble << 4) | l | e | r
        &&& f >> 4 == nibble
        &&& f & 0x08 == l
        &&& (f & 0x04 == 0x04) == (e == 4)
        &&& (f & 0x01 == 0x01) == (r == 1)
        &&& f & 0x02 == 0
    }) by (bit_vector)
        requires
            nibble < 16,
            l == 0 || l == 8,
            e == 0 || e == 4,
            r == 0 || r == 1,
            f == 16 * nibble + l + e + r,
    ;
}

/// Strobing a byte that holds a nibble and a register-select bit, and no
/// other control bit, hands that nibble to the display: the two writes are
/// frames of the one nibble, the first with the strobe raised and the second
/// with it lowered, both with the backlight line as given.
pub proof fn lemma_write4bits_frames(address: u8, data: u8, light: Backlight)
    requires
        data & 0x0e == 0,
    ensures
        strobe_ops(address, data, light) == nibble_ops(address, data >> 4, data & 1 == 1, light),
        data >> 4 < 16,
        (data | ENABLE | light.spec_bits()) & 0x08 == light.spec_bits(),
        (data | light.spec_bits()) & 0x08 == light.spec_bits(),
        (data | ENABLE | light.spec_bits()) & ENABLE == ENABLE,
        (data | light.spec_bits()) & ENABLE == 0,
{
    let l: u8 = light.spec_bits();
    assert({
        &&& data >> 4 < 16
        &&& (data | 0x04 | l) == 16 * (data >> 4) + l + 4 + (data & 1)
        &&& (data | l) == 16 * (data >> 4) + l + (data & 1)
        &&& (data & 1 == 0 || data & 1 == 1)
        &&& (data | 0x04 | l) & 0x08 == l
        &&& (data | l) & 0x08 == l
        &&& (data | 0x04 | l) & 0x04 == 0x04
        &&& (data | l) & 0x04 == 0
    }) by (bit_vector)
        requires
            data & 0x0e == 0,
            l == 0 || l == 8,
    ;
    assert(strobe_ops(address, data, light) =~= nibble_ops(
        address,
        data >> 4,
        data & 1 == 1,
        light,
    ));
}

/// A byte is sent as two strobes: its upper four bits with the
/// register-select bit, then its lower four bits, shifted up, with the
/// register-select bit.
pub proof fn lemma_send_bytes(address: u8, data: u8, mode: Mode, light: Backlight)
    ensures
        send_ops(address, data, mode == Mode::Data, light) == strobe_ops(
            address,
            (data & 0xf0) | mode.spec_bits(),
            light,
        ) + strobe_ops(address, ((data << 4) & 0xf0) | mode.spec_bits(), light),
{
    let select: u8 = mode.spec_bits();
    let high: u8 = (data & 0xf0) | select;
    let low: u8 = ((data << 4) & 0xf0) | select;
    assert({
        &&& high & 0x0e == 0
        &&& high >> 4 == data / 16
        &&& high & 1 == select
        &&& low & 0x0e == 0
        &&& low >> 4 == data % 16
        &&& low & 1 == select
    }) by (bit_vector)
        requires
            select == 0 || select == 1,
            high == (data & 0xf0) | select,
            low == ((data << 4) & 0xf0) | select,
    ;
    lemma_write4bits_frames(address, high, light);
    lemma_write4bits_frames(address, low, light);
}

/// What `transfers` makes of a sequence with one more operation at its end.
proof fn lemma_transfers_push(ops: Seq<BusOp>, op: BusOp)
    ensures
        transfers(ops.push(op)) == if op.is_transfer() {
            transfers(ops).push(op)
        } else {
            transfers(ops)
        },
{
    assert(ops.push(op).drop_last() == ops);
}

/// Every byte sent to the display, command or character, reaches the bus as
/// exactly four writes: the upper nibble with the strobe raised, the upper
/// nibble with the strobe lowered, the lower nibble with the strobe raised,
/// the lower nibble with the strobe lowered, each with the backlight line
/// as it stands.
pub proof fn lemma_send_is_four_writes(address: u8, data: u8, select: bool, light: Backlight)
    ensures
        transfers(send_ops(address, data, select, light)) == seq![
            BusOp::Write { address, byte: frame(data / 16, select, true, light) },
            BusOp::Write { address, byte: frame(data / 16, select, false, light) },
            BusOp::Write { address, byte: frame(data % 16, select, true, light) },
            BusOp::Write { address, byte: frame(data % 16, select, false, light) },
        ],
{
    let w0 = BusOp::Write { address, byte: frame(data / 16, select, true, light) };
    let w1 = BusOp::Write { address, byte: frame(data / 16, select, false, light) };
    let w2 = BusOp::Write { address, byte: frame(data % 16, select, true, light) };
    let w3 = BusOp::Write { address, byte: frame(data % 16, select, false, light) };
    let pause = BusOp::DelayUs(LATCH_US);
    let s0 = Seq::<BusOp>::empty();
    let s1 = s0.push(w0);
    let s2 = s1.push(w1);
    let s3 = s2.push(pause);
    let s4 = s3.push(w2);
    let s5 = s4.push(w3);
    let s6 = s5.push(pause);
    lemma_transfers_push(s0, w0);
    lemma_transfers_push(s1, w1);
    lemma_transfers_push(s2, pause);
    lemma_transfers_push(s3, w2);
    lemma_transfers_push(s4, w3);
    lemma_transfers_push(s5, pause);
    assert(s6 =~= send_ops(address, data, select, light));
    assert(transfers(s6) =~= seq![w0, w1, w2, w3]);
}

/// The four writes of a byte sent to the display, as they stand on the bus:
/// the upper four bits of `data` with the strobe raised, the same with the
/// strobe lowered, then the lower four bits, shifted up, likewise; each with
/// the register-select bit of `mode` and the backlight line or-ed in.
pub proof fn lemma_send_writes(address: u8, data: u8, mode: Mode, light: Backlight)
    ensures
        transfers(send_ops(address, data, mode == Mode::Data, light)) == seq![
            BusOp::Write {
                address,
                byte: (data & 0xf0) | mode.spec_bits() | ENABLE | light.spec_bits(),
            },
            BusOp::Write { address, byte: (data & 0xf0) | mode.spec_bits() | light.spec_bits() },
            BusOp::Write {
                address,
                byte: ((data << 4) & 0xf0) | mode.spec_bits() | ENABLE | light.spec_bits(),
            },
            BusOp::Write {
                address,
                byte: ((data << 4) & 0xf0) | mode.spec_bits() | light.spec_bits(),
            },
        ],
{
    let high: u8 = (data & 0xf0) | mode.spec_bits();
    let low: u8 = ((data << 4) & 0xf0) | mode.spec_bits();
    lemma_send_bytes(address, data, mode, light);
    lemma_send_is_four_writes(address, data, mode == Mode::Data, light);
    let bits = strobe_ops(address, high, light) + strobe_ops(address, low, light);
    let frames = send_ops(address, data, mode == Mode::Data, light);
    assert(bits[0] == frames[0]);
    assert(bits[1] == frames[1]);
    assert(bits[3] == frames[3]);
    assert(bits[4] == frames[4]);
}

/// Writing one character is sending its low byte as data.
pub proof fn lemma_text_of_one(address: u8, c: char, light: Backlight)
    ensures
        text_ops(address, seq![c], light) == send_ops(address, low_byte(c), true, light),
{
    let text = seq![c];
    assert(text.drop_last() =~= Seq::<char>::empty());
    assert(text.last() == c);
    assert(text_ops(address, text.drop_last(), light) =~= Seq::<BusOp>::empty());
    assert(text_ops(address, text, light) =~= send_ops(address, low_byte(c), true, light));
}

/// Writing a text is writing its parts one after the other.
pub proof fn lemma_text_concat(address: u8, head: Seq<char>, tail: Seq<char>, light: Backlight)
    ensures
        text_ops(address, head + tail, light) == text_ops(address, head, light) + text_ops(
            address,
            tail,
            light,
        ),
    decreases tail.len(),
{
    if tail.len() == 0 {
        assert(head + tail =~= head);
        assert(text_ops(address, head, light) + text_ops(address, tail, light) =~= text_ops(
            address,
            head,
            light,
        ));
    } else {
        lemma_text_concat(address, head, tail.drop_last(), light);
        assert((head + tail).drop_last() =~= head + tail.drop_last());
        assert((head + tail).last() == tail.last());
        assert(text_ops(address, head + tail, light) =~= text_ops(address, head, light) + text_ops(
            address,
            tail,
            light,
        ));
    }
}

} // verus!
