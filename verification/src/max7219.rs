//! Wire protocol of the MAX7219 display driver chain.
//!
//! Every instruction addressed to one chained segment is a (command byte,
//! data byte) pair; a chain-wide write is one such pair per segment,
//! concatenated in chain order.

use vstd::prelude::*;

verus! {

/// One MAX7219 register address (the command byte of an instruction).
#[derive(Clone, Copy, PartialEq, Eq, Structural, Debug)]
pub enum Command {
    Noop,
    Digit0,
    Digit1,
    Digit2,
    Digit3,
    Digit4,
    Digit5,
    Digit6,
    Digit7,
    DecodeMode,
    Intensity,
    ScanLimit,
    DisplayOn,
    DisplayTest,
}

impl Command {
    /// The register address this command is encoded as on the wire.
    pub open spec fn spec_code(self) -> u8 {
        match self {
            Command::Noop => 0x0,
            Command::Digit0 => 0x1,
            Command::Digit1 => 0x2,
            Command::Digit2 => 0x3,
            Command::Digit3 => 0x4,
            Command::Digit4 => 0x5,
            Command::Digit5 => 0x6,
            Command::Digit6 => 0x7,
            Command::Digit7 => 0x8,
            Command::DecodeMode => 0x9,
            Command::Intensity => 0xA,
            Command::ScanLimit => 0xB,
            Command::DisplayOn => 0xC,
            Command::DisplayTest => 0xF,
        }
    }

    #[verifier::when_used_as_spec(spec_code)]
    pub fn code(self) -> (r: u8)
        ensures
            r == self.spec_code(),
    {
        match self {
            Command::Noop => 0x0,
            Command::Digit0 => 0x1,
            Command::Digit1 => 0x2,
            Command::Digit2 => 0x3,
            Command::Digit3 => 0x4,
            Command::Digit4 => 0x5,
            Command::Digit5 => 0x6,
            Command::Digit6 => 0x7,
            Command::Digit7 => 0x8,
            Command::DecodeMode => 0x9,
            Command::Intensity => 0xA,
            Command::ScanLimit => 0xB,
            Command::DisplayOn => 0xC,
            Command::DisplayTest => 0xF,
        }
    }
}

/// The row-select command for row `row` of the 8-row digit grid.
pub fn digit(row: usize) -> (r: Command)
    requires
        row < 8,
    ensures
        r.spec_code() == row + 1,
{
    match row {
        0 => Command::Digit0,
        1 => Command::Digit1,
        2 => Command::Digit2,
        3 => Command::Digit3,
        4 => Command::Digit4,
        5 => Command::Digit5,
        6 => Command::Digit6,
        _ => Command::Digit7,
    }
}

/// The decode-mode register value: which digit lines use BCD decoding.
/// An LED matrix wants raw bits, so `NoDecode` is the mode in use here.
#[derive(Clone, Copy, PartialEq, Eq, Structural, Debug)]
pub enum DecodeMode {
    NoDecode,
    Decode0,
    Decode3_0,
    DecodeAll,
}

impl DecodeMode {
    /// The register value this mode is encoded as on the wire.
    pub open spec fn spec_code(self) -> u8 {
        match self {
            DecodeMode::NoDecode => 0b00000000,
            DecodeMode::Decode0 => 0b00000001,
            DecodeMode::Decode3_0 => 0b00001111,
            DecodeMode::DecodeAll => 0b11111111,
        }
    }

    #[verifier::when_used_as_spec(spec_code)]
    pub fn code(self) -> (r: u8)
        ensures
            r == self.spec_code(),
    {
        match self {
            DecodeMode::NoDecode => 0b00000000,
            DecodeMode::Decode0 => 0b00000001,
            DecodeMode::Decode3_0 => 0b00001111,
            DecodeMode::DecodeAll => 0b11111111,
        }
    }
}

pub type Intensity = u8;

pub type ScanLimit = u8;

/// The byte sequence of one chain-wide write: the same (command, data)
/// instruction repeated once per segment, in chain order.
pub open spec fn chain_frame(command: u8, data: u8, segments: int) -> Seq<u8> {
    Seq::new((2 * segments) as nat, |k: int| if k % 2 == 0 { command } else { data })
}

/// Encoder for a chain of MAX7219 segments wired in series on one bus.
/// It computes the exact byte sequences to put on the wire; the transport
/// that carries them lives outside this crate.
pub struct Max7219 {
    pub chained_segments: usize,
}

impl Max7219 {
    pub fn new(chained_segments: usize) -> (r: Max7219)
        ensures
            r.chained_segments == chained_segments,
    {
        Max7219 { chained_segments }
    }

    /// Encode one command and data byte addressed to every chained segment.
    pub fn write_all(&self, command: Command, data: u8) -> (r: Vec<u8>)
        requires
            self.chained_segments <= usize::MAX / 2,
        ensures
            r@ == chain_frame(command.spec_code(), data, self.chained_segments as int),
    {
        let code: u8 = command.code();
        let mut buffer: Vec<u8> = Vec::new();
        let mut display: usize = 0;
        while display < self.chained_segments
            invariant
                display <= self.chained_segments,
                self.chained_segments <= usize::MAX / 2,
                buffer@ == chain_frame(code, data, display as int),
            decreases self.chained_segments - display,
        {
            buffer.push(code);
            buffer.push(data);
            display = display + 1;
            proof {
                assert(buffer@ =~= chain_frame(code, data, display as int));
            }
        }
        buffer
    }

    pub fn set_decode_mode(&self, decode_mode: DecodeMode) -> (r: Vec<u8>)
        requires
            self.chained_segments <= usize::MAX / 2,
        ensures
            r@ == chain_frame(0x9, decode_mode.spec_code(), self.chained_segments as int),
    {
        self.write_all(Command::DecodeMode, decode_mode.code())
    }

    pub fn set_intensity(&self, intensity: Intensity) -> (r: Vec<u8>)
        requires
            self.chained_segments <= usize::MAX / 2,
        ensures
            r@ == chain_frame(0xA, intensity, self.chained_segments as int),
    {
        self.write_all(Command::Intensity, intensity)
    }

    pub fn set_scan_limit(&self, display_digits: ScanLimit) -> (r: Vec<u8>)
        requires
            self.chained_segments <= usize::MAX / 2,
        ensures
            r@ == chain_frame(0xB, display_digits, self.chained_segments as int),
    {
        self.write_all(Command::ScanLimit, display_digits)
    }

    pub fn set_display_on(&self, display_on: bool) -> (r: Vec<u8>)
        requires
            self.chained_segments <= usize::MAX / 2,
        ensures
            r@ == chain_frame(0xC, if display_on { 1u8 } else { 0u8 }, self.chained_segments as int),
    {
        self.write_all(Command::DisplayOn, if display_on { 1 } else { 0 })
    }

    pub fn set_display_test(&self, display_on: bool) -> (r: Vec<u8>)
        requires
            self.chained_segments <= usize::MAX / 2,
        ensures
            r@ == chain_frame(0xF, if display_on { 1u8 } else { 0u8 }, self.chained_segments as int),
    {
        self.write_all(Command::DisplayTest, if display_on { 1 } else { 0 })
    }
}

/// One segment as the receiving end of the wire sees it: its power state and
/// the eight data bytes of its digit rows. A development build renders these
/// panels instead of driving real hardware; interpreting the byte stream is
/// the same either way.
#[derive(Clone, Debug)]
pub struct Panel {
    pub on: bool,
    pub rows: Vec<u8>,
}

impl Panel {
    pub open spec fn wf(self) -> bool {
        self.rows@.len() == 8
    }

    pub fn new() -> (r: Panel)
        ensures
            r.wf(),
            r.on == false,
            forall|i: int| 0 <= i < 8 ==> r.rows@[i] == 0u8,
    {
        Panel { on: false, rows: vec![0, 0, 0, 0, 0, 0, 0, 0] }
    }

    /// Apply one instruction addressed to this segment: display-on toggles
    /// power, a row-select command replaces that row's data byte, every other
    /// command is ignored.
    pub fn apply(&mut self, command: u8, data: u8)
        requires
            old(self).wf(),
        ensures
            final(self).wf(),
            final(self).on == (if command == 0xC {
                data & 1 == 1
            } else {
                old(self).on
            }),
            final(self).rows@ == (if 1 <= command <= 8 {
                old(self).rows@.update(command - 1, data)
            } else {
                old(self).rows@
            }),
    {
        if command == Command::DisplayOn.code() {
            self.on = data & 0x1 == 0x1;
        } else if command >= Command::Digit0.code() && command <= Command::Digit7.code() {
            let row: u8 = command - Command::Digit0.code();
            self.rows.set(row as usize, data);
        }
    }
}

/// Interpret one chain-wide write at the receiving end: pair `p` of the byte
/// stream is the instruction for panel `p`; pairs past the chain's end and
/// panels past the stream's end are untouched.
pub fn apply_frame(panels: &mut Vec<Panel>, data: &[u8])
    requires
        data@.len() % 2 == 0,
        forall|p: int| 0 <= p < old(panels)@.len() ==> (#[trigger] old(panels)@[p]).wf(),
    ensures
        final(panels)@.len() == old(panels)@.len(),
        forall|p: int| 0 <= p < old(panels)@.len() ==> (#[trigger] final(panels)@[p]).wf(),
        forall|p: int|
            0 <= p < old(panels)@.len() && 2 * p + 1 < data@.len() ==> {
                &&& (#[trigger] final(panels)@[p]).on == (if data@[2 * p] == 0xC {
                    data@[2 * p + 1] & 1 == 1
                } else {
                    old(panels)@[p].on
                })
                &&& final(panels)@[p].rows@ == (if 1 <= data@[2 * p] <= 8 {
                    old(panels)@[p].rows@.update(data@[2 * p] - 1, data@[2 * p + 1])
                } else {
                    old(panels)@[p].rows@
                })
            },
        forall|p: int|
            0 <= p < old(panels)@.len() && 2 * p + 1 >= data@.len()
                ==> #[trigger] final(panels)@[p] == old(panels)@[p],
{
    let ghost orig = panels@;
    let mut i: usize = 0;
    while i + 1 < data.len()
        invariant
            data@.len() % 2 == 0,
            i % 2 == 0,
            i <= data@.len(),
            panels@.len() == orig.len(),
            forall|p: int| 0 <= p < orig.len() ==> (#[trigger] panels@[p]).wf(),
            forall|p: int|
                0 <= p < orig.len() && 2 * p + 1 < i ==> {
                    &&& (#[trigger] panels@[p]).on == (if data@[2 * p] == 0xC {
                        data@[2 * p + 1] & 1 == 1
                    } else {
                        orig[p].on
                    })
                    &&& panels@[p].rows@ == (if 1 <= data@[2 * p] <= 8 {
                        orig[p].rows@.update(data@[2 * p] - 1, data@[2 * p + 1])
                    } else {
                        orig[p].rows@
                    })
                },
            forall|p: int| 0 <= p < orig.len() && 2 * p + 1 >= i ==> #[trigger] panels@[p]
                == orig[p],
        decreases data@.len() - i,
    {
        let command: u8 = data[i];
        let byte: u8 = data[i + 1];
        let panel_i: usize = i / 2;
        if panel_i < panels.len() {
            let panel: &mut Panel = &mut panels[panel_i];
            panel.apply(command, byte);
        }
        i = i + 2;
    }
}

} // verus!
