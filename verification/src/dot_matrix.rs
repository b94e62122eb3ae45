//! Bit-addressed framebuffer for the whole display chain.
//!
//! The buffer holds one 16-bit instruction slot per segment per row, laid out
//! row-major, then segment-major within a row, command byte before data byte
//! within a slot. The command byte of every slot is seeded once, at
//! construction, with the row-select command of its row; pixel and byte
//! operations only ever touch data bytes.
//!
//! Display coordinates:
//! ```text
//! 0,0 ->  x
//! |
//! v
//! y
//! ```

use vstd::arithmetic::div_mod::lemma_fundamental_div_mod;
use vstd::arithmetic::div_mod::lemma_fundamental_div_mod_converse;
use vstd::prelude::*;

use crate::max7219::chain_frame;
use crate::max7219::digit;
use crate::max7219::Intensity;
use crate::max7219::Max7219;

verus! {

/// Number of daisy-chained 8x8 modules on the bus.
pub const CHAINED_SEGMENTS: usize = 4;

/// Pixel columns of one segment: the data bits of one instruction.
pub const DISPLAY_WIDTH: usize = 8;

/// Pixel rows of one segment, one per digit line.
pub const DISPLAY_HEIGHT: usize = 8;

/// Pixel columns across the whole chain.
pub const ROW_LENGTH: usize = CHAINED_SEGMENTS * DISPLAY_WIDTH;

pub const COMMAND_BITS: usize = 8;

pub const DATA_BITS: usize = 8;

pub const INSTRUCTION_BYTES: usize = 2;

pub const INSTRUCTION_BITS: usize = 16;

/// Size of the framebuffer: one command and one data byte per segment per row.
pub const BUFFER_BYTES: usize = CHAINED_SEGMENTS * DISPLAY_HEIGHT * INSTRUCTION_BYTES;

/// Position of the command byte of segment `segment`, row `y`.
pub open spec fn cmd_index(segment: int, y: int) -> int {
    (y * 4 + segment) * 2
}

/// Position of the data byte of segment `segment`, row `y`.
pub open spec fn data_index(segment: int, y: int) -> int {
    (y * 4 + segment) * 2 + 1
}

/// Bit `bit` of `byte`, counted from the most significant end, as the wire
/// order of the data bits has it.
pub open spec fn bit_of(byte: u8, bit: u8) -> bool {
    byte & (0x80u8 >> bit) != 0
}

/// `byte` with bit `bit` (from the most significant end) set to `value`.
pub open spec fn set_bit_u8(byte: u8, bit: u8, value: bool) -> u8 {
    if value {
        byte | (0x80u8 >> bit)
    } else {
        byte & !(0x80u8 >> bit)
    }
}

/// The pixel at (x, y) of a framebuffer: bit `x % 8` of the data byte that
/// segment `x / 8` holds for row `y`.
pub open spec fn pixel_of(buffer: Seq<u8>, x: int, y: int) -> bool {
    bit_of(buffer[data_index(x / 8, y)], (x % 8) as u8)
}

/// The framebuffer after a pixel write at (x, y): the one addressed data bit
/// changes, and a write outside the grid changes nothing at all.
pub open spec fn spec_set_pixel(buffer: Seq<u8>, x: int, y: int, value: bool) -> Seq<u8> {
    if 0 <= x < 32 && 0 <= y < 8 {
        buffer.update(
            data_index(x / 8, y),
            set_bit_u8(buffer[data_index(x / 8, y)], (x % 8) as u8, value),
        )
    } else {
        buffer
    }
}

/// Absolute bit position of pixel (x, y) inside the framebuffer, or `None`
/// for coordinates outside the chain. Drawing code may rasterize slightly
/// past the edge; such writes are meant to fall away silently.
pub fn offset(x: usize, y: usize) -> (r: Option<usize>)
    ensures
        x < 32 && y < 8 ==> r == Some((y * 64 + (x / 8) * 16 + 8 + x % 8) as usize),
        !(x < 32 && y < 8) ==> r == None::<usize>,
{
    if x < CHAINED_SEGMENTS * DISPLAY_WIDTH && y < DISPLAY_HEIGHT {
        let y_offset: usize = y * (CHAINED_SEGMENTS * INSTRUCTION_BITS);
        let x_segments: usize = x / DATA_BITS;
        Some(y_offset + x_segments * INSTRUCTION_BITS + COMMAND_BITS + x % DATA_BITS)
    } else {
        None
    }
}

/// How the absolute bit position of an in-range pixel splits into a byte
/// position (the segment's data byte) and a bit position inside that byte.
proof fn lemma_offset_decomposition(x: int, y: int)
    requires
        0 <= x < 32,
        0 <= y < 8,
    ensures
        0 <= x / 8 < 4,
        0 <= x % 8 < 8,
        (y * 64 + (x / 8) * 16 + 8 + x % 8) / 8 == data_index(x / 8, y),
        (y * 64 + (x / 8) * 16 + 8 + x % 8) % 8 == x % 8,
        0 <= data_index(x / 8, y) < 64,
        data_index(x / 8, y) % 2 == 1,
{
    lemma_fundamental_div_mod(x, 8);
    let o = y * 64 + (x / 8) * 16 + 8 + x % 8;
    let q = y * 8 + (x / 8) * 2 + 1;
    assert(o == q * 8 + x % 8);
    lemma_fundamental_div_mod_converse(o, 8, q, x % 8);
}

/// Bit reads of the two constant data bytes: a cleared byte has no pixel set,
/// a filled one has them all.
proof fn lemma_bit_of_consts(bit: u8)
    requires
        bit < 8,
    ensures
        !bit_of(0u8, bit),
        bit_of(0xFFu8, bit),
{
    assert(0u8 & (0x80u8 >> bit) == 0 && 0xFFu8 & (0x80u8 >> bit) != 0) by (bit_vector)
        requires
            bit < 8,
    ;
}

/// A pixel write lands on its own bit and nowhere else inside the byte.
proof fn lemma_set_bit_of(b: u8, i: u8, j: u8)
    requires
        i < 8,
        j < 8,
    ensures
        bit_of(set_bit_u8(b, i, true), i),
        !bit_of(set_bit_u8(b, i, false), i),
        i != j ==> bit_of(set_bit_u8(b, i, true), j) == bit_of(b, j),
        i != j ==> bit_of(set_bit_u8(b, i, false), j) == bit_of(b, j),
{
    assert(bit_of(set_bit_u8(b, i, true), i) && !bit_of(set_bit_u8(b, i, false), i) && (i != j
        ==> bit_of(set_bit_u8(b, i, true), j) == bit_of(b, j)) && (i != j ==> bit_of(
        set_bit_u8(b, i, false),
        j,
    ) == bit_of(b, j))) by (bit_vector)
        requires
            i < 8,
            j < 8,
    ;
}

/// Law: painting one in-range pixel makes exactly that pixel carry the
/// painted value, and leaves every other pixel of the grid as it was -
/// neither neighbouring bits nor other segments see any cross-talk.
pub proof fn lemma_set_pixel_no_crosstalk(
    buffer: Seq<u8>,
    x: int,
    y: int,
    value: bool,
    x2: int,
    y2: int,
)
    requires
        buffer.len() == 64,
        0 <= x < 32,
        0 <= y < 8,
        0 <= x2 < 32,
        0 <= y2 < 8,
    ensures
        pixel_of(spec_set_pixel(buffer, x, y, value), x, y) == value,
        !(x2 == x && y2 == y) ==> pixel_of(spec_set_pixel(buffer, x, y, value), x2, y2)
            == pixel_of(buffer, x2, y2),
{
    lemma_offset_decomposition(x, y);
    lemma_offset_decomposition(x2, y2);
    lemma_fundamental_div_mod(x, 8);
    lemma_fundamental_div_mod(x2, 8);
    lemma_set_bit_of(buffer[data_index(x / 8, y)], (x % 8) as u8, (x2 % 8) as u8);
    lemma_set_bit_of(buffer[data_index(x / 8, y)], (x % 8) as u8, (x % 8) as u8);
}

/// Law: a pixel write outside the grid is a no-op on the framebuffer.
pub proof fn lemma_set_pixel_out_of_range(buffer: Seq<u8>, x: int, y: int, value: bool)
    requires
        !(0 <= x < 32 && 0 <= y < 8),
    ensures
        spec_set_pixel(buffer, x, y, value) == buffer,
{
}

/// The framebuffer of the whole chain, plus the encoder of the bus it is
/// flushed through.
pub struct DotMatrix {
    pub max: Max7219,
    pub display_buffer: Vec<u8>,
    pub intensity: Intensity,
}

impl DotMatrix {
    /// The buffer spans the full chain and every instruction slot carries its
    /// row's select command, so a row flush never has to rebuild commands.
    pub open spec fn wf(self) -> bool {
        &&& self.max.chained_segments == 4
        &&& self.display_buffer@.len() == 64
        &&& forall|s: int, y: int|
            0 <= s < 4 && 0 <= y < 8 ==> self.display_buffer@[#[trigger] cmd_index(s, y)] == y + 1
    }

    pub open spec fn pixel(self, x: int, y: int) -> bool {
        pixel_of(self.display_buffer@, x, y)
    }

    /// A fresh framebuffer: every pixel dark, every command byte seeded with
    /// its row-select command.
    pub fn new(intensity: Intensity) -> (r: DotMatrix)
        ensures
            r.wf(),
            r.intensity == intensity,
            r.max.chained_segments == 4,
            forall|s: int, y: int|
                0 <= s < 4 && 0 <= y < 8 ==> r.display_buffer@[#[trigger] data_index(s, y)] == 0u8,
            forall|x: int, y: int| 0 <= x < 32 && 0 <= y < 8 ==> !r.pixel(x, y),
    {
        let max = Max7219::new(CHAINED_SEGMENTS);
        let mut display_buffer: Vec<u8> = Vec::new();
        let mut i: usize = 0;
        while i < BUFFER_BYTES
            invariant
                i <= 64,
                display_buffer@.len() == i,
                forall|k: int| 0 <= k < i ==> display_buffer@[k] == 0u8,
            decreases 64 - i,
        {
            display_buffer.push(0);
            i = i + 1;
        }
        let mut y: usize = 0;
        while y < DISPLAY_HEIGHT
            invariant
                y <= 8,
                display_buffer@.len() == 64,
                forall|s: int, y2: int|
                    0 <= s < 4 && 0 <= y2 < y ==> display_buffer@[#[trigger] cmd_index(s, y2)] == y2
                        + 1,
                forall|k: int| 0 <= k < 64 && k % 2 == 1 ==> display_buffer@[k] == 0u8,
            decreases 8 - y,
        {
            let command: u8 = digit(y).code();
            let mut s: usize = 0;
            while s < CHAINED_SEGMENTS
                invariant
                    y < 8,
                    s <= 4,
                    command == y + 1,
                    display_buffer@.len() == 64,
                    forall|s2: int, y2: int|
                        0 <= s2 < 4 && 0 <= y2 < y ==> display_buffer@[#[trigger] cmd_index(
                            s2,
                            y2,
                        )] == y2 + 1,
                    forall|s2: int|
                        0 <= s2 < s ==> display_buffer@[#[trigger] cmd_index(s2, y as int)] == y
                            + 1,
                    forall|k: int| 0 <= k < 64 && k % 2 == 1 ==> display_buffer@[k] == 0u8,
                decreases 4 - s,
            {
                display_buffer.set((CHAINED_SEGMENTS * y + s) * INSTRUCTION_BYTES, command);
                s = s + 1;
            }
            y = y + 1;
        }
        let r = DotMatrix { max, display_buffer, intensity };
        proof {
            assert forall|x: int, y2: int| 0 <= x < 32 && 0 <= y2 < 8 implies !r.pixel(x, y2) by {
                lemma_offset_decomposition(x, y2);
                lemma_bit_of_consts((x % 8) as u8);
            }
        }
        r
    }

    /// Write one pixel; coordinates outside the grid fall away as a no-op.
    pub fn set_bit(&mut self, x: usize, y: usize, value: bool)
        requires
            old(self).wf(),
        ensures
            final(self).wf(),
            final(self).display_buffer@ == spec_set_pixel(
                old(self).display_buffer@,
                x as int,
                y as int,
                value,
            ),
            final(self).max == old(self).max,
            final(self).intensity == old(self).intensity,
    {
        match offset(x, y) {
            Some(o) => {
                proof {
                    lemma_offset_decomposition(x as int, y as int);
                }
                let index: usize = o / 8;
                let bit: usize = o % 8;
                let byte: u8 = self.display_buffer[index];
                let mask: u8 = 0x80u8 >> (bit as u8);
                let new_byte: u8 = if value {
                    byte | mask
                } else {
                    byte & !mask
                };
                self.display_buffer.set(index, new_byte);
            },
            None => {},
        }
    }

    /// Read one pixel; coordinates outside the grid read as dark.
    pub fn get_bit(&self, x: usize, y: usize) -> (r: bool)
        requires
            self.wf(),
        ensures
            r == (if x < 32 && y < 8 {
                self.pixel(x as int, y as int)
            } else {
                false
            }),
    {
        match offset(x, y) {
            Some(o) => {
                proof {
                    lemma_offset_decomposition(x as int, y as int);
                }
                let index: usize = o / 8;
                let bit: usize = o % 8;
                let byte: u8 = self.display_buffer[index];
                byte & (0x80u8 >> (bit as u8)) != 0
            },
            None => false,
        }
    }

    /// Replace the full data byte of one segment's row.
    pub fn set_byte(&mut self, x_row: usize, y: usize, data: u8)
        requires
            old(self).wf(),
            x_row < 4,
            y < 8,
        ensures
            final(self).wf(),
            final(self).display_buffer@ == old(self).display_buffer@.update(
                data_index(x_row as int, y as int),
                data,
            ),
            final(self).max == old(self).max,
            final(self).intensity == old(self).intensity,
    {
        self.display_buffer.set((y * CHAINED_SEGMENTS + x_row) * INSTRUCTION_BYTES + 1, data);
    }

    /// Read the full data byte of one segment's row.
    pub fn get_byte(&self, x_row: usize, y: usize) -> (r: u8)
        requires
            self.wf(),
            x_row < 4,
            y < 8,
        ensures
            r == self.display_buffer@[data_index(x_row as int, y as int)],
    {
        self.display_buffer[(y * CHAINED_SEGMENTS + x_row) * INSTRUCTION_BYTES + 1]
    }

    /// The data bytes of one row across all segments, in segment order: byte
    /// `s` carries exactly the eight pixels of segment `s` in that row.
    pub fn row_bytes(&self, y: usize) -> (r: Vec<u8>)
        requires
            self.wf(),
            y < 8,
        ensures
            r@.len() == 4,
            forall|s: int|
                0 <= s < 4 ==> r@[s] == self.display_buffer@[#[trigger] data_index(s, y as int)],
            forall|s: int, bit: u8|
                0 <= s < 4 && bit < 8 ==> #[trigger] bit_of(r@[s], bit) == self.pixel(
                    s * 8 + bit,
                    y as int,
                ),
    {
        let mut out: Vec<u8> = Vec::new();
        let mut s: usize = 0;
        while s < CHAINED_SEGMENTS
            invariant
                self.wf(),
                y < 8,
                s <= 4,
                out@.len() == s,
                forall|s2: int|
                    0 <= s2 < s ==> out@[s2] == self.display_buffer@[#[trigger] data_index(
                        s2,
                        y as int,
                    )],
            decreases 4 - s,
        {
            out.push(self.get_byte(s, y));
            s = s + 1;
        }
        proof {
            assert forall|s2: int, bit: u8| 0 <= s2 < 4 && bit < 8 implies #[trigger] bit_of(
                out@[s2],
                bit,
            ) == self.pixel(s2 * 8 + bit, y as int) by {
                lemma_fundamental_div_mod_converse(s2 * 8 + bit, 8, s2, bit as int);
            }
        }
        out
    }

    /// The wire payload of one physical row refresh: the row's instruction
    /// slots as they stand, command and data byte alternating in chain order.
    pub fn row_frame(&self, y: usize) -> (r: Vec<u8>)
        requires
            self.wf(),
            y < 8,
        ensures
            r@.len() == 8,
            forall|k: int| 0 <= k < 8 ==> r@[k] == self.display_buffer@[y * 8 + k],
            forall|k: int| 0 <= k < 8 && k % 2 == 0 ==> r@[k] == y + 1,
            forall|s: int|
                0 <= s < 4 ==> r@[2 * s + 1] == self.display_buffer@[#[trigger] data_index(
                    s,
                    y as int,
                )],
    {
        let mut out: Vec<u8> = Vec::new();
        let mut k: usize = 0;
        while k < 8
            invariant
                self.wf(),
                y < 8,
                k <= 8,
                out@.len() == k,
                forall|k2: int| 0 <= k2 < k ==> out@[k2] == self.display_buffer@[y * 8 + k2],
            decreases 8 - k,
        {
            out.push(self.display_buffer[y * 8 + k]);
            k = k + 1;
        }
        proof {
            assert forall|k: int| 0 <= k < 8 && k % 2 == 0 implies out@[k] == y + 1 by {
                let s = k / 2;
                assert(cmd_index(s, y as int) == y * 8 + k);
                assert(self.display_buffer@[cmd_index(s, y as int)] == y + 1);
            }
            assert forall|s: int| 0 <= s < 4 implies out@[2 * s + 1]
                == self.display_buffer@[#[trigger] data_index(s, y as int)] by {
                assert(data_index(s, y as int) == y * 8 + (2 * s + 1));
                assert(out@[2 * s + 1] == self.display_buffer@[y * 8 + (2 * s + 1)]);
            }
        }
        out
    }

    /// Darken every pixel; the seeded command bytes stay untouched.
    pub fn clear(&mut self)
        requires
            old(self).wf(),
        ensures
            final(self).wf(),
            final(self).max == old(self).max,
            final(self).intensity == old(self).intensity,
            forall|s: int, y: int|
                0 <= s < 4 && 0 <= y < 8 ==> final(self).display_buffer@[#[trigger] data_index(
                    s,
                    y,
                )] == 0u8,
            forall|x: int, y: int| 0 <= x < 32 && 0 <= y < 8 ==> !final(self).pixel(x, y),
    {
        self.set_all_bytes(0x00);
        proof {
            assert forall|x: int, y: int| 0 <= x < 32 && 0 <= y < 8 implies !self.pixel(x, y) by {
                lemma_offset_decomposition(x, y);
                lemma_bit_of_consts((x % 8) as u8);
            }
        }
    }

    /// Light every pixel; the seeded command bytes stay untouched.
    pub fn fill(&mut self)
        requires
            old(self).wf(),
        ensures
            final(self).wf(),
            final(self).max == old(self).max,
            final(self).intensity == old(self).intensity,
            forall|s: int, y: int|
                0 <= s < 4 && 0 <= y < 8 ==> final(self).display_buffer@[#[trigger] data_index(
                    s,
                    y,
                )] == 0xFFu8,
            forall|x: int, y: int| 0 <= x < 32 && 0 <= y < 8 ==> final(self).pixel(x, y),
    {
        self.set_all_bytes(0xFF);
        proof {
            assert forall|x: int, y: int| 0 <= x < 32 && 0 <= y < 8 implies self.pixel(x, y) by {
                lemma_offset_decomposition(x, y);
                lemma_bit_of_consts((x % 8) as u8);
            }
        }
    }

    /// Bulk write of one data byte to every segment of every row.
    fn set_all_bytes(&mut self, data: u8)
        requires
            old(self).wf(),
        ensures
            final(self).wf(),
            final(self).max == old(self).max,
            final(self).intensity == old(self).intensity,
            forall|s: int, y: int|
                0 <= s < 4 && 0 <= y < 8 ==> final(self).display_buffer@[#[trigger] data_index(
                    s,
                    y,
                )] == data,
    {
        let mut y: usize = 0;
        while y < DISPLAY_HEIGHT
            invariant
                self.wf(),
                self.max == old(self).max,
                self.intensity == old(self).intensity,
                y <= 8,
                forall|s: int, y2: int|
                    0 <= s < 4 && 0 <= y2 < y ==> self.display_buffer@[#[trigger] data_index(
                        s,
                        y2,
                    )] == data,
            decreases 8 - y,
        {
            let mut s: usize = 0;
            while s < CHAINED_SEGMENTS
                invariant
                    self.wf(),
                    self.max == old(self).max,
                    self.intensity == old(self).intensity,
                    y < 8,
                    s <= 4,
                    forall|s2: int, y2: int|
                        0 <= s2 < 4 && 0 <= y2 < y ==> self.display_buffer@[#[trigger] data_index(
                            s2,
                            y2,
                        )] == data,
                    forall|s2: int|
                        0 <= s2 < s ==> self.display_buffer@[#[trigger] data_index(s2, y as int)]
                            == data,
                decreases 4 - s,
            {
                self.set_byte(s, y, data);
                s = s + 1;
            }
            y = y + 1;
        }
    }

    /// Remember the chain's brightness and encode the chain-wide intensity
    /// command that applies it; the framebuffer itself is untouched.
    pub fn set_intensity(&mut self, intensity: Intensity) -> (r: Vec<u8>)
        requires
            old(self).wf(),
        ensures
            final(self).wf(),
            final(self).intensity == intensity,
            final(self).display_buffer@ == old(self).display_buffer@,
            final(self).max == old(self).max,
            r@ == chain_frame(0xA, intensity, 4),
    {
        self.intensity = intensity;
        self.max.set_intensity(intensity)
    }
}

} // verus!
