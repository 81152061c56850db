//! Terminal attributes as plain values, and the raw mode derived from them.
//!
//! An attribute set holds the four mode words and the control characters of a
//! terminal line. The bit positions are those of Linux; the executable code
//! takes each of them from the `termios` crate.

use vstd::prelude::*;

verus! {

/// Number of control characters in an attribute set.
pub const CONTROL_CHARS: usize = 32;

/// Input-mode bit: a break condition on input is ignored.
pub open spec fn ignore_break_bit() -> u32 {
    0x1
}

/// Input-mode bit: a break condition on input raises an interrupt.
pub open spec fn break_interrupt_bit() -> u32 {
    0x2
}

/// Input-mode bit: a carriage return on input is turned into a newline.
pub open spec fn cr_to_nl_bit() -> u32 {
    0x100
}

/// Local-mode bit: the interrupt, quit and suspend characters raise signals.
pub open spec fn signals_bit() -> u32 {
    0x1
}

/// Local-mode bit: input is delivered line by line.
pub open spec fn canonical_bit() -> u32 {
    0x2
}

/// Local-mode bit: input characters are echoed.
pub open spec fn echo_bit() -> u32 {
    0x8
}

/// Index of the control character that holds the inter-byte timer.
pub open spec fn read_timer_index() -> int {
    5
}

/// Index of the control character that holds the minimum read size.
pub open spec fn min_read_index() -> int {
    6
}

/// `termios::os::linux::IGNBRK`, the mask of the input-mode bit that makes a
/// line ignore a break. Taken on trust: that it is 0x1, as the crate's table
/// for Linux has it.
#[verifier::external_body]
fn ignbrk() -> (m: u32)
    ensures
        m == ignore_break_bit(),
{
    termios::os::linux::IGNBRK
}

/// `termios::os::linux::BRKINT`, the mask of the input-mode bit that makes a
/// break raise an interrupt. Taken on trust: that it is 0x2, as the crate's
/// table for Linux has it.
#[verifier::external_body]
fn brkint() -> (m: u32)
    ensures
        m == break_interrupt_bit(),
{
    termios::os::linux::BRKINT
}

/// `termios::os::linux::ICRNL`, the mask of the input-mode bit that turns a
/// carriage return into a newline. Taken on trust: that it is 0x100, as the
/// crate's table for Linux has it.
#[verifier::external_body]
fn icrnl() -> (m: u32)
    ensures
        m == cr_to_nl_bit(),
{
    termios::os::linux::ICRNL
}

/// `termios::os::linux::ISIG`, the mask of the local-mode bit that lets
/// special characters raise signals. Taken on trust: that it is 0x1, as the
/// crate's table for Linux has it.
#[verifier::external_body]
fn isig() -> (m: u32)
    ensures
        m == signals_bit(),
{
    termios::os::linux::ISIG
}

/// `termios::os::linux::ICANON`, the mask of the local-mode bit that delivers
/// input line by line. Taken on trust: that it is 0x2, as the crate's table
/// for Linux has it.
#[verifier::external_body]
fn icanon() -> (m: u32)
    ensures
        m == canonical_bit(),
{
    termios::os::linux::ICANON
}

/// `termios::os::linux::ECHO`, the mask of the local-mode bit that echoes
/// input. Taken on trust: that it is 0x8, as the crate's table for Linux has
/// it.
#[verifier::external_body]
fn echo() -> (m: u32)
    ensures
        m == echo_bit(),
{
    termios::os::linux::ECHO
}

/// `termios::os::linux::VTIME`, the index of the control character that holds
/// the inter-byte timer. Taken on trust: that it is 5, as the crate's table
/// for Linux has it.
#[verifier::external_body]
fn vtime() -> (i: usize)
    ensures
        i == read_timer_index(),
{
    termios::os::linux::VTIME
}

/// `termios::os::linux::VMIN`, the index of the control character that holds
/// the minimum read size. Taken on trust: that it is 6, as the crate's table
/// for Linux has it.
#[verifier::external_body]
fn vmin() -> (i: usize)
    ensures
        i == min_read_index(),
{
    termios::os::linux::VMIN
}

/// Window geometry of a terminal: character cells and pixels.
#[derive(Clone, Copy, Debug, PartialEq, Eq)]
pub struct WinSize {
    pub rows: u16,
    pub cols: u16,
    pub x_pixels: u16,
    pub y_pixels: u16,
}

/// The attributes of a terminal line.
#[derive(Clone, Copy, Debug, PartialEq, Eq)]
pub struct TermAttrs {
    pub input_flags: u32,
    pub output_flags: u32,
    pub control_flags: u32,
    pub local_flags: u32,
    pub control_chars: [u8; 32],
}

impl TermAttrs {
    /// Input characters are echoed.
    pub open spec fn echoes(self) -> bool {
        self.local_flags & echo_bit() != 0
    }

    /// Input is delivered line by line.
    pub open spec fn canonical(self) -> bool {
        self.local_flags & canonical_bit() != 0
    }

    /// Special characters raise signals.
    pub open spec fn signals(self) -> bool {
        self.local_flags & signals_bit() != 0
    }

    /// A break condition is ignored.
    pub open spec fn ignores_break(self) -> bool {
        self.input_flags & ignore_break_bit() != 0
    }

    /// A break condition raises an interrupt.
    pub open spec fn break_interrupts(self) -> bool {
        self.input_flags & break_interrupt_bit() != 0
    }

    /// A carriage return on input becomes a newline.
    pub open spec fn maps_cr_to_nl(self) -> bool {
        self.input_flags & cr_to_nl_bit() != 0
    }

    /// The least number of bytes a read waits for.
    pub open spec fn min_read(self) -> u8 {
        self.control_chars[min_read_index()]
    }

    /// The inter-byte timer of a read, in tenths of a second; 0 is no timer.
    pub open spec fn read_timer(self) -> u8 {
        self.control_chars[read_timer_index()]
    }

    /// Every input byte is delivered at once and unchanged: no echo, no line
    /// buffering, no signal characters, no carriage-return translation, a
    /// break interrupts, and a read returns after one byte without a timer.
    pub open spec fn is_raw(self) -> bool {
        &&& !self.echoes()
        &&& !self.canonical()
        &&& !self.signals()
        &&& !self.ignores_break()
        &&& !self.maps_cr_to_nl()
        &&& self.break_interrupts()
        &&& self.min_read() == 1
        &&& self.read_timer() == 0
    }

    /// The raw variant of an attribute set.
    pub open spec fn spec_raw(self) -> TermAttrs {
        TermAttrs {
            input_flags: (self.input_flags & !(ignore_break_bit() | cr_to_nl_bit()))
                | break_interrupt_bit(),
            output_flags: self.output_flags,
            control_flags: self.control_flags,
            local_flags: self.local_flags & !(echo_bit() | canonical_bit() | signals_bit()),
            control_chars: vstd::array::spec_array_update(
                vstd::array::spec_array_update(self.control_chars, min_read_index(), 1u8),
                read_timer_index(),
                0u8,
            ),
        }
    }

    /// Derives the raw variant: echo, line buffering and signal characters
    /// off, carriage returns left alone, a break turned into an interrupt
    /// and not ignored, reads of one byte with no timer.
    pub fn raw(&self) -> (r: TermAttrs)
        ensures
            r == self.spec_raw(),
    {
        let mut r = *self;
        r.local_flags = r.local_flags & !(echo() | icanon() | isig());
        r.input_flags = r.input_flags & !(ignbrk() | icrnl());
        r.input_flags = r.input_flags | brkint();
        r.control_chars[vmin()] = 1;
        r.control_chars[vtime()] = 0;
        r
    }
}

/// The raw variant of any attribute set is raw.
pub proof fn lemma_raw_is_raw(a: TermAttrs)
    ensures
        a.spec_raw().is_raw(),
{
    let i = a.input_flags;
    let l = a.local_flags;
    assert(((i & !(0x1u32 | 0x100u32)) | 0x2u32) & 0x1u32 == 0) by (bit_vector);
    assert(((i & !(0x1u32 | 0x100u32)) | 0x2u32) & 0x100u32 == 0) by (bit_vector);
    assert(((i & !(0x1u32 | 0x100u32)) | 0x2u32) & 0x2u32 != 0) by (bit_vector);
    assert((l & !(0x8u32 | 0x2u32 | 0x1u32)) & 0x8u32 == 0) by (bit_vector);
    assert((l & !(0x8u32 | 0x2u32 | 0x1u32)) & 0x2u32 == 0) by (bit_vector);
    assert((l & !(0x8u32 | 0x2u32 | 0x1u32)) & 0x1u32 == 0) by (bit_vector);
}

/// Deriving the raw variant touches nothing but the six mode bits and the
/// two control characters that make a line raw: the output and control
/// words, every other bit of the input and local words, and every other
/// control character are those of the set it was derived from.
pub proof fn lemma_raw_keeps_the_rest(a: TermAttrs)
    ensures
        a.spec_raw().output_flags == a.output_flags,
        a.spec_raw().control_flags == a.control_flags,
        a.spec_raw().input_flags & !(ignore_break_bit() | cr_to_nl_bit() | break_interrupt_bit())
            == a.input_flags & !(ignore_break_bit() | cr_to_nl_bit() | break_interrupt_bit()),
        a.spec_raw().local_flags & !(echo_bit() | canonical_bit() | signals_bit())
            == a.local_flags & !(echo_bit() | canonical_bit() | signals_bit()),
        forall|k: int|
            0 <= k < CONTROL_CHARS && k != min_read_index() && k != read_timer_index()
                ==> a.spec_raw().control_chars[k] == a.control_chars[k],
{
    let i = a.input_flags;
    let l = a.local_flags;
    assert(((i & !(0x1u32 | 0x100u32)) | 0x2u32) & !(0x1u32 | 0x100u32 | 0x2u32) == i & !(0x1u32
        | 0x100u32 | 0x2u32)) by (bit_vector);
    assert((l & !(0x8u32 | 0x2u32 | 0x1u32)) & !(0x8u32 | 0x2u32 | 0x1u32) == l & !(0x8u32 | 0x2u32
        | 0x1u32)) by (bit_vector);
}

/// Deriving the raw variant twice gives what deriving it once gives.
pub proof fn lemma_raw_is_idempotent(a: TermAttrs)
    ensures
        a.spec_raw().spec_raw() == a.spec_raw(),
{
    let i = a.input_flags;
    let l = a.local_flags;
    let r = a.spec_raw();
    assert((((i & !(0x1u32 | 0x100u32)) | 0x2u32) & !(0x1u32 | 0x100u32)) | 0x2u32 == (i & !(0x1u32
        | 0x100u32)) | 0x2u32) by (bit_vector);
    assert((l & !(0x8u32 | 0x2u32 | 0x1u32)) & !(0x8u32 | 0x2u32 | 0x1u32) == l & !(0x8u32 | 0x2u32
        | 0x1u32)) by (bit_vector);
    assert(r.spec_raw().control_chars =~= r.control_chars);
}

/// An attribute set that is raw already is its own raw variant.
pub proof fn lemma_raw_fixes_raw(a: TermAttrs)
    requires
        a.is_raw(),
    ensures
        a.spec_raw() == a,
{
    let i = a.input_flags;
    let l = a.local_flags;
    assert((i & 0x1u32 == 0 && i & 0x100u32 == 0 && i & 0x2u32 != 0) ==> (i & !(0x1u32 | 0x100u32))
        | 0x2u32 == i) by (bit_vector);
    assert((l & 0x8u32 == 0 && l & 0x2u32 == 0 && l & 0x1u32 == 0) ==> l & !(0x8u32 | 0x2u32
        | 0x1u32) == l) by (bit_vector);
    assert(a.spec_raw().control_chars =~= a.control_chars);
}

} // verus!
