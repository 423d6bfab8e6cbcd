//! Terminal attributes: echo, raw mode and the special characters.
//!
//! The positions of the flags inside the four flag words differ between
//! platforms. The platform's own table supplies them; what is done with them
//! is decided, and proved, here.

use vstd::prelude::*;
use nix::sys::termios::{cfmakeraw, ControlFlags, InputFlags, LocalFlags, OutputFlags, Termios};
use nix::libc::{NCCS, VMIN, VTIME};
use crate::sys::{Platform, TermSettings};

verus! {

/// The end-of-file character of a terminal that was never configured: `^D`.
pub const DEFAULT_VEOF_CHAR: u8 = 0x4;

/// The interrupt character of a terminal that was never configured: `^C`.
pub const DEFAULT_INTR_CHAR: u8 = 0x3;

/// The input mode flags that raw mode clears.
#[derive(Clone, Copy, Debug, PartialEq, Eq)]
pub enum InputFlag {
    /// Signal an interrupt on a break.
    BRKINT,
    /// Map a carriage return to a newline on input.
    ICRNL,
    /// Check the parity of the input.
    INPCK,
    /// Strip the eighth bit of every character.
    ISTRIP,
    /// Let the output be stopped and started from the keyboard.
    IXON,
}

/// The output mode flag that raw mode clears.
#[derive(Clone, Copy, Debug, PartialEq, Eq)]
pub enum OutputFlag {
    /// Process the output.
    OPOST,
}

/// The control mode flags that raw mode touches.
#[derive(Clone, Copy, Debug, PartialEq, Eq)]
pub enum ControlFlag {
    /// The mask of the character size.
    CSIZE,
    /// Generate and expect a parity bit.
    PARENB,
    /// Eight bits to a character.
    CS8,
}

/// The local mode flags that the controller touches.
#[derive(Clone, Copy, Debug, PartialEq, Eq)]
pub enum LocalFlag {
    /// Echo the input.
    ECHO,
    /// Hand the input over line by line.
    ICANON,
    /// Process the input in the implementation's own ways.
    IEXTEN,
    /// Turn the interrupt, quit and suspend characters into signals.
    ISIG,
}

/// The bits of an input mode flag on this platform.
pub uninterp spec fn input_bits(flag: InputFlag) -> u64;

/// The bits of an output mode flag on this platform.
pub uninterp spec fn output_bits(flag: OutputFlag) -> u64;

/// The bits of a control mode flag on this platform.
pub uninterp spec fn control_bits(flag: ControlFlag) -> u64;

/// The bits of a local mode flag on this platform.
pub uninterp spec fn local_bits(flag: LocalFlag) -> u64;

/// What the platform's `cfmakeraw` makes of the four flag words: the new
/// input, output, control and local words, and the two read parameters
/// `VMIN` and `VTIME` that it sets.
pub uninterp spec fn cfmakeraw_of(input: u64, output: u64, control: u64, local: u64) -> (
    u64,
    u64,
    u64,
    u64,
    u8,
    u8,
);

/// Reads the bits of a constant of `nix::sys::termios::InputFlags`, which
/// nix takes from the platform's C library. The contract names them.
#[verifier::external_body]
fn input_mask(flag: InputFlag) -> (mask: u64)
    ensures
        mask == input_bits(flag),
{
    (match flag {
        InputFlag::BRKINT => InputFlags::BRKINT.bits(),
        InputFlag::ICRNL => InputFlags::ICRNL.bits(),
        InputFlag::INPCK => InputFlags::INPCK.bits(),
        InputFlag::ISTRIP => InputFlags::ISTRIP.bits(),
        InputFlag::IXON => InputFlags::IXON.bits(),
    }) as u64
}

/// Reads the bits of a constant of `nix::sys::termios::OutputFlags`, which
/// nix takes from the platform's C library. The contract names them.
#[verifier::external_body]
fn output_mask(flag: OutputFlag) -> (mask: u64)
    ensures
        mask == output_bits(flag),
{
    (match flag {
        OutputFlag::OPOST => OutputFlags::OPOST.bits(),
    }) as u64
}

/// Reads the bits of a constant of `nix::sys::termios::ControlFlags`, which
/// nix takes from the platform's C library. The contract names them.
#[verifier::external_body]
fn control_mask(flag: ControlFlag) -> (mask: u64)
    ensures
        mask == control_bits(flag),
{
    (match flag {
        ControlFlag::CSIZE => ControlFlags::CSIZE.bits(),
        ControlFlag::PARENB => ControlFlags::PARENB.bits(),
        ControlFlag::CS8 => ControlFlags::CS8.bits(),
    }) as u64
}

/// Reads the bits of a constant of `nix::sys::termios::LocalFlags`, which
/// nix takes from the platform's C library. The contract names them and
/// adds that they are not zero: each of the four is a flag of its own.
#[verifier::external_body]
fn local_mask(flag: LocalFlag) -> (mask: u64)
    ensures
        mask == local_bits(flag),
        mask != 0,
{
    (match flag {
        LocalFlag::ECHO => LocalFlags::ECHO.bits(),
        LocalFlag::ICANON => LocalFlags::ICANON.bits(),
        LocalFlag::IEXTEN => LocalFlags::IEXTEN.bits(),
        LocalFlag::ISIG => LocalFlags::ISIG.bits(),
    }) as u64
}

/// Calls `nix::sys::termios::cfmakeraw`, which hands the attributes to the C
/// library's `cfmakeraw`, on attributes made of the four flag words and
/// nothing else, and reads the four words and `VMIN` and `VTIME` back. The
/// C library changes nothing but these, and looks at nothing but the words;
/// the contract names what comes back.
#[verifier::external_body]
fn cfmakeraw_words(input: u64, output: u64, control: u64, local: u64) -> (raw: (
    u64,
    u64,
    u64,
    u64,
    u8,
    u8,
))
    ensures
        raw == cfmakeraw_of(input, output, control, local),
{
    let mut t = Termios::from(nix::libc::termios {
        c_iflag: input as _, c_oflag: output as _, c_cflag: control as _, c_lflag: local as _,
        c_line: 0, c_cc: [0; NCCS], c_ispeed: 0, c_ospeed: 0,
    });
    cfmakeraw(&mut t);
    (
        t.input_flags.bits() as u64, t.output_flags.bits() as u64,
        t.control_flags.bits() as u64, t.local_flags.bits() as u64,
        t.control_chars[VMIN], t.control_chars[VTIME],
    )
}

/// The bits that raw mode clears and sets, word by word.
#[derive(Clone, Copy, Debug, PartialEq, Eq)]
pub struct RawMasks {
    /// The input mode flags that it clears.
    pub input_off: u64,
    /// The output mode flags that it clears.
    pub output_off: u64,
    /// The control mode flags that it clears.
    pub control_off: u64,
    /// The control mode flags that it sets after that.
    pub control_on: u64,
    /// The local mode flags that it clears.
    pub local_off: u64,
}

/// Whether every bit of `mask` is set in `word`.
pub open spec fn has_flag(word: u64, mask: u64) -> bool {
    word & mask == mask
}

/// The word with the bits of `mask` set, or cleared.
pub open spec fn flag_set(word: u64, mask: u64, on: bool) -> u64 {
    if on {
        word | mask
    } else {
        word & !mask
    }
}

/// The attributes of raw mode, given the bits to clear and to set: the
/// flags are cleared, the character size set, and a read returns as soon as
/// one byte is there. Nothing else changes.
pub open spec fn raw_with(settings: TermSettings, masks: RawMasks) -> TermSettings {
    TermSettings {
        input: settings.input & !masks.input_off,
        output: settings.output & !masks.output_off,
        control: (settings.control & !masks.control_off) | masks.control_on,
        local: settings.local & !masks.local_off,
        vmin: 1,
        vtime: 0,
        ..settings
    }
}

/// The attributes with the four flag words and the two read parameters
/// replaced by `words`. Nothing else changes.
pub open spec fn raw_from(settings: TermSettings, words: (u64, u64, u64, u64, u8, u8)) -> TermSettings {
    TermSettings {
        input: words.0,
        output: words.1,
        control: words.2,
        local: words.3,
        vmin: words.4,
        vtime: words.5,
        ..settings
    }
}

/// The bits of raw mode spelt out flag by flag: no break interrupt, no
/// mapping of carriage returns, no parity check, no stripping, no flow
/// control; no output processing; eight bits without parity; no echo, no
/// lines, no extensions, no signals.
pub open spec fn platform_raw_masks() -> RawMasks {
    RawMasks {
        input_off: input_bits(InputFlag::BRKINT) | input_bits(InputFlag::ICRNL) | input_bits(
            InputFlag::INPCK,
        ) | input_bits(InputFlag::ISTRIP) | input_bits(InputFlag::IXON),
        output_off: output_bits(OutputFlag::OPOST),
        control_off: control_bits(ControlFlag::CSIZE) | control_bits(ControlFlag::PARENB),
        control_on: control_bits(ControlFlag::CS8),
        local_off: local_bits(LocalFlag::ECHO) | local_bits(LocalFlag::ICANON) | local_bits(
            LocalFlag::IEXTEN,
        ) | local_bits(LocalFlag::ISIG),
    }
}

/// Whether the attributes have the terminal echo its input: whether every
/// bit of `ECHO` is set in the local flags.
pub open spec fn echo(settings: TermSettings) -> bool {
    has_flag(settings.local, local_bits(LocalFlag::ECHO))
}

/// The attributes with echo switched on or off: `ECHO` set or cleared in the
/// local flags, and nothing else changed.
pub open spec fn with_echo(settings: TermSettings, on: bool) -> TermSettings {
    TermSettings { local: flag_set(settings.local, local_bits(LocalFlag::ECHO), on), ..settings }
}

/// Raw mode spelt out flag by flag.
pub open spec fn raw_by_flags(settings: TermSettings) -> TermSettings {
    raw_with(settings, platform_raw_masks())
}

/// Raw mode as the platform's `cfmakeraw` defines it.
pub open spec fn raw_by_platform(settings: TermSettings) -> TermSettings {
    raw_from(
        settings,
        cfmakeraw_of(settings.input, settings.output, settings.control, settings.local),
    )
}

/// Raw mode on a platform: spelt out flag by flag on macOS and FreeBSD, the
/// platform's own `cfmakeraw` elsewhere.
pub open spec fn raw(settings: TermSettings, platform: Platform) -> TermSettings {
    match platform {
        Platform::Linux => raw_by_platform(settings),
        Platform::MacOs => raw_by_flags(settings),
        Platform::FreeBsd => raw_by_flags(settings),
    }
}

/// Tells whether every bit of `mask` is set in `word`.
pub fn test_flag(word: u64, mask: u64) -> (set: bool)
    ensures
        set == has_flag(word, mask),
{
    word & mask == mask
}

/// Returns `word` with the bits of `mask` set, or cleared. Unless the mask
/// is empty, the bits are set in the result exactly if `on`.
pub fn change_flag(word: u64, mask: u64, on: bool) -> (changed: u64)
    ensures
        changed == flag_set(word, mask, on),
        mask != 0 ==> has_flag(changed, mask) == on,
{
    assert((word | mask) & mask == mask) by (bit_vector);
    assert(mask != 0 ==> (word & !mask) & mask != mask) by (bit_vector);
    if on {
        word | mask
    } else {
        word & !mask
    }
}

/// Returns the attributes of raw mode, given the bits to clear and to set:
/// see [`raw_with`]. No flag that is to be cleared is set in the result's
/// local flags, and none in its input or output flags.
pub fn make_raw(settings: TermSettings, masks: RawMasks) -> (changed: TermSettings)
    ensures
        changed == raw_with(settings, masks),
        changed.input & masks.input_off == 0,
        changed.output & masks.output_off == 0,
        changed.local & masks.local_off == 0,
{
    let input: u64 = settings.input & !masks.input_off;
    let output: u64 = settings.output & !masks.output_off;
    let local: u64 = settings.local & !masks.local_off;
    proof {
        let word = settings.input;
        let off = masks.input_off;
        assert((word & !off) & off == 0) by (bit_vector);
        let word = settings.output;
        let off = masks.output_off;
        assert((word & !off) & off == 0) by (bit_vector);
        let word = settings.local;
        let off = masks.local_off;
        assert((word & !off) & off == 0) by (bit_vector);
    }
    TermSettings {
        input,
        output,
        control: (settings.control & !masks.control_off) | masks.control_on,
        local,
        vmin: 1,
        vtime: 0,
        ..settings
    }
}

/// Returns the attributes with the four flag words and the two read
/// parameters replaced by `words`: see [`raw_from`].
pub fn raw_from_words(settings: TermSettings, words: (u64, u64, u64, u64, u8, u8)) -> (changed:
    TermSettings)
    ensures
        changed == raw_from(settings, words),
{
    TermSettings {
        input: words.0,
        output: words.1,
        control: words.2,
        local: words.3,
        vmin: words.4,
        vtime: words.5,
        ..settings
    }
}

/// Returns the bits of raw mode spelt out flag by flag, as the platform has
/// them: see [`platform_raw_masks`].
pub fn raw_masks() -> (masks: RawMasks)
    ensures
        masks == platform_raw_masks(),
{
    RawMasks {
        input_off: input_mask(InputFlag::BRKINT) | input_mask(InputFlag::ICRNL) | input_mask(
            InputFlag::INPCK,
        ) | input_mask(InputFlag::ISTRIP) | input_mask(InputFlag::IXON),
        output_off: output_mask(OutputFlag::OPOST),
        control_off: control_mask(ControlFlag::CSIZE) | control_mask(ControlFlag::PARENB),
        control_on: control_mask(ControlFlag::CS8),
        local_off: local_mask(LocalFlag::ECHO) | local_mask(LocalFlag::ICANON) | local_mask(
            LocalFlag::IEXTEN,
        ) | local_mask(LocalFlag::ISIG),
    }
}

/// Tells whether the attributes have the terminal echo its input.
pub fn get_echo(settings: &TermSettings) -> (on: bool)
    ensures
        on == echo(*settings),
{
    test_flag(settings.local, local_mask(LocalFlag::ECHO))
}

/// Returns the attributes with echo switched on or off.
pub fn set_echo(settings: TermSettings, on: bool) -> (changed: TermSettings)
    ensures
        changed == with_echo(settings, on),
        echo(changed) == on,
{
    TermSettings { local: change_flag(settings.local, local_mask(LocalFlag::ECHO), on), ..settings }
}

/// Returns the attributes of raw mode spelt out flag by flag, which have
/// the echo off.
pub fn set_raw_by_flags(settings: TermSettings) -> (changed: TermSettings)
    ensures
        changed == raw_by_flags(settings),
        !echo(changed),
{
    let masks = raw_masks();
    let echo_mask: u64 = local_mask(LocalFlag::ECHO);
    let changed = make_raw(settings, masks);
    proof {
        let local = changed.local;
        let off = masks.local_off;
        let icanon = local_bits(LocalFlag::ICANON);
        let iexten = local_bits(LocalFlag::IEXTEN);
        let isig = local_bits(LocalFlag::ISIG);
        assert(local & off == 0 && echo_mask != 0 && off == echo_mask | icanon | iexten | isig
            ==> local & echo_mask != echo_mask) by (bit_vector);
    }
    changed
}

/// Returns the attributes of raw mode on `platform`: see [`raw`].
pub fn set_raw(settings: TermSettings, platform: Platform) -> (changed: TermSettings)
    ensures
        changed == raw(settings, platform),
{
    match platform {
        Platform::Linux => raw_from_words(
            settings,
            cfmakeraw_words(settings.input, settings.output, settings.control, settings.local),
        ),
        Platform::MacOs => set_raw_by_flags(settings),
        Platform::FreeBsd => set_raw_by_flags(settings),
    }
}

} // verus!
