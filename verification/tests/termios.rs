use nix::sys::termios::{ControlFlags, InputFlags, LocalFlags, OutputFlags};
use ptyprocess::sys::{Platform, TermSettings};
use ptyprocess::termios::{
    change_flag, get_echo, make_raw, raw_from_words, raw_masks, set_echo, set_raw,
    set_raw_by_flags, test_flag, RawMasks,
};

fn plain() -> TermSettings {
    TermSettings { input: 0, output: 0, control: 0, local: 0, veof: 4, vintr: 3, vmin: 0, vtime: 0 }
}

#[test]
fn echo_can_be_switched_on_and_off() {
    let on = set_echo(plain(), true);
    assert!(get_echo(&on));
    assert_ne!(on.local, 0);
    let off = set_echo(on, false);
    assert!(!get_echo(&off));
    assert_eq!(off, plain());
}

#[test]
fn raw_mode_of_the_platform_switches_echo_off() {
    let on = set_echo(plain(), true);
    let raw = set_raw(on, Platform::Linux);
    assert!(!get_echo(&raw));
    assert_eq!(raw.vmin, 1);
    assert_eq!(raw.vtime, 0);
    assert_ne!(raw, on);
}

#[test]
fn echo_is_the_echo_flag_of_the_platform() {
    let echo = LocalFlags::ECHO.bits() as u64;
    assert_eq!(set_echo(plain(), true).local, echo);
    let all = TermSettings { local: u32::MAX as u64, ..plain() };
    assert_eq!(set_echo(all, false).local, u32::MAX as u64 & !echo);
    assert!(get_echo(&all));
    assert!(!get_echo(&TermSettings { local: !echo, ..plain() }));
}

#[test]
fn raw_mode_by_flags_clears_the_flags_of_the_platform() {
    let all = u32::MAX as u64;
    let full = TermSettings {
        input: all,
        output: all,
        control: all,
        local: all,
        veof: 4,
        vintr: 3,
        vmin: 9,
        vtime: 9,
    };
    let raw = set_raw_by_flags(full);
    let input = (InputFlags::BRKINT
        | InputFlags::ICRNL
        | InputFlags::INPCK
        | InputFlags::ISTRIP
        | InputFlags::IXON)
        .bits() as u64;
    let local = (LocalFlags::ECHO | LocalFlags::ICANON | LocalFlags::IEXTEN | LocalFlags::ISIG)
        .bits() as u64;
    let control = (ControlFlags::CSIZE | ControlFlags::PARENB).bits() as u64;
    assert_eq!(raw.input, all & !input);
    assert_eq!(raw.output, all & !(OutputFlags::OPOST.bits() as u64));
    assert_eq!(raw.control, (all & !control) | ControlFlags::CS8.bits() as u64);
    assert_eq!(raw.local, all & !local);
    assert_eq!((raw.vmin, raw.vtime), (1, 0));
    assert_eq!((raw.veof, raw.vintr), (4, 3));
}

#[test]
fn raw_mode_by_flags_sets_eight_bits_without_parity() {
    let raw = set_raw_by_flags(plain());
    assert_eq!(raw.control, ControlFlags::CS8.bits() as u64);
    assert_eq!(raw.input, 0);
    assert_eq!(raw.output, 0);
    assert_eq!(raw.local, 0);
    assert_eq!((raw.vmin, raw.vtime), (1, 0));
}

#[test]
fn raw_mode_is_by_flags_on_macos_and_freebsd() {
    let full = TermSettings { input: 0xffff, output: 0xffff, control: 0xffff, local: 0xffff, ..plain() };
    assert_eq!(set_raw(full, Platform::MacOs), set_raw_by_flags(full));
    assert_eq!(set_raw(full, Platform::FreeBsd), set_raw_by_flags(full));
}

#[test]
fn raw_mode_of_the_platform_clears_more_than_the_echo() {
    let canonical = LocalFlags::ICANON.bits() as u64 | LocalFlags::ISIG.bits() as u64;
    let cooked = TermSettings {
        input: InputFlags::ICRNL.bits() as u64,
        output: OutputFlags::OPOST.bits() as u64,
        local: canonical,
        ..plain()
    };
    let raw = set_raw(cooked, Platform::Linux);
    assert_eq!(raw.input, 0);
    assert_eq!(raw.output, 0);
    assert_eq!(raw.local, 0);
    assert_eq!(raw.control & ControlFlags::CSIZE.bits() as u64, ControlFlags::CS8.bits() as u64);
    assert_eq!((raw.veof, raw.vintr), (4, 3));
}

#[test]
fn flags_are_tested_set_and_cleared_by_their_mask() {
    assert!(test_flag(0b1010, 0b0010));
    assert!(test_flag(0b1010, 0b1010));
    assert!(!test_flag(0b1010, 0b0110));
    assert!(test_flag(0b1010, 0));
    assert_eq!(change_flag(0b1010, 0b0100, true), 0b1110);
    assert_eq!(change_flag(0b1010, 0b0010, true), 0b1010);
    assert_eq!(change_flag(0b1010, 0b0010, false), 0b1000);
    assert_eq!(change_flag(0b1010, 0b0100, false), 0b1010);
    assert_eq!(change_flag(u64::MAX, u64::MAX, false), 0);
}

#[test]
fn raw_mode_clears_and_sets_what_its_masks_say() {
    let settings = TermSettings {
        input: 0b1111,
        output: 0b1111,
        control: 0b1111,
        local: 0b1111,
        veof: 4,
        vintr: 3,
        vmin: 7,
        vtime: 8,
    };
    let masks = RawMasks {
        input_off: 0b0001,
        output_off: 0b0010,
        control_off: 0b1100,
        control_on: 0b11000,
        local_off: 0b0110,
    };
    assert_eq!(
        make_raw(settings, masks),
        TermSettings {
            input: 0b1110,
            output: 0b1101,
            control: 0b11011,
            local: 0b1001,
            veof: 4,
            vintr: 3,
            vmin: 1,
            vtime: 0,
        }
    );
}

#[test]
fn raw_masks_are_those_of_the_platform() {
    let masks = raw_masks();
    assert_eq!(masks.output_off, OutputFlags::OPOST.bits() as u64);
    assert_eq!(masks.control_on, ControlFlags::CS8.bits() as u64);
    assert_eq!(masks.control_off, (ControlFlags::CSIZE | ControlFlags::PARENB).bits() as u64);
    assert_eq!(masks.local_off & LocalFlags::ECHO.bits() as u64, LocalFlags::ECHO.bits() as u64);
    assert_eq!(masks.input_off & InputFlags::IXON.bits() as u64, InputFlags::IXON.bits() as u64);
}

#[test]
fn words_of_the_platform_replace_the_flags_and_the_read_parameters() {
    let raw = raw_from_words(plain(), (1, 2, 3, 4, 5, 6));
    assert_eq!(
        raw,
        TermSettings {
            input: 1,
            output: 2,
            control: 3,
            local: 4,
            veof: 4,
            vintr: 3,
            vmin: 5,
            vtime: 6
        }
    );
}
