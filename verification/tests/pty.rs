use ptyprocess::pty::{get_slave_name, slave_path, SLAVE_NAME_BUFFER};
use ptyprocess::sys::Platform;

#[test]
fn slave_name_ends_at_the_first_zero_byte() {
    let mut buffer = [0u8; 128];
    buffer[..12].copy_from_slice(b"/dev/ttys003");
    assert_eq!(SLAVE_NAME_BUFFER, 128);
    assert_eq!(get_slave_name(&buffer), Some(b"/dev/ttys003".to_vec()));
    buffer[13] = b'x';
    assert_eq!(get_slave_name(&buffer), Some(b"/dev/ttys003".to_vec()));
}

#[test]
fn empty_buffer_holds_the_empty_name() {
    assert_eq!(get_slave_name(&[0u8; 128]), Some(Vec::new()));
}

#[test]
fn buffer_without_a_zero_byte_holds_no_name() {
    assert_eq!(get_slave_name(&[b'a'; 128]), None);
    assert_eq!(get_slave_name(&[]), None);
}

#[test]
fn freebsd_names_its_slaves_below_dev() {
    assert_eq!(slave_path(b"pts/3", Platform::FreeBsd), b"/dev/pts/3".to_vec());
    assert_eq!(slave_path(b"/dev/pts/3", Platform::Linux), b"/dev/pts/3".to_vec());
    assert_eq!(slave_path(b"/dev/ttys003", Platform::MacOs), b"/dev/ttys003".to_vec());
    assert_eq!(slave_path(b"", Platform::FreeBsd), b"/dev/".to_vec());
}

/// The name that the platform would write for the slave number 3.
fn written(platform: Platform) -> [u8; 128] {
    let name: &[u8] = match platform {
        Platform::FreeBsd => b"pts/3",
        Platform::MacOs => b"/dev/ttys003",
        Platform::Linux => b"/dev/pts/3",
    };
    let mut buffer = [0u8; 128];
    buffer[..name.len()].copy_from_slice(name);
    buffer
}

#[test]
fn lib_create_pty() {
    for platform in [Platform::FreeBsd, Platform::MacOs, Platform::Linux] {
        let slavename = get_slave_name(&written(platform)).unwrap();
        let expected_path: &[u8] = match platform {
            Platform::FreeBsd => b"pts/",
            Platform::MacOs => b"/dev/ttys",
            Platform::Linux => b"/dev/pts/",
        };
        assert!(slavename.starts_with(expected_path));
    }
}

#[test]
fn process_create_pty() {
    for platform in [Platform::FreeBsd, Platform::MacOs, Platform::Linux] {
        let slavename = get_slave_name(&written(platform)).unwrap();
        assert!(slave_path(&slavename, platform).starts_with(b"/dev"));
    }
}
