use wio_umwelt_monitor::checksum::calculate_crc;

fn reference_crc(bytes: [u8; 2]) -> u8 {
    let mut crc: u8 = 0xff;
    for byte in bytes {
        crc ^= byte;
        for _ in 0..8 {
            crc = if crc & 0x80 != 0 { (crc << 1) ^ 0x31 } else { crc << 1 };
        }
    }
    crc
}

#[test]
fn checksum_of_zero_argument() {
    assert_eq!(calculate_crc(0x0000), 0x81);
}

#[test]
fn checksum_of_reference_argument() {
    assert_eq!(calculate_crc(0xBEEF), 0x92);
}

#[test]
fn checksum_of_small_arguments() {
    assert_eq!(calculate_crc(0x0001), 0xB0);
    assert_eq!(calculate_crc(0x0002), 0xE3);
}

#[test]
fn checksum_is_reproducible() {
    for argument in [0x0000u16, 0x0001, 0x000C, 0x00FF, 0x0100, 0xBEEF, 0xFFFF] {
        assert_eq!(calculate_crc(argument), calculate_crc(argument));
    }
}

#[test]
fn checksum_agrees_with_bitwise_definition_on_every_argument() {
    for argument in 0..=u16::MAX {
        let bytes = [(argument >> 8) as u8, (argument & 0xff) as u8];
        assert_eq!(calculate_crc(argument), reference_crc(bytes), "argument {:#06x}", argument);
    }
}

#[test]
fn checksum_depends_on_byte_order() {
    assert_ne!(calculate_crc(0x0100), calculate_crc(0x0001));
}
