use bigherox_robocup::robot::com_mpu::mpu_data::{MPURawData, MPU_DATA_BYTES_LENGTH};
use bigherox_robocup::robot::com_mpu::newest_reading;
use bigherox_robocup::vector::{I16Vec3, I16Vec4};

fn sample() -> MPURawData {
    MPURawData {
        quat: I16Vec4::new(1, -2, 3, 16384),
        gyro: I16Vec3::new(-32768, 32767, 0),
        acc: I16Vec3::new(256, -256, 11451),
    }
}

#[test]
fn convert_empty() {
    let origin_slice: [u8; MPU_DATA_BYTES_LENGTH] = [0x55, 0xAA,
        0x00, 0x00, 0x00, 0x00,
        0x00, 0x00, 0x00, 0x00,
        0x00, 0x00, 0x00, 0x00,
        0x00, 0x00, 0x00, 0x00,
        0x00, 0x00, 0x00, 0x00,
        0x00, 0x00, 0x00, 0x00,
        0x00, 0x00, 0x00, 0x00,
        0x00, 0x00, 0x00, 0x00,
        0x00, 0x00, 0x00, 0x00,
        0x00, 0x00, 0x00, 0x00,
        0xFF,
    ];
    let empty_data = MPURawData {
        quat: I16Vec4::new(0, 0, 0, 0),
        gyro: I16Vec3::new(0, 0, 0),
        acc: I16Vec3::new(0, 0, 0),
    };
    let new_data = MPURawData::from_raw_parts(&origin_slice).expect("");
    assert_eq!(new_data, empty_data);
    let new_bytes = new_data.generate_bytes();
    assert_eq!(new_bytes, origin_slice);
}

#[test]
fn sensor_frame_bytes() {
    let bytes = sample().generate_bytes();
    let expected: [u8; 43] = [0x55, 0xAA,
        0x40, 0x00, 0, 0,
        0x00, 0x01, 0, 0,
        0xFF, 0xFE, 0, 0,
        0x00, 0x03, 0, 0,
        0x80, 0x00, 0, 0,
        0x7F, 0xFF, 0, 0,
        0x00, 0x00, 0, 0,
        0x01, 0x00, 0, 0,
        0xFF, 0x00, 0, 0,
        0x2C, 0xBB, 0, 0,
        0x25,
    ];
    assert_eq!(bytes, expected);
    let sum = bytes[2..42].iter().fold(0xFFu8, |s, b| s.wrapping_add(*b));
    assert_eq!(bytes[42], sum);
}

#[test]
fn sensor_round_trip() {
    let reading = sample();
    assert_eq!(MPURawData::from_raw_parts(&reading.generate_bytes()), Some(reading));
}

#[test]
fn sensor_wrong_header_gives_nothing() {
    let good = sample().generate_bytes();
    let mut bad = good;
    bad[0] = 0x54;
    assert_eq!(MPURawData::from_raw_parts(&bad), None);
    let mut bad = good;
    bad[1] = 0xAB;
    assert_eq!(MPURawData::from_raw_parts(&bad), None);
    let mut swapped = good;
    swapped[0] = 0xAA;
    swapped[1] = 0x55;
    assert_eq!(MPURawData::from_raw_parts(&swapped), None);
}

#[test]
fn sensor_every_bit_flip_gives_nothing() {
    let good = sample().generate_bytes();
    for at in 0..good.len() {
        for bit in 0..8 {
            let mut bad = good;
            bad[at] ^= 1 << bit;
            assert_eq!(MPURawData::from_raw_parts(&bad), None);
        }
    }
}

#[test]
fn sensor_short_buffer_gives_nothing() {
    let good = sample().generate_bytes();
    for len in 0..43 {
        assert_eq!(MPURawData::from_raw_parts(&good[..len]), None);
    }
}

#[test]
fn sensor_padding_is_not_looked_at_but_summed() {
    let mut bytes = sample().generate_bytes();
    bytes[4] = 7;
    assert_eq!(MPURawData::from_raw_parts(&bytes), None);
    bytes[42] = bytes[42].wrapping_add(7);
    assert_eq!(MPURawData::from_raw_parts(&bytes), Some(sample()));
}

#[test]
fn sensor_bytes_after_the_frame_are_left_alone() {
    let mut bytes = sample().generate_bytes().to_vec();
    bytes.extend_from_slice(&[1, 2, 3]);
    assert_eq!(MPURawData::from_raw_parts(&bytes), Some(sample()));
}

#[test]
fn newest_reading_is_the_last_valid_frame() {
    let first = sample();
    let second = MPURawData { acc: I16Vec3::new(9, 8, 7), ..sample() };
    let mut buf = [0u8; 1024];
    buf[..43].copy_from_slice(&first.generate_bytes());
    buf[43..86].copy_from_slice(&second.generate_bytes());
    buf[86..129].copy_from_slice(&first.generate_bytes());
    buf[86] = 0;
    assert_eq!(newest_reading(&buf, 0), None);
    assert_eq!(newest_reading(&buf, 42), None);
    assert_eq!(newest_reading(&buf, 43), Some(first));
    assert_eq!(newest_reading(&buf, 85), Some(first));
    assert_eq!(newest_reading(&buf, 86), Some(second));
    assert_eq!(newest_reading(&buf, 129), Some(second));
    buf[86] = 0x55;
    assert_eq!(newest_reading(&buf, 129), Some(first));
    assert_eq!(newest_reading(&buf, 1024), Some(first));
    buf[0] = 0;
    buf[43] = 0;
    buf[86] = 0;
    assert_eq!(newest_reading(&buf, 1024), None);
}
