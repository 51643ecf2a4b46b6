use imu_fusion::frame::{decode_frame, encode_frame, Axes, RawFrame, FRAME_LEN};

fn bytes_of(values: &[f32; 9]) -> Vec<u8> {
    let mut out = Vec::new();
    for v in values.iter() {
        out.extend_from_slice(&v.to_le_bytes());
    }
    out
}

fn values_of(f: &RawFrame) -> [f32; 9] {
    [
        f32::from_bits(f.accel.x),
        f32::from_bits(f.accel.y),
        f32::from_bits(f.accel.z),
        f32::from_bits(f.gyro.x),
        f32::from_bits(f.gyro.y),
        f32::from_bits(f.gyro.z),
        f32::from_bits(f.mag.x),
        f32::from_bits(f.mag.y),
        f32::from_bits(f.mag.z),
    ]
}

const KNOWN: [f32; 9] = [0.01, -0.02, 0.98, 1.5, -90.0, 0.0, 25.5, -13.25, 40.0];

#[test]
fn decode_known_buffer_bit_for_bit() {
    let buf = bytes_of(&KNOWN);
    assert_eq!(buf.len(), FRAME_LEN);
    let f = decode_frame(&buf).expect("a complete frame decodes");
    let got = values_of(&f);
    for k in 0..9 {
        assert_eq!(got[k].to_bits(), KNOWN[k].to_bits());
    }
}

#[test]
fn decode_reads_words_little_endian() {
    let mut buf = vec![0u8; 36];
    buf[0] = 0x78;
    buf[1] = 0x56;
    buf[2] = 0x34;
    buf[3] = 0x12;
    buf[35] = 0xff;
    let f = decode_frame(&buf).unwrap();
    assert_eq!(f.accel.x, 0x1234_5678);
    assert_eq!(f.accel.y, 0);
    assert_eq!(f.mag.z, 0xff00_0000);
}

#[test]
fn short_read_gives_nothing_then_next_frame_decodes() {
    let good = bytes_of(&KNOWN);
    let short = &good[..20];
    assert_eq!(decode_frame(short), None);
    let f = decode_frame(&good).unwrap();
    assert_eq!(values_of(&f)[4], -90.0);
    assert_eq!(values_of(&f)[8], 40.0);
}

#[test]
fn empty_and_overlong_reads_give_nothing() {
    assert_eq!(decode_frame(&[]), None);
    let mut long = bytes_of(&KNOWN);
    long.push(0);
    assert_eq!(decode_frame(&long), None);
}

#[test]
fn encode_then_decode_round_trip() {
    let f = RawFrame {
        accel: Axes { x: 1.0f32.to_bits(), y: 2.0f32.to_bits(), z: (-3.5f32).to_bits() },
        gyro: Axes { x: 0x7fc0_0000, y: 0x8000_0000, z: 0 },
        mag: Axes { x: 0xdead_beef, y: 0x0102_0304, z: u32::MAX },
    };
    let bytes = encode_frame(&f);
    assert_eq!(bytes.len(), 36);
    assert_eq!(&bytes[0..4], &1.0f32.to_le_bytes());
    assert_eq!(&bytes[28..32], &[0x04, 0x03, 0x02, 0x01]);
    assert_eq!(decode_frame(&bytes), Some(f));
}

#[test]
fn decode_then_encode_round_trip() {
    let buf: Vec<u8> = (0u8..36).map(|i| i.wrapping_mul(37)).collect();
    let f = decode_frame(&buf).unwrap();
    assert_eq!(encode_frame(&f), buf);
}
