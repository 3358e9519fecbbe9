use mag_i2c::sample::{SampleTriple, decode_sample, encode_sample};

#[test]
fn decode_reorders_axes() {
    let sample = decode_sample(&[0x01, 0x00, 0x03, 0x00, 0x02, 0x00]);
    assert_eq!(sample, SampleTriple { x: 1, y: 2, z: 3 });
}

#[test]
fn decode_sign_extends_negative_values() {
    let sample = decode_sample(&[0xFF, 0xFF, 0x00, 0x00, 0x00, 0x00]);
    assert_eq!(sample.x, -1);
    assert_eq!(sample.y, 0);
    assert_eq!(sample.z, 0);
}

#[test]
fn decode_assembles_low_byte_first() {
    let sample = decode_sample(&[0x34, 0x12, 0x00, 0x80, 0xFF, 0x7F]);
    assert_eq!(sample.x, 0x1234);
    assert_eq!(sample.z, -32768);
    assert_eq!(sample.y, 32767);
}

#[test]
fn encode_lays_out_axes_in_device_order() {
    let bytes = encode_sample(SampleTriple { x: 1, y: 2, z: 3 });
    assert_eq!(bytes, [0x01, 0x00, 0x03, 0x00, 0x02, 0x00]);
}

#[test]
fn encode_decode_round_trip() {
    let triples = [
        SampleTriple { x: 0, y: 0, z: 0 },
        SampleTriple { x: 1, y: 2, z: 3 },
        SampleTriple { x: -1, y: 0, z: 0 },
        SampleTriple { x: -32768, y: 32767, z: -1 },
        SampleTriple { x: 257, y: -257, z: 0x7F00 },
    ];
    for t in triples.iter() {
        assert_eq!(decode_sample(&encode_sample(*t)), *t);
    }
}
