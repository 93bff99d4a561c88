use dsf_iot::endpoint::data::EpData;
use dsf_iot::endpoint::desc::{parse_endpoint_descriptor, EpDescriptor, EpFlags};
use dsf_iot::endpoint::kinds::{parse_endpoint_kind, select_endpoint_kind, EpKind};
use dsf_iot::endpoint::value::{select_endpoint_value, EpValue};
use dsf_iot::endpoint::{
    decode_data, decode_descriptors, encode_data, encode_descriptors, IotData, IotInfo,
};
use dsf_iot::error::{CoreError, IotError};

#[test]
fn encode_decode_endpoint_descriptor() {
    let descriptors = vec![
        EpDescriptor { kind: EpKind::Temperature, flags: EpFlags::r() },
        EpDescriptor { kind: EpKind::Pressure, flags: EpFlags::w() },
        EpDescriptor { kind: EpKind::Humidity, flags: EpFlags::rw() },
    ];

    for descriptor in &descriptors {
        let mut buff = vec![0u8; 1024];

        let n = descriptor.encode(&mut buff).expect("Encoding error");

        println!("Encoded {:?} to: {:0x?}", descriptor, &buff[..n]);

        let (d, _n) = EpDescriptor::decode(&buff[..n]).expect("Decoding error");

        assert_eq!(descriptor, &d);
    }
}

#[test]
fn encode_decode_endpoint_data() {
    let data = vec![
        EpData { value: EpValue::Bool(true) },
        EpData { value: EpValue::Bool(false) },
        EpData { value: EpValue::Float32(10.45f32.to_bits()) },
        EpData { value: EpValue::Rgb(10, 20, 30) },
    ];

    for d in &data {
        let mut buff = vec![0u8; 1024];

        let n = d.encode(&mut buff).expect("Encoding error");

        println!("Encoded {:?} to: {:0x?}", d, &buff[..n]);

        let (d1, _n) = EpData::decode(&buff[..n]).expect("Decoding error");

        assert_eq!(d, &d1);
    }
}

#[test]
fn descriptor_wire_format_is_bit_exact() {
    let d = EpDescriptor::new(EpKind::Pressure, EpFlags::rw());
    let mut buff = [0xffu8; 10];
    assert_eq!(d.encode(&mut buff), Ok(8));
    assert_eq!(buff, [0x01, 0x80, 0x04, 0x00, 0x03, 0x00, 0x03, 0x00, 0xff, 0xff]);
    assert_eq!(d.encode_len(), 8);
}

#[test]
fn descriptor_encode_at_offset_leaves_the_rest() {
    let d = EpDescriptor::new(EpKind::Unknown(0x1234), EpFlags::r());
    let mut buff = [0xeeu8; 12];
    assert_eq!(d.encode_at(&mut buff, 2), Ok(8));
    assert_eq!(buff, [0xee, 0xee, 0x01, 0x80, 0x04, 0x00, 0x34, 0x12, 0x01, 0x00, 0xee, 0xee]);
    assert_eq!(d.encode_at(&mut buff, 5), Err(IotError::Core(CoreError::BufferLength)));
}

#[test]
fn descriptor_encode_rejects_short_buffer() {
    let d = EpDescriptor::new(EpKind::Colour, EpFlags::w());
    let mut buff = [0u8; 7];
    assert_eq!(d.encode(&mut buff), Err(IotError::Core(CoreError::BufferLength)));
    assert_eq!(buff, [0u8; 7]);
}

#[test]
fn descriptor_decode_rejects_bad_input() {
    let invalid = Err(IotError::Core(CoreError::InvalidOption));
    // Another option kind.
    assert_eq!(EpDescriptor::decode(&[0x02, 0x80, 0x04, 0x00, 1, 0, 1, 0]), invalid);
    // Header cut short.
    assert_eq!(EpDescriptor::decode(&[0x01, 0x80, 0x04]), invalid);
    // Payload cut short.
    assert_eq!(EpDescriptor::decode(&[0x01, 0x80, 0x04, 0x00, 1, 0, 1]), invalid);
    // Payload length too small for the fields.
    assert_eq!(EpDescriptor::decode(&[0x01, 0x80, 0x02, 0x00, 1, 0, 1, 0]), invalid);
    // Empty input.
    assert_eq!(EpDescriptor::decode(&[]), invalid);
}

#[test]
fn descriptor_decode_keeps_unknown_kind_and_drops_unknown_flags() {
    let (d, n) = EpDescriptor::decode(&[0x01, 0x80, 0x04, 0x00, 0x64, 0x00, 0xfe, 0xff, 9]).unwrap();
    assert_eq!(n, 8);
    assert_eq!(d.kind, EpKind::Unknown(100));
    assert_eq!(d.flags, EpFlags::w());
}

#[test]
fn descriptor_decode_skips_longer_payload() {
    let (d, n) =
        EpDescriptor::decode(&[0x01, 0x80, 0x06, 0x00, 0x07, 0x00, 0x01, 0x00, 0xaa, 0xbb]).unwrap();
    assert_eq!(n, 10);
    assert_eq!(d, EpDescriptor::new(EpKind::Colour, EpFlags::r()));
}

#[test]
fn known_kinds_have_the_canonical_codes() {
    let table = [
        (1u16, EpKind::Temperature, "temperature", "°C"),
        (2, EpKind::Humidity, "humidity", "%RH"),
        (3, EpKind::Pressure, "pressure", "kPa"),
        (4, EpKind::Co2, "co2", "ppm"),
        (5, EpKind::State, "state", "bool"),
        (6, EpKind::Brightness, "brightness", "%"),
        (7, EpKind::Colour, "colour", "rgb"),
    ];
    for (code, kind, name, unit) in table {
        assert_eq!(kind.code(), code);
        assert_eq!(EpKind::from_code(code), kind);
        assert_eq!(kind.name(), name);
        assert_eq!(kind.unit(), unit);
        assert_eq!(EpKind::from_str(name), Some(kind));
    }
    assert_eq!(EpKind::from_code(0), EpKind::Unknown(0));
    assert_eq!(EpKind::from_code(8), EpKind::Unknown(8));
    assert_eq!(EpKind::Unknown(8).code(), 8);
    assert_eq!(EpKind::Unknown(8).unit(), "unknown");
}

#[test]
fn parse_endpoint_kind_takes_names_in_any_case_and_codes() {
    assert_eq!(parse_endpoint_kind("temperature"), Ok(EpKind::Temperature));
    assert_eq!(parse_endpoint_kind("Humidity"), Ok(EpKind::Humidity));
    assert_eq!(parse_endpoint_kind("CO2"), Ok(EpKind::Co2));
    assert_eq!(parse_endpoint_kind("COLOUR"), Ok(EpKind::Colour));
    assert_eq!(parse_endpoint_kind("1234"), Ok(EpKind::Unknown(1234)));
    assert_eq!(parse_endpoint_kind("3"), Ok(EpKind::Unknown(3)));
    assert_eq!(parse_endpoint_kind("65536"), Err(IotError::UnrecognisedEndpoint));
    assert_eq!(parse_endpoint_kind("warmth"), Err(IotError::UnrecognisedEndpoint));
    assert_eq!(parse_endpoint_kind(""), Err(IotError::UnrecognisedEndpoint));
}

#[test]
fn select_endpoint_kind_prefers_the_name() {
    assert_eq!(select_endpoint_kind(&"state".to_string(), Some(9)), Ok(EpKind::State));
    assert_eq!(select_endpoint_kind(&"9".to_string(), Some(9)), Ok(EpKind::Unknown(9)));
    assert_eq!(
        select_endpoint_kind(&"nothing".to_string(), None),
        Err(IotError::UnrecognisedEndpoint)
    );
}

#[test]
fn parse_endpoint_descriptor_has_no_flags() {
    let d = parse_endpoint_descriptor("Pressure").unwrap();
    assert_eq!(d.kind, EpKind::Pressure);
    assert_eq!(d.flags, EpFlags::empty());
    assert_eq!(d.flags.bits(), 0);
    assert_eq!(parse_endpoint_descriptor("?"), Err(IotError::UnrecognisedEndpoint));
}

#[test]
fn variants_lists_every_known_kind() {
    assert_eq!(
        EpKind::variants(),
        "'temperature' (unit: °C, id: 1), 'humidity' (unit: %RH, id: 2), 'pressure' (unit: kPa, id: 3), 'CO2' (unit: ppm, id: 4), 'state' (unit: bool, id: 5), 'brightness' (unit: %, id: 6), 'colour' (unit: rgb, id: 7), RAW_ID (no unit)"
    );
}

#[test]
fn flags_behave_as_a_set() {
    assert_eq!(EpFlags::r().bits(), 1);
    assert_eq!(EpFlags::w().bits(), 2);
    assert_eq!(EpFlags::rw().bits(), 3);
    assert_eq!(EpFlags::all(), EpFlags::rw());
    assert!(EpFlags::rw().contains(EpFlags::r()));
    assert!(EpFlags::rw().contains(EpFlags::w()));
    assert!(!EpFlags::r().contains(EpFlags::w()));
    assert!(EpFlags::empty().is_empty());
    assert_eq!(EpFlags::from_bits(2), Some(EpFlags::w()));
    assert_eq!(EpFlags::from_bits(4), None);
    assert_eq!(EpFlags::from_bits_truncate(0xfffd), EpFlags::r());
}

#[test]
fn value_wire_formats_are_bit_exact() {
    let cases: Vec<(EpValue, Vec<u8>)> = vec![
        (EpValue::Bool(false), vec![0x02, 0x80, 0x00, 0x00]),
        (EpValue::Bool(true), vec![0x03, 0x80, 0x00, 0x00]),
        (
            EpValue::Float32(1.0f32.to_bits()),
            vec![0x04, 0x80, 0x04, 0x00, 0x00, 0x00, 0x80, 0x3f],
        ),
        (EpValue::Int32(-2), vec![0x05, 0x80, 0x04, 0x00, 0xfe, 0xff, 0xff, 0xff]),
        (EpValue::Int32(0x01020304), vec![0x05, 0x80, 0x04, 0x00, 0x04, 0x03, 0x02, 0x01]),
        (EpValue::from_text("hé").unwrap(), vec![0x06, 0x80, 0x03, 0x00, b'h', 0xc3, 0xa9]),
        (EpValue::from_bytes(&[9, 8, 7]).unwrap(), vec![0x07, 0x80, 0x03, 0x00, 9, 8, 7]),
        (EpValue::Rgb(0x11, 0x22, 0x33), vec![0x08, 0x80, 0x04, 0x00, 0x33, 0x22, 0x11, 0x00]),
    ];
    for (value, bytes) in cases {
        let data = EpData::new(value);
        assert_eq!(data.encode_len(), bytes.len());
        let mut buff = vec![0x55u8; bytes.len() + 2];
        assert_eq!(data.encode(&mut buff), Ok(bytes.len()));
        assert_eq!(&buff[..bytes.len()], &bytes[..]);
        assert_eq!(&buff[bytes.len()..], &[0x55, 0x55]);
        let (back, n) = EpData::decode(&buff).unwrap();
        assert_eq!(n, bytes.len());
        assert_eq!(back, data);
    }
}

#[test]
fn value_round_trip_at_capacity() {
    let text = "x".repeat(64);
    let raw = [0xabu8; 64];
    for value in [EpValue::from_text(&text).unwrap(), EpValue::from_bytes(&raw).unwrap()] {
        let data = EpData::new(value);
        let mut buff = [0u8; 68];
        assert_eq!(data.encode(&mut buff), Ok(68));
        assert_eq!(EpData::decode(&buff), Ok((data.clone(), 68)));
        let mut short = [0u8; 67];
        assert_eq!(data.encode(&mut short), Err(IotError::Core(CoreError::BufferLength)));
    }
}

#[test]
fn value_constructors_refuse_what_is_too_long() {
    assert_eq!(EpValue::from_text(&"y".repeat(65)), Err(IotError::Overrun));
    assert_eq!(EpValue::from_bytes(&[0u8; 65]), Err(IotError::Overrun));
    assert_eq!(EpValue::from_bool(true), EpValue::Bool(true));
    assert_eq!(EpValue::from_i32(-7), EpValue::Int32(-7));
    assert_eq!(EpValue::from_f32_bits(27.3f32.to_bits()), EpValue::Float32(27.3f32.to_bits()));
    assert_eq!(EpValue::from_rgb(1, 2, 3), EpValue::Rgb(1, 2, 3));
}

#[test]
fn value_decode_rejects_bad_input() {
    let invalid = Err(IotError::Core(CoreError::InvalidOption));
    // Unknown option kinds, below and above the values.
    assert_eq!(EpData::decode(&[0x01, 0x80, 0x00, 0x00]), invalid);
    assert_eq!(EpData::decode(&[0x09, 0x80, 0x00, 0x00]), invalid);
    assert_eq!(EpData::decode(&[0x02, 0x00, 0x00, 0x00]), invalid);
    // Header cut short.
    assert_eq!(EpData::decode(&[0x02, 0x80, 0x00]), invalid);
    // Payload cut short.
    assert_eq!(EpData::decode(&[0x05, 0x80, 0x04, 0x00, 1, 2, 3]), invalid);
    assert_eq!(EpData::decode(&[0x07, 0x80, 0x02, 0x00, 1]), invalid);
    // A number with too short a payload.
    assert_eq!(EpData::decode(&[0x04, 0x80, 0x03, 0x00, 1, 2, 3]), invalid);
    assert_eq!(EpData::decode(&[0x08, 0x80, 0x00, 0x00]), invalid);
    // Text that is not UTF-8.
    assert_eq!(EpData::decode(&[0x06, 0x80, 0x02, 0x00, 0xc3, 0x28]), invalid);
}

#[test]
fn value_decode_reports_overrun() {
    let mut text = vec![0x06, 0x80, 65, 0x00];
    text.extend_from_slice(&[b'a'; 65]);
    assert_eq!(EpData::decode(&text), Err(IotError::Overrun));
    let mut raw = vec![0x07, 0x80, 65, 0x00];
    raw.extend_from_slice(&[0u8; 65]);
    assert_eq!(EpData::decode(&raw), Err(IotError::Overrun));
}

#[test]
fn value_decode_takes_the_payload_only() {
    // Text of two bytes followed by other data.
    let (d, n) = EpData::decode(&[0x06, 0x80, 0x02, 0x00, b'o', b'k', 0xff, 0xff]).unwrap();
    assert_eq!(n, 6);
    assert_eq!(d.value, EpValue::from_text("ok").unwrap());
}

#[test]
fn select_endpoint_value_orders_its_choices() {
    let bits = 2.5f32.to_bits();
    assert_eq!(select_endpoint_value("TRUE", &"true".to_string(), None), Ok(EpValue::Bool(true)));
    assert_eq!(
        select_endpoint_value("False", &"false".to_string(), Some(1)),
        Ok(EpValue::Bool(false))
    );
    assert_eq!(
        select_endpoint_value("2.5", &"2.5".to_string(), Some(bits)),
        Ok(EpValue::Float32(bits))
    );
    assert_eq!(
        select_endpoint_value("Hello", &"hello".to_string(), None),
        Ok(EpValue::from_text("Hello").unwrap())
    );
    let long = "z".repeat(65);
    assert_eq!(select_endpoint_value(&long, &long, None), Err(IotError::Overrun));
}

#[test]
fn descriptor_list_round_trip() {
    let list = [
        EpDescriptor::new(EpKind::Temperature, EpFlags::r()),
        EpDescriptor::new(EpKind::Unknown(900), EpFlags::rw()),
        EpDescriptor::new(EpKind::State, EpFlags::empty()),
    ];
    let mut buff = [0u8; 30];
    assert_eq!(encode_descriptors(&list, &mut buff), Ok(24));
    assert_eq!(decode_descriptors(&buff[..24], 3), Ok(list.to_vec()));
    assert_eq!(decode_descriptors(&buff[..24], 2), Err(IotError::Overrun));
    assert_eq!(decode_descriptors(&buff[..23], 3), Err(IotError::Core(CoreError::InvalidOption)));
    assert_eq!(decode_descriptors(&[], 0), Ok(vec![]));
    let mut short = [7u8; 23];
    assert_eq!(
        encode_descriptors(&list, &mut short),
        Err(IotError::Core(CoreError::BufferLength))
    );
    assert_eq!(short, [7u8; 23]);
}

#[test]
fn data_list_round_trip() {
    let list = [
        EpData::new(EpValue::Float32(27.3f32.to_bits())),
        EpData::new(EpValue::from_text("on").unwrap()),
        EpData::new(EpValue::Bool(true)),
        EpData::new(EpValue::Rgb(1, 2, 3)),
    ];
    let mut buff = [0u8; 64];
    assert_eq!(encode_data(&list, &mut buff), Ok(8 + 6 + 4 + 8));
    assert_eq!(decode_data(&buff[..26], 8), Ok(list.to_vec()));
    assert_eq!(decode_data(&buff[..26], 3), Err(IotError::Overrun));
    let mut short = [3u8; 25];
    assert_eq!(encode_data(&list, &mut short), Err(IotError::Core(CoreError::BufferLength)));
    assert_eq!(short, [3u8; 25]);
}

#[test]
fn info_container_is_bounded() {
    let one = EpDescriptor::new(EpKind::Temperature, EpFlags::r());
    let nine = [one; 9];
    assert!(IotInfo::<8>::new(&nine).is_err());
    let info = IotInfo::<8>::new(&nine[..8]).unwrap();
    assert_eq!(info.as_slice(), &nine[..8]);
    assert_eq!(info.encode_len(), 64);
    let mut buff = [0u8; 72];
    assert_eq!(info.encode(&mut buff), Ok(64));
    let (back, n) = IotInfo::<8>::decode(&buff[..64]).unwrap();
    assert_eq!(n, 64);
    assert_eq!(back.as_slice(), info.as_slice());
    // One descriptor more than the container holds.
    one.encode_at(&mut buff, 64).unwrap();
    assert_eq!(IotInfo::<8>::decode(&buff).err(), Some(IotError::Overrun));
    assert_eq!(IotInfo::<8>::default().as_slice().len(), 0);
}

#[test]
fn data_container_is_bounded() {
    let items: Vec<EpData> = (0..9).map(|i| EpData::new(EpValue::Int32(i))).collect();
    assert!(IotData::<8>::new(&items).is_err());
    let data = IotData::<8>::new(&items[..3]).unwrap();
    assert_eq!(data.as_slice(), &items[..3]);
    let mut buff = [0u8; 24];
    assert_eq!(data.encode(&mut buff), Ok(24));
    let (back, n) = IotData::<8>::decode(&buff).unwrap();
    assert_eq!(n, 24);
    assert_eq!(back.as_slice(), data.as_slice());
    let mut all = [0u8; 72];
    assert_eq!(encode_data(&items, &mut all), Ok(72));
    assert_eq!(IotData::<8>::decode(&all).err(), Some(IotError::Overrun));
}

#[test]
fn error_messages() {
    assert_eq!(IotError::NoSecretKey.message(), "No secret key for service");
    assert_eq!(IotError::NoBody.message(), "IoT object missing body");
    assert_eq!(IotError::UnrecognisedEndpoint.message(), "Unrecognised endpoint kind");
    assert_eq!(IotError::Overrun.message(), "Overrun in static vector");
    assert_eq!(IotError::from(CoreError::InvalidOption), IotError::Core(CoreError::InvalidOption));
}

#[test]
fn containers_hold_bounded_vectors() {
    let info = IotInfo::<8>::new(&[EpDescriptor::new(EpKind::State, EpFlags::rw())]).unwrap();
    assert_eq!(info.descriptors.len(), 1);
    assert_eq!(info.descriptors.capacity(), 8);
    assert_eq!(info.descriptors[0].kind, EpKind::State);
    let data = IotData::<8>::new(&[EpData::new(EpValue::Bool(true))]).unwrap();
    assert_eq!(data.data.len(), 1);
    assert_eq!(data.data[0].value, EpValue::Bool(true));
    assert_eq!(data.encode_len(), 4);
    assert_eq!(IotData::<8>::default().as_slice().len(), 0);
    assert_eq!(IotData::<8>::default().encode_len(), 0);
}
