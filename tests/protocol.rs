use etherdream::protocol::encode_data;
use etherdream::protocol::encode_ping;
use etherdream::protocol::encode_prepare;
use etherdream::protocol::response_to;
use etherdream::protocol::AckCode;
use etherdream::protocol::Begin;
use etherdream::protocol::Broadcast;
use etherdream::protocol::CommandCode;
use etherdream::protocol::DacResponse;
use etherdream::protocol::DacStatus;
use etherdream::protocol::MacAddress;
use etherdream::protocol::Point;
use etherdream::protocol::COLOR_MAX;
use etherdream::EtherdreamError;

fn status_bytes() -> Vec<u8> {
    vec![
        0, 100, 200, 255, 255, 0, 0, 1, 1, 1, 255, 255, 255, 1, 255, 1, 255, 255, 255, 255,
    ]
}

#[test]
fn test_dac_status_parse() {
    let buf = status_bytes();

    let status = DacStatus::parse(&buf).unwrap();
    assert_eq!(0, status.protocol);
    assert_eq!(100, status.light_engine_state);
    assert_eq!(200, status.playback_state);
    assert_eq!(255, status.source);

    assert_eq!(255, status.light_engine_flags);
    assert_eq!(256, status.playback_flags);
    assert_eq!(257, status.source_flags);
    assert_eq!(65535, status.buffer_fullness);

    assert_eq!(33489407, status.point_rate);
    assert_eq!(4294967295, status.point_count);
}

#[test]
fn test_mac_address_parse() {
    let buf = vec![1, 2, 3, 4, 5, 6];

    let address = MacAddress::parse(&buf).unwrap();
    assert_eq!(1, address.address[0]);
    assert_eq!(2, address.address[1]);
    assert_eq!(3, address.address[2]);
    assert_eq!(4, address.address[3]);
    assert_eq!(5, address.address[4]);
    assert_eq!(6, address.address[5]);
}

#[test]
fn test_broadcast_parse() {
    let mut buf = vec![
        // Address
        0, 1, 2, 3, 4, 5, // Broadcast
        0, 255, 255, 0, 1, 2, 1, 2, 3, 4,
    ];
    buf.extend(status_bytes());

    let broadcast = Broadcast::parse(&buf).unwrap();
    assert_eq!(MacAddress { address: [0, 1, 2, 3, 4, 5] }, broadcast.mac_address);
    assert_eq!(65280, broadcast.hw_revision);
    assert_eq!(255, broadcast.sw_revision);
    assert_eq!(513, broadcast.buffer_capacity);
    assert_eq!(67305985, broadcast.max_point_rate);
}

#[test]
fn test_point_xy_rgb() {
    let point = Point::xy_rgb(10_000, -10_000, 32, 128, 1028);
    assert_eq!(10_000, point.x);
    assert_eq!(-10_000, point.y);
    assert_eq!(32, point.r);
    assert_eq!(128, point.g);
    assert_eq!(1028, point.b);
    assert_eq!(0, point.i);
}

#[test]
fn test_point_xy_luma() {
    let point = Point::xy_luma(5, -5, 127);
    assert_eq!(5, point.x);
    assert_eq!(-5, point.y);
    assert_eq!(127, point.r);
    assert_eq!(127, point.g);
    assert_eq!(127, point.b);
    assert_eq!(127, point.i);
}

#[test]
fn test_point_xy_blank() {
    let point = Point::xy_blank(10, -20);
    assert_eq!(10, point.x);
    assert_eq!(-20, point.y);
    assert_eq!(0, point.r);
    assert_eq!(0, point.g);
    assert_eq!(0, point.b);
    assert_eq!(0, point.i);
}

#[test]
fn test_point_xy_binary() {
    let point = Point::xy_binary(20_000, -20_000, true);
    assert_eq!(20_000, point.x);
    assert_eq!(-20_000, point.y);
    assert_eq!(65535, point.r);
    assert_eq!(65535, point.g);
    assert_eq!(65535, point.b);

    let point = Point::xy_binary(1000, 2000, false);
    assert_eq!(1000, point.x);
    assert_eq!(2000, point.y);
    assert_eq!(0, point.r);
    assert_eq!(0, point.g);
    assert_eq!(0, point.b);
}

#[test]
fn status_parse_rejects_short_input_and_ignores_extra_bytes() {
    let short = vec![0u8; 19];
    assert!(matches!(
        DacStatus::parse(&short),
        Err(EtherdreamError::BadResponseLength { .. })
    ));
    let mut long = status_bytes();
    long.push(42);
    assert_eq!(DacStatus::parse(&long).unwrap(), DacStatus::parse(&status_bytes()).unwrap());
}

#[test]
fn status_serialize_round_trip() {
    let status = DacStatus {
        protocol: 1,
        light_engine_state: 2,
        playback_state: 3,
        source: 4,
        light_engine_flags: 0x0506,
        playback_flags: 0x0708,
        source_flags: 0x090A,
        buffer_fullness: 1799,
        point_rate: 30_000,
        point_count: 0x0102_0304,
    };
    let bytes = status.serialize();
    assert_eq!(
        bytes,
        vec![1, 2, 3, 4, 6, 5, 8, 7, 10, 9, 7, 7, 48, 117, 0, 0, 4, 3, 2, 1]
    );
    assert_eq!(DacStatus::parse(&bytes).unwrap(), status);
    assert_eq!(DacStatus::parse(&status_bytes()).unwrap().serialize(), status_bytes());
}

#[test]
fn broadcast_serialize_round_trip() {
    let mut buf = vec![9, 8, 7, 6, 5, 4, 1, 0, 2, 0, 0x07, 0x07, 0x30, 0x75, 0, 0];
    buf.extend(status_bytes());
    let broadcast = Broadcast::parse(&buf).unwrap();
    assert_eq!(broadcast.buffer_capacity, 1799);
    assert_eq!(broadcast.max_point_rate, 30_000);
    let again = broadcast.serialize();
    assert_eq!(again, buf);
    let reparsed = Broadcast::parse(&again).unwrap();
    assert_eq!(reparsed.mac_address, broadcast.mac_address);
    assert_eq!(reparsed.hw_revision, 1);
    assert_eq!(reparsed.sw_revision, 2);
    assert_eq!(reparsed.status, broadcast.status);
}

#[test]
fn broadcast_and_mac_reject_short_input() {
    assert!(matches!(
        Broadcast::parse(&vec![0u8; 35]),
        Err(EtherdreamError::BadResponseLength { .. })
    ));
    assert!(matches!(
        MacAddress::parse(&vec![0u8; 5]),
        Err(EtherdreamError::BadResponseLength { .. })
    ));
    assert_ne!(
        MacAddress { address: [0, 1, 2, 3, 4, 5] },
        MacAddress { address: [0, 1, 2, 3, 4, 6] }
    );
}

#[test]
fn begin_encoding() {
    let begin = Begin { low_water_mark: 0, point_rate: 30_000 };
    assert_eq!(begin.serialize(), vec![0x62, 0x00, 0x00, 0x30, 0x75, 0x00, 0x00]);
    let begin = Begin { low_water_mark: 0x0102, point_rate: 0x0A0B_0C0D };
    assert_eq!(begin.serialize(), vec![0x62, 0x02, 0x01, 0x0D, 0x0C, 0x0B, 0x0A]);
}

#[test]
fn ping_and_prepare_encoding() {
    assert_eq!(encode_ping(), vec![0x3F]);
    assert_eq!(encode_prepare(), vec![0x70]);
}

#[test]
fn point_serialize_field_order() {
    let point = Point {
        control: 0x0102,
        x: -2,
        y: 0x0304,
        r: 0x0506,
        g: 0x0708,
        b: 0x090A,
        i: 0x0B0C,
        u1: 0x0D0E,
        u2: 0x0F10,
    };
    assert_eq!(
        point.serialize(),
        vec![2, 1, 0xFE, 0xFF, 4, 3, 6, 5, 8, 7, 10, 9, 12, 11, 14, 13, 16, 15]
    );
}

#[test]
fn data_framing_of_one_point() {
    let point = Point::xy_rgb(0, 0, 0xFFFF, 0xFFFF, 0xFFFF);
    let frame = encode_data(&[point]).unwrap();
    assert_eq!(
        frame,
        vec![
            0x64, 0x01, 0x00, 0x00, 0x00, 0x00, 0x00, 0x00, 0x00, 0xFF, 0xFF, 0xFF, 0xFF, 0xFF,
            0xFF, 0x00, 0x00, 0x00, 0x00, 0x00, 0x00,
        ]
    );
    assert_eq!(frame.len(), 21);
}

#[test]
fn data_framing_lengths() {
    let points = vec![Point::xy_blank(1, 2); 300];
    let frame = encode_data(&points).unwrap();
    assert_eq!(frame.len(), 3 + 18 * 300);
    assert_eq!(frame[0], 0x64);
    assert_eq!(frame[1], 44);
    assert_eq!(frame[2], 1);
    assert_eq!(encode_data(&[]).unwrap(), vec![0x64, 0, 0]);
    let full = vec![Point::xy_blank(0, 0); 65_535];
    assert_eq!(encode_data(&full).unwrap().len(), 3 + 18 * 65_535);
    let too_many = vec![Point::xy_blank(0, 0); 65_536];
    assert!(matches!(
        encode_data(&too_many),
        Err(EtherdreamError::BadResponseLength { .. })
    ));
}

#[test]
fn binary_points_are_full_or_off() {
    let on = Point::xy_binary(-32768, 32767, true);
    assert_eq!((on.r, on.g, on.b), (COLOR_MAX, COLOR_MAX, COLOR_MAX));
    let off = Point::xy_binary(-32768, 32767, false);
    assert_eq!((off.r, off.g, off.b), (0, 0, 0));
}

#[test]
fn ack_and_command_codes() {
    assert_eq!(AckCode::parse(0x61), AckCode::Ack);
    assert_eq!(AckCode::parse(0x46), AckCode::NackBufferFull);
    assert_eq!(AckCode::parse(0x49), AckCode::NackInvalid);
    assert_eq!(AckCode::parse(0x21), AckCode::NackStop);
    assert_eq!(AckCode::parse(0x00), AckCode::NackUnknown { code: 0 });
    assert!(AckCode::Ack.is_ack());
    assert!(!AckCode::NackStop.is_ack());
    assert_eq!(CommandCode::parse(0x62), CommandCode::Begin);
    assert_eq!(CommandCode::parse(0x64), CommandCode::Data);
    assert_eq!(CommandCode::parse(0x3F), CommandCode::Ping);
    assert_eq!(CommandCode::parse(0x70), CommandCode::Prepare);
    assert_eq!(CommandCode::parse(0x63), CommandCode::CommandUnknown { code: 0x63 });
}

#[test]
fn response_parse_and_pairing() {
    let mut frame = vec![0x61, 0x64];
    frame.extend(status_bytes());
    let response = DacResponse::parse(&frame).unwrap();
    assert!(response.is_ack());
    assert_eq!(response.command, CommandCode::Data);
    assert_eq!(response.status, DacStatus::parse(&status_bytes()).unwrap());
    assert_eq!(response_to(CommandCode::Data, &frame).unwrap(), response);
    assert!(matches!(
        response_to(CommandCode::Ping, &frame),
        Err(EtherdreamError::WrongResponse)
    ));
    let mut short = frame.clone();
    short.pop();
    assert!(matches!(
        DacResponse::parse(&short),
        Err(EtherdreamError::BadResponseLength { .. })
    ));
    frame.push(0);
    assert!(matches!(
        response_to(CommandCode::Data, &frame),
        Err(EtherdreamError::BadResponseLength { .. })
    ));
    let mut nack = vec![0x46, 0x64];
    nack.extend(status_bytes());
    let response = DacResponse::parse(&nack).unwrap();
    assert!(!response.is_ack());
    assert_eq!(response.acknowledgement, AckCode::NackBufferFull);
}

#[test]
fn status_tracker_views() {
    let mut status = DacStatus::parse(&status_bytes()).unwrap();
    status.playback_state = 0;
    status.playback_flags = 0;
    assert!(status.needs_prepare());
    status.playback_state = 1;
    assert!(!status.needs_prepare());
    status.playback_flags = 0b010;
    assert!(status.needs_prepare());
    status.playback_flags = 0b100;
    assert!(status.needs_prepare());
    status.playback_flags = 0b001;
    assert!(!status.needs_prepare());
    status.playback_state = 2;
    assert!(status.is_playing());
    status.light_engine_state = 3;
    assert!(status.is_emergency());
    status.light_engine_state = 0;
    assert!(!status.is_emergency());
    status.buffer_fullness = 799;
    assert_eq!(status.free_slots(1799), 1000);
    status.buffer_fullness = 1799;
    assert_eq!(status.free_slots(1799), 0);
    status.buffer_fullness = 2000;
    assert_eq!(status.free_slots(1799), 0);
}

#[test]
fn error_descriptions() {
    assert_eq!(EtherdreamError::WrongResponse.description(), "WrongResponse");
    let e = EtherdreamError::BadResponseLength { description: String::from("short") };
    assert_eq!(e.description(), "BadResponseLength");
    let e = EtherdreamError::ReceivedNack { code: AckCode::NackStop, command: CommandCode::Data };
    assert_eq!(e.description(), "ReceivedNack");
    let e = EtherdreamError::from(std::io::Error::new(std::io::ErrorKind::Other, "socket"));
    assert_eq!(e.description(), "IoError");
}
