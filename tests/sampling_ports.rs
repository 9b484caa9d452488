use apex_partition::error::ErrorReturnCode;
use apex_partition::sampling::{PortDirection, SamplingPortConfig, SamplingPorts, StoredMessage, Validity};

fn config(name: &str, dir: PortDirection, msg_size: usize, channel: usize) -> SamplingPortConfig {
    SamplingPortConfig { name: name.to_string(), dir, msg_size, channel }
}

fn ports(capacity: u32) -> SamplingPorts {
    let configs = vec![
        config("out", PortDirection::Source, 4, 0),
        config("in", PortDirection::Destination, 4, 0),
        config("other", PortDirection::Source, 8, 1),
    ];
    SamplingPorts::new(configs, capacity, 2).unwrap()
}

#[test]
fn new_rejects_missing_channel() {
    let configs = vec![config("out", PortDirection::Source, 4, 3)];
    assert!(SamplingPorts::new(configs, 2, 3).is_none());
}

#[test]
fn create_returns_ids_from_one() {
    let mut p = ports(4);
    assert_eq!(p.create_sampling_port("out", PortDirection::Source, 10), Ok(1));
    assert_eq!(p.create_sampling_port("in", PortDirection::Destination, 10), Ok(2));
    assert_eq!(p.ports.len(), 2);
    assert_eq!(p.ports[1].config, 1);
    assert_eq!(p.ports[1].refresh, 10);
}

#[test]
fn create_with_nonpositive_refresh_fails() {
    let mut p = ports(4);
    assert_eq!(p.create_sampling_port("out", PortDirection::Source, 0), Err(ErrorReturnCode::InvalidConfig));
    assert_eq!(p.create_sampling_port("out", PortDirection::Source, -5), Err(ErrorReturnCode::InvalidConfig));
    assert_eq!(p.create_sampling_port("nope", PortDirection::Source, -1), Err(ErrorReturnCode::InvalidConfig));
    assert!(p.ports.is_empty());
}

#[test]
fn create_unknown_name_or_wrong_direction_fails() {
    let mut p = ports(4);
    assert_eq!(p.create_sampling_port("nope", PortDirection::Source, 5), Err(ErrorReturnCode::InvalidConfig));
    assert_eq!(p.create_sampling_port("in", PortDirection::Source, 5), Err(ErrorReturnCode::InvalidConfig));
    assert!(p.ports.is_empty());
}

#[test]
fn create_over_capacity_fails_and_keeps_ports() {
    let mut p = ports(2);
    assert_eq!(p.create_sampling_port("out", PortDirection::Source, 7), Ok(1));
    assert_eq!(p.create_sampling_port("in", PortDirection::Destination, 9), Ok(2));
    assert_eq!(p.create_sampling_port("other", PortDirection::Source, 3), Err(ErrorReturnCode::InvalidConfig));
    assert_eq!(p.ports.len(), 2);
    assert_eq!(p.ports[0].config, 0);
    assert_eq!(p.ports[0].refresh, 7);
    assert_eq!(p.ports[1].config, 1);
    assert_eq!(p.ports[1].refresh, 9);
    assert_eq!(p.write_sampling_message(1, &[1, 2], 0), Ok(()));
    let mut buf = vec![0u8; 4];
    assert_eq!(p.read_sampling_message(2, &mut buf, 1), Ok((Validity::Valid, 2)));
}

#[test]
fn write_rejections() {
    let mut p = ports(4);
    p.create_sampling_port("out", PortDirection::Source, 10).unwrap();
    p.create_sampling_port("in", PortDirection::Destination, 10).unwrap();
    assert_eq!(p.write_sampling_message(1, &[], 0), Err(ErrorReturnCode::InvalidParam));
    assert_eq!(p.write_sampling_message(1, &[1, 2, 3, 4, 5], 0), Err(ErrorReturnCode::InvalidConfig));
    assert_eq!(p.write_sampling_message(2, &[1], 0), Err(ErrorReturnCode::InvalidMode));
    assert_eq!(p.write_sampling_message(0, &[1], 0), Err(ErrorReturnCode::InvalidParam));
    assert_eq!(p.write_sampling_message(3, &[1], 0), Err(ErrorReturnCode::InvalidParam));
    assert_eq!(p.write_sampling_message(-1, &[1], 0), Err(ErrorReturnCode::InvalidParam));
    assert!(p.channels[0].is_none());
}

#[test]
fn read_rejections() {
    let mut p = ports(4);
    p.create_sampling_port("out", PortDirection::Source, 10).unwrap();
    p.create_sampling_port("in", PortDirection::Destination, 10).unwrap();
    let mut empty: Vec<u8> = Vec::new();
    assert_eq!(p.read_sampling_message(2, &mut empty, 0), Err(ErrorReturnCode::InvalidParam));
    let mut buf = vec![9u8; 4];
    assert_eq!(p.read_sampling_message(1, &mut buf, 0), Err(ErrorReturnCode::InvalidMode));
    assert_eq!(p.read_sampling_message(5, &mut buf, 0), Err(ErrorReturnCode::InvalidParam));
    assert_eq!(p.read_sampling_message(2, &mut buf, 0), Err(ErrorReturnCode::NoAction));
    assert_eq!(buf, vec![9u8; 4]);
}

#[test]
fn read_returns_latest_write() {
    let mut p = ports(4);
    p.create_sampling_port("out", PortDirection::Source, 100).unwrap();
    p.create_sampling_port("in", PortDirection::Destination, 100).unwrap();
    p.write_sampling_message(1, &[1, 1, 1, 1], 10).unwrap();
    p.write_sampling_message(1, &[2, 2, 2], 20).unwrap();
    p.write_sampling_message(1, &[3, 4], 30).unwrap();
    let mut buf = vec![0u8; 4];
    assert_eq!(p.read_sampling_message(2, &mut buf, 40), Ok((Validity::Valid, 2)));
    assert_eq!(buf, vec![3, 4, 0, 0]);
}

#[test]
fn read_into_short_buffer_reports_full_length() {
    let mut p = ports(4);
    p.create_sampling_port("out", PortDirection::Source, 100).unwrap();
    p.create_sampling_port("in", PortDirection::Destination, 100).unwrap();
    p.write_sampling_message(1, &[5, 6, 7], 0).unwrap();
    let mut buf = vec![0u8; 2];
    assert_eq!(p.read_sampling_message(2, &mut buf, 0), Ok((Validity::Valid, 3)));
    assert_eq!(buf, vec![5, 6]);
}

#[test]
fn validity_follows_refresh_period() {
    let mut p = ports(4);
    p.create_sampling_port("out", PortDirection::Source, 50).unwrap();
    p.create_sampling_port("in", PortDirection::Destination, 50).unwrap();
    p.write_sampling_message(1, &[8, 9], 1000).unwrap();
    let mut buf = vec![0u8; 4];
    assert_eq!(p.read_sampling_message(2, &mut buf, 1000), Ok((Validity::Valid, 2)));
    assert_eq!(p.read_sampling_message(2, &mut buf, 1050), Ok((Validity::Valid, 2)));
    let mut stale = vec![0u8; 4];
    assert_eq!(p.read_sampling_message(2, &mut stale, 1051), Ok((Validity::Invalid, 2)));
    assert_eq!(stale, vec![8, 9, 0, 0]);
}

#[test]
fn ports_on_other_channels_are_independent() {
    let mut p = ports(4);
    p.create_sampling_port("other", PortDirection::Source, 50).unwrap();
    p.create_sampling_port("in", PortDirection::Destination, 50).unwrap();
    p.write_sampling_message(1, &[1, 2, 3, 4, 5, 6], 0).unwrap();
    assert!(p.channels[1].is_some());
    let mut buf = vec![0u8; 4];
    assert_eq!(p.read_sampling_message(2, &mut buf, 0), Err(ErrorReturnCode::NoAction));
}

#[test]
fn read_stored_message_from_outside() {
    let mut p = ports(4);
    p.create_sampling_port("out", PortDirection::Source, 100).unwrap();
    p.create_sampling_port("in", PortDirection::Destination, 100).unwrap();
    let stored = Some(StoredMessage { data: vec![4, 5, 6], written_at: 500 });
    let mut buf = vec![0u8; 4];
    assert_eq!(p.read_stored(2, &stored, &mut buf, 600), Ok((Validity::Valid, 3)));
    assert_eq!(buf, vec![4, 5, 6, 0]);
    assert_eq!(p.read_stored(2, &stored, &mut buf, 601), Ok((Validity::Invalid, 3)));
    assert_eq!(p.read_stored(2, &None, &mut buf, 0), Err(ErrorReturnCode::NoAction));
    assert_eq!(p.read_stored(1, &stored, &mut buf, 0), Err(ErrorReturnCode::InvalidMode));
    assert_eq!(p.read_stored(9, &stored, &mut buf, 0), Err(ErrorReturnCode::InvalidParam));
}
