//! Container framing and transaction-engine scenarios.

use ptp::engine;
use ptp::engine::PhaseStep;
use ptp::ContainerInfo;
use ptp::EndpointDesc;
use ptp::EndpointDirection;
use ptp::EndpointKind;
use ptp::InterfaceDesc;
use ptp::ContainerType;
use ptp::Error;
use ptp::Event;
use ptp::EventCode;
use ptp::ResponseCode;
use ptp::StandardEventCode;
use ptp::StandardResponseCode;
use ptp::UsbError;

fn container_bytes(length: u32, kind: u16, code: u16, tid: u32) -> Vec<u8> {
    let mut b = Vec::new();
    b.extend_from_slice(&length.to_le_bytes());
    b.extend_from_slice(&kind.to_le_bytes());
    b.extend_from_slice(&code.to_le_bytes());
    b.extend_from_slice(&tid.to_le_bytes());
    b
}

#[test]
fn parse_container_header() {
    let b = container_bytes(24, 1, 0x1001, 5);
    let c = ContainerInfo::parse(&b).unwrap();
    assert_eq!(c.payload_len, 12);
    assert_eq!(c.kind, ContainerType::Command);
    assert_eq!(c.code, 0x1001);
    assert_eq!(c.tid, 5);
    assert!(c.belongs_to(5));
    assert!(!c.belongs_to(6));
}

#[test]
fn container_length_below_header_is_malformed() {
    let b = container_bytes(11, 1, 0x1001, 5);
    assert!(matches!(ContainerInfo::parse(&b), Err(Error::Malformed(_))));
}

#[test]
fn container_unknown_kind_is_malformed() {
    let b = container_bytes(12, 7, 0x1001, 5);
    assert!(matches!(ContainerInfo::parse(&b), Err(Error::Malformed(_))));
}

#[test]
fn container_short_buffer_is_eof() {
    let b = [0u8; 11];
    assert!(matches!(
        ContainerInfo::parse(&b),
        Err(Error::Io(ptp::IoErrorKind::UnexpectedEof))
    ));
}

#[test]
fn command_container_for_get_device_info() {
    // GetDeviceInfo with parameters (0, 0, 0): one Command container of 24
    // bytes
    let params = engine::encode_params(&[0, 0, 0]);
    let chunks = engine::build_bulk_chunks(ContainerType::Command, 0x1001, 7, &params);
    assert_eq!(chunks.len(), 1);
    let mut expected = vec![0x18, 0x00, 0x00, 0x00, 0x01, 0x00, 0x01, 0x10, 7, 0, 0, 0];
    expected.extend_from_slice(&[0u8; 12]);
    assert_eq!(chunks[0], expected);
}

#[test]
fn read_phase_accepts_data_then_response() {
    let tid = 7;
    let data_container = ContainerInfo::parse(&container_bytes(16, 2, 0x1001, tid)).unwrap();
    let step = engine::read_phase_step(Vec::new(), &data_container, vec![1, 2, 3, 4], tid);
    let retained = match step.unwrap() {
        PhaseStep::Continue(d) => d,
        PhaseStep::Complete(_) => panic!("not complete yet"),
    };
    assert_eq!(retained, vec![1, 2, 3, 4]);
    let response = ContainerInfo::parse(&container_bytes(12, 3, 0x2001, tid)).unwrap();
    let step = engine::read_phase_step(retained, &response, Vec::new(), tid);
    match step.unwrap() {
        PhaseStep::Complete(d) => assert_eq!(d, vec![1, 2, 3, 4]),
        PhaseStep::Continue(_) => panic!("should be complete"),
    }
}

#[test]
fn mismatched_tid_is_malformed() {
    // the command went out with tid 5; the responder answers with tid 6
    let response = ContainerInfo::parse(&container_bytes(12, 3, 0x2001, 6)).unwrap();
    match engine::read_phase_step(Vec::new(), &response, Vec::new(), 5) {
        Err(Error::Malformed(m)) => assert_eq!(m, "mismatched txnid"),
        _ => panic!("expected a malformed error"),
    }
}

#[test]
fn non_ok_response_code_is_an_error() {
    let response = ContainerInfo::parse(&container_bytes(12, 3, 0x2019, 5)).unwrap();
    match engine::read_phase_step(Vec::new(), &response, Vec::new(), 5) {
        Err(Error::Response(code)) => {
            assert_eq!(code, ResponseCode::Standard(StandardResponseCode::DeviceBusy))
        },
        _ => panic!("expected a response error"),
    }
}

#[test]
fn other_container_kinds_are_ignored_in_read_phase() {
    let event = ContainerInfo::parse(&container_bytes(12, 4, 0x4002, 5)).unwrap();
    match engine::read_phase_step(vec![9], &event, vec![1], 5).unwrap() {
        PhaseStep::Continue(d) => assert_eq!(d, vec![9]),
        PhaseStep::Complete(_) => panic!("should continue"),
    }
}

#[test]
fn exact_buffer_fill_triggers_zlp_drain() {
    // a first bulk read of exactly 8 KiB needs one more read even when the
    // whole payload has arrived
    assert!(engine::more_reads_needed(8180, 8180, 8192));
    assert!(engine::more_reads_needed(100, 5000, 600));
    assert!(!engine::more_reads_needed(500, 500, 512));
}

#[test]
fn next_read_is_capped_at_one_chunk() {
    assert_eq!(engine::next_read_len(0, 8000), 8001);
    assert_eq!(engine::next_read_len(0, 5_000_000), 1_048_576);
    assert_eq!(engine::next_read_len(4_999_000, 5_000_000), 1001);
}

#[test]
fn chunk_boundary() {
    const CHUNK: usize = 1024 * 1024;
    let payload = vec![0xAAu8; CHUNK - 12];
    let chunks = engine::build_bulk_chunks(ContainerType::Data, 0x100D, 1, &payload);
    assert_eq!(chunks.len(), 1);
    assert_eq!(chunks[0].len(), CHUNK);

    let payload = vec![0xAAu8; CHUNK - 11];
    let chunks = engine::build_bulk_chunks(ContainerType::Data, 0x100D, 1, &payload);
    assert_eq!(chunks.len(), 2);
    assert_eq!(chunks[0].len(), CHUNK);
    assert_eq!(chunks[1].len(), 1);
}

#[test]
fn chunks_reassemble_to_header_and_payload() {
    let payload: Vec<u8> = (0u8..100).collect();
    let chunks = engine::build_bulk_chunks(ContainerType::Data, 0x100D, 3, &payload);
    let flat: Vec<u8> = chunks.concat();
    assert_eq!(flat.len(), 112);
    assert_eq!(&flat[..4], &112u32.to_le_bytes());
    assert_eq!(&flat[12..], &payload[..]);
}

#[test]
fn interrupt_with_empty_payload_is_no_event_payload() {
    let b = container_bytes(12, 4, 0x4002, 0);
    assert!(matches!(
        engine::parse_interrupt(&b),
        Err(Error::NoEventPayload)
    ));
}

#[test]
fn interrupt_with_payload_parses() {
    let mut b = container_bytes(16, 4, 0x4002, 0);
    b.extend_from_slice(&[0, 0, 0, 9]);
    let (c, p) = engine::parse_interrupt(&b).unwrap();
    assert_eq!(c.kind, ContainerType::Event);
    assert_eq!(p, vec![0, 0, 0, 9]);
}

#[test]
fn event_poll_timeout_is_no_event() {
    let out = engine::event_read_outcome(Err(Error::Usb(UsbError::Timeout)));
    assert!(matches!(out, Ok(None)));
    let out = engine::event_read_outcome(Err(Error::Usb(UsbError::NoDevice)));
    assert!(matches!(out, Err(Error::Usb(UsbError::NoDevice))));
}

#[test]
fn event_params_are_big_endian() {
    let ev = Event::new(0x4002, &[0, 0, 0, 1, 0, 0, 0, 2]).unwrap();
    assert_eq!(
        ev.code,
        EventCode::Standard(StandardEventCode::ObjectAdded)
    );
    assert_eq!(ev.params, vec![1, 2]);
}

#[test]
fn event_trailing_partial_group_is_dropped() {
    let ev = Event::new(0x4002, &[0, 0, 0, 5, 0xFF]).unwrap();
    assert_eq!(ev.params, vec![5]);
}

#[test]
fn unclassifiable_event_code_is_rejected() {
    assert!(matches!(
        Event::new(0x9999, &[]),
        Err(Error::BadEventCode)
    ));
}

#[test]
fn non_event_containers_are_skipped_when_polling() {
    let c = ContainerInfo::parse(&container_bytes(16, 2, 0x1001, 0)).unwrap();
    assert!(matches!(engine::event_step(&c, &[1, 2, 3, 4]), Ok(None)));
    let c = ContainerInfo::parse(&container_bytes(16, 4, 0x4002, 0)).unwrap();
    match engine::event_step(&c, &[0, 0, 0, 1]) {
        Ok(Some(ev)) => assert_eq!(ev.params, vec![1]),
        _ => panic!("expected an event"),
    }
}

#[test]
fn endpoint_selection_takes_first_match() {
    let eps = [
        EndpointDesc { address: 0x81, direction: EndpointDirection::In, kind: EndpointKind::Bulk },
        EndpointDesc { address: 0x02, direction: EndpointDirection::Out, kind: EndpointKind::Bulk },
        EndpointDesc {
            address: 0x83,
            direction: EndpointDirection::In,
            kind: EndpointKind::Interrupt,
        },
        EndpointDesc { address: 0x84, direction: EndpointDirection::In, kind: EndpointKind::Bulk },
    ];
    assert_eq!(
        engine::find_endpoint(&eps, EndpointDirection::In, EndpointKind::Bulk),
        Some(0x81)
    );
    assert_eq!(
        engine::find_endpoint(&eps, EndpointDirection::Out, EndpointKind::Bulk),
        Some(0x02)
    );
    assert_eq!(
        engine::find_endpoint(&eps, EndpointDirection::In, EndpointKind::Interrupt),
        Some(0x83)
    );
    assert_eq!(
        engine::find_endpoint(&eps, EndpointDirection::Out, EndpointKind::Interrupt),
        None
    );
}

#[test]
fn imaging_interface_selection() {
    let ifaces = [
        InterfaceDesc { number: 0, setting: 0, class_code: 8 },
        InterfaceDesc { number: 1, setting: 0, class_code: 6 },
        InterfaceDesc { number: 2, setting: 0, class_code: 6 },
    ];
    assert_eq!(engine::find_imaging_interface(&ifaces), Some(1));
    let none = [InterfaceDesc { number: 0, setting: 0, class_code: 8 }];
    assert_eq!(engine::find_imaging_interface(&none), None);
}

#[test]
fn split_initial_bulk_keeps_payload_bytes() {
    let mut b = container_bytes(20, 2, 0x1009, 4);
    b.extend_from_slice(&[10, 11, 12, 13]);
    let (c, p) = engine::split_initial_bulk(&b).unwrap();
    assert_eq!(c.payload_len, 8);
    assert_eq!(p, vec![10, 11, 12, 13]);
    // a container with no payload yields an empty buffer
    let b = container_bytes(12, 3, 0x2001, 4);
    let (c, p) = engine::split_initial_bulk(&b).unwrap();
    assert_eq!(c.payload_len, 0);
    assert!(p.is_empty());
}
