use raw_decode::layout::DecodeError;
use raw_decode::ovs::{
    action_name, operation_name, unmarshall_exec, unmarshall_exec_track, unmarshall_operation,
    unmarshall_output, unmarshall_recv, unmarshall_upcall, unmarshall_upcall_enqueue,
    unmarshall_upcall_return, OvsEvent, OvsEventType,
};

fn snapshot(e: &OvsEvent) -> String {
    format!("{:?}", e)
}

#[test]
fn upcall_example() {
    let buf = [1u8, 7, 0, 0, 0, 2, 0, 0, 0];
    let mut e = OvsEvent::new();
    assert_eq!(unmarshall_upcall(&buf, &mut e), Ok(()));
    assert_eq!(e.cmd, Some(1));
    assert_eq!(e.port, Some(7));
    assert_eq!(e.cpu, Some(2));
    assert_eq!(e.event_type.as_deref(), Some("upcall"));
}

#[test]
fn upcall_multibyte_fields() {
    let mut buf = vec![3u8];
    buf.extend_from_slice(&0x0102_0304u32.to_le_bytes());
    buf.extend_from_slice(&0xdead_beefu32.to_le_bytes());
    let mut e = OvsEvent::new();
    assert_eq!(unmarshall_upcall(&buf, &mut e), Ok(()));
    assert_eq!(e.cmd, Some(3));
    assert_eq!(e.port, Some(0x0102_0304));
    assert_eq!(e.cpu, Some(0xdead_beef));
}

#[test]
fn upcall_wrong_sizes_leave_record() {
    let mut e = OvsEvent::new();
    e.queue_id = Some(4);
    let before = snapshot(&e);
    assert_eq!(
        unmarshall_upcall(&[0u8; 8], &mut e),
        Err(DecodeError::SizeMismatch { expected: 9, actual: 8 })
    );
    assert_eq!(
        unmarshall_upcall(&[0u8; 10], &mut e),
        Err(DecodeError::SizeMismatch { expected: 9, actual: 10 })
    );
    assert_eq!(
        unmarshall_upcall(&[], &mut e),
        Err(DecodeError::SizeMismatch { expected: 9, actual: 0 })
    );
    assert_eq!(snapshot(&e), before);
}

#[test]
fn exec_recirc() {
    let mut buf = vec![7u8];
    buf.extend_from_slice(&42u32.to_le_bytes());
    let mut e = OvsEvent::new();
    assert_eq!(unmarshall_exec(&buf, &mut e), Ok(()));
    assert_eq!(e.action.as_deref(), Some("recirc"));
    assert_eq!(e.recirculation_id, Some(42));
    assert_eq!(e.event_type.as_deref(), Some("action_execute"));
}

#[test]
fn exec_unsupported_action() {
    let mut buf = vec![99u8];
    buf.extend_from_slice(&42u32.to_le_bytes());
    let mut e = OvsEvent::new();
    let before = snapshot(&e);
    assert_eq!(unmarshall_exec(&buf, &mut e), Err(DecodeError::UnsupportedAction(99)));
    assert_eq!(snapshot(&e), before);
    assert_eq!(
        unmarshall_exec(&[7u8, 0, 0, 0], &mut e),
        Err(DecodeError::SizeMismatch { expected: 5, actual: 4 })
    );
}

#[test]
fn action_table() {
    let names = [
        "unspecified", "output", "userspace", "set", "push_vlan", "pop_vlan", "sample", "recirc",
        "hash", "push_mpls", "pop_mpls", "set_masked", "ct", "trunc", "push_eth", "pop_eth",
        "ct_clear", "push_nsh", "pop_nsh", "meter", "clone", "check_pkt_len", "add_mpls",
        "dec_ttl",
    ];
    for (code, name) in names.iter().enumerate() {
        assert_eq!(action_name(code as u8), Some(*name));
    }
    assert_eq!(action_name(24), None);
    assert_eq!(action_name(255), None);
}

#[test]
fn operation_table() {
    assert_eq!(operation_name(0), Some("exec"));
    assert_eq!(operation_name(1), Some("put"));
    assert_eq!(operation_name(2), None);
}

#[test]
fn event_type_codes() {
    assert_eq!(OvsEventType::from_u8(0), Ok(OvsEventType::Upcall));
    assert_eq!(OvsEventType::from_u8(1), Ok(OvsEventType::UpcallEnqueue));
    assert_eq!(OvsEventType::from_u8(2), Ok(OvsEventType::UpcallReturn));
    assert_eq!(OvsEventType::from_u8(3), Ok(OvsEventType::RecvUpcall));
    assert_eq!(OvsEventType::from_u8(4), Ok(OvsEventType::Operation));
    assert_eq!(OvsEventType::from_u8(5), Ok(OvsEventType::ActionExec));
    assert_eq!(OvsEventType::from_u8(6), Ok(OvsEventType::ActionExecTrack));
    assert_eq!(OvsEventType::from_u8(7), Ok(OvsEventType::OutputAction));
    assert_eq!(OvsEventType::from_u8(8), Err(DecodeError::UnknownEventType(8)));
}

#[test]
fn exec_track_and_output_keep_kind() {
    let mut e = OvsEvent::new();
    assert_eq!(unmarshall_exec_track(&9u32.to_le_bytes(), &mut e), Ok(()));
    assert_eq!(e.queue_id, Some(9));
    assert_eq!(unmarshall_output(&11u32.to_le_bytes(), &mut e), Ok(()));
    assert_eq!(e.port, Some(11));
    assert_eq!(e.event_type, None);
    assert_eq!(
        unmarshall_output(&[1u8, 2, 3], &mut e),
        Err(DecodeError::SizeMismatch { expected: 4, actual: 3 })
    );
    assert_eq!(
        unmarshall_exec_track(&[0u8; 5], &mut e),
        Err(DecodeError::SizeMismatch { expected: 4, actual: 5 })
    );
}

fn recv_bytes() -> Vec<u8> {
    let mut b = Vec::new();
    b.extend_from_slice(&1u32.to_le_bytes());
    b.extend_from_slice(&1500u32.to_le_bytes());
    b.extend_from_slice(&0x1_0000_0002u64.to_le_bytes());
    b.extend_from_slice(&6u32.to_le_bytes());
    b.extend_from_slice(&123_456_789_012u64.to_le_bytes());
    b.push(17);
    b
}

#[test]
fn recv_upcall_fields() {
    let buf = recv_bytes();
    assert_eq!(buf.len(), 29);
    let mut e = OvsEvent::new();
    assert_eq!(unmarshall_recv(&buf, &mut e), Ok(()));
    assert_eq!(e.upcall_type, Some(1));
    assert_eq!(e.pkt_size, Some(1500));
    assert_eq!(e.key_size, Some(0x1_0000_0002));
    assert_eq!(e.queue_id, Some(6));
    assert_eq!(e.batch_ts, Some(123_456_789_012));
    assert_eq!(e.batch_idx, Some(17));
    assert_eq!(e.event_type.as_deref(), Some("recv_upcall"));
    let before = snapshot(&e);
    assert_eq!(
        unmarshall_recv(&buf[..28], &mut e),
        Err(DecodeError::SizeMismatch { expected: 29, actual: 28 })
    );
    assert_eq!(snapshot(&e), before);
}

#[test]
fn operation_fields() {
    let mut buf = vec![1u8];
    buf.extend_from_slice(&3u32.to_le_bytes());
    buf.extend_from_slice(&u64::MAX.to_le_bytes());
    buf.push(2);
    let mut e = OvsEvent::new();
    assert_eq!(unmarshall_operation(&buf, &mut e), Ok(()));
    assert_eq!(e.op_type.as_deref(), Some("put"));
    assert_eq!(e.queue_id, Some(3));
    assert_eq!(e.batch_ts, Some(u64::MAX));
    assert_eq!(e.batch_idx, Some(2));
    assert_eq!(e.event_type.as_deref(), Some("flow_operation"));
    buf[0] = 2;
    let mut f = OvsEvent::new();
    assert_eq!(unmarshall_operation(&buf, &mut f), Err(DecodeError::UnknownOperation(2)));
    assert_eq!(f.op_type, None);
    assert_eq!(f.event_type, None);
}

#[test]
fn upcall_enqueue_fields() {
    let mut buf = Vec::new();
    buf.extend_from_slice(&(-11i32).to_le_bytes());
    buf.push(1);
    buf.extend_from_slice(&5u32.to_le_bytes());
    buf.extend_from_slice(&987_654_321u64.to_le_bytes());
    buf.extend_from_slice(&3u32.to_le_bytes());
    buf.extend_from_slice(&8u32.to_le_bytes());
    assert_eq!(buf.len(), 25);
    let mut e = OvsEvent::new();
    assert_eq!(unmarshall_upcall_enqueue(&buf, &mut e), Ok(()));
    assert_eq!(e.ret, Some(-11));
    assert_eq!(e.cmd, Some(1));
    assert_eq!(e.upcall_port, Some(5));
    assert_eq!(e.port, None);
    assert_eq!(e.upcall_ts, Some(987_654_321));
    assert_eq!(e.upcall_cpu, Some(3));
    assert_eq!(e.queue_id, Some(8));
    assert_eq!(e.event_type.as_deref(), Some("upcall_enqueue"));
    buf.push(0);
    assert_eq!(
        unmarshall_upcall_enqueue(&buf, &mut e),
        Err(DecodeError::SizeMismatch { expected: 25, actual: 26 })
    );
}

#[test]
fn upcall_return_fields() {
    let mut buf = Vec::new();
    buf.extend_from_slice(&55u64.to_le_bytes());
    buf.extend_from_slice(&2u32.to_le_bytes());
    buf.extend_from_slice(&i32::MIN.to_le_bytes());
    let mut e = OvsEvent::new();
    assert_eq!(unmarshall_upcall_return(&buf, &mut e), Ok(()));
    assert_eq!(e.upcall_ts, Some(55));
    assert_eq!(e.upcall_cpu, Some(2));
    assert_eq!(e.return_code, Some(i32::MIN));
    assert_eq!(e.event_type.as_deref(), Some("upcall_return"));
    assert_eq!(
        unmarshall_upcall_return(&buf[..15], &mut e),
        Err(DecodeError::SizeMismatch { expected: 16, actual: 15 })
    );
}

#[test]
fn last_decoder_sets_kind() {
    let mut e = OvsEvent::new();
    assert_eq!(unmarshall_upcall(&[1u8, 7, 0, 0, 0, 2, 0, 0, 0], &mut e), Ok(()));
    assert_eq!(unmarshall_recv(&recv_bytes(), &mut e), Ok(()));
    assert_eq!(e.event_type.as_deref(), Some("recv_upcall"));
    assert_eq!(e.cmd, Some(1));
    assert_eq!(e.port, Some(7));
    assert_eq!(e.pkt_size, Some(1500));
}
