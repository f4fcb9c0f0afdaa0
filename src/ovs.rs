//! Raw sections of the Open vSwitch datapath probes, and their decoding into
//! an [`OvsEvent`].
use vstd::prelude::*;

use crate::layout::{
    i32_bytes, le_i32, le_u32, le_u64, lemma_i32_round_trip, lemma_u32_round_trip,
    lemma_u64_round_trip, parse_raw_section, read_i32, read_u32, read_u64, read_u8, spec_parse,
    u32_bytes, u64_bytes, DecodeError, RawLayout,
};

verus! {

/// Types of events that the ovs probes generate.
#[derive(Debug, Clone, Copy, PartialEq, Eq, Structural)]
pub enum OvsEventType {
    /// Upcall tracepoint.
    Upcall,
    /// Upcall enqueue kretprobe.
    UpcallEnqueue,
    /// Upcall return.
    UpcallReturn,
    /// Upcall received in userspace.
    RecvUpcall,
    /// Flow operation.
    Operation,
    /// Execute action tracepoint.
    ActionExec,
    /// Execute action tracking.
    ActionExecTrack,
    /// OUTPUT action specific data.
    OutputAction,
}

impl OvsEventType {
    /// The tag that the probes give this event type.
    pub open spec fn spec_code(self) -> u8 {
        match self {
            OvsEventType::Upcall => 0,
            OvsEventType::UpcallEnqueue => 1,
            OvsEventType::UpcallReturn => 2,
            OvsEventType::RecvUpcall => 3,
            OvsEventType::Operation => 4,
            OvsEventType::ActionExec => 5,
            OvsEventType::ActionExecTrack => 6,
            OvsEventType::OutputAction => 7,
        }
    }

    pub fn from_u8(val: u8) -> (r: Result<OvsEventType, DecodeError>)
        ensures
            r is Ok <==> val < 8,
            r is Ok ==> r->Ok_0.spec_code() == val,
            r is Err ==> r == Err::<OvsEventType, DecodeError>(DecodeError::UnknownEventType(val)),
    {
        match val {
            0 => Ok(OvsEventType::Upcall),
            1 => Ok(OvsEventType::UpcallEnqueue),
            2 => Ok(OvsEventType::UpcallReturn),
            3 => Ok(OvsEventType::RecvUpcall),
            4 => Ok(OvsEventType::Operation),
            5 => Ok(OvsEventType::ActionExec),
            6 => Ok(OvsEventType::ActionExecTrack),
            7 => Ok(OvsEventType::OutputAction),
            x => Err(DecodeError::UnknownEventType(x)),
        }
    }
}

/// The name of an action code of `enum ovs_action_attr`, for the codes that
/// the table knows.
pub open spec fn spec_action_name(code: u8) -> Option<Seq<char>> {
    match code {
        0 => Some("unspecified"@),
        1 => Some("output"@),
        2 => Some("userspace"@),
        3 => Some("set"@),
        4 => Some("push_vlan"@),
        5 => Some("pop_vlan"@),
        6 => Some("sample"@),
        7 => Some("recirc"@),
        8 => Some("hash"@),
        9 => Some("push_mpls"@),
        10 => Some("pop_mpls"@),
        11 => Some("set_masked"@),
        12 => Some("ct"@),
        13 => Some("trunc"@),
        14 => Some("push_eth"@),
        15 => Some("pop_eth"@),
        16 => Some("ct_clear"@),
        17 => Some("push_nsh"@),
        18 => Some("pop_nsh"@),
        19 => Some("meter"@),
        20 => Some("clone"@),
        21 => Some("check_pkt_len"@),
        22 => Some("add_mpls"@),
        23 => Some("dec_ttl"@),
        _ => None,
    }
}

/// Looks up the name of an action code (values of `enum ovs_action_attr` in
/// uapi/linux/openvswitch.h).
pub fn action_name(code: u8) -> (r: Option<&'static str>)
    ensures
        r is Some <==> code <= 23,
        r is Some <==> spec_action_name(code) is Some,
        r is Some ==> r->0@ == spec_action_name(code)->0,
{
    match code {
        0 => Some("unspecified"),
        1 => Some("output"),
        2 => Some("userspace"),
        3 => Some("set"),
        4 => Some("push_vlan"),
        5 => Some("pop_vlan"),
        6 => Some("sample"),
        7 => Some("recirc"),
        8 => Some("hash"),
        9 => Some("push_mpls"),
        10 => Some("pop_mpls"),
        11 => Some("set_masked"),
        12 => Some("ct"),
        13 => Some("trunc"),
        14 => Some("push_eth"),
        15 => Some("pop_eth"),
        16 => Some("ct_clear"),
        17 => Some("push_nsh"),
        18 => Some("pop_nsh"),
        19 => Some("meter"),
        20 => Some("clone"),
        21 => Some("check_pkt_len"),
        22 => Some("add_mpls"),
        23 => Some("dec_ttl"),
        _ => None,
    }
}

/// The name of a flow operation type, for the codes that the table knows.
pub open spec fn spec_operation_name(code: u8) -> Option<Seq<char>> {
    match code {
        0 => Some("exec"@),
        1 => Some("put"@),
        _ => None,
    }
}

/// Looks up the name of a flow operation type.
pub fn operation_name(code: u8) -> (r: Option<&'static str>)
    ensures
        r is Some <==> code <= 1,
        r is Some <==> spec_operation_name(code) is Some,
        r is Some ==> r->0@ == spec_operation_name(code)->0,
{
    match code {
        0 => Some("exec"),
        1 => Some("put"),
        _ => None,
    }
}

/// The ovs event record. Every field is absent until a decoded section
/// fills it; decoding never clears a field.
#[derive(Debug, Clone, Default)]
pub struct OvsEvent {
    /// The kind of the probe that contributed last.
    pub event_type: Option<String>,
    pub cmd: Option<u8>,
    pub port: Option<u32>,
    pub cpu: Option<u32>,
    pub action: Option<String>,
    pub recirculation_id: Option<u32>,
    pub queue_id: Option<u32>,
    pub upcall_type: Option<u32>,
    pub pkt_size: Option<u32>,
    pub key_size: Option<u64>,
    pub batch_ts: Option<u64>,
    pub batch_idx: Option<u8>,
    pub op_type: Option<String>,
    pub ret: Option<i32>,
    pub upcall_port: Option<u32>,
    pub upcall_ts: Option<u64>,
    pub upcall_cpu: Option<u32>,
    pub return_code: Option<i32>,
}

/// An [`OvsEvent`] with its strings seen as character sequences.
pub struct OvsEventModel {
    pub event_type: Option<Seq<char>>,
    pub cmd: Option<u8>,
    pub port: Option<u32>,
    pub cpu: Option<u32>,
    pub action: Option<Seq<char>>,
    pub recirculation_id: Option<u32>,
    pub queue_id: Option<u32>,
    pub upcall_type: Option<u32>,
    pub pkt_size: Option<u32>,
    pub key_size: Option<u64>,
    pub batch_ts: Option<u64>,
    pub batch_idx: Option<u8>,
    pub op_type: Option<Seq<char>>,
    pub ret: Option<i32>,
    pub upcall_port: Option<u32>,
    pub upcall_ts: Option<u64>,
    pub upcall_cpu: Option<u32>,
    pub return_code: Option<i32>,
}

/// The characters of an optional string.
pub open spec fn opt_view(s: Option<String>) -> Option<Seq<char>> {
    match s {
        Some(v) => Some(v@),
        None => None,
    }
}

impl View for OvsEvent {
    type V = OvsEventModel;

    open spec fn view(&self) -> OvsEventModel {
        OvsEventModel {
            event_type: opt_view(self.event_type),
            cmd: self.cmd,
            port: self.port,
            cpu: self.cpu,
            action: opt_view(self.action),
            recirculation_id: self.recirculation_id,
            queue_id: self.queue_id,
            upcall_type: self.upcall_type,
            pkt_size: self.pkt_size,
            key_size: self.key_size,
            batch_ts: self.batch_ts,
            batch_idx: self.batch_idx,
            op_type: opt_view(self.op_type),
            ret: self.ret,
            upcall_port: self.upcall_port,
            upcall_ts: self.upcall_ts,
            upcall_cpu: self.upcall_cpu,
            return_code: self.return_code,
        }
    }
}

impl OvsEvent {
    /// A record with no field filled.
    pub fn new() -> (r: OvsEvent)
        ensures
            r@ == OvsEvent::spec_empty(),
    {
        OvsEvent {
            event_type: None,
            cmd: None,
            port: None,
            cpu: None,
            action: None,
            recirculation_id: None,
            queue_id: None,
            upcall_type: None,
            pkt_size: None,
            key_size: None,
            batch_ts: None,
            batch_idx: None,
            op_type: None,
            ret: None,
            upcall_port: None,
            upcall_ts: None,
            upcall_cpu: None,
            return_code: None,
        }
    }

    pub open spec fn spec_empty() -> OvsEventModel {
        OvsEventModel {
            event_type: None,
            cmd: None,
            port: None,
            cpu: None,
            action: None,
            recirculation_id: None,
            queue_id: None,
            upcall_type: None,
            pkt_size: None,
            key_size: None,
            batch_ts: None,
            batch_idx: None,
            op_type: None,
            ret: None,
            upcall_port: None,
            upcall_ts: None,
            upcall_cpu: None,
            return_code: None,
        }
    }
}

/// OVS upcall data: 9 bytes.
#[derive(Debug, Clone, Copy, PartialEq, Eq, Structural)]
pub struct UpcallEvent {
    /// Upcall command, an `OVS_PACKET_CMD` value (unspec, miss, action, execute).
    pub cmd: u8,
    /// Upcall port.
    pub port: u32,
    /// Cpu id.
    pub cpu: u32,
}

impl RawLayout for UpcallEvent {
    open spec fn spec_size() -> nat {
        9
    }

    open spec fn spec_decode(b: Seq<u8>) -> UpcallEvent {
        UpcallEvent { cmd: b[0], port: le_u32(b, 1), cpu: le_u32(b, 5) }
    }

    open spec fn spec_encode(self) -> Seq<u8> {
        seq![self.cmd] + u32_bytes(self.port) + u32_bytes(self.cpu)
    }

    fn size() -> (r: usize) {
        9
    }

    fn decode_exact(b: &[u8]) -> (r: UpcallEvent) {
        UpcallEvent { cmd: read_u8(b, 0), port: read_u32(b, 1), cpu: read_u32(b, 5) }
    }

    proof fn lemma_round_trip(self) {
        let e = self.spec_encode();
        assert(e.subrange(1, 5) =~= u32_bytes(self.port));
        assert(e.subrange(5, 9) =~= u32_bytes(self.cpu));
        lemma_u32_round_trip(self.port, e, 1);
        lemma_u32_round_trip(self.cpu, e, 5);
    }
}

/// Decodes an upcall section into `event`.
pub fn unmarshall_upcall(raw_section: &[u8], event: &mut OvsEvent) -> (r: Result<(), DecodeError>)
    ensures
        match spec_parse::<UpcallEvent>(raw_section@) {
            Ok(raw) => r is Ok && final(event)@ == (OvsEventModel {
                port: Some(raw.port),
                cmd: Some(raw.cmd),
                cpu: Some(raw.cpu),
                event_type: Some("upcall"@),
                ..old(event)@
            }),
            Err(e) => r == Err::<(), DecodeError>(e) && *final(event) == *old(event),
        },
{
    let raw = match parse_raw_section::<UpcallEvent>(raw_section) {
        Ok(raw) => raw,
        Err(e) => return Err(e),
    };
    event.port = Some(raw.port);
    event.cmd = Some(raw.cmd);
    event.cpu = Some(raw.cpu);
    event.event_type = Some("upcall".to_owned());
    Ok(())
}

/// OVS action execution data: 5 bytes.
#[derive(Debug, Clone, Copy, PartialEq, Eq, Structural)]
pub struct ActionEvent {
    /// Action to be executed.
    pub action: u8,
    /// Recirculation id.
    pub recirc_id: u32,
}

impl RawLayout for ActionEvent {
    open spec fn spec_size() -> nat {
        5
    }

    open spec fn spec_decode(b: Seq<u8>) -> ActionEvent {
        ActionEvent { action: b[0], recirc_id: le_u32(b, 1) }
    }

    open spec fn spec_encode(self) -> Seq<u8> {
        seq![self.action] + u32_bytes(self.recirc_id)
    }

    fn size() -> (r: usize) {
        5
    }

    fn decode_exact(b: &[u8]) -> (r: ActionEvent) {
        ActionEvent { action: read_u8(b, 0), recirc_id: read_u32(b, 1) }
    }

    proof fn lemma_round_trip(self) {
        let e = self.spec_encode();
        assert(e.subrange(1, 5) =~= u32_bytes(self.recirc_id));
        lemma_u32_round_trip(self.recirc_id, e, 1);
    }
}

/// Decodes an action execution section into `event`, naming the action.
pub fn unmarshall_exec(raw_section: &[u8], event: &mut OvsEvent) -> (r: Result<(), DecodeError>)
    ensures
        match spec_parse::<ActionEvent>(raw_section@) {
            Ok(raw) => match spec_action_name(raw.action) {
                Some(name) => r is Ok && final(event)@ == (OvsEventModel {
                    action: Some(name),
                    recirculation_id: Some(raw.recirc_id),
                    event_type: Some("action_execute"@),
                    ..old(event)@
                }),
                None => r == Err::<(), DecodeError>(DecodeError::UnsupportedAction(raw.action))
                    && *final(event) == *old(event),
            },
            Err(e) => r == Err::<(), DecodeError>(e) && *final(event) == *old(event),
        },
{
    let raw = match parse_raw_section::<ActionEvent>(raw_section) {
        Ok(raw) => raw,
        Err(e) => return Err(e),
    };
    let action_str = match action_name(raw.action) {
        Some(name) => name,
        None => return Err(DecodeError::UnsupportedAction(raw.action)),
    };
    event.action = Some(action_str.to_owned());
    event.recirculation_id = Some(raw.recirc_id);
    event.event_type = Some("action_execute".to_owned());
    Ok(())
}

/// OVS action tracking data: 4 bytes.
#[derive(Debug, Clone, Copy, PartialEq, Eq, Structural)]
pub struct ActionTrackEvent {
    /// Queue id.
    pub queue_id: u32,
}

impl RawLayout for ActionTrackEvent {
    open spec fn spec_size() -> nat {
        4
    }

    open spec fn spec_decode(b: Seq<u8>) -> ActionTrackEvent {
        ActionTrackEvent { queue_id: le_u32(b, 0) }
    }

    open spec fn spec_encode(self) -> Seq<u8> {
        u32_bytes(self.queue_id)
    }

    fn size() -> (r: usize) {
        4
    }

    fn decode_exact(b: &[u8]) -> (r: ActionTrackEvent) {
        ActionTrackEvent { queue_id: read_u32(b, 0) }
    }

    proof fn lemma_round_trip(self) {
        let e = self.spec_encode();
        assert(e.subrange(0, 4) =~= e);
        lemma_u32_round_trip(self.queue_id, e, 0);
    }
}

/// Decodes an action tracking section into `event`. The kind is left as it
/// was.
pub fn unmarshall_exec_track(raw_section: &[u8], event: &mut OvsEvent) -> (r: Result<(), DecodeError>)
    ensures
        match spec_parse::<ActionTrackEvent>(raw_section@) {
            Ok(raw) => r is Ok && final(event)@ == (OvsEventModel {
                queue_id: Some(raw.queue_id),
                ..old(event)@
            }),
            Err(e) => r == Err::<(), DecodeError>(e) && *final(event) == *old(event),
        },
{
    let raw = match parse_raw_section::<ActionTrackEvent>(raw_section) {
        Ok(raw) => raw,
        Err(e) => return Err(e),
    };
    event.queue_id = Some(raw.queue_id);
    Ok(())
}

/// OVS output action data: 4 bytes.
#[derive(Debug, Clone, Copy, PartialEq, Eq, Structural)]
pub struct OutputAction {
    /// Output port.
    pub port: u32,
}

impl RawLayout for OutputAction {
    open spec fn spec_size() -> nat {
        4
    }

    open spec fn spec_decode(b: Seq<u8>) -> OutputAction {
        OutputAction { port: le_u32(b, 0) }
    }

    open spec fn spec_encode(self) -> Seq<u8> {
        u32_bytes(self.port)
    }

    fn size() -> (r: usize) {
        4
    }

    fn decode_exact(b: &[u8]) -> (r: OutputAction) {
        OutputAction { port: read_u32(b, 0) }
    }

    proof fn lemma_round_trip(self) {
        let e = self.spec_encode();
        assert(e.subrange(0, 4) =~= e);
        lemma_u32_round_trip(self.port, e, 0);
    }
}

/// Decodes an output action section into `event`. The kind is left as it
/// was.
pub fn unmarshall_output(raw_section: &[u8], event: &mut OvsEvent) -> (r: Result<(), DecodeError>)
    ensures
        match spec_parse::<OutputAction>(raw_section@) {
            Ok(raw) => r is Ok && final(event)@ == (OvsEventModel {
                port: Some(raw.port),
                ..old(event)@
            }),
            Err(e) => r == Err::<(), DecodeError>(e) && *final(event) == *old(event),
        },
{
    let raw = match parse_raw_section::<OutputAction>(raw_section) {
        Ok(raw) => raw,
        Err(e) => return Err(e),
    };
    event.port = Some(raw.port);
    Ok(())
}

/// OVS data of an upcall received in userspace: 29 bytes.
#[derive(Debug, Clone, Copy, PartialEq, Eq, Structural)]
pub struct RecvUpcall {
    pub upcall_type: u32,
    pub pkt_size: u32,
    pub key_size: u64,
    pub queue_id: u32,
    pub batch_ts: u64,
    pub batch_idx: u8,
}

impl RawLayout for RecvUpcall {
    open spec fn spec_size() -> nat {
        29
    }

    open spec fn spec_decode(b: Seq<u8>) -> RecvUpcall {
        RecvUpcall {
            upcall_type: le_u32(b, 0),
            pkt_size: le_u32(b, 4),
            key_size: le_u64(b, 8),
            queue_id: le_u32(b, 16),
            batch_ts: le_u64(b, 20),
            batch_idx: b[28],
        }
    }

    open spec fn spec_encode(self) -> Seq<u8> {
        u32_bytes(self.upcall_type) + u32_bytes(self.pkt_size) + u64_bytes(self.key_size)
            + u32_bytes(self.queue_id) + u64_bytes(self.batch_ts) + seq![self.batch_idx]
    }

    fn size() -> (r: usize) {
        29
    }

    fn decode_exact(b: &[u8]) -> (r: RecvUpcall) {
        RecvUpcall {
            upcall_type: read_u32(b, 0),
            pkt_size: read_u32(b, 4),
            key_size: read_u64(b, 8),
            queue_id: read_u32(b, 16),
            batch_ts: read_u64(b, 20),
            batch_idx: read_u8(b, 28),
        }
    }

    proof fn lemma_round_trip(self) {
        let e = self.spec_encode();
        assert(e.subrange(0, 4) =~= u32_bytes(self.upcall_type));
        assert(e.subrange(4, 8) =~= u32_bytes(self.pkt_size));
        assert(e.subrange(8, 16) =~= u64_bytes(self.key_size));
        assert(e.subrange(16, 20) =~= u32_bytes(self.queue_id));
        assert(e.subrange(20, 28) =~= u64_bytes(self.batch_ts));
        lemma_u32_round_trip(self.upcall_type, e, 0);
        lemma_u32_round_trip(self.pkt_size, e, 4);
        lemma_u64_round_trip(self.key_size, e, 8);
        lemma_u32_round_trip(self.queue_id, e, 16);
        lemma_u64_round_trip(self.batch_ts, e, 20);
        assert(e[28] == self.batch_idx);
    }
}

/// Decodes the section of an upcall received in userspace into `event`.
pub fn unmarshall_recv(raw_section: &[u8], event: &mut OvsEvent) -> (r: Result<(), DecodeError>)
    ensures
        match spec_parse::<RecvUpcall>(raw_section@) {
            Ok(raw) => r is Ok && final(event)@ == (OvsEventModel {
                upcall_type: Some(raw.upcall_type),
                pkt_size: Some(raw.pkt_size),
                key_size: Some(raw.key_size),
                queue_id: Some(raw.queue_id),
                batch_ts: Some(raw.batch_ts),
                batch_idx: Some(raw.batch_idx),
                event_type: Some("recv_upcall"@),
                ..old(event)@
            }),
            Err(e) => r == Err::<(), DecodeError>(e) && *final(event) == *old(event),
        },
{
    let raw = match parse_raw_section::<RecvUpcall>(raw_section) {
        Ok(raw) => raw,
        Err(e) => return Err(e),
    };
    event.upcall_type = Some(raw.upcall_type);
    event.pkt_size = Some(raw.pkt_size);
    event.key_size = Some(raw.key_size);
    event.queue_id = Some(raw.queue_id);
    event.batch_ts = Some(raw.batch_ts);
    event.batch_idx = Some(raw.batch_idx);
    event.event_type = Some("recv_upcall".to_owned());
    Ok(())
}

/// OVS flow operation data: 14 bytes.
#[derive(Debug, Clone, Copy, PartialEq, Eq, Structural)]
pub struct OvsOperation {
    pub op_type: u8,
    pub queue_id: u32,
    pub batch_ts: u64,
    pub batch_idx: u8,
}

impl RawLayout for OvsOperation {
    open spec fn spec_size() -> nat {
        14
    }

    open spec fn spec_decode(b: Seq<u8>) -> OvsOperation {
        OvsOperation {
            op_type: b[0],
            queue_id: le_u32(b, 1),
            batch_ts: le_u64(b, 5),
            batch_idx: b[13],
        }
    }

    open spec fn spec_encode(self) -> Seq<u8> {
        seq![self.op_type] + u32_bytes(self.queue_id) + u64_bytes(self.batch_ts)
            + seq![self.batch_idx]
    }

    fn size() -> (r: usize) {
        14
    }

    fn decode_exact(b: &[u8]) -> (r: OvsOperation) {
        OvsOperation {
            op_type: read_u8(b, 0),
            queue_id: read_u32(b, 1),
            batch_ts: read_u64(b, 5),
            batch_idx: read_u8(b, 13),
        }
    }

    proof fn lemma_round_trip(self) {
        let e = self.spec_encode();
        assert(e.subrange(1, 5) =~= u32_bytes(self.queue_id));
        assert(e.subrange(5, 13) =~= u64_bytes(self.batch_ts));
        lemma_u32_round_trip(self.queue_id, e, 1);
        lemma_u64_round_trip(self.batch_ts, e, 5);
        assert(e[0] == self.op_type);
        assert(e[13] == self.batch_idx);
    }
}

/// Decodes a flow operation section into `event`, naming the operation.
pub fn unmarshall_operation(raw_section: &[u8], event: &mut OvsEvent) -> (r: Result<(), DecodeError>)
    ensures
        match spec_parse::<OvsOperation>(raw_section@) {
            Ok(raw) => match spec_operation_name(raw.op_type) {
                Some(name) => r is Ok && final(event)@ == (OvsEventModel {
                    op_type: Some(name),
                    queue_id: Some(raw.queue_id),
                    batch_ts: Some(raw.batch_ts),
                    batch_idx: Some(raw.batch_idx),
                    event_type: Some("flow_operation"@),
                    ..old(event)@
                }),
                None => r == Err::<(), DecodeError>(DecodeError::UnknownOperation(raw.op_type))
                    && *final(event) == *old(event),
            },
            Err(e) => r == Err::<(), DecodeError>(e) && *final(event) == *old(event),
        },
{
    let raw = match parse_raw_section::<OvsOperation>(raw_section) {
        Ok(raw) => raw,
        Err(e) => return Err(e),
    };
    let op = match operation_name(raw.op_type) {
        Some(name) => name,
        None => return Err(DecodeError::UnknownOperation(raw.op_type)),
    };
    event.op_type = Some(op.to_owned());
    event.queue_id = Some(raw.queue_id);
    event.batch_ts = Some(raw.batch_ts);
    event.batch_idx = Some(raw.batch_idx);
    event.event_type = Some("flow_operation".to_owned());
    Ok(())
}

/// Upcall enqueue data: 25 bytes.
#[derive(Debug, Clone, Copy, PartialEq, Eq, Structural)]
pub struct UpcallEnqueue {
    pub ret: i32,
    pub cmd: u8,
    pub port: u32,
    pub upcall_ts: u64,
    pub upcall_cpu: u32,
    pub queue_id: u32,
}

impl RawLayout for UpcallEnqueue {
    open spec fn spec_size() -> nat {
        25
    }

    open spec fn spec_decode(b: Seq<u8>) -> UpcallEnqueue {
        UpcallEnqueue {
            ret: le_i32(b, 0),
            cmd: b[4],
            port: le_u32(b, 5),
            upcall_ts: le_u64(b, 9),
            upcall_cpu: le_u32(b, 17),
            queue_id: le_u32(b, 21),
        }
    }

    open spec fn spec_encode(self) -> Seq<u8> {
        i32_bytes(self.ret) + seq![self.cmd] + u32_bytes(self.port) + u64_bytes(self.upcall_ts)
            + u32_bytes(self.upcall_cpu) + u32_bytes(self.queue_id)
    }

    fn size() -> (r: usize) {
        25
    }

    fn decode_exact(b: &[u8]) -> (r: UpcallEnqueue) {
        UpcallEnqueue {
            ret: read_i32(b, 0),
            cmd: read_u8(b, 4),
            port: read_u32(b, 5),
            upcall_ts: read_u64(b, 9),
            upcall_cpu: read_u32(b, 17),
            queue_id: read_u32(b, 21),
        }
    }

    proof fn lemma_round_trip(self) {
        let e = self.spec_encode();
        assert(e.subrange(0, 4) =~= i32_bytes(self.ret));
        assert(e.subrange(5, 9) =~= u32_bytes(self.port));
        assert(e.subrange(9, 17) =~= u64_bytes(self.upcall_ts));
        assert(e.subrange(17, 21) =~= u32_bytes(self.upcall_cpu));
        assert(e.subrange(21, 25) =~= u32_bytes(self.queue_id));
        lemma_i32_round_trip(self.ret, e, 0);
        lemma_u32_round_trip(self.port, e, 5);
        lemma_u64_round_trip(self.upcall_ts, e, 9);
        lemma_u32_round_trip(self.upcall_cpu, e, 17);
        lemma_u32_round_trip(self.queue_id, e, 21);
        assert(e[4] == self.cmd);
    }
}

/// Decodes an upcall enqueue section into `event`.
pub fn unmarshall_upcall_enqueue(raw_section: &[u8], event: &mut OvsEvent) -> (r: Result<
    (),
    DecodeError,
>)
    ensures
        match spec_parse::<UpcallEnqueue>(raw_section@) {
            Ok(raw) => r is Ok && final(event)@ == (OvsEventModel {
                ret: Some(raw.ret),
                upcall_port: Some(raw.port),
                cmd: Some(raw.cmd),
                upcall_ts: Some(raw.upcall_ts),
                upcall_cpu: Some(raw.upcall_cpu),
                queue_id: Some(raw.queue_id),
                event_type: Some("upcall_enqueue"@),
                ..old(event)@
            }),
            Err(e) => r == Err::<(), DecodeError>(e) && *final(event) == *old(event),
        },
{
    let raw = match parse_raw_section::<UpcallEnqueue>(raw_section) {
        Ok(raw) => raw,
        Err(e) => return Err(e),
    };
    event.ret = Some(raw.ret);
    event.upcall_port = Some(raw.port);
    event.cmd = Some(raw.cmd);
    event.upcall_ts = Some(raw.upcall_ts);
    event.upcall_cpu = Some(raw.upcall_cpu);
    event.queue_id = Some(raw.queue_id);
    event.event_type = Some("upcall_enqueue".to_owned());
    Ok(())
}

/// Upcall return data: 16 bytes.
#[derive(Debug, Clone, Copy, PartialEq, Eq, Structural)]
pub struct UpcallReturn {
    pub upcall_ts: u64,
    pub upcall_cpu: u32,
    pub ret_code: i32,
}

impl RawLayout for UpcallReturn {
    open spec fn spec_size() -> nat {
        16
    }

    open spec fn spec_decode(b: Seq<u8>) -> UpcallReturn {
        UpcallReturn { upcall_ts: le_u64(b, 0), upcall_cpu: le_u32(b, 8), ret_code: le_i32(b, 12) }
    }

    open spec fn spec_encode(self) -> Seq<u8> {
        u64_bytes(self.upcall_ts) + u32_bytes(self.upcall_cpu) + i32_bytes(self.ret_code)
    }

    fn size() -> (r: usize) {
        16
    }

    fn decode_exact(b: &[u8]) -> (r: UpcallReturn) {
        UpcallReturn {
            upcall_ts: read_u64(b, 0),
            upcall_cpu: read_u32(b, 8),
            ret_code: read_i32(b, 12),
        }
    }

    proof fn lemma_round_trip(self) {
        let e = self.spec_encode();
        assert(e.subrange(0, 8) =~= u64_bytes(self.upcall_ts));
        assert(e.subrange(8, 12) =~= u32_bytes(self.upcall_cpu));
        assert(e.subrange(12, 16) =~= i32_bytes(self.ret_code));
        lemma_u64_round_trip(self.upcall_ts, e, 0);
        lemma_u32_round_trip(self.upcall_cpu, e, 8);
        lemma_i32_round_trip(self.ret_code, e, 12);
    }
}

/// Decodes an upcall return section into `event`.
pub fn unmarshall_upcall_return(raw_section: &[u8], event: &mut OvsEvent) -> (r: Result<
    (),
    DecodeError,
>)
    ensures
        match spec_parse::<UpcallReturn>(raw_section@) {
            Ok(raw) => r is Ok && final(event)@ == (OvsEventModel {
                upcall_ts: Some(raw.upcall_ts),
                upcall_cpu: Some(raw.upcall_cpu),
                return_code: Some(raw.ret_code),
                event_type: Some("upcall_return"@),
                ..old(event)@
            }),
            Err(e) => r == Err::<(), DecodeError>(e) && *final(event) == *old(event),
        },
{
    let raw = match parse_raw_section::<UpcallReturn>(raw_section) {
        Ok(raw) => raw,
        Err(e) => return Err(e),
    };
    event.upcall_ts = Some(raw.upcall_ts);
    event.upcall_cpu = Some(raw.upcall_cpu);
    event.return_code = Some(raw.ret_code);
    event.event_type = Some("upcall_return".to_owned());
    Ok(())
}

} // verus!
