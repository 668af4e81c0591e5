//! u-blox M10 GNSS receiver driver (UBX protocol), written for the
//! MIA-M10Q module.
//!
//! Transport-agnostic by design: the receiver speaks UBX over UART (or
//! I2C), but this module never owns an interface. It encodes frames into
//! caller buffers and decodes bytes the caller feeds in.
//!
//! The [`frame`] layer reaches the whole UBX protocol: any message can be
//! built with [`frame::encode`] or polled with [`encode_poll`], and any
//! reply surfaces through [`frame::Parser`]. Typed helpers exist for
//! configuration ([`cfg`]), the position/velocity/time solution
//! ([`nav`]), acknowledgements and the power-down request.

use vstd::prelude::*;

pub mod cfg;
pub mod class;
pub mod dynmodel;
pub mod frame;
pub mod key;
pub mod msg;
pub mod nav;

verus! {

/// Outcome of an ACK-ACK / ACK-NAK frame: which message the receiver is
/// answering, and whether it accepted it.
#[derive(Debug, Clone, Copy, PartialEq, Eq, Structural)]
pub struct Ack {
    /// Class of the acknowledged message.
    pub class: u8,
    /// Id of the acknowledged message.
    pub id: u8,
    /// `true` for ACK-ACK, `false` for ACK-NAK.
    pub ok: bool,
}

/// Interpret a parsed frame as an acknowledgement, if it is one. The
/// two-byte payload names the acknowledged message.
pub fn parse_ack(class: u8, id: u8, payload: &[u8]) -> (r: Option<Ack>)
    ensures
        r == (if class == class::ACK && payload@.len() >= 2 {
            Some(Ack { class: payload@[0], id: payload@[1], ok: id == msg::ACK_ACK })
        } else {
            None
        }),
        r is Some <==> class == 0x05 && payload@.len() >= 2,
        r matches Some(a) ==> a.class == payload@[0] && a.id == payload@[1] && a.ok == (id == 0x01),
{
    if class != class::ACK || payload.len() < 2 {
        return None;
    }
    Some(Ack { class: payload[0], id: payload[1], ok: id == msg::ACK_ACK })
}

/// Encode a poll request for any message: a frame with the target
/// class/id and an empty payload. The receiver answers with the same
/// message populated. Needs an 8-byte buffer.
pub fn encode_poll<'a>(class: u8, id: u8, buf: &'a mut [u8]) -> (r: Option<&'a [u8]>)
    ensures
        frame::encoded(class, id, Seq::empty(), old(buf)@, final(buf)@, r),
{
    let empty: [u8; 0] = [];
    assert(empty@ =~= Seq::<u8>::empty());
    frame::encode(class, id, &empty, buf)
}

/// The UBX-RXM-PMREQ payload that asks for software standby: version 0,
/// indefinite duration, flags `backup` and `force`, woken by the UART RX
/// pin.
pub open spec fn pmreq_backup_payload() -> Seq<u8> {
    seq![0, 0, 0, 0, 0, 0, 0, 0, 0x06, 0, 0, 0, 0x08, 0, 0, 0]
}

/// Encode UBX-RXM-PMREQ requesting software standby ("backup mode"):
/// indefinite duration, woken by an edge on the UART RX pin. The `force`
/// flag is required to enter the state. Needs a 24-byte buffer.
pub fn encode_pmreq_backup<'a>(buf: &'a mut [u8]) -> (r: Option<&'a [u8]>)
    ensures
        frame::encoded(class::RXM, msg::RXM_PMREQ, pmreq_backup_payload(), old(buf)@, final(buf)@, r),
        frame::encoded(0x02, 0x41, pmreq_backup_payload(), old(buf)@, final(buf)@, r),
{
    let payload: [u8; 16] = [0, 0, 0, 0, 0, 0, 0, 0, 0x06, 0, 0, 0, 0x08, 0, 0, 0];
    assert(payload@ =~= pmreq_backup_payload());
    frame::encode(class::RXM, msg::RXM_PMREQ, &payload, buf)
}

} // verus!
