//! What happens to one datagram: it is decoded, and a decoded packet is
//! routed to the broadcast hub, the persistence buffer, both or neither.

use vstd::prelude::*;
use crate::dispatch::{Decoded, TelemetryPacket, datagram_outcome};
use crate::error::DecodeError;
use crate::events::{Event, event_of};
use crate::packets::header::{PacketType, header_of};
use crate::persistence::{TelemetryRow, row_of};

verus! {

/// Where one decoded packet goes.
#[derive(Clone, Copy, PartialEq, Eq, Debug)]
pub struct Routing {
    /// The event to publish and to keep in the history, if any.
    pub event: Option<Event>,
    /// The row to buffer for persistence, if any.
    pub row: Option<TelemetryRow>,
}

/// The routing of a packet: its event where its kind has one, and a row for
/// each telemetry sample.
pub open spec fn routing_of(p: TelemetryPacket) -> Routing {
    Routing {
        event: event_of(p),
        row: match p {
            TelemetryPacket::CarTelemetry((h, t)) => Some(row_of(h, t)),
            _ => None,
        },
    }
}

/// A routing that sends nothing anywhere.
pub open spec fn nowhere() -> Routing {
    Routing { event: None, row: None }
}

/// How the outcome of decoding a datagram is routed: a packet by its kind, a
/// skipped kind nowhere, and an error stays an error.
pub open spec fn routed(d: Result<Decoded, DecodeError>) -> Result<Routing, DecodeError> {
    match d {
        Ok(Decoded::Packet(p)) => Ok(routing_of(p)),
        Ok(Decoded::Skipped(_)) => Ok(nowhere()),
        Err(e) => Err(e),
    }
}

/// Decides where a decoded packet goes.
pub fn route(p: &TelemetryPacket) -> (r: Routing)
    ensures
        r == routing_of(*p),
{
    let event = match Event::try_from(*p) {
        Ok(e) => Some(e),
        Err(_) => None,
    };
    let row = match p {
        TelemetryPacket::CarTelemetry((h, t)) => Some(TelemetryRow::from_sample(h, t)),
        _ => None,
    };
    Routing { event, row }
}

/// Decodes one datagram and decides where it goes. A decode error concerns
/// this datagram alone and is handed back to be reported.
pub fn ingest(datagram: &[u8]) -> (r: Result<Routing, DecodeError>)
    ensures
        exists|d: Result<Decoded, DecodeError>| #[trigger]
            datagram_outcome(datagram@, d) && r == routed(d),
{
    let d = TelemetryPacket::try_from(datagram);
    let r = match d {
        Ok(Decoded::Packet(p)) => Ok(route(&p)),
        Ok(Decoded::Skipped(_)) => Ok(Routing { event: None, row: None }),
        Err(e) => Err(e),
    };
    assert(datagram_outcome(datagram@, d) && r == routed(d));
    r
}

/// A datagram whose header names the lobby packet kind is skipped: decoding
/// it is no error, and it is routed nowhere.
pub proof fn lemma_lobby_info_skipped(s: Seq<u8>, d: Result<Decoded, DecodeError>)
    requires
        s.len() >= 29,
        s[6] == 9,
        datagram_outcome(s, d),
    ensures
        d == Ok::<Decoded, DecodeError>(Decoded::Skipped(PacketType::LobbyInfo)),
        routed(d) == Ok::<Routing, DecodeError>(nowhere()),
{
    assert(header_of(s) matches Ok(h) && h.packet_id == PacketType::LobbyInfo);
}

} // verus!
