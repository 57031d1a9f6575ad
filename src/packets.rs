//! The fixed-layout packets of the protocol, one module per packet kind.

use vstd::prelude::*;

pub mod car_damage;
pub mod car_motion_data;
pub mod car_setups;
pub mod car_status;
pub mod car_telemetry;
pub mod event;
pub mod final_classification;
pub mod header;
pub mod lap_data;
pub mod lobby_info;
pub mod motion_ex;
pub mod participants;
pub mod session_data;
pub mod time_trial;
pub mod tyre_sets;

verus! {

/// A type with a fixed wire size: decoding it needs at least that many bytes.
pub trait PacketSize {
    /// The wire size, in bytes.
    spec fn wire_size() -> nat;

    /// Returns the wire size, in bytes.
    fn size() -> (r: usize)
        ensures
            r == Self::wire_size(),
    ;
}

} // verus!
