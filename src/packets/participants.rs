//! The participants packet: who drives each of the 22 cars.

use vstd::prelude::*;
use crate::error::DecodeError;
use crate::packets::PacketSize;
use crate::text::{name_text, name_valid, read_name};
use crate::wire::{le_u16, read_u16};

verus! {

/// One participant of the session.
#[derive(Clone, Debug, PartialEq, Eq)]
pub struct ParticipantData {
    pub ai_controlled: u8,
    /// Driver id; 255 for a network human.
    pub driver_id: u8,
    pub network_id: u8,
    pub team_id: u8,
    pub my_team: u8,
    pub race_number: u8,
    pub nationality: u8,
    /// The name, up to its first NUL.
    pub name: String,
    pub your_telemetry: u8,
    pub show_online_names: u8,
    pub tech_level: u16,
    /// 1 = Steam, 3 = PlayStation, 4 = Xbox, 6 = Origin, 255 = unknown.
    pub platform: u8,
}

/// Whether the name of the participant in slot `i` decodes.
pub open spec fn participant_name_valid(s: Seq<u8>, i: int) -> bool {
    name_valid(s, 1 + 60 * i + 7, 48)
}

impl ParticipantData {
    /// Whether this participant is what the 60 bytes at `off` encode.
    pub open spec fn decoded_at(self, s: Seq<u8>, off: int) -> bool {
        &&& self.ai_controlled == s[off]
        &&& self.driver_id == s[off + 1]
        &&& self.network_id == s[off + 2]
        &&& self.team_id == s[off + 3]
        &&& self.my_team == s[off + 4]
        &&& self.race_number == s[off + 5]
        &&& self.nationality == s[off + 6]
        &&& self.name@ == name_text(s, off + 7, 48)
        &&& self.your_telemetry == s[off + 55]
        &&& self.show_online_names == s[off + 56]
        &&& self.tech_level == le_u16(s, off + 57)
        &&& self.platform == s[off + 59]
    }

    /// Reads the participant whose 60 bytes start at `off`.
    pub fn read_at(b: &[u8], off: usize) -> (r: Result<ParticipantData, DecodeError>)
        requires
            off + 60 <= b.len(),
        ensures
            r is Ok <==> name_valid(b@, off + 7, 48),
            r matches Ok(p) ==> p.decoded_at(b@, off as int),
            r is Err ==> r == Err::<ParticipantData, DecodeError>(DecodeError::InvalidText),
    {
        let name = match read_name(b, off + 7, 48) {
            Ok(t) => t,
            Err(e) => {
                return Err(e);
            },
        };
        Ok(
            ParticipantData {
                ai_controlled: b[off],
                driver_id: b[off + 1],
                network_id: b[off + 2],
                team_id: b[off + 3],
                my_team: b[off + 4],
                race_number: b[off + 5],
                nationality: b[off + 6],
                name,
                your_telemetry: b[off + 55],
                show_online_names: b[off + 56],
                tech_level: read_u16(b, off + 57),
                platform: b[off + 59],
            },
        )
    }
}

/// Every participant of the session.
#[derive(Clone, Debug, PartialEq, Eq)]
pub struct PacketParticipantsData {
    /// Number of active cars in the data.
    pub num_active_cars: u8,
    pub participants: Vec<ParticipantData>,
}

impl PacketSize for PacketParticipantsData {
    open spec fn wire_size() -> nat {
        1350
    }

    fn size() -> (r: usize) {
        1350
    }
}

impl PacketParticipantsData {
    /// Whether every one of the 22 name fields decodes.
    pub open spec fn names_valid(s: Seq<u8>) -> bool {
        forall|i: int| 0 <= i < 22 ==> #[trigger] participant_name_valid(s, i)
    }

    /// Whether this value is what the bytes `s` encode.
    pub open spec fn decoded_from(self, s: Seq<u8>) -> bool {
        &&& self.num_active_cars == s[0]
        &&& self.participants@.len() == 22
        &&& forall|i: int|
            0 <= i < 22 ==> #[trigger] self.participants@[i].decoded_at(s, 1 + 60 * i)
    }

    /// Decodes the participants packet; input shorter than 1350 bytes is
    /// refused, and so is a name that is not UTF-8.
    pub fn try_from(b: &[u8]) -> (r: Result<PacketParticipantsData, DecodeError>)
        ensures
            b@.len() < 1350 ==> r == Err::<PacketParticipantsData, DecodeError>(
                DecodeError::ShortBuffer,
            ),
            b@.len() >= 1350 && Self::names_valid(b@) ==> (r matches Ok(p) && p.decoded_from(
                b@,
            )),
            b@.len() >= 1350 && !Self::names_valid(b@) ==> r == Err::<
                PacketParticipantsData,
                DecodeError,
            >(DecodeError::InvalidText),
    {
        if b.len() < 1350 {
            return Err(DecodeError::ShortBuffer);
        }
        let mut participants: Vec<ParticipantData> = Vec::with_capacity(22);
        let mut i: usize = 0;
        while i < 22
            invariant
                1350 <= b.len(),
                i <= 22,
                participants@.len() == i,
                forall|j: int| 0 <= j < i ==> #[trigger] participant_name_valid(b@, j),
                forall|j: int|
                    0 <= j < i ==> #[trigger] participants@[j].decoded_at(b@, 1 + 60 * j),
            decreases 22 - i,
        {
            match ParticipantData::read_at(b, 1 + 60 * i) {
                Ok(p) => participants.push(p),
                Err(e) => {
                    assert(!participant_name_valid(b@, i as int));
                    return Err(e);
                },
            }
            i = i + 1;
        }
        Ok(PacketParticipantsData { num_active_cars: b[0], participants })
    }
}

impl Default for ParticipantData {
    /// A human participant with no name, a network driver id and an unknown
    /// platform.
    fn default() -> (r: ParticipantData)
        ensures
            r.ai_controlled == 0,
            r.driver_id == 255,
            r.network_id == 0,
            r.team_id == 0,
            r.my_team == 0,
            r.race_number == 0,
            r.nationality == 0,
            r.name@ == Seq::<char>::empty(),
            r.your_telemetry == 0,
            r.show_online_names == 0,
            r.tech_level == 0,
            r.platform == 255,
    {
        ParticipantData {
            ai_controlled: 0,
            driver_id: 255,
            network_id: 0,
            team_id: 0,
            my_team: 0,
            race_number: 0,
            nationality: 0,
            name: String::new(),
            your_telemetry: 0,
            show_online_names: 0,
            tech_level: 0,
            platform: 255,
        }
    }
}

impl Default for PacketParticipantsData {
    /// No participants.
    fn default() -> (r: PacketParticipantsData)
        ensures
            r.num_active_cars == 0,
            r.participants@.len() == 0,
    {
        PacketParticipantsData { num_active_cars: 0, participants: Vec::new() }
    }
}

} // verus!
