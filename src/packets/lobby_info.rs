//! The lobby packet: the players waiting in a multiplayer lobby.

use vstd::prelude::*;
use crate::error::DecodeError;
use crate::packets::PacketSize;
use crate::text::{name_text, name_valid, read_name};
use crate::wire::{le_u16, read_u16};

verus! {

/// One player in the lobby.
#[derive(Clone, Debug, PartialEq, Eq)]
pub struct LobbyInfoData {
    pub ai_controlled: u8,
    /// Team id; 255 where no team is selected yet.
    pub team_id: u8,
    pub nationality: u8,
    /// 1 = Steam, 3 = PlayStation, 4 = Xbox, 6 = Origin, 255 = unknown.
    pub platform: u8,
    /// The name, up to its first NUL.
    pub name: String,
    pub car_number: u8,
    pub your_telemetry: u8,
    pub show_online_names: u8,
    pub tech_level: u16,
    /// 0 = not ready, 1 = ready, 2 = spectating.
    pub ready_status: u8,
}

/// Whether the name of the lobby player in slot `i` decodes.
pub open spec fn lobby_name_valid(s: Seq<u8>, i: int) -> bool {
    name_valid(s, 1 + 58 * i + 4, 48)
}

impl LobbyInfoData {
    /// Whether this player is what the 58 bytes at `off` encode.
    pub open spec fn decoded_at(self, s: Seq<u8>, off: int) -> bool {
        &&& self.ai_controlled == s[off]
        &&& self.team_id == s[off + 1]
        &&& self.nationality == s[off + 2]
        &&& self.platform == s[off + 3]
        &&& self.name@ == name_text(s, off + 4, 48)
        &&& self.car_number == s[off + 52]
        &&& self.your_telemetry == s[off + 53]
        &&& self.show_online_names == s[off + 54]
        &&& self.tech_level == le_u16(s, off + 55)
        &&& self.ready_status == s[off + 57]
    }

    /// Reads the player whose 58 bytes start at `off`.
    pub fn read_at(b: &[u8], off: usize) -> (r: Result<LobbyInfoData, DecodeError>)
        requires
            off + 58 <= b.len(),
        ensures
            r is Ok <==> name_valid(b@, off + 4, 48),
            r matches Ok(p) ==> p.decoded_at(b@, off as int),
            r is Err ==> r == Err::<LobbyInfoData, DecodeError>(DecodeError::InvalidText),
    {
        let name = match read_name(b, off + 4, 48) {
            Ok(t) => t,
            Err(e) => {
                return Err(e);
            },
        };
        Ok(
            LobbyInfoData {
                ai_controlled: b[off],
                team_id: b[off + 1],
                nationality: b[off + 2],
                platform: b[off + 3],
                name,
                car_number: b[off + 52],
                your_telemetry: b[off + 53],
                show_online_names: b[off + 54],
                tech_level: read_u16(b, off + 55),
                ready_status: b[off + 57],
            },
        )
    }
}

/// Every player in the lobby.
#[derive(Clone, Debug, PartialEq, Eq)]
pub struct PacketLobbyInfoData {
    /// Number of players in the lobby data.
    pub num_players: u8,
    pub lobby_players: Vec<LobbyInfoData>,
}

impl PacketSize for PacketLobbyInfoData {
    open spec fn wire_size() -> nat {
        1306
    }

    fn size() -> (r: usize) {
        1306
    }
}

impl PacketLobbyInfoData {
    /// Whether every one of the 22 name fields decodes.
    pub open spec fn names_valid(s: Seq<u8>) -> bool {
        forall|i: int| 0 <= i < 22 ==> #[trigger] lobby_name_valid(s, i)
    }

    /// Whether this value is what the bytes `s` encode.
    pub open spec fn decoded_from(self, s: Seq<u8>) -> bool {
        &&& self.num_players == s[0]
        &&& self.lobby_players@.len() == 22
        &&& forall|i: int|
            0 <= i < 22 ==> #[trigger] self.lobby_players@[i].decoded_at(s, 1 + 58 * i)
    }

    /// Decodes the lobby packet; input shorter than 1306 bytes is refused,
    /// and so is a name that is not UTF-8.
    pub fn try_from(b: &[u8]) -> (r: Result<PacketLobbyInfoData, DecodeError>)
        ensures
            b@.len() < 1306 ==> r == Err::<PacketLobbyInfoData, DecodeError>(
                DecodeError::ShortBuffer,
            ),
            b@.len() >= 1306 && Self::names_valid(b@) ==> (r matches Ok(p) && p.decoded_from(
                b@,
            )),
            b@.len() >= 1306 && !Self::names_valid(b@) ==> r == Err::<
                PacketLobbyInfoData,
                DecodeError,
            >(DecodeError::InvalidText),
    {
        if b.len() < 1306 {
            return Err(DecodeError::ShortBuffer);
        }
        let mut lobby_players: Vec<LobbyInfoData> = Vec::with_capacity(22);
        let mut i: usize = 0;
        while i < 22
            invariant
                1306 <= b.len(),
                i <= 22,
                lobby_players@.len() == i,
                forall|j: int| 0 <= j < i ==> #[trigger] lobby_name_valid(b@, j),
                forall|j: int|
                    0 <= j < i ==> #[trigger] lobby_players@[j].decoded_at(b@, 1 + 58 * j),
            decreases 22 - i,
        {
            match LobbyInfoData::read_at(b, 1 + 58 * i) {
                Ok(p) => lobby_players.push(p),
                Err(e) => {
                    assert(!lobby_name_valid(b@, i as int));
                    return Err(e);
                },
            }
            i = i + 1;
        }
        Ok(PacketLobbyInfoData { num_players: b[0], lobby_players })
    }
}

impl Default for LobbyInfoData {
    /// A human player with no name, no team and an unknown platform.
    fn default() -> (r: LobbyInfoData)
        ensures
            r.ai_controlled == 0,
            r.team_id == 255,
            r.nationality == 0,
            r.platform == 255,
            r.name@ == Seq::<char>::empty(),
            r.car_number == 0,
            r.your_telemetry == 0,
            r.show_online_names == 0,
            r.tech_level == 0,
            r.ready_status == 0,
    {
        LobbyInfoData {
            ai_controlled: 0,
            team_id: 255,
            nationality: 0,
            platform: 255,
            name: String::new(),
            car_number: 0,
            your_telemetry: 0,
            show_online_names: 0,
            tech_level: 0,
            ready_status: 0,
        }
    }
}

impl Default for PacketLobbyInfoData {
    /// No players.
    fn default() -> (r: PacketLobbyInfoData)
        ensures
            r.num_players == 0,
            r.lobby_players@.len() == 0,
    {
        PacketLobbyInfoData { num_players: 0, lobby_players: Vec::new() }
    }
}

} // verus!
