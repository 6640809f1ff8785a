//! The Cap'n Proto packed encoding of a player update.
//!
//! The schema of the update puts its fields here (data offsets in bytes,
//! booleans by bit, pointers by index):
//!
//! ```text
//! PlayerUpdate  data: steamId64 i64 @ byte 0
//!               pointers: kills (List(Kill)) @ 0, shots (List(Shot)) @ 1
//! Kill          data: timestamp i64 @ 0, other i64 @ 8, posX i32 @ 16,
//!                     posY i32 @ 20, posZ i32 @ 24, weapon i16 @ 28,
//!                     headshot bool @ bit 240
//!               pointers: map (Text) @ 0
//! Shot          data: timestamp i64 @ 0, hit bool @ bit 64
//! ```
//!
//! `capnp` reads the message once, under one traversal limit, and hands
//! the data sections of the root and of the list elements over as bytes
//! (`read_packed`); the fields are then taken out of those bytes here, as
//! Cap'n Proto lays them out: little-endian, and zero (or false) where a
//! data section is too short to hold the field.
use vstd::prelude::*;
use capnp::message::ReaderOptions;
use capnp::private::layout::ElementSize::InlineComposite;
use capnp::private::layout::{PointerReader, StructReader};
use capnp::serialize_packed::read_message;
use capnp::Word;
use crate::player_update::{InGameKill, KillModel, PlayerUpdate, PlayerUpdateModel, ShotFired};

verus! {

#[verifier::external_type_specification]
#[verifier::external_body]
pub struct ExStructReader<'a>(capnp::private::layout::StructReader<'a>);

#[verifier::external_type_specification]
#[verifier::external_body]
pub struct ExWord(capnp::Word);

#[verifier::external_type_specification]
#[verifier::external_body]
pub struct ExPointerReader<'a>(capnp::private::layout::PointerReader<'a>);

/// The root's pointer to the list of kills.
pub const KILLS_POINTER: usize = 0;
/// The root's pointer to the list of shots.
pub const SHOTS_POINTER: usize = 1;
/// A kill's pointer to its map name.
pub const MAP_POINTER: usize = 0;
/// The root's Steam id.
pub const STEAM_ID_AT: usize = 0;
/// A kill's fields.
pub const KILL_TIMESTAMP_AT: usize = 0;
pub const KILL_OTHER_AT: usize = 8;
pub const KILL_POS_X_AT: usize = 16;
pub const KILL_POS_Y_AT: usize = 20;
pub const KILL_POS_Z_AT: usize = 24;
pub const KILL_WEAPON_AT: usize = 28;
pub const KILL_HEADSHOT_BIT: usize = 240;
/// A shot's fields.
pub const SHOT_TIMESTAMP_AT: usize = 0;
pub const SHOT_HIT_BIT: usize = 64;

/// The unsigned 64-bit integer whose little-endian bytes start at `at`.
pub open spec fn le_u64_at(s: Seq<u8>, at: int) -> u64 {
    (s[at] as u64) | ((s[at + 1] as u64) << 8u64) | ((s[at + 2] as u64) << 16u64) | ((s[at + 3]
        as u64) << 24u64) | ((s[at + 4] as u64) << 32u64) | ((s[at + 5] as u64) << 40u64) | ((s[at
        + 6] as u64) << 48u64) | ((s[at + 7] as u64) << 56u64)
}

/// The unsigned 32-bit integer whose little-endian bytes start at `at`.
pub open spec fn le_u32_at(s: Seq<u8>, at: int) -> u32 {
    (s[at] as u32) | ((s[at + 1] as u32) << 8u32) | ((s[at + 2] as u32) << 16u32) | ((s[at + 3]
        as u32) << 24u32)
}

/// The unsigned 16-bit integer whose little-endian bytes start at `at`.
pub open spec fn le_u16_at(s: Seq<u8>, at: int) -> u16 {
    (s[at] as u16) | ((s[at + 1] as u16) << 8u16)
}

/// The `i64` field at byte `at` of a data section: zero when the section
/// ends before the field does.
pub open spec fn field_i64(data: Seq<u8>, at: int) -> i64 {
    if 0 <= at && at + 8 <= data.len() {
        le_u64_at(data, at) as i64
    } else {
        0
    }
}

/// The `i32` field at byte `at` of a data section, or zero.
pub open spec fn field_i32(data: Seq<u8>, at: int) -> i32 {
    if 0 <= at && at + 4 <= data.len() {
        le_u32_at(data, at) as i32
    } else {
        0
    }
}

/// The `i16` field at byte `at` of a data section, or zero.
pub open spec fn field_i16(data: Seq<u8>, at: int) -> i16 {
    if 0 <= at && at + 2 <= data.len() {
        le_u16_at(data, at) as i16
    } else {
        0
    }
}

/// The boolean field at bit `bit` of a data section (bits counted from
/// the lowest bit of the first byte), or false.
pub open spec fn field_bool(data: Seq<u8>, bit: int) -> bool {
    if 0 <= bit && bit / 8 < data.len() {
        (data[bit / 8] >> ((bit % 8) as u8)) & 1u8 == 1u8
    } else {
        false
    }
}

/// Reads the `i64` field at byte `at` of a data section.
pub fn read_field_i64(data: &[u8], at: usize) -> (v: i64)
    ensures
        v == field_i64(data@, at as int),
{
    if at <= data.len() && data.len() - at >= 8 {
        let u: u64 = (data[at] as u64) | ((data[at + 1] as u64) << 8u64) | ((data[at + 2] as u64)
            << 16u64) | ((data[at + 3] as u64) << 24u64) | ((data[at + 4] as u64) << 32u64) | ((
        data[at + 5] as u64) << 40u64) | ((data[at + 6] as u64) << 48u64) | ((data[at + 7] as u64)
            << 56u64);
        u as i64
    } else {
        0
    }
}

/// Reads the `i32` field at byte `at` of a data section.
pub fn read_field_i32(data: &[u8], at: usize) -> (v: i32)
    ensures
        v == field_i32(data@, at as int),
{
    if at <= data.len() && data.len() - at >= 4 {
        let u: u32 = (data[at] as u32) | ((data[at + 1] as u32) << 8u32) | ((data[at + 2] as u32)
            << 16u32) | ((data[at + 3] as u32) << 24u32);
        u as i32
    } else {
        0
    }
}

/// Reads the `i16` field at byte `at` of a data section.
pub fn read_field_i16(data: &[u8], at: usize) -> (v: i16)
    ensures
        v == field_i16(data@, at as int),
{
    if at <= data.len() && data.len() - at >= 2 {
        let u: u16 = (data[at] as u16) | ((data[at + 1] as u16) << 8u16);
        u as i16
    } else {
        0
    }
}

/// Reads the boolean field at bit `bit` of a data section.
pub fn read_field_bool(data: &[u8], bit: usize) -> (v: bool)
    ensures
        v == field_bool(data@, bit as int),
{
    let byte = bit / 8;
    if byte < data.len() {
        (data[byte] >> ((bit % 8) as u8)) & 1u8 == 1u8
    } else {
        false
    }
}

/// What one read of a packed message gives: the root's data section, and
/// for the two struct lists the data section of each element (with, for
/// the first list, the text its element points to).
pub struct PackedRaw {
    pub data: Vec<u8>,
    pub kills: Vec<(Vec<u8>, String)>,
    pub shots: Vec<Vec<u8>>,
}

/// `PackedRaw` as plain values.
pub struct PackedRawModel {
    pub data: Seq<u8>,
    pub kills: Seq<(Seq<u8>, Seq<char>)>,
    pub shots: Seq<Seq<u8>>,
}

impl View for PackedRaw {
    type V = PackedRawModel;

    open spec fn view(&self) -> PackedRawModel {
        PackedRawModel {
            data: self.data@,
            kills: self.kills@.map_values(|k: (Vec<u8>, String)| (k.0@, k.1@)),
            shots: self.shots@.map_values(|s: Vec<u8>| s@),
        }
    }
}

/// What `read_packed` gives for the bytes and the three pointer indices.
pub uninterp spec fn packed_read(body: Seq<u8>, kills: usize, text: usize, shots: usize) -> Result<
    PackedRawModel,
    capnp::Error,
>;

/// The root struct of a message.
pub struct RootStruct<'a> {
    reader: StructReader<'a>,
}

impl<'a> capnp::traits::FromPointerReader<'a> for RootStruct<'a> {
    /// `PointerReader::get_struct`.
    #[verifier::external_body]
    fn get_from_pointer(
        reader: &PointerReader<'a>,
        default: Option<&'a [Word]>,
    ) -> capnp::Result<RootStruct<'a>> {
        Ok(RootStruct { reader: reader.get_struct(default)? })
    }
}

/// One read of a packed message with one `capnp` reader (default options,
/// so one traversal limit for the whole read): `serialize_packed::read_message`,
/// the root as a struct, the struct list at pointer `kills` with, for each
/// element in order, its data section and the text at its pointer `text`,
/// then the struct list at pointer `shots` with each element's data
/// section, and the root's data section.  Claimed: the outcome, the first
/// error on the way included, is `packed_read` of the bytes and indices.
#[verifier::external_body]
fn read_packed(body: &[u8], kills: usize, text: usize, shots: usize) -> (r: Result<PackedRaw, capnp::Error>)
    ensures
        match r {
            Ok(raw) => packed_read(body@, kills, text, shots) == Ok::<PackedRawModel, capnp::Error>(raw@),
            Err(e) => packed_read(body@, kills, text, shots) == Err::<PackedRawModel, capnp::Error>(e),
        },
{
    let message = read_message(body, ReaderOptions::new())?;
    let RootStruct { reader: root } = message.get_root()?;
    let list = root.get_pointer_field(kills).get_list(InlineComposite, None)?;
    let kills = (0..list.len()).map(|i| {
        let k = list.get_struct_element(i);
        Ok((k.get_data_section_as_blob().to_vec(), k.get_pointer_field(text).get_text(None)?.to_string()?))
    }).collect::<capnp::Result<_>>()?;
    let list = root.get_pointer_field(shots).get_list(InlineComposite, None)?;
    Ok(PackedRaw {
        data: root.get_data_section_as_blob().to_vec(),
        kills,
        shots: (0..list.len()).map(|i| list.get_struct_element(i).get_data_section_as_blob().to_vec()).collect(),
    })
}

/// The kill whose data section is `data` and whose map name is `map`.
pub open spec fn kill_from_data(data: Seq<u8>, map: Seq<char>) -> KillModel {
    KillModel {
        timestamp: field_i64(data, KILL_TIMESTAMP_AT as int),
        victim_id: field_i64(data, KILL_OTHER_AT as int),
        map,
        pos_x: field_i32(data, KILL_POS_X_AT as int),
        pos_y: field_i32(data, KILL_POS_Y_AT as int),
        pos_z: field_i32(data, KILL_POS_Z_AT as int),
        weapon: field_i16(data, KILL_WEAPON_AT as int),
        headshot: field_bool(data, KILL_HEADSHOT_BIT as int),
    }
}

/// The shot whose data section is `data`: its timestamp, and whether it hit.
pub open spec fn shot_from_data(data: Seq<u8>) -> (i64, bool) {
    (field_i64(data, SHOT_TIMESTAMP_AT as int), field_bool(data, SHOT_HIT_BIT as int))
}

/// The player update that a read of its message gave.
pub open spec fn update_from_raw(raw: PackedRawModel) -> PlayerUpdateModel {
    PlayerUpdateModel {
        steam_id: field_i64(raw.data, STEAM_ID_AT as int),
        kills: raw.kills.map_values(|k: (Seq<u8>, Seq<char>)| kill_from_data(k.0, k.1)),
        shots: raw.shots.map_values(|s: Seq<u8>| shot_from_data(s)),
    }
}

/// The player update that the packed bytes hold, or the error that
/// reading them stops at.
pub open spec fn packed_player_update(body: Seq<u8>) -> Result<PlayerUpdateModel, capnp::Error> {
    match packed_read(body, KILLS_POINTER, MAP_POINTER, SHOTS_POINTER) {
        Ok(raw) => Ok(update_from_raw(raw)),
        Err(e) => Err(e),
    }
}

impl PlayerUpdate {
    /// The player update that a read of its message gave: the fields are
    /// taken out of the data sections where the schema puts them.
    pub fn from_raw(raw: PackedRaw) -> (u: PlayerUpdate)
        ensures
            u@ == update_from_raw(raw@),
    {
        let steam_id = read_field_i64(raw.data.as_slice(), STEAM_ID_AT);
        let mut kills: Vec<InGameKill> = Vec::new();
        let mut i: usize = 0;
        while i < raw.kills.len()
            invariant
                i <= raw.kills@.len(),
                kills@.len() == i,
                forall|j: int|
                    0 <= j < i ==> #[trigger] kills@[j]@ == kill_from_data(
                        raw.kills@[j].0@,
                        raw.kills@[j].1@,
                    ),
            decreases raw.kills@.len() - i,
        {
            let data = raw.kills[i].0.as_slice();
            let kill = InGameKill {
                timestamp: read_field_i64(data, KILL_TIMESTAMP_AT),
                victim_id: read_field_i64(data, KILL_OTHER_AT),
                map: raw.kills[i].1.clone(),
                pos_x: read_field_i32(data, KILL_POS_X_AT),
                pos_y: read_field_i32(data, KILL_POS_Y_AT),
                pos_z: read_field_i32(data, KILL_POS_Z_AT),
                weapon: read_field_i16(data, KILL_WEAPON_AT),
                headshot: read_field_bool(data, KILL_HEADSHOT_BIT),
            };
            kills.push(kill);
            i = i + 1;
        }
        let mut shots: Vec<ShotFired> = Vec::new();
        let mut j: usize = 0;
        while j < raw.shots.len()
            invariant
                j <= raw.shots@.len(),
                shots@.len() == j,
                forall|k: int|
                    0 <= k < j ==> ((#[trigger] shots@[k]).timestamp, shots@[k].hit) == shot_from_data(
                        raw.shots@[k]@,
                    ),
            decreases raw.shots@.len() - j,
        {
            let data = raw.shots[j].as_slice();
            shots.push(
                ShotFired {
                    timestamp: read_field_i64(data, SHOT_TIMESTAMP_AT),
                    hit: read_field_bool(data, SHOT_HIT_BIT),
                },
            );
            j = j + 1;
        }
        let u = PlayerUpdate { steam_id, kills, shots };
        assert(u@.kills =~= update_from_raw(raw@).kills);
        assert(u@.shots =~= update_from_raw(raw@).shots);
        u
    }

    /// Reads a player update from its Cap'n Proto packed encoding, in one
    /// read of the message: the update it holds, or the first error that
    /// reading it met.
    pub fn from_capnp(body: &[u8]) -> (r: Result<PlayerUpdate, capnp::Error>)
        ensures
            match r {
                Ok(u) => packed_player_update(body@) == Ok::<PlayerUpdateModel, capnp::Error>(u@),
                Err(e) => packed_player_update(body@) == Err::<PlayerUpdateModel, capnp::Error>(e),
            },
    {
        match read_packed(body, KILLS_POINTER, MAP_POINTER, SHOTS_POINTER) {
            Ok(raw) => Ok(PlayerUpdate::from_raw(raw)),
            Err(e) => Err(e),
        }
    }
}


/// Every field of a decoded update is the value that the schema's bytes
/// of its data section hold, little-endian and whole: the Steam id is the
/// `i64` in bytes 0..8 of the root's section; a kill's timestamp and
/// victim are the `i64`s in bytes 0..8 and 8..16, its position the `i32`s
/// in bytes 16..20, 20..24 and 24..28, its weapon the `i16` in bytes
/// 28..30, its headshot flag the lowest bit of byte 30, and its map the
/// text read for it; a shot's timestamp is the `i64` in bytes 0..8 and
/// its hit flag the lowest bit of byte 8.  A field that its section is too
/// short to hold reads as zero or false.  Kills and shots keep their count
/// and order.
pub proof fn lemma_update_fields_from_bytes(raw: PackedRawModel)
    ensures
        ({
            let u = update_from_raw(raw);
            &&& u.kills.len() == raw.kills.len()
            &&& u.shots.len() == raw.shots.len()
            &&& raw.data.len() >= 8 ==> u.steam_id == le_u64_at(raw.data, 0) as i64
            &&& raw.data.len() < 8 ==> u.steam_id == 0
            &&& forall|i: int| 0 <= i < raw.kills.len() ==> {
                let d = #[trigger] raw.kills[i].0;
                let k = u.kills[i];
                &&& k.map == raw.kills[i].1
                &&& d.len() >= 8 ==> k.timestamp == le_u64_at(d, 0) as i64
                &&& d.len() >= 16 ==> k.victim_id == le_u64_at(d, 8) as i64
                &&& d.len() < 16 ==> k.victim_id == 0
                &&& d.len() >= 20 ==> k.pos_x == le_u32_at(d, 16) as i32
                &&& d.len() >= 24 ==> k.pos_y == le_u32_at(d, 20) as i32
                &&& d.len() >= 28 ==> k.pos_z == le_u32_at(d, 24) as i32
                &&& d.len() >= 30 ==> k.weapon == le_u16_at(d, 28) as i16
                &&& d.len() >= 31 ==> k.headshot == (d[30] & 1u8 == 1u8)
                &&& d.len() < 31 ==> !k.headshot
            }
            &&& forall|i: int| 0 <= i < raw.shots.len() ==> {
                let d = #[trigger] raw.shots[i];
                &&& d.len() >= 8 ==> u.shots[i].0 == le_u64_at(d, 0) as i64
                &&& d.len() >= 9 ==> u.shots[i].1 == (d[8] & 1u8 == 1u8)
                &&& d.len() < 9 ==> !u.shots[i].1
            }
        }),
{
    assert forall|b: u8| #[trigger] (b >> 0u8) == b by {
        assert((b >> 0u8) == b) by (bit_vector);
    }
}

} // verus!
