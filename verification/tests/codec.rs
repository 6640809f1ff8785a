use bytes::{BufMut, BytesMut};
use capnp::message::Builder;
use capnp::private::layout::{PointerBuilder, StructBuilder, StructSize};
use capnp::serialize_packed;
use capnp::traits::FromPointerBuilder;
use sourcestats::message::Message;
use sourcestats::codec::{read_field_bool, read_field_i16, read_field_i32, read_field_i64, PackedRaw};
use sourcestats::player_update::PlayerUpdate;

struct Root<'a>(StructBuilder<'a>);

impl<'a> FromPointerBuilder<'a> for Root<'a> {
    fn init_pointer(builder: PointerBuilder<'a>, _size: u32) -> Root<'a> {
        Root(builder.init_struct(StructSize { data: 1, pointers: 2 }))
    }
    fn get_from_pointer(
        builder: PointerBuilder<'a>,
        default: Option<&'a [capnp::Word]>,
    ) -> capnp::Result<Root<'a>> {
        Ok(Root(builder.get_struct(StructSize { data: 1, pointers: 2 }, default)?))
    }
}

type KillRow = (i64, i64, &'static str, i32, i32, i32, i16, bool);

/// A player update in its packed encoding, with every field written.
fn packed(steam_id: i64, kills: &[KillRow], shots: &[(i64, bool)]) -> Vec<u8> {
    let mut builder = Builder::new_default();
    {
        let root: Root = builder.init_root();
        let mut root = root.0;
        root.set_data_field::<i64>(0, steam_id);
        let mut list = root
            .reborrow()
            .get_pointer_field(0)
            .init_struct_list(kills.len() as u32, StructSize { data: 4, pointers: 1 });
        for (i, k) in kills.iter().enumerate() {
            let mut b = list.reborrow().get_struct_element(i as u32);
            b.set_data_field::<i64>(0, k.0);
            b.set_data_field::<i64>(1, k.1);
            b.reborrow().get_pointer_field(0).set_text(k.2.into());
            b.set_data_field::<i32>(4, k.3);
            b.set_data_field::<i32>(5, k.4);
            b.set_data_field::<i32>(6, k.5);
            b.set_data_field::<i16>(14, k.6);
            b.set_bool_field(240, k.7);
        }
        let mut list = root
            .reborrow()
            .get_pointer_field(1)
            .init_struct_list(shots.len() as u32, StructSize { data: 2, pointers: 0 });
        for (i, s) in shots.iter().enumerate() {
            let mut b = list.reborrow().get_struct_element(i as u32);
            b.set_data_field::<i64>(0, s.0);
            b.set_bool_field(64, s.1);
        }
    }
    let mut out = Vec::new().writer();
    serialize_packed::write_message(&mut out, &builder).unwrap();
    out.into_inner()
}

#[test]
fn from_capnp_reads_every_field() {
    let bytes = packed(
        76561198000000001,
        &[
            (1000, 42, "de_dust2", 10, -20, 30, 7, true),
            (2000, 43, "cs_office", -1, 0, 1, -3, false),
        ],
        &[(5, true), (6, false), (7, true)],
    );
    let u = PlayerUpdate::from_capnp(&bytes).unwrap();
    assert_eq!(u.steam_id, 76561198000000001);
    assert_eq!(u.kills.len(), 2);
    let k = &u.kills[0];
    assert_eq!((k.timestamp, k.victim_id, k.map.as_str()), (1000, 42, "de_dust2"));
    assert_eq!((k.pos_x, k.pos_y, k.pos_z, k.weapon, k.headshot), (10, -20, 30, 7, true));
    let k = &u.kills[1];
    assert_eq!((k.timestamp, k.victim_id, k.map.as_str()), (2000, 43, "cs_office"));
    assert_eq!((k.pos_x, k.pos_y, k.pos_z, k.weapon, k.headshot), (-1, 0, 1, -3, false));
    let shots: Vec<(i64, bool)> = u.shots.iter().map(|s| (s.timestamp, s.hit)).collect();
    assert_eq!(shots, vec![(5, true), (6, false), (7, true)]);
}

#[test]
fn from_capnp_reads_empty_lists() {
    let u = PlayerUpdate::from_capnp(&packed(9, &[], &[])).unwrap();
    assert_eq!(u.steam_id, 9);
    assert!(u.kills.is_empty());
    assert!(u.shots.is_empty());
}

#[test]
fn from_capnp_refuses_garbage() {
    assert!(PlayerUpdate::from_capnp(b"hello").is_err());
}

#[test]
fn from_capnp_refuses_empty_input() {
    assert!(PlayerUpdate::from_capnp(&[]).is_err());
}

#[test]
fn decrypt_decodes_sealed_player_update() {
    let key: Vec<u8> = (0u8..32).collect();
    let nonce = [3u8; 12];
    let mut plaintext = vec![0u8, 0, 0, 1];
    plaintext.extend(packed(77, &[(1, 2, "de_nuke", 3, 4, 5, 6, true)], &[(8, false)]));
    let sealed = Message::seal(&key, nonce, BytesMut::from(&plaintext[..])).unwrap();
    match Message::decrypt(&key, BytesMut::from(&nonce[..]), sealed) {
        Ok(Message::PlayerUpdate(u)) => {
            assert_eq!(u.steam_id, 77);
            assert_eq!(u.kills.len(), 1);
            assert_eq!(u.kills[0].map, "de_nuke");
            assert!(u.kills[0].headshot);
            assert_eq!(u.shots.len(), 1);
            assert!(!u.shots[0].hit);
        }
        Err(e) => panic!("unexpected error {:?}", e),
    }
}

/// A message whose two lists hold `kills` and `shots` elements of no size.
fn empty_elements(kills: u32, shots: u32) -> Vec<u8> {
    let mut builder = Builder::new_default();
    {
        let root: Root = builder.init_root();
        let mut root = root.0;
        root.set_data_field::<i64>(0, 1);
        root.reborrow()
            .get_pointer_field(0)
            .init_struct_list(kills, StructSize { data: 0, pointers: 0 });
        root.reborrow()
            .get_pointer_field(1)
            .init_struct_list(shots, StructSize { data: 0, pointers: 0 });
    }
    let mut out = Vec::new().writer();
    serialize_packed::write_message(&mut out, &builder).unwrap();
    out.into_inner()
}

#[test]
fn from_capnp_counts_both_lists_against_one_traversal_limit() {
    // Each list alone is under the default limit of 8 * 2^20 words; the
    // two together are over it.
    let bytes = empty_elements(400_000, 8_000_000);
    assert!(PlayerUpdate::from_capnp(&bytes).is_err());
}

#[test]
fn from_capnp_reads_elements_without_data_as_zero() {
    let u = PlayerUpdate::from_capnp(&empty_elements(3, 2)).unwrap();
    assert_eq!(u.steam_id, 1);
    assert_eq!(u.kills.len(), 3);
    let k = &u.kills[2];
    assert_eq!((k.timestamp, k.victim_id, k.map.as_str()), (0, 0, ""));
    assert_eq!((k.pos_x, k.pos_y, k.pos_z, k.weapon, k.headshot), (0, 0, 0, 0, false));
    assert_eq!(u.shots.len(), 2);
    assert_eq!((u.shots[1].timestamp, u.shots[1].hit), (0, false));
}

#[test]
fn from_raw_takes_fields_from_their_offsets() {
    let mut kill = vec![0u8; 32];
    kill[0..8].copy_from_slice(&1234i64.to_le_bytes());
    kill[8..16].copy_from_slice(&(-5i64).to_le_bytes());
    kill[16..20].copy_from_slice(&100i32.to_le_bytes());
    kill[20..24].copy_from_slice(&(-200i32).to_le_bytes());
    kill[24..28].copy_from_slice(&300i32.to_le_bytes());
    kill[28..30].copy_from_slice(&(-7i16).to_le_bytes());
    kill[30] = 1;
    let mut shot = vec![0u8; 16];
    shot[0..8].copy_from_slice(&99i64.to_le_bytes());
    shot[8] = 1;
    let raw = PackedRaw {
        data: 42i64.to_le_bytes().to_vec(),
        kills: vec![(kill, "de_inferno".to_string())],
        shots: vec![shot],
    };
    let u = PlayerUpdate::from_raw(raw);
    assert_eq!(u.steam_id, 42);
    let k = &u.kills[0];
    assert_eq!((k.timestamp, k.victim_id, k.map.as_str()), (1234, -5, "de_inferno"));
    assert_eq!((k.pos_x, k.pos_y, k.pos_z, k.weapon, k.headshot), (100, -200, 300, -7, true));
    assert_eq!((u.shots[0].timestamp, u.shots[0].hit), (99, true));
}

#[test]
fn from_raw_reads_short_data_sections_as_zero() {
    let raw = PackedRaw {
        data: vec![1, 2, 3],
        kills: vec![(vec![9u8; 20], String::new())],
        shots: vec![vec![5u8; 8]],
    };
    let u = PlayerUpdate::from_raw(raw);
    assert_eq!(u.steam_id, 0);
    let k = &u.kills[0];
    assert_eq!(k.timestamp, i64::from_le_bytes([9; 8]));
    assert_eq!(k.pos_x, i32::from_le_bytes([9; 4]));
    assert_eq!((k.pos_y, k.pos_z, k.weapon, k.headshot), (0, 0, 0, false));
    assert_eq!((u.shots[0].timestamp, u.shots[0].hit), (i64::from_le_bytes([5; 8]), false));
}

#[test]
fn field_readers_read_little_endian() {
    let data = [0x01u8, 0x02, 0x03, 0x04, 0x05, 0x06, 0x07, 0x80, 0x03];
    assert_eq!(read_field_i64(&data, 0), i64::from_le_bytes([1, 2, 3, 4, 5, 6, 7, 0x80]));
    assert_eq!(read_field_i64(&data, 2), 0);
    assert_eq!(read_field_i32(&data, 4), i32::from_le_bytes([5, 6, 7, 0x80]));
    assert_eq!(read_field_i16(&data, 7), i16::from_le_bytes([0x80, 3]));
    assert_eq!(read_field_i16(&data, 8), 0);
    assert!(read_field_bool(&data, 0));
    assert!(!read_field_bool(&data, 1));
    assert!(read_field_bool(&data, 63));
    assert!(read_field_bool(&data, 65));
    assert!(!read_field_bool(&data, 72));
}
