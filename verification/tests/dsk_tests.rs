use cpc_emu::dsk::{Dsk, DskType};

const NORMAL_PREAMBLE: &[u8] = &[
    0x4D, 0x56, 0x20, 0x2D, 0x20, 0x43, 0x50, 0x43, 0x45, 0x4D, 0x55,
];
const EXTENDED_PREAMBLE: &[u8] = &[
    0x45, 0x58, 0x54, 0x45, 0x4E, 0x44, 0x45, 0x44, 0x20, 0x43, 0x50,
];

fn image_with_preamble(preamble: &[u8], len: usize) -> Vec<u8> {
    let mut bytes = vec![0u8; len];
    bytes[..preamble.len()].copy_from_slice(preamble);
    bytes
}

#[test]
fn parse_minimal_normal_image() {
    // Track count zero: a valid header with an empty track area.
    let mut bytes = image_with_preamble(NORMAL_PREAMBLE, 0x200);
    bytes[0x30] = 0; // tracks
    bytes[0x31] = 1; // sides

    let dsk = Dsk::init_from_bytes(&bytes).unwrap();
    assert_eq!(dsk.dsk_type, DskType::Normal);
    assert_eq!(dsk.dsk_info.track_count, 0);
    assert_eq!(dsk.dsk_info.side_count, 1);
    // A zero track size falls back to the common default.
    assert_eq!(dsk.dsk_info.track_size, 4864);
    assert_eq!(dsk.tracks.len(), 0);
}

#[test]
fn parse_extended_image_reads_track_size() {
    let mut bytes = image_with_preamble(EXTENDED_PREAMBLE, 0x200);
    bytes[0x32] = 0x00;
    bytes[0x33] = 0x13; // 0x1300 little-endian

    let dsk = Dsk::init_from_bytes(&bytes).unwrap();
    assert_eq!(dsk.dsk_type, DskType::Extended);
    assert_eq!(dsk.dsk_info.track_size, 0x1300);
}

#[test]
fn parse_image_with_one_track() {
    // One track of the default size, holding two declared sectors.
    let track_size = 4864usize;
    let mut bytes = image_with_preamble(NORMAL_PREAMBLE, 0x100 + track_size);
    bytes[0x30] = 1;
    let track = 0x100; // track block offset in the image
    bytes[track + 0x10] = 7; // track number
    bytes[track + 0x15] = 2; // sector count
    bytes[track + 0x18] = 7; // first sector: track number
    bytes[track + 0x1A] = 0xC1; // first sector: sector id
    bytes[track + 0x20] = 7; // second sector: track number
    bytes[track + 0x22] = 0xC2; // second sector: sector id

    let dsk = Dsk::init_from_bytes(&bytes).unwrap();
    assert_eq!(dsk.tracks.len(), 1);
    assert_eq!(dsk.tracks[0].track_info.track_number, 7);
    assert_eq!(dsk.tracks[0].sector_infos.len(), 2);
    assert_eq!(dsk.tracks[0].sector_infos[0].sector_id, 0xC1);
    assert_eq!(dsk.tracks[0].sector_infos[1].sector_id, 0xC2);
}

#[test]
fn invalid_preamble_is_rejected() {
    let bytes = vec![0u8; 0x200];
    let err = Dsk::init_from_bytes(&bytes).unwrap_err();
    assert_eq!(err, "Invalid Dsk format");
}

#[test]
fn short_image_is_rejected() {
    let bytes = vec![0u8; 0x10];
    assert!(Dsk::init_from_bytes(&bytes).is_err());

    // A valid header cut off before the track area start is rejected too.
    let bytes = image_with_preamble(NORMAL_PREAMBLE, 0x40);
    let err = Dsk::init_from_bytes(&bytes).unwrap_err();
    assert_eq!(err, "Dsk image too short");
}
