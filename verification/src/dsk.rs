//! Parser for disk-image containers: extracts the disc information block and
//! the per-track sector byte blobs from a raw image.
//!
//! The information block sits at offset 0; track data, where present,
//! follows from offset 0x100, one fixed-size block per track. A malformed
//! image is reported as an error instead of stopping the process; a track
//! whose block lies outside the image is skipped.

use vstd::prelude::*;
use vstd::slice::slice_to_vec;

verus! {

/// The two container flavours, told apart by the image's header preamble.
#[derive(Debug, Copy, Clone, PartialEq, Eq, Structural)]
pub enum DskType {
    Normal,
    Extended,
}

/// Whether the image starts with the preamble of the normal flavour,
/// spelling out "MV - CPCEMU".
pub open spec fn has_normal_preamble(bytes: Seq<u8>) -> bool {
    &&& bytes.len() >= 0x0B
    &&& bytes[0] == 0x4D
    &&& bytes[1] == 0x56
    &&& bytes[2] == 0x20
    &&& bytes[3] == 0x2D
    &&& bytes[4] == 0x20
    &&& bytes[5] == 0x43
    &&& bytes[6] == 0x50
    &&& bytes[7] == 0x43
    &&& bytes[8] == 0x45
    &&& bytes[9] == 0x4D
    &&& bytes[10] == 0x55
}

/// Whether the image starts with the preamble of the extended flavour,
/// spelling out "EXTENDED CP".
pub open spec fn has_extended_preamble(bytes: Seq<u8>) -> bool {
    &&& bytes.len() >= 0x0B
    &&& bytes[0] == 0x45
    &&& bytes[1] == 0x58
    &&& bytes[2] == 0x54
    &&& bytes[3] == 0x45
    &&& bytes[4] == 0x4E
    &&& bytes[5] == 0x44
    &&& bytes[6] == 0x45
    &&& bytes[7] == 0x44
    &&& bytes[8] == 0x20
    &&& bytes[9] == 0x43
    &&& bytes[10] == 0x50
}

/// The declared size of one track block: the two little-endian bytes at
/// 0x32, with zero standing in for the common default of 4864.
pub open spec fn spec_track_size(bytes: Seq<u8>) -> u32 {
    let raw = bytes[0x32] + 256 * bytes[0x33];
    if raw == 0 {
        4864
    } else {
        raw as u32
    }
}

/// The disc information block at offset 0 of the image.
#[derive(Debug)]
pub struct DiscInformationBlock {
    pub dsk_type: DskType,
    /// The creator name field, kept as its raw bytes.
    pub creator: Vec<u8>,
    pub track_count: u8,
    pub side_count: u8,
    /// Size of one track block, the 0x100-byte track information block
    /// included.
    pub track_size: u32,
}

/// One sector's descriptor within a track's sector table.
#[derive(Debug)]
pub struct SectorInfo {
    pub track_number: u8,
    pub side_number: u8,
    pub sector_id: u8,
    pub sector_size: u8,
    pub fdc_status_register_1: u8,
    pub fdc_status_register_2: u8,
}

/// One track: its information block, its sector table and its raw data.
#[derive(Debug)]
pub struct Track {
    pub track_info: TrackInformationBlock,
    pub sector_infos: Vec<SectorInfo>,
    pub sector_data: Vec<u8>,
}

/// The fixed-offset fields of a track information block.
#[derive(Debug)]
pub struct TrackInformationBlock {
    pub track_number: u8,
    pub side_number: u8,
    pub sector_size: u8,
    pub sector_count: u8,
    pub gap_3_length: u8,
}

/// A parsed disk image.
#[derive(Debug)]
pub struct Dsk {
    pub dsk_type: DskType,
    pub dsk_info: DiscInformationBlock,
    pub tracks: Vec<Track>,
}

/// A parsed track holds one sector descriptor per declared sector and the
/// data that followed its information block.
pub open spec fn track_wf(t: Track) -> bool {
    t.sector_infos@.len() == t.track_info.sector_count
}

/// Whether a track block of this shape parses: room for the information
/// block area and for the sector table it declares.
pub open spec fn track_block_ok(block: Seq<u8>) -> bool {
    block.len() >= 0x100 && 0x18 + block[0x15] * 8 <= block.len()
}

/// Whether the `k`-th track block of the track area lies inside it and
/// parses. A block spans the declared track size less one byte.
pub open spec fn track_included(bytes: Seq<u8>, track_size: int, k: int) -> bool {
    let start = k * track_size;
    let end = start + track_size - 1;
    end <= bytes.len() && track_block_ok(bytes.subrange(start, end))
}

/// How many of the first `n` track blocks of the track area parse.
pub open spec fn included_track_count(bytes: Seq<u8>, track_size: int, n: nat) -> nat
    decreases n,
{
    if n == 0 {
        0
    } else {
        included_track_count(bytes, track_size, (n - 1) as nat) + (
        if track_included(bytes, track_size, n - 1) {
            1nat
        } else {
            0nat
        })
    }
}

impl TrackInformationBlock {
    /// Reads the information block at the start of a track block.
    pub fn init_from_bytes(bytes: &[u8]) -> (r: TrackInformationBlock)
        requires
            bytes@.len() >= 0x17,
        ensures
            r.track_number == bytes@[0x10],
            r.side_number == bytes@[0x11],
            r.sector_size == bytes@[0x14],
            r.sector_count == bytes@[0x15],
            r.gap_3_length == bytes@[0x16],
    {
        TrackInformationBlock {
            track_number: bytes[0x10],
            side_number: bytes[0x11],
            sector_size: bytes[0x14],
            sector_count: bytes[0x15],
            gap_3_length: bytes[0x16],
        }
    }
}

impl SectorInfo {
    /// Reads one sector descriptor from its eight-byte table entry.
    pub fn init_from_bytes(track_info_block: &TrackInformationBlock, bytes: &[u8]) -> (r:
        SectorInfo)
        requires
            bytes@.len() >= 6,
        ensures
            r.track_number == bytes@[0],
            r.side_number == bytes@[1],
            r.sector_id == bytes@[2],
            r.sector_size == bytes@[3],
            r.fdc_status_register_1 == bytes@[4],
            r.fdc_status_register_2 == bytes@[5],
    {
        SectorInfo {
            track_number: bytes[0x0],
            side_number: bytes[0x1],
            sector_id: bytes[0x2],
            sector_size: bytes[0x3],
            fdc_status_register_1: bytes[0x4],
            fdc_status_register_2: bytes[0x5],
        }
    }
}

impl Track {
    /// Parses one track block: its information block, the sector table it
    /// declares, and the raw data from offset 0x100 on. A block too short
    /// for either is rejected.
    pub fn init_from_bytes(bytes: &[u8], track_size: u32) -> (r: Result<Track, &'static str>)
        ensures
            r is Ok <==> bytes@.len() >= 0x100 && 0x18 + bytes@[0x15] * 8 <= bytes@.len(),
            r matches Ok(t) ==> {
                &&& t.track_info.track_number == bytes@[0x10]
                &&& t.track_info.side_number == bytes@[0x11]
                &&& t.track_info.sector_size == bytes@[0x14]
                &&& t.track_info.sector_count == bytes@[0x15]
                &&& t.track_info.gap_3_length == bytes@[0x16]
                &&& track_wf(t)
                &&& forall|k: int|
                    0 <= k < bytes@[0x15] ==> {
                        let base = 0x18 + k * 8;
                        &&& (#[trigger] t.sector_infos@[k]).track_number == bytes@[base]
                        &&& t.sector_infos@[k].side_number == bytes@[base + 1]
                        &&& t.sector_infos@[k].sector_id == bytes@[base + 2]
                        &&& t.sector_infos@[k].sector_size == bytes@[base + 3]
                        &&& t.sector_infos@[k].fdc_status_register_1 == bytes@[base + 4]
                        &&& t.sector_infos@[k].fdc_status_register_2 == bytes@[base + 5]
                    }
                &&& t.sector_data@ == bytes@.subrange(0x100, bytes@.len() as int)
            },
    {
        if bytes.len() < 0x100 {
            return Err("track data too short");
        }
        let track_info = TrackInformationBlock::init_from_bytes(bytes);
        let count = track_info.sector_count as usize;
        let sector_info_size: usize = 8;
        if 0x18 + count * sector_info_size > bytes.len() {
            return Err("track data too short");
        }
        let mut sector_infos: Vec<SectorInfo> = Vec::new();
        let mut x: usize = 0;
        while x < count
            invariant
                x <= count,
                count == bytes@[0x15],
                sector_info_size == 8,
                bytes@.len() >= 0x100,
                0x18 + count * 8 <= bytes@.len(),
                track_info.sector_count == bytes@[0x15],
                sector_infos@.len() == x,
                forall|k: int|
                    0 <= k < x ==> {
                        let base = 0x18 + k * 8;
                        &&& (#[trigger] sector_infos@[k]).track_number == bytes@[base]
                        &&& sector_infos@[k].side_number == bytes@[base + 1]
                        &&& sector_infos@[k].sector_id == bytes@[base + 2]
                        &&& sector_infos@[k].sector_size == bytes@[base + 3]
                        &&& sector_infos@[k].fdc_status_register_1 == bytes@[base + 4]
                        &&& sector_infos@[k].fdc_status_register_2 == bytes@[base + 5]
                    },
            decreases count - x,
        {
            let start_index = 0x18 + x * sector_info_size;
            let end_index = start_index + sector_info_size;
            sector_infos.push(SectorInfo::init_from_bytes(&track_info, &bytes[start_index..end_index]));
            x += 1;
        }
        let sector_data = slice_to_vec(&bytes[0x100..bytes.len()]);
        Ok(Track { track_info, sector_infos, sector_data })
    }
}

impl DiscInformationBlock {
    /// Reads the disc information block at the start of the image: the
    /// flavour from the preamble, the creator field, the track and side
    /// counts, and the track block size with its zero default.
    pub fn from_bytes(bytes: &[u8]) -> (r: Result<DiscInformationBlock, &'static str>)
        ensures
            bytes@.len() < 0x34 ==> (r matches Err(m) && m@ == "Dsk image too short"@),
            bytes@.len() >= 0x34 && !has_normal_preamble(bytes@) && !has_extended_preamble(bytes@)
                ==> (r matches Err(m) && m@ == "Invalid Dsk format"@),
            r is Ok <==> bytes@.len() >= 0x34 && (has_normal_preamble(bytes@)
                || has_extended_preamble(bytes@)),
            r matches Ok(d) ==> {
                &&& d.dsk_type == (if has_normal_preamble(bytes@) {
                    DskType::Normal
                } else {
                    DskType::Extended
                })
                &&& d.creator@ == bytes@.subrange(0x22, 0x2F)
                &&& d.track_count == bytes@[0x30]
                &&& d.side_count == bytes@[0x31]
                &&& d.track_size == spec_track_size(bytes@)
            },
    {
        if bytes.len() < 0x34 {
            return Err("Dsk image too short");
        }
        let normal = bytes[0] == 0x4D && bytes[1] == 0x56 && bytes[2] == 0x20 && bytes[3] == 0x2D
            && bytes[4] == 0x20 && bytes[5] == 0x43 && bytes[6] == 0x50 && bytes[7] == 0x43
            && bytes[8] == 0x45 && bytes[9] == 0x4D && bytes[10] == 0x55;
        let extended = bytes[0] == 0x45 && bytes[1] == 0x58 && bytes[2] == 0x54 && bytes[3] == 0x45
            && bytes[4] == 0x4E && bytes[5] == 0x44 && bytes[6] == 0x45 && bytes[7] == 0x44
            && bytes[8] == 0x20 && bytes[9] == 0x43 && bytes[10] == 0x50;
        if !normal && !extended {
            return Err("Invalid Dsk format");
        }
        let dsk_type = if normal {
            DskType::Normal
        } else {
            DskType::Extended
        };
        let creator = slice_to_vec(&bytes[0x22..0x2F]);
        let track_count = bytes[0x30];
        let side_count = bytes[0x31];
        let raw_track_size = bytes[0x32] as u32 + 256 * (bytes[0x33] as u32);
        let track_size = if raw_track_size == 0 {
            4864
        } else {
            raw_track_size
        };
        Ok(
            DiscInformationBlock {
                dsk_type,
                creator,
                track_count,
                side_count,
                track_size,
            },
        )
    }

    /// Slices the track area into blocks of the declared size and parses
    /// each; a block that lies outside the image or fails to parse is
    /// skipped, so an image yields one track per included block.
    fn load_tracks(&self, bytes: &[u8]) -> (r: Vec<Track>)
        requires
            self.track_size >= 1,
        ensures
            r@.len() == included_track_count(
                bytes@,
                self.track_size as int,
                self.track_count as nat,
            ),
            r@.len() <= self.track_count,
            forall|k: int| 0 <= k < r@.len() ==> track_wf(#[trigger] r@[k]),
    {
        let mut tracks: Vec<Track> = Vec::new();
        let mut x: usize = 0;
        let count = self.track_count as usize;
        while x < count
            invariant
                x <= count,
                count <= 255,
                count == self.track_count,
                self.track_size >= 1,
                tracks@.len() == included_track_count(bytes@, self.track_size as int, x as nat),
                tracks@.len() <= x,
                forall|k: int| 0 <= k < tracks@.len() ==> track_wf(#[trigger] tracks@[k]),
            decreases count - x,
        {
            proof {
                assert((x as u64) * (self.track_size as u64) <= 255 * 0xFFFF_FFFFu64)
                    by (nonlinear_arith)
                    requires
                        x <= 255,
                        self.track_size <= 0xFFFF_FFFF,
                ;
            }
            let track_start: u64 = (x as u64) * (self.track_size as u64);
            let track_end: u64 = track_start + (self.track_size as u64) - 1;
            if track_end <= bytes.len() as u64 {
                let start = track_start as usize;
                let end = track_end as usize;
                match Track::init_from_bytes(&bytes[start..end], self.track_size) {
                    Ok(track) => tracks.push(track),
                    Err(_) => (),
                }
            }
            x += 1;
        }
        tracks
    }
}

impl Dsk {
    /// Parses a whole disk image: the information block, then one track
    /// block after another from offset 0x100. The image must be long enough
    /// to hold the information block and the track area's start; its
    /// preamble must name one of the two container flavours.
    pub fn init_from_bytes(bytes: &[u8]) -> (r: Result<Dsk, &'static str>)
        ensures
            r is Ok <==> bytes@.len() >= 0x100 && (has_normal_preamble(bytes@)
                || has_extended_preamble(bytes@)),
            bytes@.len() >= 0x34 && !has_normal_preamble(bytes@) && !has_extended_preamble(bytes@)
                ==> (r matches Err(m) && m@ == "Invalid Dsk format"@),
            r matches Ok(d) ==> {
                &&& d.dsk_type == (if has_normal_preamble(bytes@) {
                    DskType::Normal
                } else {
                    DskType::Extended
                })
                &&& d.dsk_info.dsk_type == d.dsk_type
                &&& d.dsk_info.creator@ == bytes@.subrange(0x22, 0x2F)
                &&& d.dsk_info.track_count == bytes@[0x30]
                &&& d.dsk_info.side_count == bytes@[0x31]
                &&& d.dsk_info.track_size == spec_track_size(bytes@)
                &&& d.tracks@.len() == included_track_count(
                    bytes@.subrange(0x100, bytes@.len() as int),
                    spec_track_size(bytes@) as int,
                    bytes@[0x30] as nat,
                )
                &&& d.tracks@.len() <= d.dsk_info.track_count
                &&& forall|k: int| 0 <= k < d.tracks@.len() ==> track_wf(#[trigger] d.tracks@[k])
            },
    {
        let dib = match DiscInformationBlock::from_bytes(bytes) {
            Ok(dib) => dib,
            Err(msg) => {
                return Err(msg);
            },
        };
        if bytes.len() < 0x100 {
            return Err("Dsk image too short");
        }
        // The first track block is located at offset 0x100 in the image.
        let tracks = dib.load_tracks(&bytes[0x100..bytes.len()]);
        Ok(Dsk { dsk_type: dib.dsk_type, dsk_info: dib, tracks })
    }
}

} // verus!
