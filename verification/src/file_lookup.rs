//! The file-lookup command: its two field masks, their decoded
//! records, and the request and response values.
use vstd::prelude::*;

use crate::errors::AniDbError;
use crate::mask::FieldKind;
use crate::mask::decode_slots;
use crate::mask::decode_slots_spec;
use crate::mask::group_byte;
use crate::mask::lemma_slots_presence;
use crate::mask::next_val;
use crate::mask::ov_i16;
use crate::mask::ov_i32;
use crate::mask::ov_i64;
use crate::mask::ov_text;
use crate::mask::ov_episode;
use crate::mask::ex_i16;
use crate::mask::ex_i32;
use crate::mask::ex_i64;
use crate::mask::ex_text;
use crate::mask::ex_episode;
use crate::types::EpNo;
use crate::wire::hex_lower;
use crate::wire::hex_of;
use crate::wire::urlencode_pairs;
use crate::wire::urlencoded_of;
use crate::errors::AniDbErrorView;
use crate::errors::code_error;
use crate::mask::FieldDecoder;
use crate::strutil::dec_digits;
use crate::strutil::dec_int;
use crate::strutil::is_int_str;
use crate::strutil::int_str_val;
use crate::strutil::split_chars;
use crate::strutil::split_str;
use crate::strutil::str_eq;
use crate::strutil::trim_chars;
use crate::strutil::trim_str;

verus! {

/// Selects which file fields a lookup asks the server to return.
#[derive(Debug, Clone, Copy, PartialEq, Eq, Structural, Default)]
pub struct FileMask {
    pub aid: bool,
    pub eid: bool,
    pub gid: bool,
    pub mylist_id: bool,
    pub other_episodes: bool,
    pub is_deprecated: bool,
    pub state: bool,
    pub size: bool,
    pub ed2k: bool,
    pub md5: bool,
    pub sha1: bool,
    pub crc32: bool,
    pub video_colour_depth: bool,
    pub quality: bool,
    pub source: bool,
    pub audio_codec_list: bool,
    pub audio_bitrate_list: bool,
    pub video_codec: bool,
    pub video_bitrate: bool,
    pub video_resolution: bool,
    pub file_type: bool,
    pub dub_language: bool,
    pub sub_language: bool,
    pub length_in_seconds: bool,
    pub description: bool,
    pub aired_date: bool,
    pub anidb_file_name: bool,
    pub mylist_state: bool,
    pub mylist_filestate: bool,
    pub mylist_viewed: bool,
    pub mylist_viewdate: bool,
    pub mylist_storage: bool,
    pub mylist_source: bool,
    pub mylist_other: bool,
}

impl FileMask {
    /// The mask with every field selected.
    pub fn all() -> (r: FileMask)
        ensures
            r == (
            FileMask {
                aid: true,
                eid: true,
                gid: true,
                mylist_id: true,
                other_episodes: true,
                is_deprecated: true,
                state: true,
                size: true,
                ed2k: true,
                md5: true,
                sha1: true,
                crc32: true,
                video_colour_depth: true,
                quality: true,
                source: true,
                audio_codec_list: true,
                audio_bitrate_list: true,
                video_codec: true,
                video_bitrate: true,
                video_resolution: true,
                file_type: true,
                dub_language: true,
                sub_language: true,
                length_in_seconds: true,
                description: true,
                aired_date: true,
                anidb_file_name: true,
                mylist_state: true,
                mylist_filestate: true,
                mylist_viewed: true,
                mylist_viewdate: true,
                mylist_storage: true,
                mylist_source: true,
                mylist_other: true,
            }),
    {
        FileMask {
            aid: true,
            eid: true,
            gid: true,
            mylist_id: true,
            other_episodes: true,
            is_deprecated: true,
            state: true,
            size: true,
            ed2k: true,
            md5: true,
            sha1: true,
            crc32: true,
            video_colour_depth: true,
            quality: true,
            source: true,
            audio_codec_list: true,
            audio_bitrate_list: true,
            video_codec: true,
            video_bitrate: true,
            video_resolution: true,
            file_type: true,
            dub_language: true,
            sub_language: true,
            length_in_seconds: true,
            description: true,
            aired_date: true,
            anidb_file_name: true,
            mylist_state: true,
            mylist_filestate: true,
            mylist_viewed: true,
            mylist_viewdate: true,
            mylist_storage: true,
            mylist_source: true,
            mylist_other: true,
        }
    }

    /// The mask with no field selected.
    pub fn none() -> (r: FileMask)
        ensures
            r == (
            FileMask {
                aid: false,
                eid: false,
                gid: false,
                mylist_id: false,
                other_episodes: false,
                is_deprecated: false,
                state: false,
                size: false,
                ed2k: false,
                md5: false,
                sha1: false,
                crc32: false,
                video_colour_depth: false,
                quality: false,
                source: false,
                audio_codec_list: false,
                audio_bitrate_list: false,
                video_codec: false,
                video_bitrate: false,
                video_resolution: false,
                file_type: false,
                dub_language: false,
                sub_language: false,
                length_in_seconds: false,
                description: false,
                aired_date: false,
                anidb_file_name: false,
                mylist_state: false,
                mylist_filestate: false,
                mylist_viewed: false,
                mylist_viewdate: false,
                mylist_storage: false,
                mylist_source: false,
                mylist_other: false,
            }),
    {
        FileMask {
            aid: false,
            eid: false,
            gid: false,
            mylist_id: false,
            other_episodes: false,
            is_deprecated: false,
            state: false,
            size: false,
            ed2k: false,
            md5: false,
            sha1: false,
            crc32: false,
            video_colour_depth: false,
            quality: false,
            source: false,
            audio_codec_list: false,
            audio_bitrate_list: false,
            video_codec: false,
            video_bitrate: false,
            video_resolution: false,
            file_type: false,
            dub_language: false,
            sub_language: false,
            length_in_seconds: false,
            description: false,
            aired_date: false,
            anidb_file_name: false,
            mylist_state: false,
            mylist_filestate: false,
            mylist_viewed: false,
            mylist_viewdate: false,
            mylist_storage: false,
            mylist_source: false,
            mylist_other: false,
        }
    }
}

/// One decoded file record; only fields the mask selected are populated.
#[derive(Debug, Default)]
pub struct FileMaskResponse {
    pub aid: Option<i32>,
    pub eid: Option<i32>,
    pub gid: Option<i32>,
    pub mylist_id: Option<i32>,
    pub other_episodes: Option<String>,
    pub is_deprecated: Option<i16>,
    pub state: Option<i16>,
    pub size: Option<i64>,
    pub ed2k: Option<String>,
    pub md5: Option<String>,
    pub sha1: Option<String>,
    pub crc32: Option<String>,
    pub video_colour_depth: Option<i32>,
    pub quality: Option<String>,
    pub source: Option<String>,
    pub audio_codec_list: Option<String>,
    pub audio_bitrate_list: Option<i32>,
    pub video_codec: Option<String>,
    pub video_bitrate: Option<i32>,
    pub video_resolution: Option<String>,
    pub file_type: Option<String>,
    pub dub_language: Option<String>,
    pub sub_language: Option<String>,
    pub length_in_seconds: Option<i32>,
    pub description: Option<String>,
    pub aired_date: Option<i32>,
    pub anidb_file_name: Option<String>,
    pub mylist_state: Option<i32>,
    pub mylist_filestate: Option<i32>,
    pub mylist_viewed: Option<i32>,
    pub mylist_viewdate: Option<i32>,
    pub mylist_storage: Option<String>,
    pub mylist_source: Option<String>,
    pub mylist_other: Option<String>,
}

impl FileMaskResponse {
    /// The mask whose flags mark exactly the populated fields.
    pub fn present_fields(&self) -> (r: FileMask)
        ensures
            r == (
            FileMask {
                aid: self.aid is Some,
                eid: self.eid is Some,
                gid: self.gid is Some,
                mylist_id: self.mylist_id is Some,
                other_episodes: self.other_episodes is Some,
                is_deprecated: self.is_deprecated is Some,
                state: self.state is Some,
                size: self.size is Some,
                ed2k: self.ed2k is Some,
                md5: self.md5 is Some,
                sha1: self.sha1 is Some,
                crc32: self.crc32 is Some,
                video_colour_depth: self.video_colour_depth is Some,
                quality: self.quality is Some,
                source: self.source is Some,
                audio_codec_list: self.audio_codec_list is Some,
                audio_bitrate_list: self.audio_bitrate_list is Some,
                video_codec: self.video_codec is Some,
                video_bitrate: self.video_bitrate is Some,
                video_resolution: self.video_resolution is Some,
                file_type: self.file_type is Some,
                dub_language: self.dub_language is Some,
                sub_language: self.sub_language is Some,
                length_in_seconds: self.length_in_seconds is Some,
                description: self.description is Some,
                aired_date: self.aired_date is Some,
                anidb_file_name: self.anidb_file_name is Some,
                mylist_state: self.mylist_state is Some,
                mylist_filestate: self.mylist_filestate is Some,
                mylist_viewed: self.mylist_viewed is Some,
                mylist_viewdate: self.mylist_viewdate is Some,
                mylist_storage: self.mylist_storage is Some,
                mylist_source: self.mylist_source is Some,
                mylist_other: self.mylist_other is Some,
            }),
    {
        FileMask {
            aid: self.aid.is_some(),
            eid: self.eid.is_some(),
            gid: self.gid.is_some(),
            mylist_id: self.mylist_id.is_some(),
            other_episodes: self.other_episodes.is_some(),
            is_deprecated: self.is_deprecated.is_some(),
            state: self.state.is_some(),
            size: self.size.is_some(),
            ed2k: self.ed2k.is_some(),
            md5: self.md5.is_some(),
            sha1: self.sha1.is_some(),
            crc32: self.crc32.is_some(),
            video_colour_depth: self.video_colour_depth.is_some(),
            quality: self.quality.is_some(),
            source: self.source.is_some(),
            audio_codec_list: self.audio_codec_list.is_some(),
            audio_bitrate_list: self.audio_bitrate_list.is_some(),
            video_codec: self.video_codec.is_some(),
            video_bitrate: self.video_bitrate.is_some(),
            video_resolution: self.video_resolution.is_some(),
            file_type: self.file_type.is_some(),
            dub_language: self.dub_language.is_some(),
            sub_language: self.sub_language.is_some(),
            length_in_seconds: self.length_in_seconds.is_some(),
            description: self.description.is_some(),
            aired_date: self.aired_date.is_some(),
            anidb_file_name: self.anidb_file_name.is_some(),
            mylist_state: self.mylist_state.is_some(),
            mylist_filestate: self.mylist_filestate.is_some(),
            mylist_viewed: self.mylist_viewed.is_some(),
            mylist_viewdate: self.mylist_viewdate.is_some(),
            mylist_storage: self.mylist_storage.is_some(),
            mylist_source: self.mylist_source.is_some(),
            mylist_other: self.mylist_other.is_some(),
        }
    }
}
/// Selects which associated metadata fields a file lookup also returns.
#[derive(Debug, Clone, Copy, PartialEq, Eq, Structural, Default)]
pub struct AnimeMask {
    pub anime_total_episodes: bool,
    pub highest_episode_number: bool,
    pub year: bool,
    pub ty: bool,
    pub related_aid_list: bool,
    pub related_aid_type: bool,
    pub category_list: bool,
    pub romaji_name: bool,
    pub kanji_name: bool,
    pub english_name: bool,
    pub other_name: bool,
    pub short_name_list: bool,
    pub synonym_list: bool,
    pub epno: bool,
    pub ep_name: bool,
    pub ep_romaji_name: bool,
    pub ep_kanji_name: bool,
    pub episode_rating: bool,
    pub episode_vote_count: bool,
    pub group_name: bool,
    pub group_short_name: bool,
    pub date_aid_record_updated: bool,
}

impl AnimeMask {
    /// The mask with every field selected.
    pub fn all() -> (r: AnimeMask)
        ensures
            r == (
            AnimeMask {
                anime_total_episodes: true,
                highest_episode_number: true,
                year: true,
                ty: true,
                related_aid_list: true,
                related_aid_type: true,
                category_list: true,
                romaji_name: true,
                kanji_name: true,
                english_name: true,
                other_name: true,
                short_name_list: true,
                synonym_list: true,
                epno: true,
                ep_name: true,
                ep_romaji_name: true,
                ep_kanji_name: true,
                episode_rating: true,
                episode_vote_count: true,
                group_name: true,
                group_short_name: true,
                date_aid_record_updated: true,
            }),
    {
        AnimeMask {
            anime_total_episodes: true,
            highest_episode_number: true,
            year: true,
            ty: true,
            related_aid_list: true,
            related_aid_type: true,
            category_list: true,
            romaji_name: true,
            kanji_name: true,
            english_name: true,
            other_name: true,
            short_name_list: true,
            synonym_list: true,
            epno: true,
            ep_name: true,
            ep_romaji_name: true,
            ep_kanji_name: true,
            episode_rating: true,
            episode_vote_count: true,
            group_name: true,
            group_short_name: true,
            date_aid_record_updated: true,
        }
    }

    /// The mask with no field selected.
    pub fn none() -> (r: AnimeMask)
        ensures
            r == (
            AnimeMask {
                anime_total_episodes: false,
                highest_episode_number: false,
                year: false,
                ty: false,
                related_aid_list: false,
                related_aid_type: false,
                category_list: false,
                romaji_name: false,
                kanji_name: false,
                english_name: false,
                other_name: false,
                short_name_list: false,
                synonym_list: false,
                epno: false,
                ep_name: false,
                ep_romaji_name: false,
                ep_kanji_name: false,
                episode_rating: false,
                episode_vote_count: false,
                group_name: false,
                group_short_name: false,
                date_aid_record_updated: false,
            }),
    {
        AnimeMask {
            anime_total_episodes: false,
            highest_episode_number: false,
            year: false,
            ty: false,
            related_aid_list: false,
            related_aid_type: false,
            category_list: false,
            romaji_name: false,
            kanji_name: false,
            english_name: false,
            other_name: false,
            short_name_list: false,
            synonym_list: false,
            epno: false,
            ep_name: false,
            ep_romaji_name: false,
            ep_kanji_name: false,
            episode_rating: false,
            episode_vote_count: false,
            group_name: false,
            group_short_name: false,
            date_aid_record_updated: false,
        }
    }
}

/// The associated metadata of a file record; only fields the mask selected are populated.
#[derive(Debug, Default)]
pub struct AnimeMaskResponse {
    pub anime_total_episodes: Option<i32>,
    pub highest_episode_number: Option<i32>,
    pub year: Option<String>,
    pub ty: Option<String>,
    pub related_aid_list: Option<String>,
    pub related_aid_type: Option<String>,
    pub category_list: Option<String>,
    pub romaji_name: Option<String>,
    pub kanji_name: Option<String>,
    pub english_name: Option<String>,
    pub other_name: Option<String>,
    pub short_name_list: Option<String>,
    pub synonym_list: Option<String>,
    pub epno: Option<EpNo>,
    pub ep_name: Option<String>,
    pub ep_romaji_name: Option<String>,
    pub ep_kanji_name: Option<String>,
    pub episode_rating: Option<i32>,
    pub episode_vote_count: Option<i32>,
    pub group_name: Option<String>,
    pub group_short_name: Option<String>,
    pub date_aid_record_updated: Option<i32>,
}

/// The slot at position `i` of this mask's wire order.
pub open spec fn file_fields_slot_at(m: FileMask, i: int) -> (bool, FieldKind) {
    if i == 0 { (m.aid, FieldKind::I32) }
    else if i == 1 { (m.eid, FieldKind::I32) }
    else if i == 2 { (m.gid, FieldKind::I32) }
    else if i == 3 { (m.mylist_id, FieldKind::I32) }
    else if i == 4 { (m.other_episodes, FieldKind::Text) }
    else if i == 5 { (m.is_deprecated, FieldKind::I16) }
    else if i == 6 { (m.state, FieldKind::I16) }
    else if i == 7 { (m.size, FieldKind::I64) }
    else if i == 8 { (m.ed2k, FieldKind::Text) }
    else if i == 9 { (m.md5, FieldKind::Text) }
    else if i == 10 { (m.sha1, FieldKind::Text) }
    else if i == 11 { (m.crc32, FieldKind::Text) }
    else if i == 12 { (m.video_colour_depth, FieldKind::I32) }
    else if i == 13 { (m.quality, FieldKind::Text) }
    else if i == 14 { (m.source, FieldKind::Text) }
    else if i == 15 { (m.audio_codec_list, FieldKind::Text) }
    else if i == 16 { (m.audio_bitrate_list, FieldKind::I32) }
    else if i == 17 { (m.video_codec, FieldKind::Text) }
    else if i == 18 { (m.video_bitrate, FieldKind::I32) }
    else if i == 19 { (m.video_resolution, FieldKind::Text) }
    else if i == 20 { (m.file_type, FieldKind::Text) }
    else if i == 21 { (m.dub_language, FieldKind::Text) }
    else if i == 22 { (m.sub_language, FieldKind::Text) }
    else if i == 23 { (m.length_in_seconds, FieldKind::I32) }
    else if i == 24 { (m.description, FieldKind::Text) }
    else if i == 25 { (m.aired_date, FieldKind::I32) }
    else if i == 26 { (m.anidb_file_name, FieldKind::Text) }
    else if i == 27 { (m.mylist_state, FieldKind::I32) }
    else if i == 28 { (m.mylist_filestate, FieldKind::I32) }
    else if i == 29 { (m.mylist_viewed, FieldKind::I32) }
    else if i == 30 { (m.mylist_viewdate, FieldKind::I32) }
    else if i == 31 { (m.mylist_storage, FieldKind::Text) }
    else if i == 32 { (m.mylist_source, FieldKind::Text) }
    else { (m.mylist_other, FieldKind::Text) }
}

/// The slots of this mask in wire order: group by group, most
/// significant bit of each group first.
pub open spec fn file_fields_slots(m: FileMask) -> Seq<(bool, FieldKind)> {
    Seq::new(34, |i: int| file_fields_slot_at(m, i))
}

/// The byte of group `g` of the wire mask: each selected flag
/// contributes its bit within its group's byte.
pub open spec fn file_fields_byte_at(m: FileMask, g: int) -> u8 {
    if g == 0 { ((if m.aid { 64int } else { 0int }) + (if m.eid { 32int } else { 0int }) + (if m.gid { 16int } else { 0int }) + (if m.mylist_id { 8int } else { 0int }) + (if m.other_episodes { 4int } else { 0int }) + (if m.is_deprecated { 2int } else { 0int }) + (if m.state { 1int } else { 0int })) as u8 }
    else if g == 1 { ((if m.size { 128int } else { 0int }) + (if m.ed2k { 64int } else { 0int }) + (if m.md5 { 32int } else { 0int }) + (if m.sha1 { 16int } else { 0int }) + (if m.crc32 { 8int } else { 0int }) + (if m.video_colour_depth { 2int } else { 0int })) as u8 }
    else if g == 2 { ((if m.quality { 128int } else { 0int }) + (if m.source { 64int } else { 0int }) + (if m.audio_codec_list { 32int } else { 0int }) + (if m.audio_bitrate_list { 16int } else { 0int }) + (if m.video_codec { 8int } else { 0int }) + (if m.video_bitrate { 4int } else { 0int }) + (if m.video_resolution { 2int } else { 0int }) + (if m.file_type { 1int } else { 0int })) as u8 }
    else if g == 3 { ((if m.dub_language { 128int } else { 0int }) + (if m.sub_language { 64int } else { 0int }) + (if m.length_in_seconds { 32int } else { 0int }) + (if m.description { 16int } else { 0int }) + (if m.aired_date { 8int } else { 0int }) + (if m.anidb_file_name { 1int } else { 0int })) as u8 }
    else { ((if m.mylist_state { 128int } else { 0int }) + (if m.mylist_filestate { 64int } else { 0int }) + (if m.mylist_viewed { 32int } else { 0int }) + (if m.mylist_viewdate { 16int } else { 0int }) + (if m.mylist_storage { 8int } else { 0int }) + (if m.mylist_source { 4int } else { 0int }) + (if m.mylist_other { 2int } else { 0int })) as u8 }
}

/// The group bytes of the wire mask, in declared group order.
pub open spec fn file_fields_bytes(m: FileMask) -> Seq<u8> {
    Seq::new(5, |g: int| file_fields_byte_at(m, g))
}

impl FileMask {
    fn slot_entry(&self, i: usize) -> (r: (bool, FieldKind))
        requires
            i < 34,
        ensures
            r == file_fields_slot_at(*self, i as int),
    {
        match i {
            0 => (self.aid, FieldKind::I32),
            1 => (self.eid, FieldKind::I32),
            2 => (self.gid, FieldKind::I32),
            3 => (self.mylist_id, FieldKind::I32),
            4 => (self.other_episodes, FieldKind::Text),
            5 => (self.is_deprecated, FieldKind::I16),
            6 => (self.state, FieldKind::I16),
            7 => (self.size, FieldKind::I64),
            8 => (self.ed2k, FieldKind::Text),
            9 => (self.md5, FieldKind::Text),
            10 => (self.sha1, FieldKind::Text),
            11 => (self.crc32, FieldKind::Text),
            12 => (self.video_colour_depth, FieldKind::I32),
            13 => (self.quality, FieldKind::Text),
            14 => (self.source, FieldKind::Text),
            15 => (self.audio_codec_list, FieldKind::Text),
            16 => (self.audio_bitrate_list, FieldKind::I32),
            17 => (self.video_codec, FieldKind::Text),
            18 => (self.video_bitrate, FieldKind::I32),
            19 => (self.video_resolution, FieldKind::Text),
            20 => (self.file_type, FieldKind::Text),
            21 => (self.dub_language, FieldKind::Text),
            22 => (self.sub_language, FieldKind::Text),
            23 => (self.length_in_seconds, FieldKind::I32),
            24 => (self.description, FieldKind::Text),
            25 => (self.aired_date, FieldKind::I32),
            26 => (self.anidb_file_name, FieldKind::Text),
            27 => (self.mylist_state, FieldKind::I32),
            28 => (self.mylist_filestate, FieldKind::I32),
            29 => (self.mylist_viewed, FieldKind::I32),
            30 => (self.mylist_viewdate, FieldKind::I32),
            31 => (self.mylist_storage, FieldKind::Text),
            32 => (self.mylist_source, FieldKind::Text),
            _ => (self.mylist_other, FieldKind::Text),
        }
    }

    fn schema(&self) -> (r: Vec<(bool, FieldKind)>)
        ensures
            r@ == file_fields_slots(*self),
    {
        let mut v: Vec<(bool, FieldKind)> = Vec::new();
        let mut i: usize = 0;
        while i < 34
            invariant
                i <= 34,
                v@ =~= file_fields_slots(*self).take(i as int),
            decreases 34 - i,
        {
            v.push(self.slot_entry(i));
            proof {
                assert(v@ =~= file_fields_slots(*self).take(i + 1));
            }
            i += 1;
        }
        proof {
            assert(v@ =~= file_fields_slots(*self));
        }
        v
    }

    #[verifier::spinoff_prover]
    fn byte_entry_0(&self) -> (r: u8)
        ensures
            r == file_fields_byte_at(*self, 0),
    {
        group_byte(false, self.aid, self.eid, self.gid, self.mylist_id, self.other_episodes, self.is_deprecated, self.state)
    }

    #[verifier::spinoff_prover]
    fn byte_entry_1(&self) -> (r: u8)
        ensures
            r == file_fields_byte_at(*self, 1),
    {
        group_byte(self.size, self.ed2k, self.md5, self.sha1, self.crc32, false, self.video_colour_depth, false)
    }

    #[verifier::spinoff_prover]
    fn byte_entry_2(&self) -> (r: u8)
        ensures
            r == file_fields_byte_at(*self, 2),
    {
        group_byte(self.quality, self.source, self.audio_codec_list, self.audio_bitrate_list, self.video_codec, self.video_bitrate, self.video_resolution, self.file_type)
    }

    #[verifier::spinoff_prover]
    fn byte_entry_3(&self) -> (r: u8)
        ensures
            r == file_fields_byte_at(*self, 3),
    {
        group_byte(self.dub_language, self.sub_language, self.length_in_seconds, self.description, self.aired_date, false, false, self.anidb_file_name)
    }

    #[verifier::spinoff_prover]
    fn byte_entry_4(&self) -> (r: u8)
        ensures
            r == file_fields_byte_at(*self, 4),
    {
        group_byte(self.mylist_state, self.mylist_filestate, self.mylist_viewed, self.mylist_viewdate, self.mylist_storage, self.mylist_source, self.mylist_other, false)
    }

    /// The group bytes of this mask.
    pub fn mask_bytes(&self) -> (r: Vec<u8>)
        ensures
            r@ == file_fields_bytes(*self),
    {
        let mut v: Vec<u8> = Vec::new();
        v.push(self.byte_entry_0());
        v.push(self.byte_entry_1());
        v.push(self.byte_entry_2());
        v.push(self.byte_entry_3());
        v.push(self.byte_entry_4());
        proof {
            assert(v@ =~= file_fields_bytes(*self));
        }
        v
    }

    /// The request-parameter form of this mask: its bytes in
    /// lowercase hex.
    pub fn hex_param(&self) -> (r: String)
        ensures
            r@ == hex_of(file_fields_bytes(*self)),
    {
        let bytes = self.mask_bytes();
        hex_lower(&bytes)
    }
}
/// `rec` is what decoding `toks` from `i0` under mask `m` gives:
/// the decode succeeds, each selected field holds its decoded
/// token, and each unselected field is empty.
pub open spec fn file_fields_rec_ok(rec: FileMaskResponse, m: FileMask, toks: Seq<Seq<char>>, i0: int) -> bool {
    let d = decode_slots_spec(file_fields_slots(m), toks, i0);
    let vals = d->Some_0.0;
    &&& d is Some
    &&& rec.aid == ov_i32(vals[0])
    &&& rec.eid == ov_i32(vals[1])
    &&& rec.gid == ov_i32(vals[2])
    &&& rec.mylist_id == ov_i32(vals[3])
    &&& rec.other_episodes.deep_view() == ov_text(vals[4])
    &&& rec.is_deprecated == ov_i16(vals[5])
    &&& rec.state == ov_i16(vals[6])
    &&& rec.size == ov_i64(vals[7])
    &&& rec.ed2k.deep_view() == ov_text(vals[8])
    &&& rec.md5.deep_view() == ov_text(vals[9])
    &&& rec.sha1.deep_view() == ov_text(vals[10])
    &&& rec.crc32.deep_view() == ov_text(vals[11])
    &&& rec.video_colour_depth == ov_i32(vals[12])
    &&& rec.quality.deep_view() == ov_text(vals[13])
    &&& rec.source.deep_view() == ov_text(vals[14])
    &&& rec.audio_codec_list.deep_view() == ov_text(vals[15])
    &&& rec.audio_bitrate_list == ov_i32(vals[16])
    &&& rec.video_codec.deep_view() == ov_text(vals[17])
    &&& rec.video_bitrate == ov_i32(vals[18])
    &&& rec.video_resolution.deep_view() == ov_text(vals[19])
    &&& rec.file_type.deep_view() == ov_text(vals[20])
    &&& rec.dub_language.deep_view() == ov_text(vals[21])
    &&& rec.sub_language.deep_view() == ov_text(vals[22])
    &&& rec.length_in_seconds == ov_i32(vals[23])
    &&& rec.description.deep_view() == ov_text(vals[24])
    &&& rec.aired_date == ov_i32(vals[25])
    &&& rec.anidb_file_name.deep_view() == ov_text(vals[26])
    &&& rec.mylist_state == ov_i32(vals[27])
    &&& rec.mylist_filestate == ov_i32(vals[28])
    &&& rec.mylist_viewed == ov_i32(vals[29])
    &&& rec.mylist_viewdate == ov_i32(vals[30])
    &&& rec.mylist_storage.deep_view() == ov_text(vals[31])
    &&& rec.mylist_source.deep_view() == ov_text(vals[32])
    &&& rec.mylist_other.deep_view() == ov_text(vals[33])
    &&& (rec.aid is Some <==> m.aid)
    &&& (rec.eid is Some <==> m.eid)
    &&& (rec.gid is Some <==> m.gid)
    &&& (rec.mylist_id is Some <==> m.mylist_id)
    &&& (rec.other_episodes is Some <==> m.other_episodes)
    &&& (rec.is_deprecated is Some <==> m.is_deprecated)
    &&& (rec.state is Some <==> m.state)
    &&& (rec.size is Some <==> m.size)
    &&& (rec.ed2k is Some <==> m.ed2k)
    &&& (rec.md5 is Some <==> m.md5)
    &&& (rec.sha1 is Some <==> m.sha1)
    &&& (rec.crc32 is Some <==> m.crc32)
    &&& (rec.video_colour_depth is Some <==> m.video_colour_depth)
    &&& (rec.quality is Some <==> m.quality)
    &&& (rec.source is Some <==> m.source)
    &&& (rec.audio_codec_list is Some <==> m.audio_codec_list)
    &&& (rec.audio_bitrate_list is Some <==> m.audio_bitrate_list)
    &&& (rec.video_codec is Some <==> m.video_codec)
    &&& (rec.video_bitrate is Some <==> m.video_bitrate)
    &&& (rec.video_resolution is Some <==> m.video_resolution)
    &&& (rec.file_type is Some <==> m.file_type)
    &&& (rec.dub_language is Some <==> m.dub_language)
    &&& (rec.sub_language is Some <==> m.sub_language)
    &&& (rec.length_in_seconds is Some <==> m.length_in_seconds)
    &&& (rec.description is Some <==> m.description)
    &&& (rec.aired_date is Some <==> m.aired_date)
    &&& (rec.anidb_file_name is Some <==> m.anidb_file_name)
    &&& (rec.mylist_state is Some <==> m.mylist_state)
    &&& (rec.mylist_filestate is Some <==> m.mylist_filestate)
    &&& (rec.mylist_viewed is Some <==> m.mylist_viewed)
    &&& (rec.mylist_viewdate is Some <==> m.mylist_viewdate)
    &&& (rec.mylist_storage is Some <==> m.mylist_storage)
    &&& (rec.mylist_source is Some <==> m.mylist_source)
    &&& (rec.mylist_other is Some <==> m.mylist_other)
}

impl FileMask {
    /// Decodes the fields this mask selects from the record's
    /// tokens, one token per selected field in declared order,
    /// starting at `idx`.
    #[verifier::spinoff_prover]
    #[verifier::rlimit(100)]
    pub fn decode_record(&self, toks: &Vec<String>, idx: &mut usize) -> (r: Result<
        FileMaskResponse,
        AniDbError,
    >)
        requires
            *old(idx) as int <= toks@.len(),
        ensures
            match r {
                Ok(rec) => file_fields_rec_ok(rec, *self, toks.deep_view(), *old(idx) as int)
                    && *final(idx) as int == decode_slots_spec(
                    file_fields_slots(*self),
                    toks.deep_view(),
                    *old(idx) as int,
                )->Some_0.1 && *final(idx) as int <= toks@.len(),
                Err(e) => decode_slots_spec(
                    file_fields_slots(*self),
                    toks.deep_view(),
                    *old(idx) as int,
                ) is None && e.deep_view() is DecodeError,
            },
    {
        let slots = self.schema();
        let mut vals = match decode_slots(&slots, toks, idx) {
            Ok(v) => v,
            Err(e) => {
                return Err(e);
            },
        };
        let ghost valso = vals@;
        let ghost valsd = vals.deep_view();
        proof {
            lemma_slots_presence(file_fields_slots(*self), toks.deep_view(), *old(idx) as int);
            assert(valso.len() == 34);
            assert forall|q: int| 0 <= q < 34 implies valsd[q] == valso[q].deep_view() by {}
        }
        let v0 = next_val(&mut vals);
        proof {
            assert(vals@ =~= valso.skip(1));
        }
        let v1 = next_val(&mut vals);
        proof {
            assert(vals@ =~= valso.skip(2));
        }
        let v2 = next_val(&mut vals);
        proof {
            assert(vals@ =~= valso.skip(3));
        }
        let v3 = next_val(&mut vals);
        proof {
            assert(vals@ =~= valso.skip(4));
        }
        let v4 = next_val(&mut vals);
        proof {
            assert(vals@ =~= valso.skip(5));
        }
        let v5 = next_val(&mut vals);
        proof {
            assert(vals@ =~= valso.skip(6));
        }
        let v6 = next_val(&mut vals);
        proof {
            assert(vals@ =~= valso.skip(7));
        }
        let v7 = next_val(&mut vals);
        proof {
            assert(vals@ =~= valso.skip(8));
        }
        let v8 = next_val(&mut vals);
        proof {
            assert(vals@ =~= valso.skip(9));
        }
        let v9 = next_val(&mut vals);
        proof {
            assert(vals@ =~= valso.skip(10));
        }
        let v10 = next_val(&mut vals);
        proof {
            assert(vals@ =~= valso.skip(11));
        }
        let v11 = next_val(&mut vals);
        proof {
            assert(vals@ =~= valso.skip(12));
        }
        let v12 = next_val(&mut vals);
        proof {
            assert(vals@ =~= valso.skip(13));
        }
        let v13 = next_val(&mut vals);
        proof {
            assert(vals@ =~= valso.skip(14));
        }
        let v14 = next_val(&mut vals);
        proof {
            assert(vals@ =~= valso.skip(15));
        }
        let v15 = next_val(&mut vals);
        proof {
            assert(vals@ =~= valso.skip(16));
        }
        let v16 = next_val(&mut vals);
        proof {
            assert(vals@ =~= valso.skip(17));
        }
        let v17 = next_val(&mut vals);
        proof {
            assert(vals@ =~= valso.skip(18));
        }
        let v18 = next_val(&mut vals);
        proof {
            assert(vals@ =~= valso.skip(19));
        }
        let v19 = next_val(&mut vals);
        proof {
            assert(vals@ =~= valso.skip(20));
        }
        let v20 = next_val(&mut vals);
        proof {
            assert(vals@ =~= valso.skip(21));
        }
        let v21 = next_val(&mut vals);
        proof {
            assert(vals@ =~= valso.skip(22));
        }
        let v22 = next_val(&mut vals);
        proof {
            assert(vals@ =~= valso.skip(23));
        }
        let v23 = next_val(&mut vals);
        proof {
            assert(vals@ =~= valso.skip(24));
        }
        let v24 = next_val(&mut vals);
        proof {
            assert(vals@ =~= valso.skip(25));
        }
        let v25 = next_val(&mut vals);
        proof {
            assert(vals@ =~= valso.skip(26));
        }
        let v26 = next_val(&mut vals);
        proof {
            assert(vals@ =~= valso.skip(27));
        }
        let v27 = next_val(&mut vals);
        proof {
            assert(vals@ =~= valso.skip(28));
        }
        let v28 = next_val(&mut vals);
        proof {
            assert(vals@ =~= valso.skip(29));
        }
        let v29 = next_val(&mut vals);
        proof {
            assert(vals@ =~= valso.skip(30));
        }
        let v30 = next_val(&mut vals);
        proof {
            assert(vals@ =~= valso.skip(31));
        }
        let v31 = next_val(&mut vals);
        proof {
            assert(vals@ =~= valso.skip(32));
        }
        let v32 = next_val(&mut vals);
        proof {
            assert(vals@ =~= valso.skip(33));
        }
        let v33 = next_val(&mut vals);
        let rec = FileMaskResponse {
            aid: ex_i32(v0),
            eid: ex_i32(v1),
            gid: ex_i32(v2),
            mylist_id: ex_i32(v3),
            other_episodes: ex_text(v4),
            is_deprecated: ex_i16(v5),
            state: ex_i16(v6),
            size: ex_i64(v7),
            ed2k: ex_text(v8),
            md5: ex_text(v9),
            sha1: ex_text(v10),
            crc32: ex_text(v11),
            video_colour_depth: ex_i32(v12),
            quality: ex_text(v13),
            source: ex_text(v14),
            audio_codec_list: ex_text(v15),
            audio_bitrate_list: ex_i32(v16),
            video_codec: ex_text(v17),
            video_bitrate: ex_i32(v18),
            video_resolution: ex_text(v19),
            file_type: ex_text(v20),
            dub_language: ex_text(v21),
            sub_language: ex_text(v22),
            length_in_seconds: ex_i32(v23),
            description: ex_text(v24),
            aired_date: ex_i32(v25),
            anidb_file_name: ex_text(v26),
            mylist_state: ex_i32(v27),
            mylist_filestate: ex_i32(v28),
            mylist_viewed: ex_i32(v29),
            mylist_viewdate: ex_i32(v30),
            mylist_storage: ex_text(v31),
            mylist_source: ex_text(v32),
            mylist_other: ex_text(v33),
        };
        Ok(rec)
    }
}
/// The slot at position `i` of this mask's wire order.
pub open spec fn file_anime_fields_slot_at(m: AnimeMask, i: int) -> (bool, FieldKind) {
    if i == 0 { (m.anime_total_episodes, FieldKind::I32) }
    else if i == 1 { (m.highest_episode_number, FieldKind::I32) }
    else if i == 2 { (m.year, FieldKind::Text) }
    else if i == 3 { (m.ty, FieldKind::Text) }
    else if i == 4 { (m.related_aid_list, FieldKind::Text) }
    else if i == 5 { (m.related_aid_type, FieldKind::Text) }
    else if i == 6 { (m.category_list, FieldKind::Text) }
    else if i == 7 { (m.romaji_name, FieldKind::Text) }
    else if i == 8 { (m.kanji_name, FieldKind::Text) }
    else if i == 9 { (m.english_name, FieldKind::Text) }
    else if i == 10 { (m.other_name, FieldKind::Text) }
    else if i == 11 { (m.short_name_list, FieldKind::Text) }
    else if i == 12 { (m.synonym_list, FieldKind::Text) }
    else if i == 13 { (m.epno, FieldKind::Episode) }
    else if i == 14 { (m.ep_name, FieldKind::Text) }
    else if i == 15 { (m.ep_romaji_name, FieldKind::Text) }
    else if i == 16 { (m.ep_kanji_name, FieldKind::Text) }
    else if i == 17 { (m.episode_rating, FieldKind::I32) }
    else if i == 18 { (m.episode_vote_count, FieldKind::I32) }
    else if i == 19 { (m.group_name, FieldKind::Text) }
    else if i == 20 { (m.group_short_name, FieldKind::Text) }
    else { (m.date_aid_record_updated, FieldKind::I32) }
}

/// The slots of this mask in wire order: group by group, most
/// significant bit of each group first.
pub open spec fn file_anime_fields_slots(m: AnimeMask) -> Seq<(bool, FieldKind)> {
    Seq::new(22, |i: int| file_anime_fields_slot_at(m, i))
}

/// The byte of group `g` of the wire mask: each selected flag
/// contributes its bit within its group's byte.
pub open spec fn file_anime_fields_byte_at(m: AnimeMask, g: int) -> u8 {
    if g == 0 { ((if m.anime_total_episodes { 128int } else { 0int }) + (if m.highest_episode_number { 64int } else { 0int }) + (if m.year { 32int } else { 0int }) + (if m.ty { 16int } else { 0int }) + (if m.related_aid_list { 8int } else { 0int }) + (if m.related_aid_type { 4int } else { 0int }) + (if m.category_list { 2int } else { 0int })) as u8 }
    else if g == 1 { ((if m.romaji_name { 128int } else { 0int }) + (if m.kanji_name { 64int } else { 0int }) + (if m.english_name { 32int } else { 0int }) + (if m.other_name { 16int } else { 0int }) + (if m.short_name_list { 8int } else { 0int }) + (if m.synonym_list { 4int } else { 0int })) as u8 }
    else if g == 2 { ((if m.epno { 128int } else { 0int }) + (if m.ep_name { 64int } else { 0int }) + (if m.ep_romaji_name { 32int } else { 0int }) + (if m.ep_kanji_name { 16int } else { 0int }) + (if m.episode_rating { 8int } else { 0int }) + (if m.episode_vote_count { 4int } else { 0int })) as u8 }
    else { ((if m.group_name { 128int } else { 0int }) + (if m.group_short_name { 64int } else { 0int }) + (if m.date_aid_record_updated { 1int } else { 0int })) as u8 }
}

/// The group bytes of the wire mask, in declared group order.
pub open spec fn file_anime_fields_bytes(m: AnimeMask) -> Seq<u8> {
    Seq::new(4, |g: int| file_anime_fields_byte_at(m, g))
}

impl AnimeMask {
    fn slot_entry(&self, i: usize) -> (r: (bool, FieldKind))
        requires
            i < 22,
        ensures
            r == file_anime_fields_slot_at(*self, i as int),
    {
        match i {
            0 => (self.anime_total_episodes, FieldKind::I32),
            1 => (self.highest_episode_number, FieldKind::I32),
            2 => (self.year, FieldKind::Text),
            3 => (self.ty, FieldKind::Text),
            4 => (self.related_aid_list, FieldKind::Text),
            5 => (self.related_aid_type, FieldKind::Text),
            6 => (self.category_list, FieldKind::Text),
            7 => (self.romaji_name, FieldKind::Text),
            8 => (self.kanji_name, FieldKind::Text),
            9 => (self.english_name, FieldKind::Text),
            10 => (self.other_name, FieldKind::Text),
            11 => (self.short_name_list, FieldKind::Text),
            12 => (self.synonym_list, FieldKind::Text),
            13 => (self.epno, FieldKind::Episode),
            14 => (self.ep_name, FieldKind::Text),
            15 => (self.ep_romaji_name, FieldKind::Text),
            16 => (self.ep_kanji_name, FieldKind::Text),
            17 => (self.episode_rating, FieldKind::I32),
            18 => (self.episode_vote_count, FieldKind::I32),
            19 => (self.group_name, FieldKind::Text),
            20 => (self.group_short_name, FieldKind::Text),
            _ => (self.date_aid_record_updated, FieldKind::I32),
        }
    }

    fn schema(&self) -> (r: Vec<(bool, FieldKind)>)
        ensures
            r@ == file_anime_fields_slots(*self),
    {
        let mut v: Vec<(bool, FieldKind)> = Vec::new();
        let mut i: usize = 0;
        while i < 22
            invariant
                i <= 22,
                v@ =~= file_anime_fields_slots(*self).take(i as int),
            decreases 22 - i,
        {
            v.push(self.slot_entry(i));
            proof {
                assert(v@ =~= file_anime_fields_slots(*self).take(i + 1));
            }
            i += 1;
        }
        proof {
            assert(v@ =~= file_anime_fields_slots(*self));
        }
        v
    }

    #[verifier::spinoff_prover]
    fn byte_entry_0(&self) -> (r: u8)
        ensures
            r == file_anime_fields_byte_at(*self, 0),
    {
        group_byte(self.anime_total_episodes, self.highest_episode_number, self.year, self.ty, self.related_aid_list, self.related_aid_type, self.category_list, false)
    }

    #[verifier::spinoff_prover]
    fn byte_entry_1(&self) -> (r: u8)
        ensures
            r == file_anime_fields_byte_at(*self, 1),
    {
        group_byte(self.romaji_name, self.kanji_name, self.english_name, self.other_name, self.short_name_list, self.synonym_list, false, false)
    }

    #[verifier::spinoff_prover]
    fn byte_entry_2(&self) -> (r: u8)
        ensures
            r == file_anime_fields_byte_at(*self, 2),
    {
        group_byte(self.epno, self.ep_name, self.ep_romaji_name, self.ep_kanji_name, self.episode_rating, self.episode_vote_count, false, false)
    }

    #[verifier::spinoff_prover]
    fn byte_entry_3(&self) -> (r: u8)
        ensures
            r == file_anime_fields_byte_at(*self, 3),
    {
        group_byte(self.group_name, self.group_short_name, false, false, false, false, false, self.date_aid_record_updated)
    }

    /// The group bytes of this mask.
    pub fn mask_bytes(&self) -> (r: Vec<u8>)
        ensures
            r@ == file_anime_fields_bytes(*self),
    {
        let mut v: Vec<u8> = Vec::new();
        v.push(self.byte_entry_0());
        v.push(self.byte_entry_1());
        v.push(self.byte_entry_2());
        v.push(self.byte_entry_3());
        proof {
            assert(v@ =~= file_anime_fields_bytes(*self));
        }
        v
    }

    /// The request-parameter form of this mask: its bytes in
    /// lowercase hex.
    pub fn hex_param(&self) -> (r: String)
        ensures
            r@ == hex_of(file_anime_fields_bytes(*self)),
    {
        let bytes = self.mask_bytes();
        hex_lower(&bytes)
    }
}
/// `rec` is what decoding `toks` from `i0` under mask `m` gives:
/// the decode succeeds, each selected field holds its decoded
/// token, and each unselected field is empty.
pub open spec fn file_anime_fields_rec_ok(rec: AnimeMaskResponse, m: AnimeMask, toks: Seq<Seq<char>>, i0: int) -> bool {
    let d = decode_slots_spec(file_anime_fields_slots(m), toks, i0);
    let vals = d->Some_0.0;
    &&& d is Some
    &&& rec.anime_total_episodes == ov_i32(vals[0])
    &&& rec.highest_episode_number == ov_i32(vals[1])
    &&& rec.year.deep_view() == ov_text(vals[2])
    &&& rec.ty.deep_view() == ov_text(vals[3])
    &&& rec.related_aid_list.deep_view() == ov_text(vals[4])
    &&& rec.related_aid_type.deep_view() == ov_text(vals[5])
    &&& rec.category_list.deep_view() == ov_text(vals[6])
    &&& rec.romaji_name.deep_view() == ov_text(vals[7])
    &&& rec.kanji_name.deep_view() == ov_text(vals[8])
    &&& rec.english_name.deep_view() == ov_text(vals[9])
    &&& rec.other_name.deep_view() == ov_text(vals[10])
    &&& rec.short_name_list.deep_view() == ov_text(vals[11])
    &&& rec.synonym_list.deep_view() == ov_text(vals[12])
    &&& rec.epno == ov_episode(vals[13])
    &&& rec.ep_name.deep_view() == ov_text(vals[14])
    &&& rec.ep_romaji_name.deep_view() == ov_text(vals[15])
    &&& rec.ep_kanji_name.deep_view() == ov_text(vals[16])
    &&& rec.episode_rating == ov_i32(vals[17])
    &&& rec.episode_vote_count == ov_i32(vals[18])
    &&& rec.group_name.deep_view() == ov_text(vals[19])
    &&& rec.group_short_name.deep_view() == ov_text(vals[20])
    &&& rec.date_aid_record_updated == ov_i32(vals[21])
    &&& (rec.anime_total_episodes is Some <==> m.anime_total_episodes)
    &&& (rec.highest_episode_number is Some <==> m.highest_episode_number)
    &&& (rec.year is Some <==> m.year)
    &&& (rec.ty is Some <==> m.ty)
    &&& (rec.related_aid_list is Some <==> m.related_aid_list)
    &&& (rec.related_aid_type is Some <==> m.related_aid_type)
    &&& (rec.category_list is Some <==> m.category_list)
    &&& (rec.romaji_name is Some <==> m.romaji_name)
    &&& (rec.kanji_name is Some <==> m.kanji_name)
    &&& (rec.english_name is Some <==> m.english_name)
    &&& (rec.other_name is Some <==> m.other_name)
    &&& (rec.short_name_list is Some <==> m.short_name_list)
    &&& (rec.synonym_list is Some <==> m.synonym_list)
    &&& (rec.epno is Some <==> m.epno)
    &&& (rec.ep_name is Some <==> m.ep_name)
    &&& (rec.ep_romaji_name is Some <==> m.ep_romaji_name)
    &&& (rec.ep_kanji_name is Some <==> m.ep_kanji_name)
    &&& (rec.episode_rating is Some <==> m.episode_rating)
    &&& (rec.episode_vote_count is Some <==> m.episode_vote_count)
    &&& (rec.group_name is Some <==> m.group_name)
    &&& (rec.group_short_name is Some <==> m.group_short_name)
    &&& (rec.date_aid_record_updated is Some <==> m.date_aid_record_updated)
}

impl AnimeMask {
    /// Decodes the fields this mask selects from the record's
    /// tokens, one token per selected field in declared order,
    /// starting at `idx`.
    #[verifier::spinoff_prover]
    #[verifier::rlimit(100)]
    pub fn decode_record(&self, toks: &Vec<String>, idx: &mut usize) -> (r: Result<
        AnimeMaskResponse,
        AniDbError,
    >)
        requires
            *old(idx) as int <= toks@.len(),
        ensures
            match r {
                Ok(rec) => file_anime_fields_rec_ok(rec, *self, toks.deep_view(), *old(idx) as int)
                    && *final(idx) as int == decode_slots_spec(
                    file_anime_fields_slots(*self),
                    toks.deep_view(),
                    *old(idx) as int,
                )->Some_0.1 && *final(idx) as int <= toks@.len(),
                Err(e) => decode_slots_spec(
                    file_anime_fields_slots(*self),
                    toks.deep_view(),
                    *old(idx) as int,
                ) is None && e.deep_view() is DecodeError,
            },
    {
        let slots = self.schema();
        let mut vals = match decode_slots(&slots, toks, idx) {
            Ok(v) => v,
            Err(e) => {
                return Err(e);
            },
        };
        let ghost valso = vals@;
        let ghost valsd = vals.deep_view();
        proof {
            lemma_slots_presence(file_anime_fields_slots(*self), toks.deep_view(), *old(idx) as int);
            assert(valso.len() == 22);
            assert forall|q: int| 0 <= q < 22 implies valsd[q] == valso[q].deep_view() by {}
        }
        let v0 = next_val(&mut vals);
        proof {
            assert(vals@ =~= valso.skip(1));
        }
        let v1 = next_val(&mut vals);
        proof {
            assert(vals@ =~= valso.skip(2));
        }
        let v2 = next_val(&mut vals);
        proof {
            assert(vals@ =~= valso.skip(3));
        }
        let v3 = next_val(&mut vals);
        proof {
            assert(vals@ =~= valso.skip(4));
        }
        let v4 = next_val(&mut vals);
        proof {
            assert(vals@ =~= valso.skip(5));
        }
        let v5 = next_val(&mut vals);
        proof {
            assert(vals@ =~= valso.skip(6));
        }
        let v6 = next_val(&mut vals);
        proof {
            assert(vals@ =~= valso.skip(7));
        }
        let v7 = next_val(&mut vals);
        proof {
            assert(vals@ =~= valso.skip(8));
        }
        let v8 = next_val(&mut vals);
        proof {
            assert(vals@ =~= valso.skip(9));
        }
        let v9 = next_val(&mut vals);
        proof {
            assert(vals@ =~= valso.skip(10));
        }
        let v10 = next_val(&mut vals);
        proof {
            assert(vals@ =~= valso.skip(11));
        }
        let v11 = next_val(&mut vals);
        proof {
            assert(vals@ =~= valso.skip(12));
        }
        let v12 = next_val(&mut vals);
        proof {
            assert(vals@ =~= valso.skip(13));
        }
        let v13 = next_val(&mut vals);
        proof {
            assert(vals@ =~= valso.skip(14));
        }
        let v14 = next_val(&mut vals);
        proof {
            assert(vals@ =~= valso.skip(15));
        }
        let v15 = next_val(&mut vals);
        proof {
            assert(vals@ =~= valso.skip(16));
        }
        let v16 = next_val(&mut vals);
        proof {
            assert(vals@ =~= valso.skip(17));
        }
        let v17 = next_val(&mut vals);
        proof {
            assert(vals@ =~= valso.skip(18));
        }
        let v18 = next_val(&mut vals);
        proof {
            assert(vals@ =~= valso.skip(19));
        }
        let v19 = next_val(&mut vals);
        proof {
            assert(vals@ =~= valso.skip(20));
        }
        let v20 = next_val(&mut vals);
        proof {
            assert(vals@ =~= valso.skip(21));
        }
        let v21 = next_val(&mut vals);
        let rec = AnimeMaskResponse {
            anime_total_episodes: ex_i32(v0),
            highest_episode_number: ex_i32(v1),
            year: ex_text(v2),
            ty: ex_text(v3),
            related_aid_list: ex_text(v4),
            related_aid_type: ex_text(v5),
            category_list: ex_text(v6),
            romaji_name: ex_text(v7),
            kanji_name: ex_text(v8),
            english_name: ex_text(v9),
            other_name: ex_text(v10),
            short_name_list: ex_text(v11),
            synonym_list: ex_text(v12),
            epno: ex_episode(v13),
            ep_name: ex_text(v14),
            ep_romaji_name: ex_text(v15),
            ep_kanji_name: ex_text(v16),
            episode_rating: ex_i32(v17),
            episode_vote_count: ex_i32(v18),
            group_name: ex_text(v19),
            group_short_name: ex_text(v20),
            date_aid_record_updated: ex_i32(v21),
        };
        Ok(rec)
    }
}
/// The slot at position `i` of the fixed layout decoded when no
/// mask was supplied.
pub open spec fn file_legacy_slot_at(i: int) -> (bool, FieldKind) {
    if i == 0 { (true, FieldKind::I32) }
    else if i == 1 { (true, FieldKind::I32) }
    else if i == 2 { (true, FieldKind::I16) }
    else if i == 3 { (true, FieldKind::I64) }
    else if i == 4 { (true, FieldKind::Text) }
    else { (true, FieldKind::Text) }
}

/// The fixed field layout decoded when no mask was supplied.
pub open spec fn file_legacy_slots() -> Seq<(bool, FieldKind)> {
    Seq::new(6, |i: int| file_legacy_slot_at(i))
}

/// `rec` is the decode of `toks` under the fixed legacy layout;
/// fields outside that layout stay empty.
pub open spec fn file_legacy_rec_ok(rec: FileMaskResponse, toks: Seq<Seq<char>>, i0: int) -> bool {
    let d = decode_slots_spec(file_legacy_slots(), toks, i0);
    let vals = d->Some_0.0;
    &&& d is Some
    &&& rec.aid == ov_i32(vals[0])
    &&& rec.gid == ov_i32(vals[1])
    &&& rec.state == ov_i16(vals[2])
    &&& rec.size == ov_i64(vals[3])
    &&& rec.ed2k.deep_view() == ov_text(vals[4])
    &&& rec.anidb_file_name.deep_view() == ov_text(vals[5])
    &&& rec.aid is Some
    &&& rec.gid is Some
    &&& rec.state is Some
    &&& rec.size is Some
    &&& rec.ed2k is Some
    &&& rec.anidb_file_name is Some
    &&& rec.eid is None
    &&& rec.mylist_id is None
    &&& rec.other_episodes is None
    &&& rec.is_deprecated is None
    &&& rec.md5 is None
    &&& rec.sha1 is None
    &&& rec.crc32 is None
    &&& rec.video_colour_depth is None
    &&& rec.quality is None
    &&& rec.source is None
    &&& rec.audio_codec_list is None
    &&& rec.audio_bitrate_list is None
    &&& rec.video_codec is None
    &&& rec.video_bitrate is None
    &&& rec.video_resolution is None
    &&& rec.file_type is None
    &&& rec.dub_language is None
    &&& rec.sub_language is None
    &&& rec.length_in_seconds is None
    &&& rec.description is None
    &&& rec.aired_date is None
    &&& rec.mylist_state is None
    &&& rec.mylist_filestate is None
    &&& rec.mylist_viewed is None
    &&& rec.mylist_viewdate is None
    &&& rec.mylist_storage is None
    &&& rec.mylist_source is None
    &&& rec.mylist_other is None
}

fn file_legacy_slot_entry(i: usize) -> (r: (bool, FieldKind))
    requires
        i < 6,
    ensures
        r == file_legacy_slot_at(i as int),
{
    match i {
        0 => (true, FieldKind::I32),
        1 => (true, FieldKind::I32),
        2 => (true, FieldKind::I16),
        3 => (true, FieldKind::I64),
        4 => (true, FieldKind::Text),
        _ => (true, FieldKind::Text),
    }
}

/// Decodes the fixed legacy layout from the record's tokens.
#[verifier::spinoff_prover]
#[verifier::rlimit(100)]
pub fn file_decode_legacy(toks: &Vec<String>, start: usize) -> (r: Result<FileMaskResponse, AniDbError>)
    requires
        start as int <= toks@.len(),
    ensures
        match r {
            Ok(rec) => file_legacy_rec_ok(rec, toks.deep_view(), start as int),
            Err(e) => decode_slots_spec(file_legacy_slots(), toks.deep_view(), start as int)
                is None && e.deep_view() is DecodeError,
        },
{
    let mut slots: Vec<(bool, FieldKind)> = Vec::new();
    let mut i: usize = 0;
    while i < 6
        invariant
            i <= 6,
            slots@ =~= file_legacy_slots().take(i as int),
        decreases 6 - i,
    {
        slots.push(file_legacy_slot_entry(i));
        proof {
            assert(slots@ =~= file_legacy_slots().take(i + 1));
        }
        i += 1;
    }
    proof {
        assert(slots@ =~= file_legacy_slots());
    }
    let mut idx: usize = start;
    let mut vals = match decode_slots(&slots, toks, &mut idx) {
        Ok(v) => v,
        Err(e) => {
            return Err(e);
        },
    };
    let ghost valso = vals@;
    let ghost valsd = vals.deep_view();
    proof {
        lemma_slots_presence(file_legacy_slots(), toks.deep_view(), start as int);
        assert(valso.len() == 6);
        assert forall|q: int| 0 <= q < 6 implies valsd[q] == valso[q].deep_view() by {}
    }
    let v0 = next_val(&mut vals);
    proof {
        assert(vals@ =~= valso.skip(1));
    }
    let v1 = next_val(&mut vals);
    proof {
        assert(vals@ =~= valso.skip(2));
    }
    let v2 = next_val(&mut vals);
    proof {
        assert(vals@ =~= valso.skip(3));
    }
    let v3 = next_val(&mut vals);
    proof {
        assert(vals@ =~= valso.skip(4));
    }
    let v4 = next_val(&mut vals);
    proof {
        assert(vals@ =~= valso.skip(5));
    }
    let v5 = next_val(&mut vals);
    let rec = FileMaskResponse {
        aid: ex_i32(v0),
        gid: ex_i32(v1),
        state: ex_i16(v2),
        size: ex_i64(v3),
        ed2k: ex_text(v4),
        anidb_file_name: ex_text(v5),
        eid: None,
        mylist_id: None,
        other_episodes: None,
        is_deprecated: None,
        md5: None,
        sha1: None,
        crc32: None,
        video_colour_depth: None,
        quality: None,
        source: None,
        audio_codec_list: None,
        audio_bitrate_list: None,
        video_codec: None,
        video_bitrate: None,
        video_resolution: None,
        file_type: None,
        dub_language: None,
        sub_language: None,
        length_in_seconds: None,
        description: None,
        aired_date: None,
        mylist_state: None,
        mylist_filestate: None,
        mylist_viewed: None,
        mylist_viewdate: None,
        mylist_storage: None,
        mylist_source: None,
        mylist_other: None,
    };
    Ok(rec)
}

/// A file lookup, by numeric id or by size and content hash, with the
/// fields the caller wants decoded.
#[derive(Debug)]
pub enum FileRequest {
    Fid(i32, Option<FileMask>, Option<AnimeMask>),
    SizeEd2k(usize, String, Option<FileMask>, Option<AnimeMask>),
}

/// What a file lookup returns: one decoded record, or the raw ids of
/// several candidate files.
#[derive(Debug)]
pub enum FileResponse {
    File(i32, Option<FileMaskResponse>, Option<AnimeMaskResponse>),
    MultipleFiles(Vec<i32>),
}

/// An error of the file lookup: the command-specific not-found
/// condition, or one of the shared kinds.
#[derive(Debug, Clone, PartialEq)]
pub enum FileRequestError {
    NoSuchFile,
    AniDbError(AniDbError),
}

/// The same error with its text as character sequences, for contracts.
pub enum FileRequestErrorView {
    NoSuchFile,
    AniDbError(AniDbErrorView),
}

impl DeepView for FileRequestError {
    type V = FileRequestErrorView;

    open spec fn deep_view(&self) -> FileRequestErrorView {
        match self {
            FileRequestError::NoSuchFile => FileRequestErrorView::NoSuchFile,
            FileRequestError::AniDbError(e) => FileRequestErrorView::AniDbError(e.deep_view()),
        }
    }
}

/// The masks this lookup was issued with.
pub open spec fn file_masks_of(r: FileRequest) -> (Option<FileMask>, Option<AnimeMask>) {
    match r {
        FileRequest::Fid(_, fm, am) => (fm, am),
        FileRequest::SizeEd2k(_, _, fm, am) => (fm, am),
    }
}

/// A run of zero bytes: the wire mask that selects nothing.
pub open spec fn zero_bytes(n: int) -> Seq<u8> {
    Seq::new(n as nat, |i: int| 0u8)
}

/// The key/value pairs of this lookup's query string, in wire order:
/// the id or the size and hash, then the two masks in hex. When only
/// one mask was supplied the other rides as an all-zero mask, so the
/// reply shape stays positional.
pub open spec fn file_pairs(r: FileRequest) -> Seq<(Seq<char>, Seq<char>)> {
    let base = match r {
        FileRequest::Fid(fid, _, _) => seq![("fid"@, dec_int(fid as int))],
        FileRequest::SizeEd2k(size, ed2k, _, _) => seq![
            ("size"@, dec_digits(size as nat)),
            ("ed2k"@, ed2k@),
        ],
    };
    let fm = file_masks_of(r).0;
    let am = file_masks_of(r).1;
    let withf = match fm {
        Some(m) => base.push(("fmask"@, hex_of(file_fields_bytes(m)))),
        None => if am is Some {
            base.push(("fmask"@, hex_of(zero_bytes(5))))
        } else {
            base
        },
    };
    match am {
        Some(m) => withf.push(("amask"@, hex_of(file_anime_fields_bytes(m)))),
        None => if fm is Some {
            withf.push(("amask"@, hex_of(zero_bytes(4))))
        } else {
            withf
        },
    }
}

/// The record tokens of a file reply body: trimmed, then split on the
/// positional separator.
pub open spec fn file_body_toks(data: Seq<char>) -> Seq<Seq<char>> {
    split_chars(trim_chars(data), '|')
}

/// Whether the record of a file reply decodes: the leading file id,
/// then each supplied mask in turn over one shared token position, or
/// the fixed legacy layout when no mask was supplied.
pub open spec fn file_line_decodes(
    fm: Option<FileMask>,
    am: Option<AnimeMask>,
    toks: Seq<Seq<char>>,
) -> bool {
    &&& <i32 as FieldDecoder>::field_spec(toks[0]) is Some
    &&& match (fm, am) {
        (Some(m1), Some(m2)) => {
            let d1 = decode_slots_spec(file_fields_slots(m1), toks, 1);
            &&& d1 is Some
            &&& decode_slots_spec(file_anime_fields_slots(m2), toks, d1->Some_0.1) is Some
        },
        (Some(m1), None) => decode_slots_spec(file_fields_slots(m1), toks, 1) is Some,
        (None, Some(m2)) => decode_slots_spec(file_anime_fields_slots(m2), toks, 1) is Some,
        (None, None) => decode_slots_spec(file_legacy_slots(), toks, 1) is Some,
    }
}

/// `resp` is the decoded record of a file reply: the file id from the
/// first token, then each supplied mask's record, the second mask
/// starting where the first stopped.
pub open spec fn file_resp_ok(
    resp: FileResponse,
    fm: Option<FileMask>,
    am: Option<AnimeMask>,
    toks: Seq<Seq<char>>,
) -> bool {
    match resp {
        FileResponse::File(fid, fr, ar) => {
            &&& <i32 as FieldDecoder>::field_spec(toks[0]) == Some(fid)
            &&& match (fm, am) {
                (Some(m1), Some(m2)) => {
                    let d1 = decode_slots_spec(file_fields_slots(m1), toks, 1);
                    &&& (fr matches Some(frec) && file_fields_rec_ok(frec, m1, toks, 1))
                    &&& (ar matches Some(arec) && file_anime_fields_rec_ok(
                        arec,
                        m2,
                        toks,
                        d1->Some_0.1,
                    ))
                },
                (Some(m1), None) => (fr matches Some(frec) && file_fields_rec_ok(
                    frec,
                    m1,
                    toks,
                    1,
                )) && ar is None,
                (None, Some(m2)) => fr is None && (ar matches Some(arec)
                    && file_anime_fields_rec_ok(arec, m2, toks, 1)),
                (None, None) => (fr matches Some(frec) && file_legacy_rec_ok(frec, toks, 1))
                    && ar is None,
            }
        },
        _ => false,
    }
}

/// The candidate ids of a multiple-files reply, when every
/// pipe-delimited piece parses as an integer.
pub open spec fn pipe_int_list(data: Seq<char>) -> Option<Seq<i32>> {
    let parts = split_chars(data, '|');
    if forall|i: int|
        0 <= i < parts.len() ==> is_int_str(#[trigger] parts[i]) && i32::MIN <= int_str_val(
            parts[i],
        ) <= i32::MAX {
        Some(Seq::new(parts.len(), |i: int| int_str_val(parts[i]) as i32))
    } else {
        None
    }
}

proof fn lemma_some_pipe_part_bad(t: Seq<char>, i: int)
    requires
        0 <= i < split_chars(t, '|').len(),
        !(is_int_str(split_chars(t, '|')[i]) && i32::MIN <= int_str_val(split_chars(t, '|')[i])
            <= i32::MAX),
    ensures
        pipe_int_list(t) is None,
{
}

/// Parses the pipe-delimited id list of a multiple-files reply.
fn parse_pipe_ids(data: &str) -> (r: Result<Vec<i32>, AniDbError>)
    ensures
        match r {
            Ok(v) => pipe_int_list(data@) == Some(v@),
            Err(e) => pipe_int_list(data@) is None && e.deep_view() is DecodeError,
        },
{
    let parts = split_str(data, '|');
    let ghost partsv = split_chars(data@, '|');
    let mut out: Vec<i32> = Vec::new();
    let mut i: usize = 0;
    while i < parts.len()
        invariant
            0 <= i <= parts@.len(),
            partsv == split_chars(data@, '|'),
            parts.deep_view() == partsv,
            out@.len() == i,
            forall|j: int|
                0 <= j < i ==> is_int_str(#[trigger] partsv[j]) && i32::MIN <= int_str_val(
                    partsv[j],
                ) <= i32::MAX && out@[j] as int == int_str_val(partsv[j]),
        decreases parts@.len() - i,
    {
        proof {
            assert(parts.deep_view()[i as int] == parts@[i as int].deep_view());
            assert(parts@[i as int]@ == partsv[i as int]);
        }
        match crate::strutil::parse_i32(parts[i].as_str()) {
            Some(v) => {
                out.push(v);
            },
            None => {
                proof {
                    lemma_some_pipe_part_bad(data@, i as int);
                }
                return Err(AniDbError::DecodeError("invalid file id list".to_owned()));
            },
        }
        i += 1;
    }
    proof {
        assert(out@ =~= Seq::new(partsv.len(), |i: int| int_str_val(partsv[i]) as i32));
    }
    Ok(out)
}

impl FileRequest {
    /// The wire command keyword.
    pub fn name() -> (r: &'static str)
        ensures
            r@ == "FILE"@,
    {
        "FILE"
    }

    /// File lookups run inside an authenticated session.
    pub fn requires_login() -> (r: bool)
        ensures
            r,
    {
        true
    }

    /// The masks this lookup was issued with.
    pub fn masks(&self) -> (r: (Option<FileMask>, Option<AnimeMask>))
        ensures
            r == file_masks_of(*self),
    {
        match self {
            FileRequest::Fid(_, fm, am) => (*fm, *am),
            FileRequest::SizeEd2k(_, _, fm, am) => (*fm, *am),
        }
    }

    /// Encodes this lookup's parameters as a query string.
    pub fn encode(&self) -> (r: Result<String, FileRequestError>)
        ensures
            r matches Ok(s) ==> s@ == urlencoded_of(file_pairs(*self)),
            r matches Err(e) ==> (e.deep_view() matches FileRequestErrorView::AniDbError(i)
                && i is SerializationError),
    {
        let mut pairs: Vec<(String, String)> = Vec::new();
        match self {
            FileRequest::Fid(fid, _, _) => {
                pairs.push(("fid".to_owned(), crate::strutil::i64_to_dec(*fid as i64)));
            },
            FileRequest::SizeEd2k(size, ed2k, _, _) => {
                pairs.push(("size".to_owned(), crate::strutil::u64_to_dec(*size as u64)));
                pairs.push(("ed2k".to_owned(), ed2k.clone()));
            },
        }
        let (fm, am) = self.masks();
        match fm {
            Some(m) => {
                pairs.push(("fmask".to_owned(), m.hex_param()));
            },
            None => {
                if am.is_some() {
                    let zero = FileMask::none();
                    proof {
                        assert(file_fields_bytes(zero) =~= zero_bytes(5));
                    }
                    pairs.push(("fmask".to_owned(), zero.hex_param()));
                }
            },
        }
        match am {
            Some(m) => {
                pairs.push(("amask".to_owned(), m.hex_param()));
            },
            None => {
                if fm.is_some() {
                    let zero = AnimeMask::none();
                    proof {
                        assert(file_anime_fields_bytes(zero) =~= zero_bytes(4));
                    }
                    pairs.push(("amask".to_owned(), zero.hex_param()));
                }
            },
        }
        proof {
            assert(pairs.deep_view() =~~= file_pairs(*self));
        }
        match urlencode_pairs(&pairs) {
            Ok(s) => Ok(s),
            Err(e) => Err(FileRequestError::AniDbError(e)),
        }
    }

    /// Decodes the server's reply to this lookup: a success code
    /// decodes the single record, each supplied mask in turn over one
    /// shared token position; a multiple-candidates code yields the
    /// raw ids; the no-such-file code yields the command's own
    /// not-found error; every other code goes through the shared
    /// taxonomy.
    pub fn decode_response(&self, code: &str, reply: &str, data: &str) -> (r: Result<
        FileResponse,
        FileRequestError,
    >)
        ensures
            ({
                let fm = file_masks_of(*self).0;
                let am = file_masks_of(*self).1;
                let toks = file_body_toks(data@);
                if code@ == "220"@ {
                    match r {
                        Ok(resp) => file_resp_ok(resp, fm, am, toks),
                        Err(e) => !file_line_decodes(fm, am, toks) && (e.deep_view()
                            matches FileRequestErrorView::AniDbError(i) && i is DecodeError),
                    }
                } else if code@ == "322"@ {
                    match r {
                        Ok(resp) => resp matches FileResponse::MultipleFiles(v) && pipe_int_list(
                            data@,
                        ) == Some(v@),
                        Err(e) => pipe_int_list(data@) is None && (e.deep_view()
                            matches FileRequestErrorView::AniDbError(i) && i is DecodeError),
                    }
                } else if code@ == "320"@ {
                    r matches Err(e) && e.deep_view() is NoSuchFile
                } else {
                    r matches Err(e) && e.deep_view() == FileRequestErrorView::AniDbError(
                        code_error(code@, reply@),
                    )
                }
            }),
    {
        if str_eq(code, "220") {
            let trimmed = trim_str(data);
            let toks = split_str(trimmed.as_str(), '|');
            proof {
                crate::strutil::lemma_split_chars_len(trimmed@, '|');
                assert(toks.deep_view()[0] == toks@[0].deep_view());
            }
            let fid = match crate::strutil::parse_i32(toks[0].as_str()) {
                Some(v) => v,
                None => {
                    return Err(FileRequestError::AniDbError(AniDbError::DecodeError(
                        "missing expected field".to_owned(),
                    )));
                },
            };
            let mut idx: usize = 1;
            let (fm, am) = self.masks();
            match (fm, am) {
                (Some(m1), Some(m2)) => {
                    let fr = match m1.decode_record(&toks, &mut idx) {
                        Ok(v) => v,
                        Err(e) => {
                            return Err(FileRequestError::AniDbError(e));
                        },
                    };
                    let ar = match m2.decode_record(&toks, &mut idx) {
                        Ok(v) => v,
                        Err(e) => {
                            return Err(FileRequestError::AniDbError(e));
                        },
                    };
                    Ok(FileResponse::File(fid, Some(fr), Some(ar)))
                },
                (Some(m1), None) => {
                    let fr = match m1.decode_record(&toks, &mut idx) {
                        Ok(v) => v,
                        Err(e) => {
                            return Err(FileRequestError::AniDbError(e));
                        },
                    };
                    Ok(FileResponse::File(fid, Some(fr), None))
                },
                (None, Some(m2)) => {
                    let ar = match m2.decode_record(&toks, &mut idx) {
                        Ok(v) => v,
                        Err(e) => {
                            return Err(FileRequestError::AniDbError(e));
                        },
                    };
                    Ok(FileResponse::File(fid, None, Some(ar)))
                },
                (None, None) => {
                    let fr = match file_decode_legacy(&toks, 1) {
                        Ok(v) => v,
                        Err(e) => {
                            return Err(FileRequestError::AniDbError(e));
                        },
                    };
                    Ok(FileResponse::File(fid, Some(fr), None))
                },
            }
        } else if str_eq(code, "322") {
            match parse_pipe_ids(data) {
                Ok(v) => Ok(FileResponse::MultipleFiles(v)),
                Err(e) => Err(FileRequestError::AniDbError(e)),
            }
        } else if str_eq(code, "320") {
            Err(FileRequestError::NoSuchFile)
        } else {
            Err(FileRequestError::AniDbError(AniDbError::from_code(code, reply)))
        }
    }
}

} // verus!
