//! The metadata-lookup command: its field mask, its decoded record,
//! and the request value callers build.
use vstd::prelude::*;

use crate::errors::AniDbError;
use crate::mask::FieldKind;
use crate::mask::decode_slots;
use crate::mask::decode_slots_spec;
use crate::mask::group_byte;
use crate::mask::lemma_slots_presence;
use crate::mask::next_val;
use crate::mask::ov_i32;
use crate::mask::ov_text;
use crate::mask::ov_flag;
use crate::mask::ov_text_list;
use crate::mask::ov_num_list;
use crate::mask::ex_i32;
use crate::mask::ex_text;
use crate::mask::ex_flag;
use crate::mask::ex_text_list;
use crate::mask::ex_num_list;
use crate::wire::hex_lower;
use crate::wire::hex_of;
use crate::wire::urlencode_pairs;
use crate::wire::urlencoded_of;
use crate::strutil::dec_digits;
use crate::strutil::is_blank;
use crate::strutil::split_chars;
use crate::strutil::split_str;
use crate::strutil::str_eq;
use crate::errors::code_error;
use crate::errors::AniDbErrorView;

verus! {

/// Selects which metadata fields a lookup asks the server to return.
#[derive(Debug, Clone, Copy, PartialEq, Eq, Structural, Default)]
pub struct AnimeRequestFields {
    pub aid: bool,
    pub dateflags: bool,
    pub year: bool,
    pub ty: bool,
    pub related_aid_list: bool,
    pub related_aid_type: bool,
    pub category_list: bool,
    pub romaji_name: bool,
    pub kanji_name: bool,
    pub english_name: bool,
    pub other_name: bool,
    pub short_name_list: bool,
    pub synonym_list: bool,
    pub episodes: bool,
    pub highest_episode_number: bool,
    pub special_ep_count: bool,
    pub air_date: bool,
    pub end_date: bool,
    pub url: bool,
    pub picname: bool,
    pub rating: bool,
    pub vote_count: bool,
    pub temp_rating: bool,
    pub temp_vote_count: bool,
    pub average_view_rating: bool,
    pub review_count: bool,
    pub award_list: bool,
    pub is_18plus_restricted: bool,
    pub ann_id: bool,
    pub allcinema_id: bool,
    pub animenfo_id: bool,
    pub tag_name_list: bool,
    pub tag_id_list: bool,
    pub tag_weight_list: bool,
    pub date_record_updated: bool,
    pub character_id_list: bool,
    pub specials_count: bool,
    pub credits_count: bool,
    pub other_count: bool,
    pub trailer_count: bool,
    pub parody_count: bool,
}

impl AnimeRequestFields {
    /// The mask with every field selected.
    pub fn all() -> (r: AnimeRequestFields)
        ensures
            r == (
            AnimeRequestFields {
                aid: true,
                dateflags: true,
                year: true,
                ty: true,
                related_aid_list: true,
                related_aid_type: true,
                category_list: true,
                romaji_name: true,
                kanji_name: true,
                english_name: true,
                other_name: true,
                short_name_list: true,
                synonym_list: true,
                episodes: true,
                highest_episode_number: true,
                special_ep_count: true,
                air_date: true,
                end_date: true,
                url: true,
                picname: true,
                rating: true,
                vote_count: true,
                temp_rating: true,
                temp_vote_count: true,
                average_view_rating: true,
                review_count: true,
                award_list: true,
                is_18plus_restricted: true,
                ann_id: true,
                allcinema_id: true,
                animenfo_id: true,
                tag_name_list: true,
                tag_id_list: true,
                tag_weight_list: true,
                date_record_updated: true,
                character_id_list: true,
                specials_count: true,
                credits_count: true,
                other_count: true,
                trailer_count: true,
                parody_count: true,
            }),
    {
        AnimeRequestFields {
            aid: true,
            dateflags: true,
            year: true,
            ty: true,
            related_aid_list: true,
            related_aid_type: true,
            category_list: true,
            romaji_name: true,
            kanji_name: true,
            english_name: true,
            other_name: true,
            short_name_list: true,
            synonym_list: true,
            episodes: true,
            highest_episode_number: true,
            special_ep_count: true,
            air_date: true,
            end_date: true,
            url: true,
            picname: true,
            rating: true,
            vote_count: true,
            temp_rating: true,
            temp_vote_count: true,
            average_view_rating: true,
            review_count: true,
            award_list: true,
            is_18plus_restricted: true,
            ann_id: true,
            allcinema_id: true,
            animenfo_id: true,
            tag_name_list: true,
            tag_id_list: true,
            tag_weight_list: true,
            date_record_updated: true,
            character_id_list: true,
            specials_count: true,
            credits_count: true,
            other_count: true,
            trailer_count: true,
            parody_count: true,
        }
    }

    /// The mask with no field selected.
    pub fn none() -> (r: AnimeRequestFields)
        ensures
            r == (
            AnimeRequestFields {
                aid: false,
                dateflags: false,
                year: false,
                ty: false,
                related_aid_list: false,
                related_aid_type: false,
                category_list: false,
                romaji_name: false,
                kanji_name: false,
                english_name: false,
                other_name: false,
                short_name_list: false,
                synonym_list: false,
                episodes: false,
                highest_episode_number: false,
                special_ep_count: false,
                air_date: false,
                end_date: false,
                url: false,
                picname: false,
                rating: false,
                vote_count: false,
                temp_rating: false,
                temp_vote_count: false,
                average_view_rating: false,
                review_count: false,
                award_list: false,
                is_18plus_restricted: false,
                ann_id: false,
                allcinema_id: false,
                animenfo_id: false,
                tag_name_list: false,
                tag_id_list: false,
                tag_weight_list: false,
                date_record_updated: false,
                character_id_list: false,
                specials_count: false,
                credits_count: false,
                other_count: false,
                trailer_count: false,
                parody_count: false,
            }),
    {
        AnimeRequestFields {
            aid: false,
            dateflags: false,
            year: false,
            ty: false,
            related_aid_list: false,
            related_aid_type: false,
            category_list: false,
            romaji_name: false,
            kanji_name: false,
            english_name: false,
            other_name: false,
            short_name_list: false,
            synonym_list: false,
            episodes: false,
            highest_episode_number: false,
            special_ep_count: false,
            air_date: false,
            end_date: false,
            url: false,
            picname: false,
            rating: false,
            vote_count: false,
            temp_rating: false,
            temp_vote_count: false,
            average_view_rating: false,
            review_count: false,
            award_list: false,
            is_18plus_restricted: false,
            ann_id: false,
            allcinema_id: false,
            animenfo_id: false,
            tag_name_list: false,
            tag_id_list: false,
            tag_weight_list: false,
            date_record_updated: false,
            character_id_list: false,
            specials_count: false,
            credits_count: false,
            other_count: false,
            trailer_count: false,
            parody_count: false,
        }
    }
}

/// One decoded metadata record; only fields the mask selected are populated.
#[derive(Debug, Default)]
pub struct AnimeResponse {
    pub aid: Option<i32>,
    pub dateflags: Option<i32>,
    pub year: Option<String>,
    pub ty: Option<String>,
    pub related_aid_list: Option<String>,
    pub related_aid_type: Option<String>,
    pub category_list: Option<Vec<String>>,
    pub romaji_name: Option<String>,
    pub kanji_name: Option<String>,
    pub english_name: Option<String>,
    pub other_name: Option<String>,
    pub short_name_list: Option<String>,
    pub synonym_list: Option<String>,
    pub episodes: Option<i32>,
    pub highest_episode_number: Option<i32>,
    pub special_ep_count: Option<i32>,
    pub air_date: Option<i32>,
    pub end_date: Option<i32>,
    pub url: Option<String>,
    pub picname: Option<String>,
    pub rating: Option<i32>,
    pub vote_count: Option<i32>,
    pub temp_rating: Option<i32>,
    pub temp_vote_count: Option<i32>,
    pub average_view_rating: Option<i32>,
    pub review_count: Option<i32>,
    pub award_list: Option<String>,
    pub is_18plus_restricted: Option<bool>,
    pub ann_id: Option<i32>,
    pub allcinema_id: Option<i32>,
    pub animenfo_id: Option<String>,
    pub tag_name_list: Option<Vec<String>>,
    pub tag_id_list: Option<Vec<i32>>,
    pub tag_weight_list: Option<Vec<i32>>,
    pub date_record_updated: Option<i32>,
    pub character_id_list: Option<Vec<i32>>,
    pub specials_count: Option<i32>,
    pub credits_count: Option<i32>,
    pub other_count: Option<i32>,
    pub trailer_count: Option<i32>,
    pub parody_count: Option<i32>,
}

impl AnimeResponse {
    /// The mask whose flags mark exactly the populated fields.
    pub fn present_fields(&self) -> (r: AnimeRequestFields)
        ensures
            r == (
            AnimeRequestFields {
                aid: self.aid is Some,
                dateflags: self.dateflags is Some,
                year: self.year is Some,
                ty: self.ty is Some,
                related_aid_list: self.related_aid_list is Some,
                related_aid_type: self.related_aid_type is Some,
                category_list: self.category_list is Some,
                romaji_name: self.romaji_name is Some,
                kanji_name: self.kanji_name is Some,
                english_name: self.english_name is Some,
                other_name: self.other_name is Some,
                short_name_list: self.short_name_list is Some,
                synonym_list: self.synonym_list is Some,
                episodes: self.episodes is Some,
                highest_episode_number: self.highest_episode_number is Some,
                special_ep_count: self.special_ep_count is Some,
                air_date: self.air_date is Some,
                end_date: self.end_date is Some,
                url: self.url is Some,
                picname: self.picname is Some,
                rating: self.rating is Some,
                vote_count: self.vote_count is Some,
                temp_rating: self.temp_rating is Some,
                temp_vote_count: self.temp_vote_count is Some,
                average_view_rating: self.average_view_rating is Some,
                review_count: self.review_count is Some,
                award_list: self.award_list is Some,
                is_18plus_restricted: self.is_18plus_restricted is Some,
                ann_id: self.ann_id is Some,
                allcinema_id: self.allcinema_id is Some,
                animenfo_id: self.animenfo_id is Some,
                tag_name_list: self.tag_name_list is Some,
                tag_id_list: self.tag_id_list is Some,
                tag_weight_list: self.tag_weight_list is Some,
                date_record_updated: self.date_record_updated is Some,
                character_id_list: self.character_id_list is Some,
                specials_count: self.specials_count is Some,
                credits_count: self.credits_count is Some,
                other_count: self.other_count is Some,
                trailer_count: self.trailer_count is Some,
                parody_count: self.parody_count is Some,
            }),
    {
        AnimeRequestFields {
            aid: self.aid.is_some(),
            dateflags: self.dateflags.is_some(),
            year: self.year.is_some(),
            ty: self.ty.is_some(),
            related_aid_list: self.related_aid_list.is_some(),
            related_aid_type: self.related_aid_type.is_some(),
            category_list: self.category_list.is_some(),
            romaji_name: self.romaji_name.is_some(),
            kanji_name: self.kanji_name.is_some(),
            english_name: self.english_name.is_some(),
            other_name: self.other_name.is_some(),
            short_name_list: self.short_name_list.is_some(),
            synonym_list: self.synonym_list.is_some(),
            episodes: self.episodes.is_some(),
            highest_episode_number: self.highest_episode_number.is_some(),
            special_ep_count: self.special_ep_count.is_some(),
            air_date: self.air_date.is_some(),
            end_date: self.end_date.is_some(),
            url: self.url.is_some(),
            picname: self.picname.is_some(),
            rating: self.rating.is_some(),
            vote_count: self.vote_count.is_some(),
            temp_rating: self.temp_rating.is_some(),
            temp_vote_count: self.temp_vote_count.is_some(),
            average_view_rating: self.average_view_rating.is_some(),
            review_count: self.review_count.is_some(),
            award_list: self.award_list.is_some(),
            is_18plus_restricted: self.is_18plus_restricted.is_some(),
            ann_id: self.ann_id.is_some(),
            allcinema_id: self.allcinema_id.is_some(),
            animenfo_id: self.animenfo_id.is_some(),
            tag_name_list: self.tag_name_list.is_some(),
            tag_id_list: self.tag_id_list.is_some(),
            tag_weight_list: self.tag_weight_list.is_some(),
            date_record_updated: self.date_record_updated.is_some(),
            character_id_list: self.character_id_list.is_some(),
            specials_count: self.specials_count.is_some(),
            credits_count: self.credits_count.is_some(),
            other_count: self.other_count.is_some(),
            trailer_count: self.trailer_count.is_some(),
            parody_count: self.parody_count.is_some(),
        }
    }
}
/// The slot at position `i` of this mask's wire order.
pub open spec fn anime_fields_slot_at(m: AnimeRequestFields, i: int) -> (bool, FieldKind) {
    if i == 0 { (m.aid, FieldKind::I32) }
    else if i == 1 { (m.dateflags, FieldKind::I32) }
    else if i == 2 { (m.year, FieldKind::Text) }
    else if i == 3 { (m.ty, FieldKind::Text) }
    else if i == 4 { (m.related_aid_list, FieldKind::Text) }
    else if i == 5 { (m.related_aid_type, FieldKind::Text) }
    else if i == 6 { (m.category_list, FieldKind::TextList) }
    else if i == 7 { (m.romaji_name, FieldKind::Text) }
    else if i == 8 { (m.kanji_name, FieldKind::Text) }
    else if i == 9 { (m.english_name, FieldKind::Text) }
    else if i == 10 { (m.other_name, FieldKind::Text) }
    else if i == 11 { (m.short_name_list, FieldKind::Text) }
    else if i == 12 { (m.synonym_list, FieldKind::Text) }
    else if i == 13 { (m.episodes, FieldKind::I32) }
    else if i == 14 { (m.highest_episode_number, FieldKind::I32) }
    else if i == 15 { (m.special_ep_count, FieldKind::I32) }
    else if i == 16 { (m.air_date, FieldKind::I32) }
    else if i == 17 { (m.end_date, FieldKind::I32) }
    else if i == 18 { (m.url, FieldKind::Text) }
    else if i == 19 { (m.picname, FieldKind::Text) }
    else if i == 20 { (m.rating, FieldKind::I32) }
    else if i == 21 { (m.vote_count, FieldKind::I32) }
    else if i == 22 { (m.temp_rating, FieldKind::I32) }
    else if i == 23 { (m.temp_vote_count, FieldKind::I32) }
    else if i == 24 { (m.average_view_rating, FieldKind::I32) }
    else if i == 25 { (m.review_count, FieldKind::I32) }
    else if i == 26 { (m.award_list, FieldKind::Text) }
    else if i == 27 { (m.is_18plus_restricted, FieldKind::Flag) }
    else if i == 28 { (m.ann_id, FieldKind::I32) }
    else if i == 29 { (m.allcinema_id, FieldKind::I32) }
    else if i == 30 { (m.animenfo_id, FieldKind::Text) }
    else if i == 31 { (m.tag_name_list, FieldKind::TextList) }
    else if i == 32 { (m.tag_id_list, FieldKind::NumList) }
    else if i == 33 { (m.tag_weight_list, FieldKind::NumList) }
    else if i == 34 { (m.date_record_updated, FieldKind::I32) }
    else if i == 35 { (m.character_id_list, FieldKind::NumList) }
    else if i == 36 { (m.specials_count, FieldKind::I32) }
    else if i == 37 { (m.credits_count, FieldKind::I32) }
    else if i == 38 { (m.other_count, FieldKind::I32) }
    else if i == 39 { (m.trailer_count, FieldKind::I32) }
    else { (m.parody_count, FieldKind::I32) }
}

/// The slots of this mask in wire order: group by group, most
/// significant bit of each group first.
pub open spec fn anime_fields_slots(m: AnimeRequestFields) -> Seq<(bool, FieldKind)> {
    Seq::new(41, |i: int| anime_fields_slot_at(m, i))
}

/// The byte of group `g` of the wire mask: each selected flag
/// contributes its bit within its group's byte.
pub open spec fn anime_fields_byte_at(m: AnimeRequestFields, g: int) -> u8 {
    if g == 0 { ((if m.aid { 128int } else { 0int }) + (if m.dateflags { 64int } else { 0int }) + (if m.year { 32int } else { 0int }) + (if m.ty { 16int } else { 0int }) + (if m.related_aid_list { 8int } else { 0int }) + (if m.related_aid_type { 4int } else { 0int }) + (if m.category_list { 2int } else { 0int })) as u8 }
    else if g == 1 { ((if m.romaji_name { 128int } else { 0int }) + (if m.kanji_name { 64int } else { 0int }) + (if m.english_name { 32int } else { 0int }) + (if m.other_name { 16int } else { 0int }) + (if m.short_name_list { 8int } else { 0int }) + (if m.synonym_list { 4int } else { 0int })) as u8 }
    else if g == 2 { ((if m.episodes { 128int } else { 0int }) + (if m.highest_episode_number { 64int } else { 0int }) + (if m.special_ep_count { 32int } else { 0int }) + (if m.air_date { 16int } else { 0int }) + (if m.end_date { 8int } else { 0int }) + (if m.url { 4int } else { 0int }) + (if m.picname { 2int } else { 0int })) as u8 }
    else if g == 3 { ((if m.rating { 128int } else { 0int }) + (if m.vote_count { 64int } else { 0int }) + (if m.temp_rating { 32int } else { 0int }) + (if m.temp_vote_count { 16int } else { 0int }) + (if m.average_view_rating { 8int } else { 0int }) + (if m.review_count { 4int } else { 0int }) + (if m.award_list { 2int } else { 0int }) + (if m.is_18plus_restricted { 1int } else { 0int })) as u8 }
    else if g == 4 { ((if m.ann_id { 64int } else { 0int }) + (if m.allcinema_id { 32int } else { 0int }) + (if m.animenfo_id { 16int } else { 0int }) + (if m.tag_name_list { 8int } else { 0int }) + (if m.tag_id_list { 4int } else { 0int }) + (if m.tag_weight_list { 2int } else { 0int }) + (if m.date_record_updated { 1int } else { 0int })) as u8 }
    else if g == 5 { ((if m.character_id_list { 128int } else { 0int })) as u8 }
    else { ((if m.specials_count { 128int } else { 0int }) + (if m.credits_count { 64int } else { 0int }) + (if m.other_count { 32int } else { 0int }) + (if m.trailer_count { 16int } else { 0int }) + (if m.parody_count { 8int } else { 0int })) as u8 }
}

/// The group bytes of the wire mask, in declared group order.
pub open spec fn anime_fields_bytes(m: AnimeRequestFields) -> Seq<u8> {
    Seq::new(7, |g: int| anime_fields_byte_at(m, g))
}

impl AnimeRequestFields {
    fn slot_entry(&self, i: usize) -> (r: (bool, FieldKind))
        requires
            i < 41,
        ensures
            r == anime_fields_slot_at(*self, i as int),
    {
        match i {
            0 => (self.aid, FieldKind::I32),
            1 => (self.dateflags, FieldKind::I32),
            2 => (self.year, FieldKind::Text),
            3 => (self.ty, FieldKind::Text),
            4 => (self.related_aid_list, FieldKind::Text),
            5 => (self.related_aid_type, FieldKind::Text),
            6 => (self.category_list, FieldKind::TextList),
            7 => (self.romaji_name, FieldKind::Text),
            8 => (self.kanji_name, FieldKind::Text),
            9 => (self.english_name, FieldKind::Text),
            10 => (self.other_name, FieldKind::Text),
            11 => (self.short_name_list, FieldKind::Text),
            12 => (self.synonym_list, FieldKind::Text),
            13 => (self.episodes, FieldKind::I32),
            14 => (self.highest_episode_number, FieldKind::I32),
            15 => (self.special_ep_count, FieldKind::I32),
            16 => (self.air_date, FieldKind::I32),
            17 => (self.end_date, FieldKind::I32),
            18 => (self.url, FieldKind::Text),
            19 => (self.picname, FieldKind::Text),
            20 => (self.rating, FieldKind::I32),
            21 => (self.vote_count, FieldKind::I32),
            22 => (self.temp_rating, FieldKind::I32),
            23 => (self.temp_vote_count, FieldKind::I32),
            24 => (self.average_view_rating, FieldKind::I32),
            25 => (self.review_count, FieldKind::I32),
            26 => (self.award_list, FieldKind::Text),
            27 => (self.is_18plus_restricted, FieldKind::Flag),
            28 => (self.ann_id, FieldKind::I32),
            29 => (self.allcinema_id, FieldKind::I32),
            30 => (self.animenfo_id, FieldKind::Text),
            31 => (self.tag_name_list, FieldKind::TextList),
            32 => (self.tag_id_list, FieldKind::NumList),
            33 => (self.tag_weight_list, FieldKind::NumList),
            34 => (self.date_record_updated, FieldKind::I32),
            35 => (self.character_id_list, FieldKind::NumList),
            36 => (self.specials_count, FieldKind::I32),
            37 => (self.credits_count, FieldKind::I32),
            38 => (self.other_count, FieldKind::I32),
            39 => (self.trailer_count, FieldKind::I32),
            _ => (self.parody_count, FieldKind::I32),
        }
    }

    fn schema(&self) -> (r: Vec<(bool, FieldKind)>)
        ensures
            r@ == anime_fields_slots(*self),
    {
        let mut v: Vec<(bool, FieldKind)> = Vec::new();
        let mut i: usize = 0;
        while i < 41
            invariant
                i <= 41,
                v@ =~= anime_fields_slots(*self).take(i as int),
            decreases 41 - i,
        {
            v.push(self.slot_entry(i));
            proof {
                assert(v@ =~= anime_fields_slots(*self).take(i + 1));
            }
            i += 1;
        }
        proof {
            assert(v@ =~= anime_fields_slots(*self));
        }
        v
    }

    #[verifier::spinoff_prover]
    fn byte_entry_0(&self) -> (r: u8)
        ensures
            r == anime_fields_byte_at(*self, 0),
    {
        group_byte(self.aid, self.dateflags, self.year, self.ty, self.related_aid_list, self.related_aid_type, self.category_list, false)
    }

    #[verifier::spinoff_prover]
    fn byte_entry_1(&self) -> (r: u8)
        ensures
            r == anime_fields_byte_at(*self, 1),
    {
        group_byte(self.romaji_name, self.kanji_name, self.english_name, self.other_name, self.short_name_list, self.synonym_list, false, false)
    }

    #[verifier::spinoff_prover]
    fn byte_entry_2(&self) -> (r: u8)
        ensures
            r == anime_fields_byte_at(*self, 2),
    {
        group_byte(self.episodes, self.highest_episode_number, self.special_ep_count, self.air_date, self.end_date, self.url, self.picname, false)
    }

    #[verifier::spinoff_prover]
    fn byte_entry_3(&self) -> (r: u8)
        ensures
            r == anime_fields_byte_at(*self, 3),
    {
        group_byte(self.rating, self.vote_count, self.temp_rating, self.temp_vote_count, self.average_view_rating, self.review_count, self.award_list, self.is_18plus_restricted)
    }

    #[verifier::spinoff_prover]
    fn byte_entry_4(&self) -> (r: u8)
        ensures
            r == anime_fields_byte_at(*self, 4),
    {
        group_byte(false, self.ann_id, self.allcinema_id, self.animenfo_id, self.tag_name_list, self.tag_id_list, self.tag_weight_list, self.date_record_updated)
    }

    #[verifier::spinoff_prover]
    fn byte_entry_5(&self) -> (r: u8)
        ensures
            r == anime_fields_byte_at(*self, 5),
    {
        group_byte(self.character_id_list, false, false, false, false, false, false, false)
    }

    #[verifier::spinoff_prover]
    fn byte_entry_6(&self) -> (r: u8)
        ensures
            r == anime_fields_byte_at(*self, 6),
    {
        group_byte(self.specials_count, self.credits_count, self.other_count, self.trailer_count, self.parody_count, false, false, false)
    }

    /// The group bytes of this mask.
    pub fn mask_bytes(&self) -> (r: Vec<u8>)
        ensures
            r@ == anime_fields_bytes(*self),
    {
        let mut v: Vec<u8> = Vec::new();
        v.push(self.byte_entry_0());
        v.push(self.byte_entry_1());
        v.push(self.byte_entry_2());
        v.push(self.byte_entry_3());
        v.push(self.byte_entry_4());
        v.push(self.byte_entry_5());
        v.push(self.byte_entry_6());
        proof {
            assert(v@ =~= anime_fields_bytes(*self));
        }
        v
    }

    /// The request-parameter form of this mask: its bytes in
    /// lowercase hex.
    pub fn hex_param(&self) -> (r: String)
        ensures
            r@ == hex_of(anime_fields_bytes(*self)),
    {
        let bytes = self.mask_bytes();
        hex_lower(&bytes)
    }
}
/// `rec` is what decoding `toks` from `i0` under mask `m` gives:
/// the decode succeeds, each selected field holds its decoded
/// token, and each unselected field is empty.
pub open spec fn anime_fields_rec_ok(rec: AnimeResponse, m: AnimeRequestFields, toks: Seq<Seq<char>>, i0: int) -> bool {
    let d = decode_slots_spec(anime_fields_slots(m), toks, i0);
    let vals = d->Some_0.0;
    &&& d is Some
    &&& rec.aid == ov_i32(vals[0])
    &&& rec.dateflags == ov_i32(vals[1])
    &&& rec.year.deep_view() == ov_text(vals[2])
    &&& rec.ty.deep_view() == ov_text(vals[3])
    &&& rec.related_aid_list.deep_view() == ov_text(vals[4])
    &&& rec.related_aid_type.deep_view() == ov_text(vals[5])
    &&& rec.category_list.deep_view() == ov_text_list(vals[6])
    &&& rec.romaji_name.deep_view() == ov_text(vals[7])
    &&& rec.kanji_name.deep_view() == ov_text(vals[8])
    &&& rec.english_name.deep_view() == ov_text(vals[9])
    &&& rec.other_name.deep_view() == ov_text(vals[10])
    &&& rec.short_name_list.deep_view() == ov_text(vals[11])
    &&& rec.synonym_list.deep_view() == ov_text(vals[12])
    &&& rec.episodes == ov_i32(vals[13])
    &&& rec.highest_episode_number == ov_i32(vals[14])
    &&& rec.special_ep_count == ov_i32(vals[15])
    &&& rec.air_date == ov_i32(vals[16])
    &&& rec.end_date == ov_i32(vals[17])
    &&& rec.url.deep_view() == ov_text(vals[18])
    &&& rec.picname.deep_view() == ov_text(vals[19])
    &&& rec.rating == ov_i32(vals[20])
    &&& rec.vote_count == ov_i32(vals[21])
    &&& rec.temp_rating == ov_i32(vals[22])
    &&& rec.temp_vote_count == ov_i32(vals[23])
    &&& rec.average_view_rating == ov_i32(vals[24])
    &&& rec.review_count == ov_i32(vals[25])
    &&& rec.award_list.deep_view() == ov_text(vals[26])
    &&& rec.is_18plus_restricted == ov_flag(vals[27])
    &&& rec.ann_id == ov_i32(vals[28])
    &&& rec.allcinema_id == ov_i32(vals[29])
    &&& rec.animenfo_id.deep_view() == ov_text(vals[30])
    &&& rec.tag_name_list.deep_view() == ov_text_list(vals[31])
    &&& rec.tag_id_list.deep_view() == ov_num_list(vals[32])
    &&& rec.tag_weight_list.deep_view() == ov_num_list(vals[33])
    &&& rec.date_record_updated == ov_i32(vals[34])
    &&& rec.character_id_list.deep_view() == ov_num_list(vals[35])
    &&& rec.specials_count == ov_i32(vals[36])
    &&& rec.credits_count == ov_i32(vals[37])
    &&& rec.other_count == ov_i32(vals[38])
    &&& rec.trailer_count == ov_i32(vals[39])
    &&& rec.parody_count == ov_i32(vals[40])
    &&& (rec.aid is Some <==> m.aid)
    &&& (rec.dateflags is Some <==> m.dateflags)
    &&& (rec.year is Some <==> m.year)
    &&& (rec.ty is Some <==> m.ty)
    &&& (rec.related_aid_list is Some <==> m.related_aid_list)
    &&& (rec.related_aid_type is Some <==> m.related_aid_type)
    &&& (rec.category_list is Some <==> m.category_list)
    &&& (rec.romaji_name is Some <==> m.romaji_name)
    &&& (rec.kanji_name is Some <==> m.kanji_name)
    &&& (rec.english_name is Some <==> m.english_name)
    &&& (rec.other_name is Some <==> m.other_name)
    &&& (rec.short_name_list is Some <==> m.short_name_list)
    &&& (rec.synonym_list is Some <==> m.synonym_list)
    &&& (rec.episodes is Some <==> m.episodes)
    &&& (rec.highest_episode_number is Some <==> m.highest_episode_number)
    &&& (rec.special_ep_count is Some <==> m.special_ep_count)
    &&& (rec.air_date is Some <==> m.air_date)
    &&& (rec.end_date is Some <==> m.end_date)
    &&& (rec.url is Some <==> m.url)
    &&& (rec.picname is Some <==> m.picname)
    &&& (rec.rating is Some <==> m.rating)
    &&& (rec.vote_count is Some <==> m.vote_count)
    &&& (rec.temp_rating is Some <==> m.temp_rating)
    &&& (rec.temp_vote_count is Some <==> m.temp_vote_count)
    &&& (rec.average_view_rating is Some <==> m.average_view_rating)
    &&& (rec.review_count is Some <==> m.review_count)
    &&& (rec.award_list is Some <==> m.award_list)
    &&& (rec.is_18plus_restricted is Some <==> m.is_18plus_restricted)
    &&& (rec.ann_id is Some <==> m.ann_id)
    &&& (rec.allcinema_id is Some <==> m.allcinema_id)
    &&& (rec.animenfo_id is Some <==> m.animenfo_id)
    &&& (rec.tag_name_list is Some <==> m.tag_name_list)
    &&& (rec.tag_id_list is Some <==> m.tag_id_list)
    &&& (rec.tag_weight_list is Some <==> m.tag_weight_list)
    &&& (rec.date_record_updated is Some <==> m.date_record_updated)
    &&& (rec.character_id_list is Some <==> m.character_id_list)
    &&& (rec.specials_count is Some <==> m.specials_count)
    &&& (rec.credits_count is Some <==> m.credits_count)
    &&& (rec.other_count is Some <==> m.other_count)
    &&& (rec.trailer_count is Some <==> m.trailer_count)
    &&& (rec.parody_count is Some <==> m.parody_count)
}

impl AnimeRequestFields {
    /// Decodes the fields this mask selects from the record's
    /// tokens, one token per selected field in declared order,
    /// starting at `idx`.
    #[verifier::spinoff_prover]
    #[verifier::rlimit(100)]
    pub fn decode_record(&self, toks: &Vec<String>, idx: &mut usize) -> (r: Result<
        AnimeResponse,
        AniDbError,
    >)
        requires
            *old(idx) as int <= toks@.len(),
        ensures
            match r {
                Ok(rec) => anime_fields_rec_ok(rec, *self, toks.deep_view(), *old(idx) as int)
                    && *final(idx) as int == decode_slots_spec(
                    anime_fields_slots(*self),
                    toks.deep_view(),
                    *old(idx) as int,
                )->Some_0.1 && *final(idx) as int <= toks@.len(),
                Err(e) => decode_slots_spec(
                    anime_fields_slots(*self),
                    toks.deep_view(),
                    *old(idx) as int,
                ) is None && e.deep_view() is DecodeError,
            },
    {
        let slots = self.schema();
        let mut vals = match decode_slots(&slots, toks, idx) {
            Ok(v) => v,
            Err(e) => {
                return Err(e);
            },
        };
        let ghost valso = vals@;
        let ghost valsd = vals.deep_view();
        proof {
            lemma_slots_presence(anime_fields_slots(*self), toks.deep_view(), *old(idx) as int);
            assert(valso.len() == 41);
            assert forall|q: int| 0 <= q < 41 implies valsd[q] == valso[q].deep_view() by {}
        }
        let v0 = next_val(&mut vals);
        proof {
            assert(vals@ =~= valso.skip(1));
        }
        let v1 = next_val(&mut vals);
        proof {
            assert(vals@ =~= valso.skip(2));
        }
        let v2 = next_val(&mut vals);
        proof {
            assert(vals@ =~= valso.skip(3));
        }
        let v3 = next_val(&mut vals);
        proof {
            assert(vals@ =~= valso.skip(4));
        }
        let v4 = next_val(&mut vals);
        proof {
            assert(vals@ =~= valso.skip(5));
        }
        let v5 = next_val(&mut vals);
        proof {
            assert(vals@ =~= valso.skip(6));
        }
        let v6 = next_val(&mut vals);
        proof {
            assert(vals@ =~= valso.skip(7));
        }
        let v7 = next_val(&mut vals);
        proof {
            assert(vals@ =~= valso.skip(8));
        }
        let v8 = next_val(&mut vals);
        proof {
            assert(vals@ =~= valso.skip(9));
        }
        let v9 = next_val(&mut vals);
        proof {
            assert(vals@ =~= valso.skip(10));
        }
        let v10 = next_val(&mut vals);
        proof {
            assert(vals@ =~= valso.skip(11));
        }
        let v11 = next_val(&mut vals);
        proof {
            assert(vals@ =~= valso.skip(12));
        }
        let v12 = next_val(&mut vals);
        proof {
            assert(vals@ =~= valso.skip(13));
        }
        let v13 = next_val(&mut vals);
        proof {
            assert(vals@ =~= valso.skip(14));
        }
        let v14 = next_val(&mut vals);
        proof {
            assert(vals@ =~= valso.skip(15));
        }
        let v15 = next_val(&mut vals);
        proof {
            assert(vals@ =~= valso.skip(16));
        }
        let v16 = next_val(&mut vals);
        proof {
            assert(vals@ =~= valso.skip(17));
        }
        let v17 = next_val(&mut vals);
        proof {
            assert(vals@ =~= valso.skip(18));
        }
        let v18 = next_val(&mut vals);
        proof {
            assert(vals@ =~= valso.skip(19));
        }
        let v19 = next_val(&mut vals);
        proof {
            assert(vals@ =~= valso.skip(20));
        }
        let v20 = next_val(&mut vals);
        proof {
            assert(vals@ =~= valso.skip(21));
        }
        let v21 = next_val(&mut vals);
        proof {
            assert(vals@ =~= valso.skip(22));
        }
        let v22 = next_val(&mut vals);
        proof {
            assert(vals@ =~= valso.skip(23));
        }
        let v23 = next_val(&mut vals);
        proof {
            assert(vals@ =~= valso.skip(24));
        }
        let v24 = next_val(&mut vals);
        proof {
            assert(vals@ =~= valso.skip(25));
        }
        let v25 = next_val(&mut vals);
        proof {
            assert(vals@ =~= valso.skip(26));
        }
        let v26 = next_val(&mut vals);
        proof {
            assert(vals@ =~= valso.skip(27));
        }
        let v27 = next_val(&mut vals);
        proof {
            assert(vals@ =~= valso.skip(28));
        }
        let v28 = next_val(&mut vals);
        proof {
            assert(vals@ =~= valso.skip(29));
        }
        let v29 = next_val(&mut vals);
        proof {
            assert(vals@ =~= valso.skip(30));
        }
        let v30 = next_val(&mut vals);
        proof {
            assert(vals@ =~= valso.skip(31));
        }
        let v31 = next_val(&mut vals);
        proof {
            assert(vals@ =~= valso.skip(32));
        }
        let v32 = next_val(&mut vals);
        proof {
            assert(vals@ =~= valso.skip(33));
        }
        let v33 = next_val(&mut vals);
        proof {
            assert(vals@ =~= valso.skip(34));
        }
        let v34 = next_val(&mut vals);
        proof {
            assert(vals@ =~= valso.skip(35));
        }
        let v35 = next_val(&mut vals);
        proof {
            assert(vals@ =~= valso.skip(36));
        }
        let v36 = next_val(&mut vals);
        proof {
            assert(vals@ =~= valso.skip(37));
        }
        let v37 = next_val(&mut vals);
        proof {
            assert(vals@ =~= valso.skip(38));
        }
        let v38 = next_val(&mut vals);
        proof {
            assert(vals@ =~= valso.skip(39));
        }
        let v39 = next_val(&mut vals);
        proof {
            assert(vals@ =~= valso.skip(40));
        }
        let v40 = next_val(&mut vals);
        let rec = AnimeResponse {
            aid: ex_i32(v0),
            dateflags: ex_i32(v1),
            year: ex_text(v2),
            ty: ex_text(v3),
            related_aid_list: ex_text(v4),
            related_aid_type: ex_text(v5),
            category_list: ex_text_list(v6),
            romaji_name: ex_text(v7),
            kanji_name: ex_text(v8),
            english_name: ex_text(v9),
            other_name: ex_text(v10),
            short_name_list: ex_text(v11),
            synonym_list: ex_text(v12),
            episodes: ex_i32(v13),
            highest_episode_number: ex_i32(v14),
            special_ep_count: ex_i32(v15),
            air_date: ex_i32(v16),
            end_date: ex_i32(v17),
            url: ex_text(v18),
            picname: ex_text(v19),
            rating: ex_i32(v20),
            vote_count: ex_i32(v21),
            temp_rating: ex_i32(v22),
            temp_vote_count: ex_i32(v23),
            average_view_rating: ex_i32(v24),
            review_count: ex_i32(v25),
            award_list: ex_text(v26),
            is_18plus_restricted: ex_flag(v27),
            ann_id: ex_i32(v28),
            allcinema_id: ex_i32(v29),
            animenfo_id: ex_text(v30),
            tag_name_list: ex_text_list(v31),
            tag_id_list: ex_num_list(v32),
            tag_weight_list: ex_num_list(v33),
            date_record_updated: ex_i32(v34),
            character_id_list: ex_num_list(v35),
            specials_count: ex_i32(v36),
            credits_count: ex_i32(v37),
            other_count: ex_i32(v38),
            trailer_count: ex_i32(v39),
            parody_count: ex_i32(v40),
        };
        Ok(rec)
    }
}
/// The slot at position `i` of the fixed layout decoded when no
/// mask was supplied.
pub open spec fn anime_legacy_slot_at(i: int) -> (bool, FieldKind) {
    if i == 0 { (true, FieldKind::I32) }
    else if i == 1 { (true, FieldKind::I32) }
    else if i == 2 { (true, FieldKind::I32) }
    else if i == 3 { (true, FieldKind::I32) }
    else if i == 4 { (true, FieldKind::I32) }
    else if i == 5 { (true, FieldKind::I32) }
    else if i == 6 { (true, FieldKind::I32) }
    else if i == 7 { (true, FieldKind::I32) }
    else if i == 8 { (true, FieldKind::I32) }
    else if i == 9 { (true, FieldKind::I32) }
    else if i == 10 { (true, FieldKind::Text) }
    else if i == 11 { (true, FieldKind::Text) }
    else if i == 12 { (true, FieldKind::Text) }
    else if i == 13 { (true, FieldKind::Text) }
    else if i == 14 { (true, FieldKind::Text) }
    else if i == 15 { (true, FieldKind::Text) }
    else if i == 16 { (true, FieldKind::Text) }
    else if i == 17 { (true, FieldKind::Text) }
    else { (true, FieldKind::TextList) }
}

/// The fixed field layout decoded when no mask was supplied.
pub open spec fn anime_legacy_slots() -> Seq<(bool, FieldKind)> {
    Seq::new(19, |i: int| anime_legacy_slot_at(i))
}

/// `rec` is the decode of `toks` under the fixed legacy layout;
/// fields outside that layout stay empty.
pub open spec fn anime_legacy_rec_ok(rec: AnimeResponse, toks: Seq<Seq<char>>, i0: int) -> bool {
    let d = decode_slots_spec(anime_legacy_slots(), toks, i0);
    let vals = d->Some_0.0;
    &&& d is Some
    &&& rec.aid == ov_i32(vals[0])
    &&& rec.episodes == ov_i32(vals[1])
    &&& rec.highest_episode_number == ov_i32(vals[2])
    &&& rec.special_ep_count == ov_i32(vals[3])
    &&& rec.rating == ov_i32(vals[4])
    &&& rec.vote_count == ov_i32(vals[5])
    &&& rec.temp_rating == ov_i32(vals[6])
    &&& rec.temp_vote_count == ov_i32(vals[7])
    &&& rec.average_view_rating == ov_i32(vals[8])
    &&& rec.review_count == ov_i32(vals[9])
    &&& rec.year.deep_view() == ov_text(vals[10])
    &&& rec.ty.deep_view() == ov_text(vals[11])
    &&& rec.romaji_name.deep_view() == ov_text(vals[12])
    &&& rec.kanji_name.deep_view() == ov_text(vals[13])
    &&& rec.english_name.deep_view() == ov_text(vals[14])
    &&& rec.other_name.deep_view() == ov_text(vals[15])
    &&& rec.short_name_list.deep_view() == ov_text(vals[16])
    &&& rec.synonym_list.deep_view() == ov_text(vals[17])
    &&& rec.category_list.deep_view() == ov_text_list(vals[18])
    &&& rec.aid is Some
    &&& rec.episodes is Some
    &&& rec.highest_episode_number is Some
    &&& rec.special_ep_count is Some
    &&& rec.rating is Some
    &&& rec.vote_count is Some
    &&& rec.temp_rating is Some
    &&& rec.temp_vote_count is Some
    &&& rec.average_view_rating is Some
    &&& rec.review_count is Some
    &&& rec.year is Some
    &&& rec.ty is Some
    &&& rec.romaji_name is Some
    &&& rec.kanji_name is Some
    &&& rec.english_name is Some
    &&& rec.other_name is Some
    &&& rec.short_name_list is Some
    &&& rec.synonym_list is Some
    &&& rec.category_list is Some
    &&& rec.dateflags is None
    &&& rec.related_aid_list is None
    &&& rec.related_aid_type is None
    &&& rec.air_date is None
    &&& rec.end_date is None
    &&& rec.url is None
    &&& rec.picname is None
    &&& rec.award_list is None
    &&& rec.is_18plus_restricted is None
    &&& rec.ann_id is None
    &&& rec.allcinema_id is None
    &&& rec.animenfo_id is None
    &&& rec.tag_name_list is None
    &&& rec.tag_id_list is None
    &&& rec.tag_weight_list is None
    &&& rec.date_record_updated is None
    &&& rec.character_id_list is None
    &&& rec.specials_count is None
    &&& rec.credits_count is None
    &&& rec.other_count is None
    &&& rec.trailer_count is None
    &&& rec.parody_count is None
}

fn anime_legacy_slot_entry(i: usize) -> (r: (bool, FieldKind))
    requires
        i < 19,
    ensures
        r == anime_legacy_slot_at(i as int),
{
    match i {
        0 => (true, FieldKind::I32),
        1 => (true, FieldKind::I32),
        2 => (true, FieldKind::I32),
        3 => (true, FieldKind::I32),
        4 => (true, FieldKind::I32),
        5 => (true, FieldKind::I32),
        6 => (true, FieldKind::I32),
        7 => (true, FieldKind::I32),
        8 => (true, FieldKind::I32),
        9 => (true, FieldKind::I32),
        10 => (true, FieldKind::Text),
        11 => (true, FieldKind::Text),
        12 => (true, FieldKind::Text),
        13 => (true, FieldKind::Text),
        14 => (true, FieldKind::Text),
        15 => (true, FieldKind::Text),
        16 => (true, FieldKind::Text),
        17 => (true, FieldKind::Text),
        _ => (true, FieldKind::TextList),
    }
}

/// Decodes the fixed legacy layout from the record's tokens.
#[verifier::spinoff_prover]
#[verifier::rlimit(100)]
pub fn anime_decode_legacy(toks: &Vec<String>, start: usize) -> (r: Result<AnimeResponse, AniDbError>)
    requires
        start as int <= toks@.len(),
    ensures
        match r {
            Ok(rec) => anime_legacy_rec_ok(rec, toks.deep_view(), start as int),
            Err(e) => decode_slots_spec(anime_legacy_slots(), toks.deep_view(), start as int)
                is None && e.deep_view() is DecodeError,
        },
{
    let mut slots: Vec<(bool, FieldKind)> = Vec::new();
    let mut i: usize = 0;
    while i < 19
        invariant
            i <= 19,
            slots@ =~= anime_legacy_slots().take(i as int),
        decreases 19 - i,
    {
        slots.push(anime_legacy_slot_entry(i));
        proof {
            assert(slots@ =~= anime_legacy_slots().take(i + 1));
        }
        i += 1;
    }
    proof {
        assert(slots@ =~= anime_legacy_slots());
    }
    let mut idx: usize = start;
    let mut vals = match decode_slots(&slots, toks, &mut idx) {
        Ok(v) => v,
        Err(e) => {
            return Err(e);
        },
    };
    let ghost valso = vals@;
    let ghost valsd = vals.deep_view();
    proof {
        lemma_slots_presence(anime_legacy_slots(), toks.deep_view(), start as int);
        assert(valso.len() == 19);
        assert forall|q: int| 0 <= q < 19 implies valsd[q] == valso[q].deep_view() by {}
    }
    let v0 = next_val(&mut vals);
    proof {
        assert(vals@ =~= valso.skip(1));
    }
    let v1 = next_val(&mut vals);
    proof {
        assert(vals@ =~= valso.skip(2));
    }
    let v2 = next_val(&mut vals);
    proof {
        assert(vals@ =~= valso.skip(3));
    }
    let v3 = next_val(&mut vals);
    proof {
        assert(vals@ =~= valso.skip(4));
    }
    let v4 = next_val(&mut vals);
    proof {
        assert(vals@ =~= valso.skip(5));
    }
    let v5 = next_val(&mut vals);
    proof {
        assert(vals@ =~= valso.skip(6));
    }
    let v6 = next_val(&mut vals);
    proof {
        assert(vals@ =~= valso.skip(7));
    }
    let v7 = next_val(&mut vals);
    proof {
        assert(vals@ =~= valso.skip(8));
    }
    let v8 = next_val(&mut vals);
    proof {
        assert(vals@ =~= valso.skip(9));
    }
    let v9 = next_val(&mut vals);
    proof {
        assert(vals@ =~= valso.skip(10));
    }
    let v10 = next_val(&mut vals);
    proof {
        assert(vals@ =~= valso.skip(11));
    }
    let v11 = next_val(&mut vals);
    proof {
        assert(vals@ =~= valso.skip(12));
    }
    let v12 = next_val(&mut vals);
    proof {
        assert(vals@ =~= valso.skip(13));
    }
    let v13 = next_val(&mut vals);
    proof {
        assert(vals@ =~= valso.skip(14));
    }
    let v14 = next_val(&mut vals);
    proof {
        assert(vals@ =~= valso.skip(15));
    }
    let v15 = next_val(&mut vals);
    proof {
        assert(vals@ =~= valso.skip(16));
    }
    let v16 = next_val(&mut vals);
    proof {
        assert(vals@ =~= valso.skip(17));
    }
    let v17 = next_val(&mut vals);
    proof {
        assert(vals@ =~= valso.skip(18));
    }
    let v18 = next_val(&mut vals);
    let rec = AnimeResponse {
        aid: ex_i32(v0),
        episodes: ex_i32(v1),
        highest_episode_number: ex_i32(v2),
        special_ep_count: ex_i32(v3),
        rating: ex_i32(v4),
        vote_count: ex_i32(v5),
        temp_rating: ex_i32(v6),
        temp_vote_count: ex_i32(v7),
        average_view_rating: ex_i32(v8),
        review_count: ex_i32(v9),
        year: ex_text(v10),
        ty: ex_text(v11),
        romaji_name: ex_text(v12),
        kanji_name: ex_text(v13),
        english_name: ex_text(v14),
        other_name: ex_text(v15),
        short_name_list: ex_text(v16),
        synonym_list: ex_text(v17),
        category_list: ex_text_list(v18),
        dateflags: None,
        related_aid_list: None,
        related_aid_type: None,
        air_date: None,
        end_date: None,
        url: None,
        picname: None,
        award_list: None,
        is_18plus_restricted: None,
        ann_id: None,
        allcinema_id: None,
        animenfo_id: None,
        tag_name_list: None,
        tag_id_list: None,
        tag_weight_list: None,
        date_record_updated: None,
        character_id_list: None,
        specials_count: None,
        credits_count: None,
        other_count: None,
        trailer_count: None,
        parody_count: None,
    };
    Ok(rec)
}

/// A metadata lookup, by numeric id or by name, with the fields the
/// caller wants decoded.
#[derive(Debug)]
pub enum AnimeRequest {
    Aid(u32, Option<AnimeRequestFields>),
    Aname(String, Option<AnimeRequestFields>),
}

/// An error of the metadata lookup: the command-specific not-found
/// condition, or one of the shared kinds.
#[derive(Debug, Clone, PartialEq)]
pub enum AnimeRequestError {
    NoSuchAnime,
    AniDbError(AniDbError),
}

/// The same error with its text as character sequences, for contracts.
pub enum AnimeRequestErrorView {
    NoSuchAnime,
    AniDbError(AniDbErrorView),
}

impl DeepView for AnimeRequestError {
    type V = AnimeRequestErrorView;

    open spec fn deep_view(&self) -> AnimeRequestErrorView {
        match self {
            AnimeRequestError::NoSuchAnime => AnimeRequestErrorView::NoSuchAnime,
            AnimeRequestError::AniDbError(e) => AnimeRequestErrorView::AniDbError(e.deep_view()),
        }
    }
}

/// The mask this lookup was issued with, if any.
pub open spec fn anime_req_fields(r: AnimeRequest) -> Option<AnimeRequestFields> {
    match r {
        AnimeRequest::Aid(_, f) => f,
        AnimeRequest::Aname(_, f) => f,
    }
}

/// The key/value pairs of this lookup's query string, in wire order:
/// the id or name, then the mask in hex when one was supplied.
pub open spec fn anime_pairs(r: AnimeRequest) -> Seq<(Seq<char>, Seq<char>)> {
    let base = match r {
        AnimeRequest::Aid(aid, _) => seq![("aid"@, dec_digits(aid as nat))],
        AnimeRequest::Aname(name, _) => seq![("aname"@, name@)],
    };
    match anime_req_fields(r) {
        Some(m) => base.push(("amask"@, hex_of(anime_fields_bytes(m)))),
        None => base,
    }
}

/// Whether one record line decodes under the lookup's mask, or under
/// the fixed legacy layout when none was supplied.
pub open spec fn anime_line_decodes(f: Option<AnimeRequestFields>, line: Seq<char>) -> bool {
    match f {
        Some(m) => decode_slots_spec(anime_fields_slots(m), split_chars(line, '|'), 0) is Some,
        None => decode_slots_spec(anime_legacy_slots(), split_chars(line, '|'), 0) is Some,
    }
}

/// `rec` is the decode of one record line under the lookup's mask, or
/// under the fixed legacy layout when none was supplied.
pub open spec fn anime_line_rec_ok(
    rec: AnimeResponse,
    f: Option<AnimeRequestFields>,
    line: Seq<char>,
) -> bool {
    match f {
        Some(m) => anime_fields_rec_ok(rec, m, split_chars(line, '|'), 0),
        None => anime_legacy_rec_ok(rec, split_chars(line, '|'), 0),
    }
}

/// Keeps a line exactly when it holds more than whitespace.
pub open spec fn nonblank_pred() -> spec_fn(Seq<char>) -> bool {
    |l: Seq<char>| !is_blank(l)
}

/// The record lines of a reply body: newline-delimited, blank lines
/// skipped.
pub open spec fn nonblank_lines(data: Seq<char>) -> Seq<Seq<char>> {
    split_chars(data, '\n').filter(nonblank_pred())
}

impl AnimeRequest {
    /// A lookup by numeric id.
    pub fn from_anime_id(aid: u32, fields: Option<AnimeRequestFields>) -> (r: AnimeRequest)
        ensures
            r == AnimeRequest::Aid(aid, fields),
    {
        AnimeRequest::Aid(aid, fields)
    }

    /// A lookup by name.
    pub fn from_anime_name(aname: &str, fields: Option<AnimeRequestFields>) -> (r: AnimeRequest)
        ensures
            r matches AnimeRequest::Aname(n, f) && n@ == aname@ && f == fields,
    {
        AnimeRequest::Aname(aname.to_owned(), fields)
    }

    /// The wire command keyword.
    pub fn name() -> (r: &'static str)
        ensures
            r@ == "ANIME"@,
    {
        "ANIME"
    }

    /// Whether this command runs inside an authenticated session.
    pub fn requires_login() -> (r: bool)
        ensures
            r,
    {
        true
    }

    /// The mask this lookup was issued with, if any.
    pub fn fields(&self) -> (r: Option<AnimeRequestFields>)
        ensures
            r == anime_req_fields(*self),
    {
        match self {
            AnimeRequest::Aid(_, f) => *f,
            AnimeRequest::Aname(_, f) => *f,
        }
    }

    /// Encodes this lookup's parameters as a query string.
    pub fn encode(&self) -> (r: Result<String, AnimeRequestError>)
        ensures
            r matches Ok(s) ==> s@ == urlencoded_of(anime_pairs(*self)),
            r matches Err(e) ==> e.deep_view() matches AnimeRequestErrorView::AniDbError(i)
                && i is SerializationError,
    {
        let mut pairs: Vec<(String, String)> = Vec::new();
        match self {
            AnimeRequest::Aid(aid, _) => {
                pairs.push(("aid".to_owned(), crate::strutil::u64_to_dec(*aid as u64)));
            },
            AnimeRequest::Aname(name, _) => {
                pairs.push(("aname".to_owned(), name.clone()));
            },
        }
        match self.fields() {
            Some(m) => {
                pairs.push(("amask".to_owned(), m.hex_param()));
            },
            None => {},
        }
        proof {
            assert(pairs.deep_view() =~~= anime_pairs(*self));
        }
        match urlencode_pairs(&pairs) {
            Ok(s) => Ok(s),
            Err(e) => Err(AnimeRequestError::AniDbError(e)),
        }
    }

    /// Decodes one pipe-delimited record line, mask-driven when this
    /// lookup carries a mask and with the fixed legacy layout
    /// otherwise.
    pub fn decode_line(&self, line: &str) -> (r: Result<AnimeResponse, AnimeRequestError>)
        ensures
            match r {
                Ok(rec) => anime_line_rec_ok(rec, anime_req_fields(*self), line@),
                Err(e) => !anime_line_decodes(anime_req_fields(*self), line@) && (e.deep_view()
                    matches AnimeRequestErrorView::AniDbError(i) && i is DecodeError),
            },
    {
        let toks = split_str(line, '|');
        let mut idx: usize = 0;
        match self.fields() {
            Some(m) => match m.decode_record(&toks, &mut idx) {
                Ok(rec) => Ok(rec),
                Err(e) => Err(AnimeRequestError::AniDbError(e)),
            },
            None => match anime_decode_legacy(&toks, 0) {
                Ok(rec) => Ok(rec),
                Err(e) => Err(AnimeRequestError::AniDbError(e)),
            },
        }
    }

    /// Decodes the server's reply to this lookup: a success code
    /// splits the body into record lines, skips blank ones, and
    /// decodes each; the first failing record aborts the whole batch.
    /// The no-such-entity code yields the command's own not-found
    /// error; every other code goes through the shared taxonomy.
    pub fn decode_response(&self, code: &str, reply: &str, data: &str) -> (r: Result<
        Vec<AnimeResponse>,
        AnimeRequestError,
    >)
        ensures
            ({
                let f = anime_req_fields(*self);
                let nb = nonblank_lines(data@);
                if code@ == "230"@ {
                    match r {
                        Ok(v) => v@.len() == nb.len() && (forall|k: int|
                            0 <= k < nb.len() ==> anime_line_rec_ok(#[trigger] v@[k], f, nb[k])),
                        Err(e) => (exists|k: int|
                            0 <= k < nb.len() && !anime_line_decodes(f, #[trigger] nb[k])) && (
                        e.deep_view() matches AnimeRequestErrorView::AniDbError(i)
                            && i is DecodeError),
                    }
                } else if code@ == "330"@ {
                    r matches Err(e) && e.deep_view() is NoSuchAnime
                } else {
                    r matches Err(e) && e.deep_view() == AnimeRequestErrorView::AniDbError(
                        code_error(code@, reply@),
                    )
                }
            }),
    {
        if !str_eq(code, "230") {
            if str_eq(code, "330") {
                return Err(AnimeRequestError::NoSuchAnime);
            }
            return Err(AnimeRequestError::AniDbError(AniDbError::from_code(code, reply)));
        }
        let lines = split_str(data, '\n');
        let ghost linesd = split_chars(data@, '\n');
        let ghost f = anime_req_fields(*self);
        let mut out: Vec<AnimeResponse> = Vec::new();
        let mut k: usize = 0;
        while k < lines.len()
            invariant
                k <= lines@.len(),
                code@ == "230"@,
                linesd == split_chars(data@, '\n'),
                f == anime_req_fields(*self),
                lines.deep_view() == linesd,
                lines@.len() == linesd.len(),
                out@.len() == linesd.take(k as int).filter(nonblank_pred()).len(),
                forall|j: int|
                    0 <= j < out@.len() ==> anime_line_rec_ok(
                        #[trigger] out@[j],
                        f,
                        linesd.take(k as int).filter(nonblank_pred())[j],
                    ),
            decreases lines@.len() - k,
        {
            proof {
                assert(lines.deep_view()[k as int] == lines@[k as int].deep_view());
                assert(linesd.take(k + 1).drop_last() =~= linesd.take(k as int));
                assert(linesd.take(k as int).push(linesd[k as int]) =~= linesd.take(k + 1));
                crate::strutil::lemma_filter_push(
                    linesd.take(k as int),
                    linesd[k as int],
                    nonblank_pred(),
                );
            }
            let line = &lines[k];
            if !crate::strutil::blank_str(line.as_str()) {
                match self.decode_line(line.as_str()) {
                    Ok(rec) => {
                        out.push(rec);
                    },
                    Err(e) => {
                        proof {
                            let pred = nonblank_pred();
                            assert(!is_blank(linesd[k as int]));
                            assert(linesd.take(k as int) + linesd.skip(k as int) =~= linesd);
                            Seq::filter_distributes_over_add(
                                linesd.take(k as int),
                                linesd.skip(k as int),
                                pred,
                            );
                            let front = linesd.skip(k as int).take(1);
                            assert(front =~= Seq::<Seq<char>>::empty().push(linesd[k as int]));
                            crate::strutil::lemma_filter_empty::<Seq<char>>(pred);
                            crate::strutil::lemma_filter_push(
                                Seq::<Seq<char>>::empty(),
                                linesd[k as int],
                                pred,
                            );
                            assert(front.filter(pred) =~= seq![linesd[k as int]]);
                            assert(front + linesd.skip(k + 1) =~= linesd.skip(k as int));
                            Seq::filter_distributes_over_add(front, linesd.skip(k + 1), pred);
                            assert(linesd.skip(k as int).filter(pred) == front.filter(pred)
                                + linesd.skip(k + 1).filter(pred));
                            assert(nonblank_lines(data@) == linesd.take(k as int).filter(pred)
                                + linesd.skip(k as int).filter(pred));
                            let w = out@.len() as int;
                            assert(nonblank_lines(data@)[w] == linesd[k as int]);
                            assert(0 <= w < nonblank_lines(data@).len());
                            assert(!anime_line_decodes(f, nonblank_lines(data@)[w]));
                        }
                        return Err(e);
                    },
                }
            }
            k += 1;
        }
        proof {
            assert(linesd.take(k as int) =~= linesd);
        }
        Ok(out)
    }
}

} // verus!
