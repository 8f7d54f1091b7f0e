//! The mask-driven field codec: a schema is an ordered list of
//! (selected, kind) slots; decoding consumes one pipe-delimited token
//! for every selected slot, in declared order, and leaves unselected
//! slots empty.
use vstd::prelude::*;

use crate::errors::AniDbError;
use crate::errors::AniDbErrorView;
use crate::strutil::is_int_str;
use crate::strutil::int_str_val;
use crate::strutil::split_chars;
use crate::strutil::parse_i16;
use crate::strutil::parse_i32;
use crate::strutil::parse_i64;
use crate::strutil::split_str;
use crate::types::EpNo;

verus! {

/// Decodes one wire token into a typed value. Implementations state
/// exactly which token texts they accept.
pub trait FieldDecoder: Sized + DeepView {
    /// The value a token text denotes, when it denotes one.
    spec fn field_spec(t: Seq<char>) -> Option<Self::V>;

    /// Decodes a token, failing on the texts the spec refuses.
    fn decode_field(tok: &str) -> (r: Result<Self, AniDbError>)
        ensures
            match Self::field_spec(tok@) {
                Some(v) => r matches Ok(x) && x.deep_view() == v,
                None => r matches Err(e) && e.deep_view() is DecodeError,
            },
    ;
}

impl FieldDecoder for i16 {
    open spec fn field_spec(t: Seq<char>) -> Option<i16> {
        if is_int_str(t) && i16::MIN <= int_str_val(t) <= i16::MAX {
            Some(int_str_val(t) as i16)
        } else {
            None
        }
    }

    fn decode_field(tok: &str) -> (r: Result<Self, AniDbError>) {
        match parse_i16(tok) {
            Some(v) => Ok(v),
            None => Err(AniDbError::DecodeError("invalid integer field".to_owned())),
        }
    }
}

impl FieldDecoder for i32 {
    open spec fn field_spec(t: Seq<char>) -> Option<i32> {
        if is_int_str(t) && i32::MIN <= int_str_val(t) <= i32::MAX {
            Some(int_str_val(t) as i32)
        } else {
            None
        }
    }

    fn decode_field(tok: &str) -> (r: Result<Self, AniDbError>) {
        match parse_i32(tok) {
            Some(v) => Ok(v),
            None => Err(AniDbError::DecodeError("invalid integer field".to_owned())),
        }
    }
}

impl FieldDecoder for i64 {
    open spec fn field_spec(t: Seq<char>) -> Option<i64> {
        if is_int_str(t) && i64::MIN <= int_str_val(t) <= i64::MAX {
            Some(int_str_val(t) as i64)
        } else {
            None
        }
    }

    fn decode_field(tok: &str) -> (r: Result<Self, AniDbError>) {
        match parse_i64(tok) {
            Some(v) => Ok(v),
            None => Err(AniDbError::DecodeError("invalid integer field".to_owned())),
        }
    }
}

impl FieldDecoder for String {
    open spec fn field_spec(t: Seq<char>) -> Option<Seq<char>> {
        Some(t)
    }

    fn decode_field(tok: &str) -> (r: Result<Self, AniDbError>) {
        Ok(tok.to_owned())
    }
}

impl FieldDecoder for bool {
    /// A boolean rides the wire as a small integer; one means true.
    open spec fn field_spec(t: Seq<char>) -> Option<bool> {
        if is_int_str(t) && i16::MIN <= int_str_val(t) <= i16::MAX {
            Some(int_str_val(t) == 1)
        } else {
            None
        }
    }

    fn decode_field(tok: &str) -> (r: Result<Self, AniDbError>) {
        match parse_i16(tok) {
            Some(v) => Ok(v == 1),
            None => Err(AniDbError::DecodeError("invalid integer field".to_owned())),
        }
    }
}

impl FieldDecoder for Vec<String> {
    /// A comma-delimited list of texts; empty pieces are kept.
    open spec fn field_spec(t: Seq<char>) -> Option<Seq<Seq<char>>> {
        Some(split_chars(t, ','))
    }

    fn decode_field(tok: &str) -> (r: Result<Self, AniDbError>) {
        Ok(split_str(tok, ','))
    }
}

proof fn lemma_some_i32_part_bad(t: Seq<char>, i: int)
    requires
        0 <= i < split_chars(t, ',').len(),
        !(is_int_str(split_chars(t, ',')[i]) && i32::MIN <= int_str_val(split_chars(t, ',')[i])
            <= i32::MAX),
    ensures
        <Vec<i32> as FieldDecoder>::field_spec(t) is None,
{
}

impl FieldDecoder for Vec<i32> {
    /// A comma-delimited list of integers.
    open spec fn field_spec(t: Seq<char>) -> Option<Seq<i32>> {
        let parts = split_chars(t, ',');
        if forall|i: int|
            0 <= i < parts.len() ==> is_int_str(#[trigger] parts[i]) && i32::MIN <= int_str_val(
                parts[i],
            ) <= i32::MAX {
            Some(Seq::new(parts.len(), |i: int| int_str_val(parts[i]) as i32))
        } else {
            None
        }
    }

    fn decode_field(tok: &str) -> (r: Result<Self, AniDbError>) {
        let parts = split_str(tok, ',');
        let ghost partsv = split_chars(tok@, ',');
        let mut out: Vec<i32> = Vec::new();
        let mut i: usize = 0;
        while i < parts.len()
            invariant
                0 <= i <= parts@.len(),
                partsv == split_chars(tok@, ','),
                parts.deep_view() == partsv,
                out@.len() == i,
                forall|j: int|
                    0 <= j < i ==> is_int_str(#[trigger] partsv[j]) && i32::MIN <= int_str_val(
                        partsv[j],
                    ) <= i32::MAX && out@[j] as int == int_str_val(partsv[j]),
            decreases parts@.len() - i,
        {
            proof {
                assert(parts.deep_view()[i as int] == parts@[i as int].deep_view());
                assert(parts@[i as int]@ == partsv[i as int]);
            }
            match parse_i32(parts[i].as_str()) {
                Some(v) => {
                    out.push(v);
                },
                None => {
                    proof {
                        lemma_some_i32_part_bad(tok@, i as int);
                    }
                    return Err(AniDbError::DecodeError("invalid integer list field".to_owned()));
                },
            }
            i += 1;
        }
        proof {
            assert(out.deep_view() =~= out@);
            assert(out@ =~= Seq::new(partsv.len(), |i: int| int_str_val(partsv[i]) as i32));
        }
        Ok(out)
    }
}

impl FieldDecoder for EpNo {
    /// An optional one-letter kind prefix, then an integer.
    open spec fn field_spec(t: Seq<char>) -> Option<EpNo> {
        if t.len() >= 1 && (t[0] == 'S' || t[0] == 'C' || t[0] == 'T' || t[0] == 'P' || t[0]
            == 'O') {
            let rest = t.skip(1);
            if is_int_str(rest) && i32::MIN <= int_str_val(rest) <= i32::MAX {
                let v = int_str_val(rest) as i32;
                if t[0] == 'S' {
                    Some(EpNo::Special(v))
                } else if t[0] == 'C' {
                    Some(EpNo::Credit(v))
                } else if t[0] == 'T' {
                    Some(EpNo::Trailer(v))
                } else if t[0] == 'P' {
                    Some(EpNo::Parody(v))
                } else {
                    Some(EpNo::Other(v))
                }
            } else {
                None
            }
        } else if is_int_str(t) && i32::MIN <= int_str_val(t) <= i32::MAX {
            Some(EpNo::Regular(int_str_val(t) as i32))
        } else {
            None
        }
    }

    fn decode_field(tok: &str) -> (r: Result<Self, AniDbError>) {
        let n = tok.unicode_len();
        if n >= 1 {
            let c = tok.get_char(0);
            if c == 'S' || c == 'C' || c == 'T' || c == 'P' || c == 'O' {
                let rest = tok.substring_char(1, n);
                return match parse_i32(rest) {
                    Some(v) => {
                        if c == 'S' {
                            Ok(EpNo::Special(v))
                        } else if c == 'C' {
                            Ok(EpNo::Credit(v))
                        } else if c == 'T' {
                            Ok(EpNo::Trailer(v))
                        } else if c == 'P' {
                            Ok(EpNo::Parody(v))
                        } else {
                            Ok(EpNo::Other(v))
                        }
                    },
                    None => Err(AniDbError::DecodeError("invalid episode number".to_owned())),
                };
            }
        }
        match parse_i32(tok) {
            Some(v) => Ok(EpNo::Regular(v)),
            None => Err(AniDbError::DecodeError("invalid episode number".to_owned())),
        }
    }
}

/// The wire type of one maskable field.
#[derive(Debug, Clone, Copy, PartialEq, Eq, Structural)]
pub enum FieldKind {
    I16,
    I32,
    I64,
    Text,
    Flag,
    TextList,
    NumList,
    Episode,
}

/// One decoded field value.
#[derive(Debug)]
pub enum FieldVal {
    I16(i16),
    I32(i32),
    I64(i64),
    Text(String),
    Flag(bool),
    TextList(Vec<String>),
    NumList(Vec<i32>),
    Episode(EpNo),
}

/// A decoded field value with its texts as character sequences.
pub enum FieldValView {
    I16(i16),
    I32(i32),
    I64(i64),
    Text(Seq<char>),
    Flag(bool),
    TextList(Seq<Seq<char>>),
    NumList(Seq<i32>),
    Episode(EpNo),
}

impl DeepView for FieldVal {
    type V = FieldValView;

    open spec fn deep_view(&self) -> FieldValView {
        match self {
            FieldVal::I16(v) => FieldValView::I16(*v),
            FieldVal::I32(v) => FieldValView::I32(*v),
            FieldVal::I64(v) => FieldValView::I64(*v),
            FieldVal::Text(v) => FieldValView::Text(v@),
            FieldVal::Flag(v) => FieldValView::Flag(*v),
            FieldVal::TextList(v) => FieldValView::TextList(v.deep_view()),
            FieldVal::NumList(v) => FieldValView::NumList(v.deep_view()),
            FieldVal::Episode(v) => FieldValView::Episode(*v),
        }
    }
}

/// The value a token denotes under a field kind, when it denotes one.
pub open spec fn decode_tok(k: FieldKind, t: Seq<char>) -> Option<FieldValView> {
    match k {
        FieldKind::I16 => match <i16 as FieldDecoder>::field_spec(t) {
            Some(v) => Some(FieldValView::I16(v)),
            None => None,
        },
        FieldKind::I32 => match <i32 as FieldDecoder>::field_spec(t) {
            Some(v) => Some(FieldValView::I32(v)),
            None => None,
        },
        FieldKind::I64 => match <i64 as FieldDecoder>::field_spec(t) {
            Some(v) => Some(FieldValView::I64(v)),
            None => None,
        },
        FieldKind::Text => match <String as FieldDecoder>::field_spec(t) {
            Some(v) => Some(FieldValView::Text(v)),
            None => None,
        },
        FieldKind::Flag => match <bool as FieldDecoder>::field_spec(t) {
            Some(v) => Some(FieldValView::Flag(v)),
            None => None,
        },
        FieldKind::TextList => match <Vec<String> as FieldDecoder>::field_spec(t) {
            Some(v) => Some(FieldValView::TextList(v)),
            None => None,
        },
        FieldKind::NumList => match <Vec<i32> as FieldDecoder>::field_spec(t) {
            Some(v) => Some(FieldValView::NumList(v)),
            None => None,
        },
        FieldKind::Episode => match <EpNo as FieldDecoder>::field_spec(t) {
            Some(v) => Some(FieldValView::Episode(v)),
            None => None,
        },
    }
}

/// Decodes one token under a field kind.
pub fn decode_token(k: FieldKind, tok: &str) -> (r: Result<FieldVal, AniDbError>)
    ensures
        match decode_tok(k, tok@) {
            Some(v) => r matches Ok(x) && x.deep_view() == v,
            None => r matches Err(e) && e.deep_view() is DecodeError,
        },
{
    match k {
        FieldKind::I16 => match <i16 as FieldDecoder>::decode_field(tok) {
            Ok(v) => Ok(FieldVal::I16(v)),
            Err(e) => Err(e),
        },
        FieldKind::I32 => match <i32 as FieldDecoder>::decode_field(tok) {
            Ok(v) => Ok(FieldVal::I32(v)),
            Err(e) => Err(e),
        },
        FieldKind::I64 => match <i64 as FieldDecoder>::decode_field(tok) {
            Ok(v) => Ok(FieldVal::I64(v)),
            Err(e) => Err(e),
        },
        FieldKind::Text => match <String as FieldDecoder>::decode_field(tok) {
            Ok(v) => Ok(FieldVal::Text(v)),
            Err(e) => Err(e),
        },
        FieldKind::Flag => match <bool as FieldDecoder>::decode_field(tok) {
            Ok(v) => Ok(FieldVal::Flag(v)),
            Err(e) => Err(e),
        },
        FieldKind::TextList => match <Vec<String> as FieldDecoder>::decode_field(tok) {
            Ok(v) => Ok(FieldVal::TextList(v)),
            Err(e) => Err(e),
        },
        FieldKind::NumList => match <Vec<i32> as FieldDecoder>::decode_field(tok) {
            Ok(v) => Ok(FieldVal::NumList(v)),
            Err(e) => Err(e),
        },
        FieldKind::Episode => match <EpNo as FieldDecoder>::decode_field(tok) {
            Ok(v) => Ok(FieldVal::Episode(v)),
            Err(e) => Err(e),
        },
    }
}

/// Positional decoding of a schema against the tokens of one record,
/// starting at token `i`: every selected slot consumes one token in
/// order, every unselected slot stays empty, and a missing or
/// malformed token fails the whole record.
pub open spec fn decode_slots_spec(
    slots: Seq<(bool, FieldKind)>,
    toks: Seq<Seq<char>>,
    i: int,
) -> Option<(Seq<Option<FieldValView>>, int)>
    decreases slots.len(),
{
    if slots.len() == 0 {
        Some((Seq::<Option<FieldValView>>::empty(), i))
    } else if !slots[0].0 {
        match decode_slots_spec(slots.skip(1), toks, i) {
            Some((vals, j)) => Some((seq![None] + vals, j)),
            None => None,
        }
    } else if 0 <= i < toks.len() {
        match decode_tok(slots[0].1, toks[i]) {
            Some(v) => match decode_slots_spec(slots.skip(1), toks, i + 1) {
                Some((vals, j)) => Some((seq![Some(v)] + vals, j)),
                None => None,
            },
            None => None,
        }
    } else {
        None
    }
}

/// How many slots of a schema are selected.
pub open spec fn num_set(slots: Seq<(bool, FieldKind)>) -> int
    decreases slots.len(),
{
    if slots.len() == 0 {
        0
    } else {
        (if slots[0].0 {
            1int
        } else {
            0int
        }) + num_set(slots.skip(1))
    }
}

/// Decoding a schema decomposes at any cut: decode the first `k`
/// slots, then the rest from where the first part stopped.
pub proof fn lemma_slots_split(slots: Seq<(bool, FieldKind)>, k: int, toks: Seq<Seq<char>>, i: int)
    requires
        0 <= k <= slots.len(),
    ensures
        decode_slots_spec(slots, toks, i) == match decode_slots_spec(slots.take(k), toks, i) {
            Some((vals, j)) => match decode_slots_spec(slots.skip(k), toks, j) {
                Some((vals2, j2)) => Some((vals + vals2, j2)),
                None => None,
            },
            None => None,
        },
    decreases k,
{
    if k == 0 {
        assert(slots.take(0) =~= Seq::<(bool, FieldKind)>::empty());
        assert(slots.skip(0) =~= slots);
        match decode_slots_spec(slots, toks, i) {
            Some((vals, j)) => {
                assert(Seq::<Option<FieldValView>>::empty() + vals =~= vals);
            },
            None => {},
        }
    } else {
        let tail = slots.skip(1);
        assert(slots.take(k).skip(1) =~= tail.take(k - 1));
        assert(slots.take(k)[0] == slots[0]);
        assert(tail.skip(k - 1) =~= slots.skip(k));
        if !slots[0].0 {
            lemma_slots_split(tail, k - 1, toks, i);
            match decode_slots_spec(tail.take(k - 1), toks, i) {
                Some((vals, j)) => {
                    match decode_slots_spec(slots.skip(k), toks, j) {
                        Some((vals2, j2)) => {
                            assert((seq![None] + vals) + vals2 =~= seq![
                                None::<FieldValView>,
                            ] + (vals + vals2));
                        },
                        None => {},
                    }
                },
                None => {},
            }
        } else if 0 <= i < toks.len() {
            match decode_tok(slots[0].1, toks[i]) {
                Some(v) => {
                    lemma_slots_split(tail, k - 1, toks, i + 1);
                    match decode_slots_spec(tail.take(k - 1), toks, i + 1) {
                        Some((vals, j)) => {
                            match decode_slots_spec(slots.skip(k), toks, j) {
                                Some((vals2, j2)) => {
                                    assert((seq![Some(v)] + vals) + vals2 =~= seq![
                                        Some(v),
                                    ] + (vals + vals2));
                                },
                                None => {},
                            }
                        },
                        None => {},
                    }
                },
                None => {},
            }
        }
    }
}

/// The value variant a field kind decodes to.
pub open spec fn kind_matches(v: FieldValView, k: FieldKind) -> bool {
    match k {
        FieldKind::I16 => v is I16,
        FieldKind::I32 => v is I32,
        FieldKind::I64 => v is I64,
        FieldKind::Text => v is Text,
        FieldKind::Flag => v is Flag,
        FieldKind::TextList => v is TextList,
        FieldKind::NumList => v is NumList,
        FieldKind::Episode => v is Episode,
    }
}

/// When a schema decodes, the decoded record has one slot per schema
/// entry, a slot is filled exactly when its flag is set and then with
/// its own kind of value, and the decoder consumed one token per set
/// flag.
pub proof fn lemma_slots_presence(slots: Seq<(bool, FieldKind)>, toks: Seq<Seq<char>>, i: int)
    requires
        decode_slots_spec(slots, toks, i) is Some,
    ensures
        ({
            let (vals, j) = decode_slots_spec(slots, toks, i)->Some_0;
            &&& vals.len() == slots.len()
            &&& j == i + num_set(slots)
            &&& forall|q: int| 0 <= q < slots.len() ==> (vals[q] is Some <==> slots[q].0)
            &&& forall|q: int|
                0 <= q < slots.len() ==> (#[trigger] vals[q] matches Some(v) ==> kind_matches(
                    v,
                    slots[q].1,
                ))
        }),
    decreases slots.len(),
{
    if slots.len() == 0 {
    } else if !slots[0].0 {
        lemma_slots_presence(slots.skip(1), toks, i);
    } else {
        lemma_slots_presence(slots.skip(1), toks, i + 1);
    }
}

/// The number inside a decoded slot, when it holds that kind.
pub open spec fn ov_i16(v: Option<FieldValView>) -> Option<i16> {
    match v {
        Some(FieldValView::I16(x)) => Some(x),
        _ => None,
    }
}

pub open spec fn ov_i32(v: Option<FieldValView>) -> Option<i32> {
    match v {
        Some(FieldValView::I32(x)) => Some(x),
        _ => None,
    }
}

pub open spec fn ov_i64(v: Option<FieldValView>) -> Option<i64> {
    match v {
        Some(FieldValView::I64(x)) => Some(x),
        _ => None,
    }
}

pub open spec fn ov_text(v: Option<FieldValView>) -> Option<Seq<char>> {
    match v {
        Some(FieldValView::Text(x)) => Some(x),
        _ => None,
    }
}

pub open spec fn ov_flag(v: Option<FieldValView>) -> Option<bool> {
    match v {
        Some(FieldValView::Flag(x)) => Some(x),
        _ => None,
    }
}

pub open spec fn ov_text_list(v: Option<FieldValView>) -> Option<Seq<Seq<char>>> {
    match v {
        Some(FieldValView::TextList(x)) => Some(x),
        _ => None,
    }
}

pub open spec fn ov_num_list(v: Option<FieldValView>) -> Option<Seq<i32>> {
    match v {
        Some(FieldValView::NumList(x)) => Some(x),
        _ => None,
    }
}

pub open spec fn ov_episode(v: Option<FieldValView>) -> Option<EpNo> {
    match v {
        Some(FieldValView::Episode(x)) => Some(x),
        _ => None,
    }
}

pub fn ex_i16(v: Option<FieldVal>) -> (r: Option<i16>)
    ensures
        r == ov_i16(v.deep_view()),
{
    match v {
        Some(FieldVal::I16(x)) => Some(x),
        _ => None,
    }
}

pub fn ex_i32(v: Option<FieldVal>) -> (r: Option<i32>)
    ensures
        r == ov_i32(v.deep_view()),
{
    match v {
        Some(FieldVal::I32(x)) => Some(x),
        _ => None,
    }
}

pub fn ex_i64(v: Option<FieldVal>) -> (r: Option<i64>)
    ensures
        r == ov_i64(v.deep_view()),
{
    match v {
        Some(FieldVal::I64(x)) => Some(x),
        _ => None,
    }
}

pub fn ex_text(v: Option<FieldVal>) -> (r: Option<String>)
    ensures
        r.deep_view() == ov_text(v.deep_view()),
{
    match v {
        Some(FieldVal::Text(x)) => Some(x),
        _ => None,
    }
}

pub fn ex_flag(v: Option<FieldVal>) -> (r: Option<bool>)
    ensures
        r == ov_flag(v.deep_view()),
{
    match v {
        Some(FieldVal::Flag(x)) => Some(x),
        _ => None,
    }
}

pub fn ex_text_list(v: Option<FieldVal>) -> (r: Option<Vec<String>>)
    ensures
        r.deep_view() == ov_text_list(v.deep_view()),
{
    match v {
        Some(FieldVal::TextList(x)) => Some(x),
        _ => None,
    }
}

pub fn ex_num_list(v: Option<FieldVal>) -> (r: Option<Vec<i32>>)
    ensures
        r.deep_view() == ov_num_list(v.deep_view()),
{
    match v {
        Some(FieldVal::NumList(x)) => Some(x),
        _ => None,
    }
}

pub fn ex_episode(v: Option<FieldVal>) -> (r: Option<EpNo>)
    ensures
        r == ov_episode(v.deep_view()),
{
    match v {
        Some(FieldVal::Episode(x)) => Some(x),
        _ => None,
    }
}

/// The byte with the given flags at bits seven down to zero: how one
/// group of a field mask rides the wire.
pub fn group_byte(
    b7: bool,
    b6: bool,
    b5: bool,
    b4: bool,
    b3: bool,
    b2: bool,
    b1: bool,
    b0: bool,
) -> (r: u8)
    ensures
        r as int == (if b7 {
            128int
        } else {
            0int
        }) + (if b6 {
            64int
        } else {
            0int
        }) + (if b5 {
            32int
        } else {
            0int
        }) + (if b4 {
            16int
        } else {
            0int
        }) + (if b3 {
            8int
        } else {
            0int
        }) + (if b2 {
            4int
        } else {
            0int
        }) + (if b1 {
            2int
        } else {
            0int
        }) + (if b0 {
            1int
        } else {
            0int
        }),
{
    (if b7 {
        128u8
    } else {
        0u8
    }) + (if b6 {
        64u8
    } else {
        0u8
    }) + (if b5 {
        32u8
    } else {
        0u8
    }) + (if b4 {
        16u8
    } else {
        0u8
    }) + (if b3 {
        8u8
    } else {
        0u8
    }) + (if b2 {
        4u8
    } else {
        0u8
    }) + (if b1 {
        2u8
    } else {
        0u8
    }) + (if b0 {
        1u8
    } else {
        0u8
    })
}

/// Takes the front decoded slot off the vector.
pub fn next_val(vals: &mut Vec<Option<FieldVal>>) -> (r: Option<FieldVal>)
    requires
        old(vals)@.len() > 0,
    ensures
        r == old(vals)@[0],
        final(vals)@ == old(vals)@.skip(1),
{
    let v = vals.remove(0);
    proof {
        assert(vals@ =~= old(vals)@.skip(1));
    }
    v
}

/// Extending a schema by one slot decodes the prefix, then the new
/// slot from where the prefix stopped.
pub proof fn lemma_slots_snoc(
    slots: Seq<(bool, FieldKind)>,
    slot: (bool, FieldKind),
    toks: Seq<Seq<char>>,
    i: int,
)
    ensures
        decode_slots_spec(slots.push(slot), toks, i) == match decode_slots_spec(slots, toks, i) {
            Some((vals, j)) => if !slot.0 {
                Some((vals.push(None), j))
            } else if 0 <= j < toks.len() {
                match decode_tok(slot.1, toks[j]) {
                    Some(v) => Some((vals.push(Some(v)), j + 1)),
                    None => None,
                }
            } else {
                None
            },
            None => None,
        },
    decreases slots.len(),
{
    reveal_with_fuel(decode_slots_spec, 3);
    let ext = slots.push(slot);
    if slots.len() == 0 {
        assert(ext[0] == slot);
        assert(ext.skip(1) =~= Seq::<(bool, FieldKind)>::empty());
        if !slot.0 {
            assert(seq![None::<FieldValView>] + Seq::<Option<FieldValView>>::empty() =~= Seq::<
                Option<FieldValView>,
            >::empty().push(None));
        } else if 0 <= i < toks.len() {
            match decode_tok(slot.1, toks[i]) {
                Some(v) => {
                    assert(seq![Some(v)] + Seq::<Option<FieldValView>>::empty() =~= Seq::<
                        Option<FieldValView>,
                    >::empty().push(Some(v)));
                },
                None => {},
            }
        }
        assert(decode_slots_spec(ext, toks, i) =~~= match decode_slots_spec(slots, toks, i) {
            Some((vals, j)) => if !slot.0 {
                Some((vals.push(None), j))
            } else if 0 <= j < toks.len() {
                match decode_tok(slot.1, toks[j]) {
                    Some(v) => Some((vals.push(Some(v)), j + 1)),
                    None => None,
                }
            } else {
                None
            },
            None => None,
        });
    } else {
        assert(ext[0] == slots[0]);
        assert(ext.skip(1) =~= slots.skip(1).push(slot));
        let i2 = if !slots[0].0 {
            i
        } else {
            i + 1
        };
        lemma_slots_snoc(slots.skip(1), slot, toks, i2);
        match decode_slots_spec(slots, toks, i) {
            Some((vals, j)) => {
                let first = vals[0];
                assert(vals == seq![first] + decode_slots_spec(slots.skip(1), toks, i2)->Some_0.0);
                match decode_slots_spec(slots.skip(1), toks, i2) {
                    Some((tv, tj)) => {
                        if !slot.0 {
                            assert((seq![first] + tv).push(None) =~= seq![first] + tv.push(None));
                        } else if 0 <= j < toks.len() {
                            match decode_tok(slot.1, toks[j]) {
                                Some(v) => {
                                    assert((seq![first] + tv).push(Some(v)) =~= seq![first]
                                        + tv.push(Some(v)));
                                },
                                None => {},
                            }
                        }
                    },
                    None => {},
                }
            },
            None => {},
        }
        assert(decode_slots_spec(ext, toks, i) =~~= match decode_slots_spec(slots, toks, i) {
            Some((vals, j)) => if !slot.0 {
                Some((vals.push(None), j))
            } else if 0 <= j < toks.len() {
                match decode_tok(slot.1, toks[j]) {
                    Some(v) => Some((vals.push(Some(v)), j + 1)),
                    None => None,
                }
            } else {
                None
            },
            None => None,
        });
    }
}

/// Decodes the slots of a schema from `toks`, advancing `idx` past the
/// consumed tokens.
pub fn decode_slots(slots: &Vec<(bool, FieldKind)>, toks: &Vec<String>, idx: &mut usize) -> (r:
    Result<Vec<Option<FieldVal>>, AniDbError>)
    requires
        *old(idx) as int <= toks@.len(),
    ensures
        match r {
            Ok(vals) => decode_slots_spec(slots@, toks.deep_view(), *old(idx) as int) == Some(
                (vals.deep_view(), *final(idx) as int),
            ) && *final(idx) as int <= toks@.len(),
            Err(e) => decode_slots_spec(slots@, toks.deep_view(), *old(idx) as int) is None
                && e.deep_view() is DecodeError,
        },
{
    let ghost toksd = toks.deep_view();
    let ghost i0 = *idx as int;
    let mut out: Vec<Option<FieldVal>> = Vec::new();
    let mut k: usize = 0;
    while k < slots.len()
        invariant
            0 <= k <= slots@.len(),
            i0 == *old(idx) as int,
            toksd == toks.deep_view(),
            toksd.len() == toks@.len(),
            *idx as int <= toks@.len(),
            decode_slots_spec(slots@.take(k as int), toksd, i0) == Some(
                (out.deep_view(), *idx as int),
            ),
        decreases slots@.len() - k,
    {
        let flag = slots[k].0;
        let kind = slots[k].1;
        let ghost out_pre = out.deep_view();
        let ghost idx_pre = *idx as int;
        proof {
            lemma_slots_split(slots@, k as int, toksd, i0);
            assert(slots@.skip(k as int)[0] == slots@[k as int]);
            lemma_slots_snoc(slots@.take(k as int), slots@[k as int], toksd, i0);
            assert(slots@.take(k as int).push(slots@[k as int]) =~= slots@.take(k + 1));
        }
        if !flag {
            out.push(None);
            proof {
                assert(out.deep_view() =~= out_pre.push(None));
            }
        } else {
            if *idx >= toks.len() {
                proof {
                    assert(decode_slots_spec(slots@.skip(k as int), toksd, idx_pre) is None);
                }
                return Err(AniDbError::DecodeError("missing expected field".to_owned()));
            }
            proof {
                assert(toks.deep_view()[*idx as int] == toks@[*idx as int].deep_view());
            }
            match decode_token(kind, toks[*idx].as_str()) {
                Ok(v) => {
                    out.push(Some(v));
                    *idx += 1;
                    proof {
                        assert(out.deep_view() =~= out_pre.push(
                            Some(decode_tok(slots@[k as int].1, toksd[idx_pre])->Some_0),
                        ));
                    }
                },
                Err(e) => {
                    proof {
                        assert(decode_slots_spec(slots@.skip(k as int), toksd, idx_pre) is None);
                    }
                    return Err(e);
                },
            }
        }
        k += 1;
    }
    proof {
        assert(slots@.take(k as int) =~= slots@);
    }
    Ok(out)
}

} // verus!
