//! Verified helpers over strings: character classes, decimal and
//! hexadecimal rendering, integer parsing, searching and splitting.
use vstd::prelude::*;

verus! {

/// A decimal digit.
pub open spec fn is_digit_char(c: char) -> bool {
    '0' <= c && c <= '9'
}

/// Numeric value of a decimal digit.
pub open spec fn digit_val(c: char) -> int {
    c as int - '0' as int
}

/// The character for a digit value below 16: decimal digits then
/// lowercase letters, as in a hexadecimal rendering.
pub open spec fn digit_char(d: int) -> char {
    if d < 10 {
        ((d + 48) as u8) as char
    } else {
        ((d + 87) as u8) as char
    }
}

/// Decimal rendering of a natural number, most significant digit first.
pub open spec fn dec_digits(n: nat) -> Seq<char>
    decreases n,
{
    if n < 10 {
        seq![digit_char(n as int)]
    } else {
        dec_digits(n / 10).push(digit_char((n % 10) as int))
    }
}

/// Lowercase hexadecimal rendering of a natural number, no leading zeros.
pub open spec fn hex_digits(n: nat) -> Seq<char>
    decreases n,
{
    if n < 16 {
        seq![digit_char(n as int)]
    } else {
        hex_digits(n / 16).push(digit_char((n % 16) as int))
    }
}

/// A one-character string slice for a digit value below 16.
pub fn digit_str(d: u64) -> (r: &'static str)
    requires
        d < 16,
    ensures
        r@ == seq![digit_char(d as int)],
{
    let s = match d {
        0 => "0",
        1 => "1",
        2 => "2",
        3 => "3",
        4 => "4",
        5 => "5",
        6 => "6",
        7 => "7",
        8 => "8",
        9 => "9",
        10 => "a",
        11 => "b",
        12 => "c",
        13 => "d",
        14 => "e",
        _ => "f",
    };
    proof {
        reveal_strlit("0");
        reveal_strlit("1");
        reveal_strlit("2");
        reveal_strlit("3");
        reveal_strlit("4");
        reveal_strlit("5");
        reveal_strlit("6");
        reveal_strlit("7");
        reveal_strlit("8");
        reveal_strlit("9");
        reveal_strlit("a");
        reveal_strlit("b");
        reveal_strlit("c");
        reveal_strlit("d");
        reveal_strlit("e");
        reveal_strlit("f");
        assert(s@ =~= seq![digit_char(d as int)]);
    }
    s
}

/// Renders an unsigned number in decimal.
pub fn u64_to_dec(n: u64) -> (r: String)
    ensures
        r@ == dec_digits(n as nat),
    decreases n,
{
    if n < 10 {
        digit_str(n).to_owned()
    } else {
        let mut s = u64_to_dec(n / 10);
        s.append(digit_str(n % 10));
        s
    }
}

/// Renders an unsigned number in lowercase hexadecimal.
pub fn u64_to_hex(n: u64) -> (r: String)
    ensures
        r@ == hex_digits(n as nat),
    decreases n,
{
    if n < 16 {
        digit_str(n).to_owned()
    } else {
        let mut s = u64_to_hex(n / 16);
        s.append(digit_str(n % 16));
        s
    }
}

/// Decimal rendering of a signed value: a minus sign before the
/// magnitude for negative values.
pub open spec fn dec_int(v: int) -> Seq<char> {
    if v >= 0 {
        dec_digits(v as nat)
    } else {
        seq!['-'] + dec_digits((-v) as nat)
    }
}

/// Renders a signed number in decimal.
pub fn i64_to_dec(n: i64) -> (r: String)
    ensures
        r@ == dec_int(n as int),
{
    if n >= 0 {
        u64_to_dec(n as u64)
    } else {
        // magnitude computed without overflowing at i64::MIN
        let mag: u64 = ((-(n + 1)) as u64) + 1;
        let mut s = "-".to_owned();
        proof {
            reveal_strlit("-");
        }
        s.append(u64_to_dec(mag).as_str());
        assert(s@ =~= dec_int(n as int));
        s
    }
}

/// Every character is a decimal digit.
pub open spec fn all_digits(s: Seq<char>) -> bool {
    forall|i: int| 0 <= i < s.len() ==> is_digit_char(#[trigger] s[i])
}

/// Value of a run of decimal digits, most significant first.
pub open spec fn digits_val(s: Seq<char>) -> int
    decreases s.len(),
{
    if s.len() == 0 {
        0
    } else {
        digits_val(s.drop_last()) * 10 + digit_val(s.last())
    }
}

/// Integer syntax accepted when parsing a signed number: an optional
/// sign, then at least one decimal digit.
pub open spec fn is_int_str(s: Seq<char>) -> bool {
    if s.len() > 0 && (s[0] == '+' || s[0] == '-') {
        s.len() > 1 && all_digits(s.skip(1))
    } else {
        s.len() > 0 && all_digits(s)
    }
}

/// Syntax accepted when parsing an unsigned number: an optional plus
/// sign, then at least one decimal digit.
pub open spec fn is_uint_str(s: Seq<char>) -> bool {
    if s.len() > 0 && s[0] == '+' {
        s.len() > 1 && all_digits(s.skip(1))
    } else {
        s.len() > 0 && all_digits(s)
    }
}

/// The value denoted by integer syntax.
pub open spec fn int_str_val(s: Seq<char>) -> int {
    if s.len() > 0 && s[0] == '-' {
        -digits_val(s.skip(1))
    } else if s.len() > 0 && s[0] == '+' {
        digits_val(s.skip(1))
    } else {
        digits_val(s)
    }
}

/// The value denoted by unsigned syntax.
pub open spec fn uint_str_val(s: Seq<char>) -> int {
    if s.len() > 0 && s[0] == '+' {
        digits_val(s.skip(1))
    } else {
        digits_val(s)
    }
}

proof fn lemma_digits_val_nonneg(s: Seq<char>)
    requires
        all_digits(s),
    ensures
        digits_val(s) >= 0,
    decreases s.len(),
{
    if s.len() > 0 {
        assert(all_digits(s.drop_last()));
        lemma_digits_val_nonneg(s.drop_last());
    }
}

/// A longer digit run never denotes a smaller value.
proof fn lemma_digits_val_mono(s: Seq<char>, k: int)
    requires
        all_digits(s),
        0 <= k <= s.len(),
    ensures
        digits_val(s.take(k)) <= digits_val(s),
    decreases s.len() - k,
{
    if k < s.len() {
        lemma_digits_val_mono(s, k + 1);
        assert(s.take(k + 1).drop_last() =~= s.take(k));
        assert(all_digits(s.take(k)));
        lemma_digits_val_nonneg(s.take(k));
        assert(digits_val(s.take(k + 1)) == digits_val(s.take(k)) * 10 + digit_val(s[k]));
    } else {
        assert(s.take(k) =~= s);
    }
}

proof fn lemma_overflow_guard(acc: int, limit: int, d: int)
    requires
        0 <= d <= 9,
        0 <= acc,
        d <= limit,
    ensures
        (acc > (limit - d) / 10) <==> (acc * 10 + d > limit),
{
    let q = (limit - d) / 10;
    let r = (limit - d) % 10;
    vstd::arithmetic::div_mod::lemma_fundamental_div_mod(limit - d, 10);
    assert(limit - d == 10 * q + r);
    if acc > q {
        assert(acc * 10 >= (q + 1) * 10) by (nonlinear_arith)
            requires acc >= q + 1;
    } else {
        assert(acc * 10 <= q * 10) by (nonlinear_arith)
            requires acc <= q;
    }
}

/// Parses the run of decimal digits from `start` to the end of `s`,
/// refusing values above `limit`.
fn parse_digits(s: &str, start: usize, limit: u64) -> (r: Option<u64>)
    requires
        start as int <= s@.len(),
    ensures
        ({
            let d = s@.skip(start as int);
            match r {
                Some(v) => d.len() > 0 && all_digits(d) && digits_val(d) == v && v <= limit,
                None => !(d.len() > 0 && all_digits(d) && digits_val(d) <= limit),
            }
        }),
{
    let n = s.unicode_len();
    let ghost whole = s@.skip(start as int);
    if start == n {
        return None;
    }
    let mut i: usize = start;
    let mut acc: u64 = 0;
    while i < n
        invariant
            start <= i <= n,
            n == s@.len(),
            whole == s@.skip(start as int),
            all_digits(whole.take(i - start)),
            acc as int == digits_val(whole.take(i - start)),
            acc <= limit,
        decreases n - i,
    {
        let c = s.get_char(i);
        if !('0' <= c && c <= '9') {
            assert(whole[i - start] == s@[i as int]);
            assert(!all_digits(whole));
            return None;
        }
        let d: u64 = (c as u32 as u64) - 48;
        proof {
            assert(whole.take(i - start + 1).drop_last() =~= whole.take(i - start));
            assert(whole.take(i - start + 1).last() == s@[i as int]);
        }
        if d > limit {
            // this digit alone exceeds the limit, so the whole run does
            proof {
                if all_digits(whole) {
                    lemma_digits_val_mono(whole, i - start + 1);
                }
            }
            return None;
        }
        proof {
            lemma_overflow_guard(acc as int, limit as int, d as int);
        }
        if acc > (limit - d) / 10 {
            // the prefix already exceeds the limit, so the whole run does
            proof {
                if all_digits(whole) {
                    lemma_digits_val_mono(whole, i - start + 1);
                }
            }
            return None;
        }
        acc = acc * 10 + d;
        i += 1;
    }
    proof {
        assert(whole.take(i - start) =~= whole);
    }
    Some(acc)
}

/// Parses a signed 64-bit number, as `str::parse` for a signed type
/// does: an optional sign, digits, and a range check.
pub fn parse_i64(s: &str) -> (r: Option<i64>)
    ensures
        r is Some <==> is_int_str(s@) && i64::MIN <= int_str_val(s@) <= i64::MAX,
        r matches Some(v) ==> v as int == int_str_val(s@),
{
    let n = s.unicode_len();
    if n == 0 {
        return None;
    }
    let c0 = s.get_char(0);
    let neg = c0 == '-';
    let has_sign = neg || c0 == '+';
    let start: usize = if has_sign {
        1
    } else {
        0
    };
    let limit: u64 = if neg {
        9223372036854775808
    } else {
        9223372036854775807
    };
    proof {
        assert(s@.skip(0) =~= s@);
    }
    match parse_digits(s, start, limit) {
        None => None,
        Some(v) => {
            if neg {
                if v == 9223372036854775808 {
                    Some(i64::MIN)
                } else {
                    Some(-(v as i64))
                }
            } else {
                Some(v as i64)
            }
        },
    }
}

/// Parses a signed 32-bit number.
pub fn parse_i32(s: &str) -> (r: Option<i32>)
    ensures
        r is Some <==> is_int_str(s@) && i32::MIN <= int_str_val(s@) <= i32::MAX,
        r matches Some(v) ==> v as int == int_str_val(s@),
{
    match parse_i64(s) {
        Some(v) => {
            if -2147483648 <= v && v <= 2147483647 {
                Some(v as i32)
            } else {
                None
            }
        },
        None => None,
    }
}

/// Parses a signed 16-bit number.
pub fn parse_i16(s: &str) -> (r: Option<i16>)
    ensures
        r is Some <==> is_int_str(s@) && i16::MIN <= int_str_val(s@) <= i16::MAX,
        r matches Some(v) ==> v as int == int_str_val(s@),
{
    match parse_i64(s) {
        Some(v) => {
            if -32768 <= v && v <= 32767 {
                Some(v as i16)
            } else {
                None
            }
        },
        None => None,
    }
}

/// Parses an unsigned 16-bit number, as `str::parse::<u16>` does: no
/// minus sign is accepted.
pub fn parse_u16(s: &str) -> (r: Option<u16>)
    ensures
        r is Some <==> is_uint_str(s@) && uint_str_val(s@) <= u16::MAX,
        r matches Some(v) ==> v as int == uint_str_val(s@),
{
    let n = s.unicode_len();
    if n == 0 {
        return None;
    }
    let start: usize = if s.get_char(0) == '+' {
        1
    } else {
        0
    };
    proof {
        assert(s@.skip(0) =~= s@);
    }
    match parse_digits(s, start, 65535) {
        None => None,
        Some(v) => Some(v as u16),
    }
}

/// Index of the first occurrence of `sep`, or -1 when absent.
pub open spec fn first_sep(s: Seq<char>, sep: char) -> int
    decreases s.len(),
{
    if s.len() == 0 {
        -1
    } else if s[0] == sep {
        0
    } else {
        let r = first_sep(s.skip(1), sep);
        if r < 0 {
            -1
        } else {
            r + 1
        }
    }
}

/// What `first_sep` says about the characters of `s`.
pub proof fn lemma_first_sep(s: Seq<char>, sep: char)
    ensures
        first_sep(s, sep) == -1 ==> forall|i: int| 0 <= i < s.len() ==> s[i] != sep,
        first_sep(s, sep) >= 0 ==> first_sep(s, sep) < s.len() && s[first_sep(s, sep)] == sep
            && forall|i: int| 0 <= i < first_sep(s, sep) ==> s[i] != sep,
    decreases s.len(),
{
    if s.len() > 0 && s[0] != sep {
        lemma_first_sep(s.skip(1), sep);
        let r1 = first_sep(s.skip(1), sep);
        if r1 < 0 {
            assert forall|i: int| 0 <= i < s.len() implies s[i] != sep by {
                if i > 0 {
                    assert(s.skip(1)[i - 1] != sep);
                }
            }
        } else {
            assert(s[r1 + 1] == s.skip(1)[r1]);
            assert forall|i: int| 0 <= i < r1 + 1 implies s[i] != sep by {
                if i > 0 {
                    assert(s.skip(1)[i - 1] != sep);
                }
            }
        }
    }
}

/// `first_sep` from the characters of `s`: `i` is the first match, or
/// there is none when `i` reaches the end.
pub proof fn lemma_first_sep_of(s: Seq<char>, sep: char, i: int)
    requires
        0 <= i <= s.len(),
        forall|j: int| 0 <= j < i ==> s[j] != sep,
        i < s.len() ==> s[i] == sep,
    ensures
        first_sep(s, sep) == if i == s.len() {
            -1int
        } else {
            i
        },
    decreases s.len(),
{
    if s.len() > 0 && s[0] != sep {
        assert forall|j: int| 0 <= j < i - 1 implies s.skip(1)[j] != sep by {
            assert(s[j + 1] != sep);
        }
        if i - 1 < s.skip(1).len() {
            assert(s.skip(1)[i - 1] == s[i]);
        }
        lemma_first_sep_of(s.skip(1), sep, i - 1);
    }
}

/// Finds the first occurrence of `sep` at or after `from`.
pub fn find_char(s: &str, from: usize, sep: char) -> (r: Option<usize>)
    requires
        from as int <= s@.len(),
    ensures
        ({
            let f = first_sep(s@.skip(from as int), sep);
            match r {
                Some(i) => f >= 0 && i as int == from + f,
                None => f == -1,
            }
        }),
{
    let n = s.unicode_len();
    let mut i: usize = from;
    while i < n
        invariant
            from <= i <= n,
            n == s@.len(),
            forall|j: int| from <= j < i ==> s@[j] != sep,
        decreases n - i,
    {
        if s.get_char(i) == sep {
            proof {
                lemma_first_sep_of(s@.skip(from as int), sep, i - from);
            }
            return Some(i);
        }
        i += 1;
    }
    proof {
        lemma_first_sep_of(s@.skip(from as int), sep, n - from);
    }
    None
}

/// The text before the first `sep`, or all of `s` when there is none.
pub open spec fn split2_head(s: Seq<char>, sep: char) -> Seq<char> {
    let f = first_sep(s, sep);
    if f < 0 {
        s
    } else {
        s.take(f)
    }
}

/// The text after the first `sep`, when there is one.
pub open spec fn split2_rest(s: Seq<char>, sep: char) -> Option<Seq<char>> {
    let f = first_sep(s, sep);
    if f < 0 {
        Option::None
    } else {
        Option::Some(s.skip(f + 1))
    }
}

/// Splits at the first occurrence of `sep`, keeping the remainder in
/// one piece, as `splitn` with a count of two does.
pub fn split_once_ch(s: &str, sep: char) -> (r: (String, Option<String>))
    ensures
        r.0@ == split2_head(s@, sep),
        r.1.deep_view() == split2_rest(s@, sep),
{
    proof {
        lemma_first_sep(s@, sep);
        assert(s@.skip(0) =~= s@);
    }
    match find_char(s, 0, sep) {
        None => { (s.to_owned(), None) },
        Some(i) => {
            let n = s.unicode_len();
            let head = s.substring_char(0, i).to_owned();
            let rest = s.substring_char(i + 1, n).to_owned();
            proof {
                assert(s@.subrange(0, first_sep(s@, sep)) =~= s@.take(first_sep(s@, sep)));
                assert(s@.subrange(first_sep(s@, sep) + 1, s@.len() as int) =~= s@.skip(
                    first_sep(s@, sep) + 1));
            }
            (head, Some(rest))
        },
    }
}

/// The pieces of `s` between occurrences of `sep`: one more piece than
/// there are separators, empty pieces kept.
pub open spec fn split_chars(s: Seq<char>, sep: char) -> Seq<Seq<char>>
    decreases s.len(),
{
    if s.len() == 0 {
        seq![Seq::<char>::empty()]
    } else if s[0] == sep {
        seq![Seq::<char>::empty()] + split_chars(s.skip(1), sep)
    } else {
        let rest = split_chars(s.skip(1), sep);
        seq![seq![s[0]] + rest[0]] + rest.skip(1)
    }
}

pub proof fn lemma_split_chars_len(s: Seq<char>, sep: char)
    ensures
        split_chars(s, sep).len() >= 1,
    decreases s.len(),
{
    if s.len() > 0 {
        lemma_split_chars_len(s.skip(1), sep);
    }
}

/// Splitting takes the piece before the first separator and then
/// splits what follows it.
pub proof fn lemma_split_decomp(s: Seq<char>, sep: char)
    ensures
        split_chars(s, sep) == if first_sep(s, sep) < 0 {
            seq![s]
        } else {
            seq![s.take(first_sep(s, sep))] + split_chars(s.skip(first_sep(s, sep) + 1), sep)
        },
    decreases s.len(),
{
    lemma_first_sep(s, sep);
    if s.len() == 0 {
        assert(split_chars(s, sep) =~~= seq![s]);
    } else if s[0] == sep {
        assert(s.skip(0int + 1) == s.skip(1));
        assert(s.take(0) =~= Seq::<char>::empty());
        assert(split_chars(s, sep) =~~= seq![s.take(0)] + split_chars(s.skip(1), sep));
    } else {
        lemma_split_decomp(s.skip(1), sep);
        lemma_split_chars_len(s.skip(1), sep);
        let f = first_sep(s, sep);
        let rest = split_chars(s.skip(1), sep);
        if f < 0 {
            assert(rest == seq![s.skip(1)]);
            assert(seq![s[0]] + s.skip(1) =~= s);
            assert(split_chars(s, sep) =~~= seq![s]);
        } else {
            let f1 = first_sep(s.skip(1), sep);
            assert(f == f1 + 1);
            assert(rest == seq![s.skip(1).take(f1)] + split_chars(s.skip(1).skip(f1 + 1), sep));
            assert(seq![s[0]] + s.skip(1).take(f1) =~= s.take(f));
            assert(s.skip(1).skip(f1 + 1) =~= s.skip(f + 1));
            assert(rest.skip(1) =~~= split_chars(s.skip(f + 1), sep));
            assert(split_chars(s, sep) =~~= seq![s.take(f)] + split_chars(s.skip(f + 1), sep));
        }
    }
}

/// Splits `s` at every occurrence of `sep`.
pub fn split_str(s: &str, sep: char) -> (r: Vec<String>)
    ensures
        r.deep_view() == split_chars(s@, sep),
    decreases s@.len(),
{
    proof {
        lemma_split_decomp(s@, sep);
        lemma_first_sep(s@, sep);
        assert(s@.skip(0) =~= s@);
    }
    match find_char(s, 0, sep) {
        None => {
            let mut v: Vec<String> = Vec::new();
            v.push(s.to_owned());
            proof {
                assert(v.deep_view() =~= split_chars(s@, sep));
            }
            v
        },
        Some(i) => {
            let n = s.unicode_len();
            let head = s.substring_char(0, i).to_owned();
            let tail = s.substring_char(i + 1, n);
            let mut v = split_str(tail, sep);
            v.insert(0, head);
            proof {
                let f = first_sep(s@, sep);
                assert(s@.subrange(0, f) =~= s@.take(f));
                assert(s@.subrange(f + 1, s@.len() as int) =~= s@.skip(f + 1));
                assert(v.deep_view() =~= split_chars(s@, sep));
            }
            v
        },
    }
}

/// Whitespace, as the protocol's text uses it.
pub open spec fn is_ws(c: char) -> bool {
    c == ' ' || c == '\t' || c == '\n' || c == '\r' || c == '\u{b}' || c == '\u{c}'
}

/// `s` without leading whitespace.
pub open spec fn trim_left(s: Seq<char>) -> Seq<char>
    decreases s.len(),
{
    if s.len() > 0 && is_ws(s[0]) {
        trim_left(s.skip(1))
    } else {
        s
    }
}

/// `s` without trailing whitespace.
pub open spec fn trim_right(s: Seq<char>) -> Seq<char>
    decreases s.len(),
{
    if s.len() > 0 && is_ws(s.last()) {
        trim_right(s.drop_last())
    } else {
        s
    }
}

/// `s` without leading and trailing whitespace.
pub open spec fn trim_chars(s: Seq<char>) -> Seq<char> {
    trim_right(trim_left(s))
}

/// Tells whether `c` is whitespace.
pub fn ws_char(c: char) -> (r: bool)
    ensures
        r == is_ws(c),
{
    c == ' ' || c == '\t' || c == '\n' || c == '\r' || c == '\u{b}' || c == '\u{c}'
}

/// Removes leading and trailing whitespace.
pub fn trim_str(s: &str) -> (r: String)
    ensures
        r@ == trim_chars(s@),
{
    let n = s.unicode_len();
    proof {
        assert(s@.skip(0) =~= s@);
    }
    let mut a: usize = 0;
    while a < n && ws_char(s.get_char(a))
        invariant
            0 <= a <= n,
            n == s@.len(),
            trim_left(s@) == trim_left(s@.skip(a as int)),
        decreases n - a,
    {
        proof {
            assert(s@.skip(a as int).skip(1) =~= s@.skip(a + 1));
        }
        a += 1;
    }
    let mut b: usize = n;
    proof {
        assert(s@.skip(a as int).take(b - a) =~= s@.subrange(a as int, b as int));
        if a < n {
            assert(!is_ws(s@.skip(a as int)[0]));
            assert(trim_left(s@.skip(a as int)) == s@.skip(a as int));
        } else {
            assert(s@.skip(a as int).len() == 0);
        }
        assert(trim_chars(s@) == trim_right(s@.subrange(a as int, n as int)));
    }
    while b > a && ws_char(s.get_char(b - 1))
        invariant
            a <= b <= n,
            n == s@.len(),
            a as int <= s@.len(),
            trim_chars(s@) == trim_right(s@.subrange(a as int, b as int)),
        decreases b,
    {
        proof {
            assert(s@.subrange(a as int, b as int).drop_last() =~= s@.subrange(a as int, b - 1));
        }
        b -= 1;
    }
    proof {
        let piece = s@.subrange(a as int, b as int);
        if b > a {
            assert(!is_ws(piece.last()));
        }
        assert(trim_right(piece) == piece);
    }
    s.substring_char(a, b).to_owned()
}

/// Character-for-character string equality.
pub fn str_eq(a: &str, b: &str) -> (r: bool)
    ensures
        r == (a@ == b@),
{
    let na = a.unicode_len();
    let nb = b.unicode_len();
    if na != nb {
        return false;
    }
    let mut i: usize = 0;
    while i < na
        invariant
            0 <= i <= na,
            na == a@.len(),
            nb == b@.len(),
            na == nb,
            forall|j: int| 0 <= j < i ==> a@[j] == b@[j],
        decreases na - i,
    {
        if a.get_char(i) != b.get_char(i) {
            return false;
        }
        i += 1;
    }
    proof {
        assert(a@ =~= b@);
    }
    true
}

/// Nothing but whitespace.
pub open spec fn is_blank(s: Seq<char>) -> bool {
    trim_chars(s).len() == 0
}

/// Tells whether `s` holds nothing but whitespace.
pub fn blank_str(s: &str) -> (r: bool)
    ensures
        r == is_blank(s@),
{
    let t = trim_str(s);
    t.as_str().is_empty()
}

/// Filtering an empty sequence leaves it empty.
pub proof fn lemma_filter_empty<A>(pred: spec_fn(A) -> bool)
    ensures
        Seq::<A>::empty().filter(pred) == Seq::<A>::empty(),
{
    reveal_with_fuel(Seq::filter, 1);
}

/// Filtering past one more element keeps the filtered prefix and
/// appends the element exactly when it passes.
pub proof fn lemma_filter_push<A>(s: Seq<A>, x: A, pred: spec_fn(A) -> bool)
    ensures
        s.push(x).filter(pred) == if pred(x) {
            s.filter(pred).push(x)
        } else {
            s.filter(pred)
        },
{
    assert(s.push(x).drop_last() =~= s);
    assert(s.push(x).last() == x);
    reveal_with_fuel(Seq::filter, 2);
}

} // verus!
