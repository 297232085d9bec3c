//! String utilities shared by the classifier, the command builders and the
//! indexers: ASCII case folding, substring search, decimal rendering and
//! parsing, and whitespace trimming. Everything here is executable code with
//! exact contracts over `Seq<char>` views.

use vstd::prelude::*;

verus! {

/// ASCII-lowered image of one character; other characters are unchanged.
pub open spec fn lower_char(c: char) -> char {
    if 65 <= c as int && c as int <= 90 {
        (c as int + 32) as char
    } else {
        c
    }
}

/// ASCII-lowered image of a character sequence.
pub open spec fn lower(s: Seq<char>) -> Seq<char> {
    s.map_values(|c: char| lower_char(c))
}

/// Executable ASCII case folding for one character.
pub fn char_to_lower(c: char) -> (r: char)
    ensures
        r == lower_char(c),
{
    let u = c as u32;
    if 65 <= u && u <= 90 {
        ((c as u8) + 32) as char
    } else {
        c
    }
}

/// `n` occurs in `h` at position `i`.
pub open spec fn match_at(h: Seq<char>, n: Seq<char>, i: int) -> bool {
    0 <= i && i + n.len() <= h.len() && h.subrange(i, i + n.len() as int) == n
}

/// `n` occurs somewhere in `h`.
pub open spec fn contains_seq(h: Seq<char>, n: Seq<char>) -> bool {
    exists|i: int| match_at(h, n, i)
}

/// `n` occurs at `i` and nowhere earlier.
pub open spec fn found_at(h: Seq<char>, n: Seq<char>, i: int) -> bool {
    match_at(h, n, i) && forall|j: int| 0 <= j < i ==> !match_at(h, n, j)
}

/// Checks one candidate position, optionally folding `h` to lower case.
fn match_at_impl(h: &str, n: &str, i: usize, hlen: usize, nlen: usize, ci: bool) -> (b: bool)
    requires
        hlen == h@.len(),
        nlen == n@.len(),
        i + nlen <= hlen,
    ensures
        ci ==> b == match_at(lower(h@), n@, i as int),
        !ci ==> b == match_at(h@, n@, i as int),
{
    let ghost hv: Seq<char> = if ci { lower(h@) } else { h@ };
    let mut k: usize = 0;
    while k < nlen
        invariant
            hlen == h@.len(),
            nlen == n@.len(),
            i + nlen <= hlen,
            k <= nlen,
            hv == if ci { lower(h@) } else { h@ },
            hv.len() == hlen,
            forall|k2: int| 0 <= k2 < k ==> hv[i + k2] == n@[k2],
        decreases nlen - k,
    {
        let hc = h.get_char(i + k);
        let hc2 = if ci {
            char_to_lower(hc)
        } else {
            hc
        };
        let nc = n.get_char(k);
        if hc2 != nc {
            assert(hv[i + k] != n@[k as int]);
            assert(!match_at(hv, n@, i as int)) by {
                if match_at(hv, n@, i as int) {
                    assert(hv.subrange(i as int, i + n@.len() as int)[k as int] == n@[k as int]);
                }
            }
            return false;
        }
        k = k + 1;
    }
    assert(hv.subrange(i as int, i + n@.len() as int) =~= n@);
    true
}

/// Substring search, optionally folding `h` to lower case first.
fn contains_impl(h: &str, n: &str, ci: bool) -> (b: bool)
    ensures
        ci ==> b == contains_seq(lower(h@), n@),
        !ci ==> b == contains_seq(h@, n@),
{
    let ghost hv: Seq<char> = if ci { lower(h@) } else { h@ };
    let hlen = h.unicode_len();
    let nlen = n.unicode_len();
    if nlen > hlen {
        assert(forall|i: int| !match_at(hv, n@, i));
        return false;
    }
    if nlen == 0 {
        assert(hv.subrange(0, 0) =~= n@);
        assert(match_at(hv, n@, 0));
        return true;
    }
    let mut i: usize = 0;
    while i <= hlen - nlen
        invariant
            hlen == h@.len(),
            nlen == n@.len(),
            1 <= nlen <= hlen,
            i <= hlen - nlen + 1,
            hv == if ci { lower(h@) } else { h@ },
            hv.len() == hlen,
            forall|j: int| 0 <= j < i ==> !match_at(hv, n@, j),
        decreases hlen - nlen - i + 1,
    {
        if match_at_impl(h, n, i, hlen, nlen, ci) {
            return true;
        }
        i = i + 1;
    }
    assert(forall|j: int| j >= i ==> !match_at(hv, n@, j));
    false
}

/// Exact substring test.
pub fn str_contains(h: &str, n: &str) -> (b: bool)
    ensures
        b == contains_seq(h@, n@),
{
    contains_impl(h, n, false)
}

/// Case-insensitive substring test: `n` (given already lowered) against the
/// ASCII-lowered image of `h`.
pub fn str_contains_ci(h: &str, n: &str) -> (b: bool)
    ensures
        b == contains_seq(lower(h@), n@),
{
    contains_impl(h, n, true)
}

/// Position of the first occurrence of `n` in `h`, if any.
pub fn str_find(h: &str, n: &str) -> (r: Option<usize>)
    ensures
        r is Some ==> found_at(h@, n@, r->0 as int),
        r is None ==> !contains_seq(h@, n@),
{
    let hlen = h.unicode_len();
    let nlen = n.unicode_len();
    if nlen > hlen {
        assert(forall|i: int| !match_at(h@, n@, i));
        return None;
    }
    if nlen == 0 {
        assert(h@.subrange(0, 0) =~= n@);
        assert(match_at(h@, n@, 0));
        return Some(0);
    }
    let mut i: usize = 0;
    while i <= hlen - nlen
        invariant
            hlen == h@.len(),
            nlen == n@.len(),
            1 <= nlen <= hlen,
            i <= hlen - nlen + 1,
            forall|j: int| 0 <= j < i ==> !match_at(h@, n@, j),
        decreases hlen - nlen - i + 1,
    {
        if match_at_impl(h, n, i, hlen, nlen, false) {
            return Some(i);
        }
        i = i + 1;
    }
    assert(forall|j: int| j >= i ==> !match_at(h@, n@, j));
    None
}

/// `n` is a prefix of `h`.
pub open spec fn is_prefix_of(n: Seq<char>, h: Seq<char>) -> bool {
    n.len() <= h.len() && h.subrange(0, n.len() as int) == n
}

/// `n` is a suffix of `h`.
pub open spec fn is_suffix_of(n: Seq<char>, h: Seq<char>) -> bool {
    n.len() <= h.len() && h.subrange(h.len() - n.len(), h.len() as int) == n
}

/// The character `c` occurs in `s`.
pub open spec fn has_char(s: Seq<char>, c: char) -> bool {
    exists|i: int| 0 <= i < s.len() && s[i] == c
}

/// Scans for one character.
pub fn contains_char(s: &str, c: char) -> (b: bool)
    ensures
        b == has_char(s@, c),
{
    let len = s.unicode_len();
    let mut i: usize = 0;
    while i < len
        invariant
            len == s@.len(),
            i <= len,
            forall|j: int| 0 <= j < i ==> s@[j] != c,
        decreases len - i,
    {
        if s.get_char(i) == c {
            return true;
        }
        i = i + 1;
    }
    false
}

/// Prefix test against the ASCII-lowered image of `h`.
pub fn str_starts_with_ci(h: &str, n: &str) -> (b: bool)
    ensures
        b == is_prefix_of(n@, lower(h@)),
{
    let hlen = h.unicode_len();
    let nlen = n.unicode_len();
    if nlen > hlen {
        return false;
    }
    match_at_impl(h, n, 0, hlen, nlen, true)
}

/// Suffix test.
pub fn str_ends_with(h: &str, n: &str) -> (b: bool)
    ensures
        b == is_suffix_of(n@, h@),
{
    let hlen = h.unicode_len();
    let nlen = n.unicode_len();
    if nlen > hlen {
        return false;
    }
    match_at_impl(h, n, hlen - nlen, hlen, nlen, false)
}

/// Character-wise string equality.
pub fn str_eq(a: &str, b: &str) -> (r: bool)
    ensures
        r == (a@ == b@),
{
    let alen = a.unicode_len();
    let blen = b.unicode_len();
    if alen != blen {
        return false;
    }
    let mut i: usize = 0;
    while i < alen
        invariant
            alen == a@.len(),
            blen == b@.len(),
            alen == blen,
            i <= alen,
            forall|j: int| 0 <= j < i ==> a@[j] == b@[j],
        decreases alen - i,
    {
        if a.get_char(i) != b.get_char(i) {
            assert(a@ != b@);
            return false;
        }
        i = i + 1;
    }
    assert(a@ =~= b@);
    true
}

/// Equality of the ASCII-lowered image of `a` against `b`.
pub fn str_eq_ci(a: &str, b: &str) -> (r: bool)
    ensures
        r == (lower(a@) == b@),
{
    let alen = a.unicode_len();
    let blen = b.unicode_len();
    if alen != blen {
        assert(lower(a@).len() != b@.len());
        return false;
    }
    let mut i: usize = 0;
    while i < alen
        invariant
            alen == a@.len(),
            blen == b@.len(),
            alen == blen,
            i <= alen,
            forall|j: int| 0 <= j < i ==> lower(a@)[j] == b@[j],
        decreases alen - i,
    {
        if char_to_lower(a.get_char(i)) != b.get_char(i) {
            assert(lower(a@)[i as int] != b@[i as int]);
            return false;
        }
        i = i + 1;
    }
    assert(lower(a@) =~= b@);
    true
}


/// Index of the first occurrence of `c`, where one exists.
pub open spec fn first_char_index(s: Seq<char>, c: char) -> int {
    choose|i: int|
        0 <= i < s.len() && s[i] == c && (forall|j: int| 0 <= j < i ==> s[j] != c)
}

/// Pins `first_char_index` down from a witness.
pub proof fn lemma_first_char_index(s: Seq<char>, c: char, i: int)
    requires
        0 <= i < s.len(),
        s[i] == c,
        forall|j: int| 0 <= j < i ==> s[j] != c,
    ensures
        first_char_index(s, c) == i,
{
    let k = first_char_index(s, c);
    assert(0 <= k < s.len() && s[k] == c && (forall|j: int| 0 <= j < k ==> s[j] != c));
    if k < i {
        assert(s[k] != c);
    }
    if k > i {
        assert(s[i] != c);
    }
}

/// Index of the first occurrence of `n`, where one exists.
pub open spec fn first_sub_index(s: Seq<char>, n: Seq<char>) -> int {
    choose|i: int| found_at(s, n, i)
}

/// Pins `first_sub_index` down from a witness.
pub proof fn lemma_first_sub_index(s: Seq<char>, n: Seq<char>, i: int)
    requires
        found_at(s, n, i),
    ensures
        first_sub_index(s, n) == i,
{
    let k = first_sub_index(s, n);
    assert(found_at(s, n, k));
    if k < i {
        assert(!match_at(s, n, k));
    }
    if k > i {
        assert(!match_at(s, n, i));
    }
}

/// The character for one decimal digit.
pub open spec fn digit_char(d: int) -> char {
    if d == 0 {
        '0'
    } else if d == 1 {
        '1'
    } else if d == 2 {
        '2'
    } else if d == 3 {
        '3'
    } else if d == 4 {
        '4'
    } else if d == 5 {
        '5'
    } else if d == 6 {
        '6'
    } else if d == 7 {
        '7'
    } else if d == 8 {
        '8'
    } else {
        '9'
    }
}

/// Decimal rendering of a non-negative integer, no sign, no leading zeros
/// (a single zero for 0).
pub open spec fn dec_rep(n: int) -> Seq<char>
    decreases n,
{
    if n < 10 {
        seq![digit_char(n)]
    } else {
        dec_rep(n / 10).push(digit_char(n % 10))
    }
}

/// One decimal digit as a string slice.
fn digit_str(d: u64) -> (r: &'static str)
    requires
        d < 10,
    ensures
        r@ =~= seq![digit_char(d as int)],
{
    if d == 0 {
        proof { reveal_strlit("0"); }
        "0"
    } else if d == 1 {
        proof { reveal_strlit("1"); }
        "1"
    } else if d == 2 {
        proof { reveal_strlit("2"); }
        "2"
    } else if d == 3 {
        proof { reveal_strlit("3"); }
        "3"
    } else if d == 4 {
        proof { reveal_strlit("4"); }
        "4"
    } else if d == 5 {
        proof { reveal_strlit("5"); }
        "5"
    } else if d == 6 {
        proof { reveal_strlit("6"); }
        "6"
    } else if d == 7 {
        proof { reveal_strlit("7"); }
        "7"
    } else if d == 8 {
        proof { reveal_strlit("8"); }
        "8"
    } else {
        proof { reveal_strlit("9"); }
        "9"
    }
}

/// Decimal rendering of a `u64`.
pub fn u64_to_dec(n: u64) -> (r: String)
    ensures
        r@ == dec_rep(n as int),
    decreases n,
{
    if n < 10 {
        digit_str(n).to_owned()
    } else {
        let mut r = u64_to_dec(n / 10);
        r.append(digit_str(n % 10));
        assert(r@ =~= dec_rep(n as int));
        r
    }
}

/// Decimal digit test.
pub open spec fn is_digit(c: char) -> bool {
    48 <= c as int && c as int <= 57
}

/// Value of one decimal digit character.
pub open spec fn digit_val(c: char) -> int {
    c as int - 48
}

/// All characters are decimal digits.
pub open spec fn all_digits(s: Seq<char>) -> bool {
    forall|i: int| 0 <= i < s.len() ==> is_digit(#[trigger] s[i])
}

/// Value of a digit string read in base ten.
pub open spec fn dec_val(s: Seq<char>) -> int
    decreases s.len(),
{
    if s.len() == 0 {
        0
    } else {
        dec_val(s.drop_last()) * 10 + digit_val(s.last())
    }
}

/// Ten to the `n`.
pub open spec fn pow10(n: nat) -> int
    decreases n,
{
    if n == 0 {
        1
    } else {
        10 * pow10((n - 1) as nat)
    }
}

/// A digit string's value is below ten to its length.
pub proof fn lemma_dec_val_bound(s: Seq<char>)
    requires
        all_digits(s),
    ensures
        0 <= dec_val(s) < pow10(s.len()),
    decreases s.len(),
{
    if s.len() > 0 {
        assert(all_digits(s.drop_last())) by {
            assert(forall|i: int| 0 <= i < s.len() - 1 ==> s.drop_last()[i] == s[i]);
        }
        lemma_dec_val_bound(s.drop_last());
    }
}

/// Parses an unsigned decimal number of at most 19 digits. Returns the value
/// exactly when the string is one to nineteen decimal digits and nothing else;
/// longer strings are treated as malformed.
pub fn parse_u64_dec(s: &str) -> (r: Option<u64>)
    ensures
        r is Some <==> (1 <= s@.len() <= 19 && all_digits(s@)),
        r is Some ==> r->0 as int == dec_val(s@),
{
    let len = s.unicode_len();
    if len == 0 || len > 19 {
        return None;
    }
    let mut acc: u64 = 0;
    let mut i: usize = 0;
    while i < len
        invariant
            len == s@.len(),
            1 <= len <= 19,
            i <= len,
            all_digits(s@.subrange(0, i as int)),
            acc as int == dec_val(s@.subrange(0, i as int)),
            acc < pow10(i as nat),
        decreases len - i,
    {
        let c = s.get_char(i);
        let u = c as u32;
        if u < 48 || u > 57 {
            assert(!is_digit(s@[i as int]));
            return None;
        }
        let d: u64 = (u - 48) as u64;
        proof {
            lemma_dec_val_bound(s@.subrange(0, i as int));
            assert(pow10(i as nat) <= pow10(18)) by {
                lemma_pow10_mono(i as nat, 18);
            }
            assert(pow10(18) == 1000000000000000000) by {
                reveal_with_fuel(pow10, 19);
            }
        }
        acc = acc * 10 + d;
        proof {
            let pre = s@.subrange(0, i as int);
            let cur = s@.subrange(0, i + 1);
            assert(cur.drop_last() =~= pre);
            assert(cur.last() == s@[i as int]);
        }
        i = i + 1;
    }
    assert(s@.subrange(0, i as int) =~= s@);
    Some(acc)
}

/// `pow10` is monotone.
pub proof fn lemma_pow10_mono(a: nat, b: nat)
    requires
        a <= b,
    ensures
        pow10(a) <= pow10(b),
        pow10(a) >= 1,
    decreases b,
{
    if a < b {
        lemma_pow10_mono(a, (b - 1) as nat);
    } else if b > 0 {
        lemma_pow10_mono((a - 1) as nat, (b - 1) as nat);
    }
}


/// Value of an optionally `-`-signed digit string.
pub open spec fn dec_val_signed(s: Seq<char>) -> int {
    if s.len() > 0 && s[0] == '-' {
        -dec_val(s.drop_first())
    } else {
        dec_val(s)
    }
}

/// Digits of an optionally signed decimal string.
pub open spec fn all_digits_signed(s: Seq<char>) -> bool {
    if s.len() > 0 && s[0] == '-' {
        s.len() >= 2 && all_digits(s.drop_first())
    } else {
        s.len() >= 1 && all_digits(s)
    }
}

/// Parses an optionally `-`-signed decimal number of at most 18 digits.
pub fn parse_i64_dec(s: &str) -> (r: Option<i64>)
    ensures
        r is Some <==> (all_digits_signed(s@) && (if s@.len() > 0 && s@[0] == '-' {
            s@.len() <= 19
        } else {
            s@.len() <= 18
        })),
        r is Some ==> r->0 as int == dec_val_signed(s@),
{
    let len = s.unicode_len();
    if len == 0 {
        return None;
    }
    if s.get_char(0) == '-' {
        if len > 19 {
            return None;
        }
        let rest = s.substring_char(1, len);
        assert(rest@ =~= s@.drop_first());
        match parse_u64_dec(rest) {
            Some(v) => {
                proof {
                    lemma_dec_val_bound(s@.drop_first());
                    assert(pow10(s@.drop_first().len()) <= pow10(18)) by {
                        lemma_pow10_mono(s@.drop_first().len(), 18);
                    }
                    assert(pow10(18) == 1000000000000000000) by {
                        reveal_with_fuel(pow10, 19);
                    }
                }
                Some(-(v as i64))
            },
            None => None,
        }
    } else {
        if len > 18 {
            return None;
        }
        match parse_u64_dec(s) {
            Some(v) => {
                proof {
                    lemma_dec_val_bound(s@);
                    assert(pow10(s@.len()) <= pow10(18)) by {
                        lemma_pow10_mono(s@.len(), 18);
                    }
                    assert(pow10(18) == 1000000000000000000) by {
                        reveal_with_fuel(pow10, 19);
                    }
                }
                Some(v as i64)
            },
            None => None,
        }
    }
}


/// Decimal rendering of a signed integer.
pub open spec fn dec_rep_signed(n: int) -> Seq<char> {
    if n < 0 {
        seq!['-'] + dec_rep(-n)
    } else {
        dec_rep(n)
    }
}

/// Decimal rendering of an `i64`.
pub fn i64_to_dec(n: i64) -> (r: String)
    ensures
        r@ == dec_rep_signed(n as int),
{
    if n >= 0 {
        u64_to_dec(n as u64)
    } else {
        let mag: u64 = ((-(n + 1)) as u64) + 1;
        assert(mag as int == -(n as int));
        let mut r = "-".to_owned();
        proof {
            reveal_strlit("-");
            assert(r@ =~= seq!['-']);
        }
        r.append(u64_to_dec(mag).as_str());
        r
    }
}


/// Index of the first occurrence of `c` in `s`, if any.
pub fn find_char(s: &str, c: char) -> (r: Option<usize>)
    ensures
        match r {
            Some(i) => i < s@.len() && s@[i as int] == c && (forall|j: int|
                0 <= j < i ==> s@[j] != c),
            None => !has_char(s@, c),
        },
{
    let len = s.unicode_len();
    let mut i: usize = 0;
    while i < len
        invariant
            len == s@.len(),
            i <= len,
            forall|j: int| 0 <= j < i ==> s@[j] != c,
        decreases len - i,
    {
        if s.get_char(i) == c {
            return Some(i);
        }
        i = i + 1;
    }
    None
}

/// Index of the last occurrence of `c` in `s`, if any.
pub fn rfind_char(s: &str, c: char) -> (r: Option<usize>)
    ensures
        match r {
            Some(i) => i < s@.len() && s@[i as int] == c && (forall|j: int|
                i < j < s@.len() ==> s@[j] != c),
            None => !has_char(s@, c),
        },
{
    let len = s.unicode_len();
    let mut i: usize = len;
    while i > 0
        invariant
            len == s@.len(),
            i <= len,
            forall|j: int| i <= j < len ==> s@[j] != c,
        decreases i,
    {
        i = i - 1;
        if s.get_char(i) == c {
            return Some(i);
        }
    }
    None
}



/// Number of leading whitespace characters.
pub open spec fn start_cut(s: Seq<char>) -> int
    decreases s.len(),
{
    if s.len() > 0 && is_space_char(s[0]) {
        1 + start_cut(s.drop_first())
    } else {
        0
    }
}

/// Length of the prefix that survives trailing-whitespace removal.
pub open spec fn end_keep(s: Seq<char>) -> int
    decreases s.len(),
{
    if s.len() > 0 && is_space_char(s.last()) {
        end_keep(s.drop_last())
    } else {
        s.len() as int
    }
}

/// `trim_start_spec` keeps exactly the suffix after the leading
/// whitespace.
pub proof fn lemma_trim_start_shape(s: Seq<char>)
    ensures
        0 <= start_cut(s) <= s.len(),
        trim_start_spec(s) =~= s.subrange(start_cut(s), s.len() as int),
        forall|j: int| 0 <= j < start_cut(s) ==> is_space_char(s[j]),
    decreases s.len(),
{
    if s.len() > 0 && is_space_char(s[0]) {
        lemma_trim_start_shape(s.drop_first());
        assert(s.drop_first().subrange(start_cut(s.drop_first()), s.drop_first().len() as int)
            =~= s.subrange(1 + start_cut(s.drop_first()), s.len() as int));
        assert(forall|j: int|
            1 <= j < start_cut(s) ==> is_space_char(#[trigger] s[j]) == is_space_char(
                s.drop_first()[j - 1],
            ));
    }
}

/// `trim_end_spec` keeps exactly the prefix before the trailing
/// whitespace.
pub proof fn lemma_trim_end_shape(s: Seq<char>)
    ensures
        0 <= end_keep(s) <= s.len(),
        trim_end_spec(s) =~= s.subrange(0, end_keep(s)),
        forall|j: int| end_keep(s) <= j < s.len() ==> is_space_char(s[j]),
    decreases s.len(),
{
    if s.len() > 0 && is_space_char(s.last()) {
        lemma_trim_end_shape(s.drop_last());
        assert(s.drop_last().subrange(0, end_keep(s.drop_last())) =~= s.subrange(
            0,
            end_keep(s),
        ));
        assert(forall|j: int|
            end_keep(s) <= j < s.len() - 1 ==> is_space_char(#[trigger] s[j]) == is_space_char(
                s.drop_last()[j],
            ));
    }
}

/// Case folding neither makes nor unmakes whitespace.
pub proof fn lemma_lower_char_keeps_space(c: char)
    ensures
        is_space_char(lower_char(c)) == is_space_char(c),
{
}

/// An occurrence of a whitespace-free needle in the case-folded input
/// survives trimming: the needle still occurs in the case-folded trimmed
/// input.
pub proof fn lemma_contains_survives_trim(raw: Seq<char>, needle: Seq<char>)
    requires
        contains_seq(lower(raw), needle),
        needle.len() > 0,
        forall|q: int| 0 <= q < needle.len() ==> !is_space_char(needle[q]),
    ensures
        contains_seq(lower(trim_spec(raw)), needle),
{
    let n = raw.len() as int;
    let i = choose|i: int| match_at(lower(raw), needle, i);
    assert(0 <= i && i + needle.len() <= n);
    assert(forall|q: int|
        0 <= q < needle.len() ==> lower(raw).subrange(i, i + needle.len() as int)[q] == needle[q]);
    assert(forall|q: int| 0 <= q < needle.len() ==> lower(raw)[i + q] == needle[q]);
    assert(forall|q: int| 0 <= q < needle.len() ==> !is_space_char(#[trigger] raw[i + q])) by {
        assert forall|q: int| 0 <= q < needle.len() implies !is_space_char(#[trigger] raw[i + q]) by {
            assert(lower(raw)[i + q] == needle[q]);
            assert(!is_space_char(needle[q]));
            assert(lower(raw)[i + q] == lower_char(raw[i + q]));
            lemma_lower_char_keeps_space(raw[i + q]);
        }
    }
    lemma_trim_start_shape(raw);
    let a = start_cut(raw);
    let t1 = trim_start_spec(raw);
    lemma_trim_end_shape(t1);
    let e = end_keep(t1);
    let t = trim_spec(raw);
    assert(t =~= raw.subrange(a, a + e)) by {
        assert(t1 =~= raw.subrange(a, n));
        assert(t =~= t1.subrange(0, e));
    }
    // the occurrence starts at or after the kept region's start
    assert(a <= i) by {
        if i < a {
            assert(is_space_char(raw[i + 0]));
        }
    }
    // and ends at or before the kept region's end
    assert(i + needle.len() <= a + e) by {
        if i + needle.len() > a + e {
            let last = i + needle.len() - 1;
            assert(last >= a + e);
            assert(last < n);
            assert(is_space_char(t1[last - a])) by {
                assert(e <= last - a < t1.len());
            }
            assert(t1[last - a] == raw[last]);
            assert(!is_space_char(raw[i + (needle.len() - 1)]));
        }
    }
    assert(match_at(lower(t), needle, i - a)) by {
        assert(lower(t).len() == t.len());
        assert(forall|q: int|
            0 <= q < needle.len() ==> lower(t)[i - a + q] == lower_char(#[trigger] t[i - a + q]));
        assert(forall|q: int| 0 <= q < needle.len() ==> #[trigger] t[i - a + q] == raw[i + q]);
        assert(forall|q: int|
            0 <= q < needle.len() ==> lower(raw)[i + q] == lower_char(#[trigger] raw[i + q]));
        assert(lower(t).subrange(i - a, i - a + needle.len() as int) =~= needle);
    }
}

/// Underscores and hyphens turned to spaces.
pub open spec fn spaced(s: Seq<char>) -> Seq<char> {
    s.map_values(|c: char| if c == '_' || c == '-' { ' ' } else { c })
}

/// Replaces underscores and hyphens with spaces.
#[verifier::loop_isolation(false)]
pub fn replace_seps_with_spaces(s: &str) -> (r: String)
    ensures
        r@ == spaced(s@),
{
    let len = s.unicode_len();
    let mut r = String::new();
    let mut i: usize = 0;
    proof {
        assert(r@ =~= spaced(s@.subrange(0, 0)));
    }
    while i < len
        invariant
            i <= len,
            r@ == spaced(s@.subrange(0, i as int)),
        decreases len - i,
    {
        let c = s.get_char(i);
        if c == '_' || c == '-' {
            r.append(" ");
            proof {
                reveal_strlit(" ");
            }
        } else {
            let piece = s.substring_char(i, i + 1);
            r.append(piece);
        }
        proof {
            assert(r@ =~= spaced(s@.subrange(0, i + 1)));
        }
        i = i + 1;
    }
    proof {
        assert(s@.subrange(0, len as int) =~= s@);
    }
    r
}

/// Every occurrence of `pat` removed, scanning left to right and never
/// re-examining removed text.
pub open spec fn remove_all_spec(s: Seq<char>, pat: Seq<char>) -> Seq<char>
    decreases s.len(),
{
    if pat.len() == 0 || s.len() < pat.len() {
        s
    } else if s.subrange(0, pat.len() as int) == pat {
        remove_all_spec(s.subrange(pat.len() as int, s.len() as int), pat)
    } else {
        seq![s[0]] + remove_all_spec(s.drop_first(), pat)
    }
}

/// Removes every occurrence of a non-empty pattern, scanning left to
/// right.
#[verifier::loop_isolation(false)]
pub fn remove_all(s: &str, pat: &str) -> (r: String)
    requires
        pat@.len() >= 1,
    ensures
        r@ == remove_all_spec(s@, pat@),
{
    let len = s.unicode_len();
    let plen = pat.unicode_len();
    let mut out = String::new();
    let mut i: usize = 0;
    proof {
        assert(s@.subrange(0, len as int) =~= s@);
        assert(out@ + remove_all_spec(s@, pat@) =~= remove_all_spec(s@, pat@));
    }
    if plen <= len {
        while i <= len - plen
            invariant
                i <= len,
                remove_all_spec(s@, pat@) == out@ + remove_all_spec(
                    s@.subrange(i as int, len as int),
                    pat@,
                ),
            decreases len - i,
        {
            let ghost rest = s@.subrange(i as int, len as int);
            if match_at_impl(s, pat, i, len, plen, false) {
                proof {
                    assert(rest.subrange(0, plen as int) =~= s@.subrange(i as int, i + plen));
                    assert(rest.subrange(plen as int, rest.len() as int) =~= s@.subrange(
                        i + plen,
                        len as int,
                    ));
                }
                i = i + plen;
            } else {
                proof {
                    assert(rest.subrange(0, plen as int) =~= s@.subrange(i as int, i + plen));
                    assert(rest.subrange(0, plen as int) != pat@);
                    assert(rest.drop_first() =~= s@.subrange(i + 1, len as int));
                    assert(rest[0] == s@[i as int]);
                }
                let piece = s.substring_char(i, i + 1);
                let ghost before = out@;
                out.append(piece);
                proof {
                    assert(out@ + remove_all_spec(s@.subrange(i + 1, len as int), pat@) =~= before
                        + remove_all_spec(rest, pat@));
                }
                i = i + 1;
            }
        }
    }
    let tail = s.substring_char(i, len);
    proof {
        let rest = s@.subrange(i as int, len as int);
        assert(rest.len() < plen || plen == 0);
        assert(remove_all_spec(rest, pat@) == rest);
    }
    out.append(tail);
    out
}

/// ASCII whitespace, as trimmed from user input.
pub open spec fn is_space_char(c: char) -> bool {
    c == ' ' || c == '\t' || c == '\n' || c == '\r'
}

/// Leading whitespace removed.
pub open spec fn trim_start_spec(s: Seq<char>) -> Seq<char>
    decreases s.len(),
{
    if s.len() > 0 && is_space_char(s[0]) {
        trim_start_spec(s.drop_first())
    } else {
        s
    }
}

/// Trailing whitespace removed.
pub open spec fn trim_end_spec(s: Seq<char>) -> Seq<char>
    decreases s.len(),
{
    if s.len() > 0 && is_space_char(s.last()) {
        trim_end_spec(s.drop_last())
    } else {
        s
    }
}

/// Leading and trailing whitespace removed.
pub open spec fn trim_spec(s: Seq<char>) -> Seq<char> {
    trim_end_spec(trim_start_spec(s))
}

/// Executable trim over ASCII whitespace.
pub fn trim(s: &str) -> (r: &str)
    ensures
        r@ == trim_spec(s@),
{
    let len = s.unicode_len();
    proof {
        assert(s@.subrange(0, len as int) =~= s@);
    }
    let mut a: usize = 0;
    while a < len && is_space(s.get_char(a))
        invariant
            len == s@.len(),
            a <= len,
            trim_start_spec(s@) == trim_start_spec(s@.subrange(a as int, len as int)),
        decreases len - a,
    {
        proof {
            let tail = s@.subrange(a as int, len as int);
            assert(tail.drop_first() =~= s@.subrange(a + 1, len as int));
        }
        a = a + 1;
    }
    proof {
        let tail = s@.subrange(a as int, len as int);
        if a < len {
            assert(!is_space_char(tail[0]));
        }
        assert(trim_start_spec(tail) == tail);
    }
    let mut b: usize = len;
    while b > a && is_space(s.get_char(b - 1))
        invariant
            len == s@.len(),
            a <= b <= len,
            trim_start_spec(s@) == s@.subrange(a as int, len as int),
            a < len ==> !is_space_char(s@[a as int]),
            trim_end_spec(s@.subrange(a as int, len as int)) == trim_end_spec(
                s@.subrange(a as int, b as int),
            ),
        decreases b,
    {
        proof {
            let part = s@.subrange(a as int, b as int);
            assert(part.last() == s@[b - 1]);
            assert(part.drop_last() =~= s@.subrange(a as int, b - 1));
        }
        b = b - 1;
    }
    proof {
        let part = s@.subrange(a as int, b as int);
        if b > a {
            assert(part.last() == s@[b - 1]);
            assert(!is_space_char(part.last()));
        }
        assert(trim_end_spec(part) == part);
    }
    s.substring_char(a, b)
}

/// Executable ASCII whitespace test.
pub fn is_space(c: char) -> (b: bool)
    ensures
        b == is_space_char(c),
{
    c == ' ' || c == '\t' || c == '\n' || c == '\r'
}

/// A control character that must never enter a child-process argument vector.
pub open spec fn is_forbidden_control(c: char) -> bool {
    c == '\u{0}' || c == '\r' || c == '\n'
}

/// The sequence holds an embedded NUL, CR or LF.
pub open spec fn has_control(s: Seq<char>) -> bool {
    exists|i: int| 0 <= i < s.len() && is_forbidden_control(#[trigger] s[i])
}

/// Scans for embedded NUL, CR or LF.
pub fn contains_control(s: &str) -> (b: bool)
    ensures
        b == has_control(s@),
{
    let len = s.unicode_len();
    let mut i: usize = 0;
    while i < len
        invariant
            len == s@.len(),
            i <= len,
            forall|j: int| 0 <= j < i ==> !is_forbidden_control(#[trigger] s@[j]),
        decreases len - i,
    {
        let c = s.get_char(i);
        if c == '\u{0}' || c == '\r' || c == '\n' {
            return true;
        }
        i = i + 1;
    }
    false
}

} // verus!
