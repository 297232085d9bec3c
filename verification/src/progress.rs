//! Progress extraction from the download tool's output. Lines carrying one
//! of the two known progress-template prefixes yield a percentage, marked
//! as download or post-process work; every other line is kept only as the
//! latest diagnostic. Percentages are held in thousandths of a percent, so
//! the observer can render fractional progress without the core touching
//! floating point.

use vstd::prelude::*;
use crate::strutil::{
    all_digits, contains_seq, dec_val, find_char, has_char, is_space_char, parse_u64_dec,
    str_contains,
};

verus! {

/// Start of the maximal non-space run that ends at or after `p`.
pub open spec fn run_start(l: Seq<char>, p: int) -> int
    decreases p,
{
    if p <= 0 {
        0
    } else if is_space_char(l[p - 1]) {
        p
    } else {
        run_start(l, p - 1)
    }
}

/// End of the maximal non-space run that begins at or before `p`.
pub open spec fn run_end(l: Seq<char>, p: int) -> int
    decreases l.len() - p,
{
    if p >= l.len() {
        l.len() as int
    } else if is_space_char(l[p]) {
        p
    } else {
        run_end(l, p + 1)
    }
}

/// The token with its trailing percent signs removed.
pub open spec fn strip_percents(t: Seq<char>) -> Seq<char>
    decreases t.len(),
{
    if t.len() > 0 && t.last() == '%' {
        strip_percents(t.drop_last())
    } else {
        t
    }
}

/// Thousandths represented by up to the first three fractional digits.
pub open spec fn frac_milli(f: Seq<char>) -> int {
    if f.len() == 0 {
        0
    } else if f.len() == 1 {
        dec_val(f) * 100
    } else if f.len() == 2 {
        dec_val(f) * 10
    } else {
        dec_val(f.subrange(0, 3))
    }
}

/// A plain decimal number, read as thousandths: an integer part of one to
/// six digits, optionally followed by `.` and fractional digits, of which
/// the first three count.
pub open spec fn parse_milli(t: Seq<char>) -> Option<u64> {
    if has_char(t, '.') {
        let k = first_dot(t);
        let ip = t.subrange(0, k);
        let fp = t.subrange(k + 1, t.len() as int);
        if 1 <= ip.len() <= 6 && all_digits(ip) && all_digits(fp) && !has_char(fp, '.') {
            Some((dec_val(ip) * 1000 + frac_milli(fp)) as u64)
        } else {
            None
        }
    } else {
        if 1 <= t.len() <= 6 && all_digits(t) {
            Some((dec_val(t) * 1000) as u64)
        } else {
            None
        }
    }
}

/// Index of the first `.` in `t`.
pub open spec fn first_dot(t: Seq<char>) -> int {
    choose|k: int| 0 <= k < t.len() && t[k] == '.' && (forall|j: int| 0 <= j < k ==> t[j] != '.')
}

/// Which of the two recognized progress templates a line carries: the
/// download template wins when both occur.
#[derive(Debug, Clone, Copy, PartialEq, Eq, Structural)]
pub enum ProgressKind {
    Download,
    Postprocess,
}

/// The template of one output line, if any.
pub open spec fn spec_progress_kind(l: Seq<char>) -> Option<ProgressKind> {
    if contains_seq(l, "[download]"@) {
        Some(ProgressKind::Download)
    } else if contains_seq(l, "[postprocess]"@) {
        Some(ProgressKind::Postprocess)
    } else {
        None
    }
}

/// The progress reading of one output line: defined exactly for lines that
/// carry a recognized progress template and a percentage token, as
/// thousandths of a percent with the template's kind. The token examined
/// is the one holding the line's first percent sign.
pub open spec fn spec_progress_of_line(l: Seq<char>) -> Option<(u64, ProgressKind)> {
    match spec_progress_kind(l) {
        Some(kind) => {
            if !has_char(l, '%') {
                None
            } else {
                let p = first_pct(l);
                let token = l.subrange(run_start(l, p), run_end(l, p));
                match parse_milli(strip_percents(token)) {
                    Some(pm) => Some((pm, kind)),
                    None => None,
                }
            }
        },
        None => None,
    }
}

/// Index of the first `%` in `l`.
pub open spec fn first_pct(l: Seq<char>) -> int {
    choose|k: int| 0 <= k < l.len() && l[k] == '%' && (forall|j: int| 0 <= j < k ==> l[j] != '%')
}

/// Reads the fractional digits as thousandths.
fn frac_milli_exec(f: &str) -> (r: u64)
    requires
        all_digits(f@),
        f@.len() <= 19,
    ensures
        r as int == frac_milli(f@),
{
    let len = f.unicode_len();
    if len == 0 {
        0
    } else if len == 1 {
        let v = parse_u64_dec(f).unwrap();
        proof {
            crate::strutil::lemma_dec_val_bound(f@);
            assert(crate::strutil::pow10(1) == 10) by {
                reveal_with_fuel(crate::strutil::pow10, 2);
            }
        }
        v * 100
    } else if len == 2 {
        let v = parse_u64_dec(f).unwrap();
        proof {
            crate::strutil::lemma_dec_val_bound(f@);
            assert(crate::strutil::pow10(2) == 100) by {
                reveal_with_fuel(crate::strutil::pow10, 3);
            }
        }
        v * 10
    } else {
        let head = f.substring_char(0, 3);
        proof {
            assert(head@ =~= f@.subrange(0, 3));
            assert(all_digits(head@)) by {
                assert(forall|i: int| 0 <= i < 3 ==> head@[i] == f@[i]);
            }
            crate::strutil::lemma_dec_val_bound(head@);
        }
        parse_u64_dec(head).unwrap()
    }
}

/// Parses a stripped percentage token into thousandths of a percent.
#[verifier::loop_isolation(false)]
fn parse_milli_exec(t: &str) -> (r: Option<u64>)
    ensures
        r == parse_milli(t@),
{
    let len = t.unicode_len();
    match find_char(t, '.') {
        Some(k) => {
            proof {
                assert(first_dot(t@) == k as int) by {
                    assert(0 <= k < t@.len() && t@[k as int] == '.' && (forall|j: int|
                        0 <= j < k ==> t@[j] != '.'));
                    let k2 = first_dot(t@);
                    assert(0 <= k2 < t@.len() && t@[k2] == '.' && (forall|j: int|
                        0 <= j < k2 ==> t@[j] != '.'));
                    if k2 < k {
                        assert(t@[k2] != '.');
                    }
                    if k2 > k {
                        assert(t@[k as int] != '.');
                    }
                }
            }
            let ip = t.substring_char(0, k);
            let fp = t.substring_char(k + 1, len);
            proof {
                assert(ip@ =~= t@.subrange(0, k as int));
                assert(fp@ =~= t@.subrange(k + 1, t@.len() as int));
            }
            let iplen = ip.unicode_len();
            if iplen < 1 || iplen > 6 {
                return None;
            }
            match parse_u64_dec(ip) {
                Some(iv) => {
                    // the fractional part must be all digits (no second dot
                    // either, since a dot is not a digit)
                    let fplen = fp.unicode_len();
                    let mut j: usize = 0;
                    while j < fplen
                        invariant
                            j <= fplen,
                            forall|x: int| 0 <= x < j ==> crate::strutil::is_digit(#[trigger] fp@[x]),
                        decreases fplen - j,
                    {
                        let c = fp.get_char(j);
                        let u = c as u32;
                        if u < 48 || u > 57 {
                            assert(!crate::strutil::is_digit(fp@[j as int]));
                            return None;
                        }
                        j = j + 1;
                    }
                    assert(all_digits(fp@));
                    assert(!has_char(fp@, '.')) by {
                        assert(forall|x: int|
                            0 <= x < fp@.len() ==> crate::strutil::is_digit(#[trigger] fp@[x])
                                && fp@[x] != '.');
                    }
                    let fm: u64 = if fplen <= 19 {
                        frac_milli_exec(fp)
                    } else {
                        let head = fp.substring_char(0, 3);
                        proof {
                            assert(head@ =~= fp@.subrange(0, 3));
                            assert(all_digits(head@)) by {
                                assert(forall|i: int| 0 <= i < 3 ==> head@[i] == fp@[i]);
                            }
                            crate::strutil::lemma_dec_val_bound(head@);
                        }
                        parse_u64_dec(head).unwrap()
                    };
                    proof {
                        crate::strutil::lemma_dec_val_bound(ip@);
                        assert(crate::strutil::pow10(6) == 1000000) by {
                            reveal_with_fuel(crate::strutil::pow10, 7);
                        }
                        assert(crate::strutil::pow10(ip@.len()) <= crate::strutil::pow10(6)) by {
                            crate::strutil::lemma_pow10_mono(ip@.len(), 6);
                        }
                        assert(fm < 1000) by {
                            if fp@.len() == 0 {
                            } else if fp@.len() == 1 {
                                crate::strutil::lemma_dec_val_bound(fp@);
                                assert(crate::strutil::pow10(1) == 10) by {
                                    reveal_with_fuel(crate::strutil::pow10, 2);
                                }
                            } else if fp@.len() == 2 {
                                crate::strutil::lemma_dec_val_bound(fp@);
                                assert(crate::strutil::pow10(2) == 100) by {
                                    reveal_with_fuel(crate::strutil::pow10, 3);
                                }
                            } else {
                                crate::strutil::lemma_dec_val_bound(fp@.subrange(0, 3));
                                assert(crate::strutil::pow10(3) == 1000) by {
                                    reveal_with_fuel(crate::strutil::pow10, 4);
                                }
                            }
                        }
                    }
                    Some(iv * 1000 + fm)
                },
                None => None,
            }
        },
        None => {
            if len < 1 || len > 6 {
                return None;
            }
            match parse_u64_dec(t) {
                Some(v) => {
                    proof {
                        crate::strutil::lemma_dec_val_bound(t@);
                        assert(crate::strutil::pow10(6) == 1000000) by {
                            reveal_with_fuel(crate::strutil::pow10, 7);
                        }
                        assert(crate::strutil::pow10(t@.len()) <= crate::strutil::pow10(6)) by {
                            crate::strutil::lemma_pow10_mono(t@.len(), 6);
                        }
                    }
                    Some(v * 1000)
                },
                None => None,
            }
        },
    }
}

/// Extracts the progress percentage, in thousandths of a percent, and its
/// phase kind from one line of the download tool's output; nothing for
/// lines that carry no progress template or no readable percentage.
#[verifier::loop_isolation(false)]
pub fn parse_progress_line(line: &str) -> (r: Option<(u64, ProgressKind)>)
    ensures
        r == spec_progress_of_line(line@),
{
    let kind = if str_contains(line, "[download]") {
        ProgressKind::Download
    } else if str_contains(line, "[postprocess]") {
        ProgressKind::Postprocess
    } else {
        return None;
    };
    let p = match find_char(line, '%') {
        Some(p) => p,
        None => {
            return None;
        },
    };
    proof {
        assert(first_pct(line@) == p as int) by {
            assert(0 <= p < line@.len() && line@[p as int] == '%' && (forall|j: int|
                0 <= j < p ==> line@[j] != '%'));
            let k2 = first_pct(line@);
            assert(0 <= k2 < line@.len() && line@[k2] == '%' && (forall|j: int|
                0 <= j < k2 ==> line@[j] != '%'));
            if k2 < p {
                assert(line@[k2] != '%');
            }
            if k2 > p {
                assert(line@[p as int] != '%');
            }
        }
    }
    let len = line.unicode_len();
    let mut a: usize = p;
    while a > 0 && !crate::strutil::is_space(line.get_char(a - 1))
        invariant
            a <= p,
            run_start(line@, p as int) == run_start(line@, a as int),
        decreases a,
    {
        a = a - 1;
    }
    proof {
        assert(run_start(line@, a as int) == a as int);
    }
    let mut b: usize = p;
    while b < len && !crate::strutil::is_space(line.get_char(b))
        invariant
            p <= b <= len,
            run_end(line@, p as int) == run_end(line@, b as int),
        decreases len - b,
    {
        b = b + 1;
    }
    proof {
        assert(run_end(line@, b as int) == b as int);
    }
    let token = line.substring_char(a, b);
    proof {
        assert(token@ =~= line@.subrange(run_start(line@, p as int), run_end(line@, p as int)));
    }
    let mut e: usize = token.unicode_len();
    let ghost tv = token@;
    proof {
        assert(tv.subrange(0, e as int) =~= tv);
    }
    while e > 0 && token.get_char(e - 1) == '%'
        invariant
            e <= tv.len(),
            tv == token@,
            strip_percents(tv) == strip_percents(tv.subrange(0, e as int)),
        decreases e,
    {
        proof {
            let part = tv.subrange(0, e as int);
            assert(part.last() == tv[e - 1]);
            assert(part.drop_last() =~= tv.subrange(0, e - 1));
        }
        e = e - 1;
    }
    proof {
        let part = tv.subrange(0, e as int);
        if e > 0 {
            assert(part.last() == tv[e - 1]);
        }
        assert(strip_percents(part) == part);
    }
    let stripped = token.substring_char(0, e);
    proof {
        assert(stripped@ =~= tv.subrange(0, e as int));
    }
    match parse_milli_exec(stripped) {
        Some(pm) => Some((pm, kind)),
        None => None,
    }
}

} // verus!
