//! Script scanner: tokenizes a disassembled-script string (space-separated
//! opcode names and push operands) and recognizes the numeric pushes that
//! precede `OP_CHECKLOCKTIMEVERIFY` / `OP_CHECKSEQUENCEVERIFY`.

use vstd::prelude::*;

verus! {

/// An ASCII whitespace character, the token separator used by script
/// disassemblers.
pub open spec fn is_space(c: char) -> bool {
    c == ' ' || c == '\t' || c == '\n' || c == '\r' || c == '\x0c'
}

/// Length of the leading run of non-whitespace characters.
pub open spec fn run_len(s: Seq<char>) -> int
    decreases s.len(),
{
    if s.len() == 0 || is_space(s[0]) {
        0
    } else {
        1 + run_len(s.drop_first())
    }
}

/// The tokens of a disassembled script: maximal runs of non-whitespace
/// characters, in source order.
pub open spec fn tokens_of(s: Seq<char>) -> Seq<Seq<char>>
    decreases s.len(),
    via tokens_of_decreases
{
    if s.len() == 0 {
        Seq::empty()
    } else if is_space(s[0]) {
        tokens_of(s.drop_first())
    } else {
        seq![s.take(run_len(s))] + tokens_of(s.skip(run_len(s)))
    }
}

#[via_fn]
proof fn tokens_of_decreases(s: Seq<char>) {
    lemma_run_len_bounds(s);
}

proof fn lemma_run_len_bounds(s: Seq<char>)
    ensures
        0 <= run_len(s) <= s.len(),
        s.len() > 0 && !is_space(s[0]) ==> run_len(s) >= 1,
    decreases s.len(),
{
    if s.len() == 0 || is_space(s[0]) {
    } else {
        lemma_run_len_bounds(s.drop_first());
    }
}

/// The leading run of non-whitespace characters is exactly `m` long when the
/// first `m` characters are non-whitespace and the next one (if any) is
/// whitespace.
proof fn lemma_run_len_exact(s: Seq<char>, m: int)
    requires
        0 <= m <= s.len(),
        forall|k: int| 0 <= k < m ==> !is_space(s[k]),
        m == s.len() || is_space(s[m]),
    ensures
        run_len(s) == m,
    decreases m,
{
    if m == 0 {
    } else {
        assert(!is_space(s[0]));
        let t = s.drop_first();
        assert(forall|k: int| 0 <= k < m - 1 ==> t[k] == s[k + 1] && !is_space(t[k]));
        assert(m - 1 == t.len() || is_space(t[m - 1]));
        lemma_run_len_exact(t, m - 1);
    }
}

/// Skipping a leading whitespace character does not change the token list.
proof fn lemma_tokens_skip_space(s: Seq<char>, i: int)
    requires
        0 <= i < s.len(),
        is_space(s[i]),
    ensures
        tokens_of(s.skip(i)) == tokens_of(s.skip(i + 1)),
{
    let t = s.skip(i);
    assert(t[0] == s[i]);
    assert(t.drop_first() =~= s.skip(i + 1));
}

/// A maximal non-whitespace run starting at `i` and ending at `j` is the next
/// token, and the rest of the tokens follow from `j`.
proof fn lemma_tokens_take_run(s: Seq<char>, i: int, j: int)
    requires
        0 <= i < j <= s.len(),
        forall|k: int| i <= k < j ==> !is_space(s[k]),
        j == s.len() || is_space(s[j]),
    ensures
        tokens_of(s.skip(i)) == seq![s.subrange(i, j)] + tokens_of(s.skip(j)),
{
    let t = s.skip(i);
    assert(forall|k: int| 0 <= k < j - i ==> t[k] == s[i + k] && !is_space(t[k]));
    assert(j - i == t.len() || is_space(t[j - i]));
    lemma_run_len_exact(t, j - i);
    assert(!is_space(t[0]));
    assert(t.take(j - i) =~= s.subrange(i, j));
    assert(t.skip(j - i) =~= s.skip(j));
}

/// Splits a disassembled script on runs of ASCII whitespace.
///
/// Returns the tokens in source order; an empty or whitespace-only input
/// yields an empty vector.
pub fn tokenize(s: &str) -> (toks: Vec<String>)
    ensures
        toks.deep_view() == tokens_of(s@),
{
    let n = s.unicode_len();
    let mut toks: Vec<String> = Vec::new();
    let mut i: usize = 0;
    proof {
        assert(s@.skip(0) =~= s@);
    }
    while i < n
        invariant
            0 <= i <= n,
            n == s@.len(),
            tokens_of(s@) == toks.deep_view() + tokens_of(s@.skip(i as int)),
        decreases n - i,
    {
        let c = s.get_char(i);
        if c == ' ' || c == '\t' || c == '\n' || c == '\r' || c == '\x0c' {
            proof {
                lemma_tokens_skip_space(s@, i as int);
            }
            i += 1;
        } else {
            let start = i;
            let mut j = i + 1;
            loop
                invariant_except_break
                    start < j <= n,
                    n == s@.len(),
                    forall|k: int| start <= k < j ==> !is_space(s@[k]),
                ensures
                    start < j <= n,
                    forall|k: int| start <= k < j ==> !is_space(s@[k]),
                    j == n || is_space(s@[j as int]),
                decreases n - j,
            {
                if j == n {
                    break;
                }
                let c2 = s.get_char(j);
                if c2 == ' ' || c2 == '\t' || c2 == '\n' || c2 == '\r' || c2 == '\x0c' {
                    break;
                }
                j += 1;
            }
            let tok = String::from_str(s.substring_char(start, j));
            let ghost old_toks = toks.deep_view();
            toks.push(tok);
            proof {
                assert(toks.deep_view() =~= old_toks + seq![s@.subrange(start as int, j as int)]);
                lemma_tokens_take_run(s@, start as int, j as int);
            }
            i = j;
        }
    }
    proof {
        assert(tokens_of(s@.skip(n as int)) =~= Seq::<Seq<char>>::empty());
        assert(toks.deep_view() =~= toks.deep_view() + Seq::<Seq<char>>::empty());
    }
    toks
}

/// Compares two string slices character by character.
pub fn str_eq(a: &str, b: &str) -> (r: bool)
    ensures
        r == (a@ == b@),
{
    let alen = a.unicode_len();
    let blen = b.unicode_len();
    if alen != blen {
        assert(a@.len() != b@.len());
        return false;
    }
    let mut i: usize = 0;
    while i < alen
        invariant
            0 <= i <= alen,
            alen == a@.len(),
            alen == b@.len(),
            forall|k: int| 0 <= k < i ==> a@[k] == b@[k],
        decreases alen - i,
    {
        if a.get_char(i) != b.get_char(i) {
            assert(a@[i as int] != b@[i as int]);
            return false;
        }
        i += 1;
    }
    assert(a@ =~= b@);
    true
}

/// `OP_CHECKLOCKTIMEVERIFY`, or its popular alias `OP_CLTV`.
pub open spec fn is_cltv_token(t: Seq<char>) -> bool {
    t == "OP_CHECKLOCKTIMEVERIFY"@ || t == "OP_CLTV"@
}

/// `OP_CHECKSEQUENCEVERIFY`, or its popular alias `OP_CSV`.
pub open spec fn is_csv_token(t: Seq<char>) -> bool {
    t == "OP_CHECKSEQUENCEVERIFY"@ || t == "OP_CSV"@
}

pub open spec fn tokens_have_cltv(toks: Seq<Seq<char>>) -> bool {
    exists|i: int| 0 <= i < toks.len() && is_cltv_token(toks[i])
}

pub open spec fn tokens_have_csv(toks: Seq<Seq<char>>) -> bool {
    exists|i: int| 0 <= i < toks.len() && is_csv_token(toks[i])
}

pub fn token_is_cltv(t: &str) -> (r: bool)
    ensures
        r == is_cltv_token(t@),
{
    str_eq(t, "OP_CHECKLOCKTIMEVERIFY") || str_eq(t, "OP_CLTV")
}

pub fn token_is_csv(t: &str) -> (r: bool)
    ensures
        r == is_csv_token(t@),
{
    str_eq(t, "OP_CHECKSEQUENCEVERIFY") || str_eq(t, "OP_CSV")
}

/// True iff some token of the disassembly equals a CLTV opcode name.
/// Matches are exact token equality, never substring matches.
pub fn contains_cltv_opcode(text: &str) -> (r: bool)
    ensures
        r == tokens_have_cltv(tokens_of(text@)),
{
    let toks = tokenize(text);
    let mut k: usize = 0;
    while k < toks.len()
        invariant
            0 <= k <= toks.len(),
            toks.deep_view() == tokens_of(text@),
            forall|j: int| 0 <= j < k ==> !is_cltv_token(toks.deep_view()[j]),
        decreases toks.len() - k,
    {
        if token_is_cltv(toks[k].as_str()) {
            assert(is_cltv_token(toks.deep_view()[k as int]));
            return true;
        }
        k += 1;
    }
    false
}

/// True iff some token of the disassembly equals a CSV opcode name.
pub fn contains_csv_opcode(text: &str) -> (r: bool)
    ensures
        r == tokens_have_csv(tokens_of(text@)),
{
    let toks = tokenize(text);
    let mut k: usize = 0;
    while k < toks.len()
        invariant
            0 <= k <= toks.len(),
            toks.deep_view() == tokens_of(text@),
            forall|j: int| 0 <= j < k ==> !is_csv_token(toks.deep_view()[j]),
        decreases toks.len() - k,
    {
        if token_is_csv(toks[k].as_str()) {
            assert(is_csv_token(toks.deep_view()[k as int]));
            return true;
        }
        k += 1;
    }
    false
}

// ─── Decimal numerals ───────────────────────────────────────────────────────

pub open spec fn is_digit(c: char) -> bool {
    '0' <= c && c <= '9'
}

pub open spec fn digit_val(c: char) -> int {
    c as u32 - '0' as u32
}

pub open spec fn all_digits(s: Seq<char>) -> bool {
    forall|k: int| 0 <= k < s.len() ==> is_digit(s[k])
}

/// The value of a string of decimal digits, most significant first.
pub open spec fn digits_val(s: Seq<char>) -> int
    decreases s.len(),
{
    if s.len() == 0 {
        0
    } else {
        digits_val(s.drop_last()) * 10 + digit_val(s.last())
    }
}

proof fn lemma_digits_val_nonneg(s: Seq<char>)
    requires
        all_digits(s),
    ensures
        digits_val(s) >= 0,
    decreases s.len(),
{
    if s.len() > 0 {
        assert(all_digits(s.drop_last()));
        lemma_digits_val_nonneg(s.drop_last());
    }
}

/// Appending further digits never lowers the value of the numeral.
proof fn lemma_digits_val_prefix_le(s: Seq<char>, m: int)
    requires
        all_digits(s),
        0 <= m <= s.len(),
    ensures
        digits_val(s.take(m)) <= digits_val(s),
    decreases s.len(),
{
    if m == s.len() {
        assert(s.take(m) =~= s);
    } else {
        let t = s.drop_last();
        assert(all_digits(t));
        assert(s.take(m) =~= t.take(m));
        lemma_digits_val_prefix_le(t, m);
        lemma_digits_val_nonneg(t);
    }
}

/// Reads the decimal digits of `s` from position `from` on, refusing values
/// above `cap`.
fn parse_u64_digits(s: &str, from: usize, cap: u64) -> (r: Option<u64>)
    requires
        from as int <= s@.len(),
    ensures
        ({
            let d = s@.skip(from as int);
            match r {
                Some(v) => d.len() > 0 && all_digits(d) && digits_val(d) == v && v <= cap,
                None => !(d.len() > 0 && all_digits(d) && digits_val(d) <= cap),
            }
        }),
{
    let ghost d = s@.skip(from as int);
    let n = s.unicode_len();
    if from == n {
        return None;
    }
    let mut val: u64 = 0;
    let mut i: usize = from;
    while i < n
        invariant
            from <= i <= n,
            from < n,
            n == s@.len(),
            d == s@.skip(from as int),
            all_digits(d.take(i - from)),
            val == digits_val(d.take(i - from)),
            val <= cap,
        decreases n - i,
    {
        let c = s.get_char(i);
        if !(c >= '0' && c <= '9') {
            assert(!is_digit(d[i - from]));
            return None;
        }
        let dig: u64 = (c as u32 - '0' as u32) as u64;
        let wide: u128 = (val as u128) * 10 + (dig as u128);
        proof {
            let m = i - from;
            assert(d.take(m + 1).drop_last() =~= d.take(m));
            assert(d.take(m + 1).last() == d[m]);
        }
        if wide > cap as u128 {
            proof {
                let m = i - from;
                if all_digits(d) {
                    lemma_digits_val_prefix_le(d, m + 1);
                }
            }
            return None;
        }
        val = wide as u64;
        i += 1;
    }
    proof {
        assert(d.take(n - from) =~= d);
    }
    Some(val)
}

/// A token parsed as Rust parses an unsigned decimal: an optional leading
/// `+`, then at least one digit, value at most `u16::MAX`.
pub open spec fn spec_parse_u16(t: Seq<char>) -> Option<u16> {
    let d = if t.len() > 0 && t[0] == '+' {
        t.drop_first()
    } else {
        t
    };
    if d.len() > 0 && all_digits(d) && digits_val(d) <= 65535 {
        Some(digits_val(d) as u16)
    } else {
        None
    }
}

/// Parses a token as a non-negative decimal integer in `[0, 65535]`.
pub fn parse_u16(t: &str) -> (r: Option<u16>)
    ensures
        r == spec_parse_u16(t@),
{
    let n = t.unicode_len();
    let from: usize = if n > 0 && t.get_char(0) == '+' {
        1
    } else {
        0
    };
    proof {
        if from == 1 {
            assert(t@.skip(1) =~= t@.drop_first());
        } else {
            assert(t@.skip(0) =~= t@);
        }
    }
    match parse_u64_digits(t, from, 65535) {
        Some(v) => Some(v as u16),
        None => None,
    }
}

/// A token parsed as Rust parses a signed decimal: an optional leading `+`
/// or `-`, then at least one digit, value within the range of `i64`.
pub open spec fn spec_parse_i64(t: Seq<char>) -> Option<i64> {
    let neg = t.len() > 0 && t[0] == '-';
    let d = if t.len() > 0 && (t[0] == '-' || t[0] == '+') {
        t.drop_first()
    } else {
        t
    };
    if d.len() > 0 && all_digits(d) && (if neg {
        digits_val(d) <= 0x8000_0000_0000_0000
    } else {
        digits_val(d) <= 0x7FFF_FFFF_FFFF_FFFF
    }) {
        Some((if neg {
            -digits_val(d)
        } else {
            digits_val(d)
        }) as i64)
    } else {
        None
    }
}

/// Parses a token as a signed decimal integer.
pub fn parse_i64(t: &str) -> (r: Option<i64>)
    ensures
        r == spec_parse_i64(t@),
{
    let n = t.unicode_len();
    let mut neg = false;
    let mut from: usize = 0;
    if n > 0 {
        let c0 = t.get_char(0);
        if c0 == '-' {
            neg = true;
            from = 1;
        } else if c0 == '+' {
            from = 1;
        }
    }
    proof {
        if from == 1 {
            assert(t@.skip(1) =~= t@.drop_first());
        } else {
            assert(t@.skip(0) =~= t@);
        }
    }
    let cap: u64 = if neg {
        0x8000_0000_0000_0000
    } else {
        0x7FFF_FFFF_FFFF_FFFF
    };
    match parse_u64_digits(t, from, cap) {
        Some(v) => {
            if neg {
                if v == 0x8000_0000_0000_0000 {
                    Some(i64::MIN)
                } else {
                    Some(-(v as i64))
                }
            } else {
                Some(v as i64)
            }
        },
        None => None,
    }
}

/// For an opcode at position `i > 0` of a token list, the preceding token
/// parsed as a signed decimal integer, if it is one.
pub open spec fn spec_preceding_number(toks: Seq<Seq<char>>, i: int) -> Option<i64> {
    spec_parse_i64(toks[i - 1])
}

/// Parses the token just before position `i` as a signed decimal integer;
/// `None` if the preceding token is not a decimal numeral.
pub fn preceding_number(toks: &Vec<String>, i: usize) -> (r: Option<i64>)
    requires
        0 < i < toks@.len(),
    ensures
        r == spec_preceding_number(toks.deep_view(), i as int),
{
    parse_i64(toks[i - 1].as_str())
}

} // verus!
