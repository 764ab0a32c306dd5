//! Verified utilities over strings and character sequences: equality,
//! lexicographic order, character classes, trimming, token splitting, and
//! the numeric literal grammars used to validate attribute values.

use vstd::prelude::*;

verus! {

/// Exact character-for-character equality of two string slices.
pub fn str_eq(a: &str, b: &str) -> (r: bool)
    ensures
        r == (a@ == b@),
{
    let alen = a.unicode_len();
    let blen = b.unicode_len();
    if alen != blen {
        assert(a@ != b@) by {
            assert(a@.len() != b@.len());
        }
        return false;
    }
    let mut i: usize = 0;
    while i < alen
        invariant
            alen == a@.len(),
            blen == b@.len(),
            alen == blen,
            0 <= i <= alen,
            forall|j: int| 0 <= j < i ==> a@[j] == b@[j],
        decreases alen - i,
    {
        if a.get_char(i) != b.get_char(i) {
            assert(a@ != b@) by {
                assert(a@[i as int] != b@[i as int]);
            }
            return false;
        }
        i += 1;
    }
    assert(a@ =~= b@);
    true
}

// ---------------------------------------------------------------------------
// Character classes
// ---------------------------------------------------------------------------

/// The Unicode `White_Space` code points, as used by `str::trim` and
/// `str::split_whitespace`.
pub open spec fn is_space_char(c: char) -> bool {
    let u = c as u32;
    u == 0x20 || (0x09 <= u && u <= 0x0d) || u == 0x85 || u == 0xa0 || u == 0x1680 || (0x2000 <= u
        && u <= 0x200a) || u == 0x2028 || u == 0x2029 || u == 0x202f || u == 0x205f || u == 0x3000
}

pub fn space_char(c: char) -> (r: bool)
    ensures
        r == is_space_char(c),
{
    let u = c as u32;
    u == 0x20 || (0x09 <= u && u <= 0x0d) || u == 0x85 || u == 0xa0 || u == 0x1680 || (0x2000 <= u
        && u <= 0x200a) || u == 0x2028 || u == 0x2029 || u == 0x202f || u == 0x205f || u == 0x3000
}

pub open spec fn is_digit_char(c: char) -> bool {
    0x30 <= c as u32 && c as u32 <= 0x39
}

pub fn digit_char(c: char) -> (r: bool)
    ensures
        r == is_digit_char(c),
{
    let u = c as u32;
    0x30 <= u && u <= 0x39
}

pub open spec fn is_alpha_char(c: char) -> bool {
    let u = c as u32;
    (0x41 <= u && u <= 0x5a) || (0x61 <= u && u <= 0x7a)
}

pub fn alpha_char(c: char) -> (r: bool)
    ensures
        r == is_alpha_char(c),
{
    let u = c as u32;
    (0x41 <= u && u <= 0x5a) || (0x61 <= u && u <= 0x7a)
}

pub open spec fn is_alnum_char(c: char) -> bool {
    is_alpha_char(c) || is_digit_char(c)
}

pub fn alnum_char(c: char) -> (r: bool)
    ensures
        r == is_alnum_char(c),
{
    alpha_char(c) || digit_char(c)
}

// ---------------------------------------------------------------------------
// Lexicographic order on character sequences (by code point)
// ---------------------------------------------------------------------------

/// Lexicographic "less or equal" on character sequences, comparing code
/// points position by position; a proper prefix precedes its extensions.
pub open spec fn lex_le(a: Seq<char>, b: Seq<char>) -> bool
    decreases a.len(),
{
    if a.len() == 0 {
        true
    } else if b.len() == 0 {
        false
    } else if (a[0] as u32) < (b[0] as u32) {
        true
    } else if (a[0] as u32) == (b[0] as u32) {
        lex_le(a.drop_first(), b.drop_first())
    } else {
        false
    }
}

/// `lex_le` is total: any two sequences compare one way or the other.
pub proof fn lemma_lex_le_total(a: Seq<char>, b: Seq<char>)
    ensures
        lex_le(a, b) || lex_le(b, a),
    decreases a.len(),
{
    if a.len() == 0 {
    } else if b.len() == 0 {
    } else if (a[0] as u32) == (b[0] as u32) {
        lemma_lex_le_total(a.drop_first(), b.drop_first());
    }
}

/// `lex_le` is transitive.
pub proof fn lemma_lex_le_trans(a: Seq<char>, b: Seq<char>, c: Seq<char>)
    requires
        lex_le(a, b),
        lex_le(b, c),
    ensures
        lex_le(a, c),
    decreases a.len(),
{
    if a.len() == 0 {
    } else {
        if (a[0] as u32) == (b[0] as u32) && (b[0] as u32) == (c[0] as u32) {
            lemma_lex_le_trans(a.drop_first(), b.drop_first(), c.drop_first());
        }
    }
}

/// How `lex_le` is decided at the first position where the sequences end
/// or their code points differ.
proof fn lemma_lex_le_at(a: Seq<char>, b: Seq<char>, d: int)
    requires
        0 <= d <= a.len(),
        d <= b.len(),
        forall|j: int| 0 <= j < d ==> (a[j] as u32) == (b[j] as u32),
        d == a.len() || d == b.len() || (a[d] as u32) != (b[d] as u32),
    ensures
        lex_le(a, b) <==> (d == a.len() || (d < b.len() && (a[d] as u32) < (b[d] as u32))),
    decreases d,
{
    if d == 0 {
    } else {
        assert((a[0] as u32) == (b[0] as u32));
        lemma_lex_le_at(a.drop_first(), b.drop_first(), d - 1);
    }
}

/// Decides `lex_le` on two string slices.
pub fn str_le(a: &str, b: &str) -> (r: bool)
    ensures
        r == lex_le(a@, b@),
{
    let alen = a.unicode_len();
    let blen = b.unicode_len();
    let mut i: usize = 0;
    loop
        invariant
            alen == a@.len(),
            blen == b@.len(),
            0 <= i <= alen,
            i <= blen,
            forall|j: int| 0 <= j < i ==> (a@[j] as u32) == (b@[j] as u32),
        decreases alen - i,
    {
        if i == alen {
            proof {
                lemma_lex_le_at(a@, b@, i as int);
            }
            return true;
        }
        if i == blen {
            proof {
                lemma_lex_le_at(a@, b@, i as int);
            }
            return false;
        }
        let ca = a.get_char(i) as u32;
        let cb = b.get_char(i) as u32;
        if ca != cb {
            proof {
                lemma_lex_le_at(a@, b@, i as int);
            }
            return ca < cb;
        }
        i += 1;
    }
}

// ---------------------------------------------------------------------------
// Prefix and substring search
// ---------------------------------------------------------------------------

pub open spec fn has_prefix(s: Seq<char>, p: Seq<char>) -> bool {
    p.len() <= s.len() && (forall|j: int| 0 <= j < p.len() ==> s[j] == p[j])
}

/// Whether `s` starts with `p`.
pub fn starts_with_str(s: &str, p: &str) -> (r: bool)
    ensures
        r == has_prefix(s@, p@),
{
    let slen = s.unicode_len();
    let plen = p.unicode_len();
    if plen > slen {
        return false;
    }
    let mut i: usize = 0;
    while i < plen
        invariant
            slen == s@.len(),
            plen == p@.len(),
            plen <= slen,
            0 <= i <= plen,
            forall|j: int| 0 <= j < i ==> s@[j] == p@[j],
        decreases plen - i,
    {
        if s.get_char(i) != p.get_char(i) {
            return false;
        }
        i += 1;
    }
    true
}

pub open spec fn contains_seq(h: Seq<char>, n: Seq<char>) -> bool {
    exists|i: int| 0 <= i && i + n.len() <= h.len() && #[trigger] h.subrange(i, i + n.len()) == n
}

/// Whether `n` occurs as a contiguous run of characters inside `h`.
pub fn contains_str(h: &str, n: &str) -> (r: bool)
    ensures
        r == contains_seq(h@, n@),
{
    let hlen = h.unicode_len();
    let nlen = n.unicode_len();
    if nlen > hlen {
        return false;
    }
    if nlen == 0 {
        assert(contains_seq(h@, n@)) by {
            assert(h@.subrange(0, 0 + n@.len() as int) =~= n@);
        }
        return true;
    }
    let mut i: usize = 0;
    while i <= hlen - nlen
        invariant
            hlen == h@.len(),
            nlen == n@.len(),
            1 <= nlen <= hlen,
            0 <= i <= hlen,
            forall|i0: int| 0 <= i0 < i ==> #[trigger] h@.subrange(i0, i0 + nlen as int) != n@,
        decreases hlen - i,
    {
        let mut j: usize = 0;
        let mut hit = true;
        while j < nlen
            invariant
                hlen == h@.len(),
                nlen == n@.len(),
                nlen <= hlen,
                0 <= i <= hlen - nlen,
                0 <= j <= nlen,
                hit ==> forall|k: int| 0 <= k < j ==> h@[i + k] == n@[k],
                !hit ==> h@.subrange(i as int, i as int + nlen as int) != n@,
            decreases nlen - j,
        {
            if h.get_char(i + j) != n.get_char(j) {
                hit = false;
                assert(h@.subrange(i as int, i as int + nlen as int) != n@) by {
                    assert(h@.subrange(i as int, i as int + nlen as int)[j as int] != n@[j as int]);
                }
                j = nlen;
            } else {
                j += 1;
            }
        }
        if hit {
            assert(h@.subrange(i as int, i as int + nlen as int) =~= n@);
            return true;
        }
        i += 1;
    }
    assert(!contains_seq(h@, n@)) by {
        assert forall|i0: int|
            0 <= i0 && i0 + n@.len() <= h@.len() implies #[trigger] h@.subrange(
            i0,
            i0 + n@.len(),
        ) != n@ by {
            assert(i0 < i);
        }
    }
    false
}

// ---------------------------------------------------------------------------
// Trimming
// ---------------------------------------------------------------------------

/// Index of the first character that is not whitespace (the length when all
/// characters are whitespace).
pub open spec fn first_non_space(s: Seq<char>) -> int
    decreases s.len(),
{
    if s.len() == 0 {
        0
    } else if !is_space_char(s[0]) {
        0
    } else {
        1 + first_non_space(s.drop_first())
    }
}

/// One past the index of the last character that is not whitespace (zero
/// when all characters are whitespace).
pub open spec fn last_non_space_end(s: Seq<char>) -> int
    decreases s.len(),
{
    if s.len() == 0 {
        0
    } else if !is_space_char(s.last()) {
        s.len() as int
    } else {
        last_non_space_end(s.drop_last())
    }
}

/// The sequence with leading and trailing whitespace removed.
pub open spec fn trim_spec(s: Seq<char>) -> Seq<char> {
    if first_non_space(s) == s.len() {
        Seq::empty()
    } else {
        s.subrange(first_non_space(s), last_non_space_end(s))
    }
}

proof fn lemma_first_non_space(s: Seq<char>, k: int)
    requires
        0 <= k <= s.len(),
        forall|j: int| 0 <= j < k ==> is_space_char(s[j]),
        k == s.len() || !is_space_char(s[k]),
    ensures
        first_non_space(s) == k,
    decreases k,
{
    if k == 0 {
    } else {
        lemma_first_non_space(s.drop_first(), k - 1);
    }
}

proof fn lemma_last_non_space_end(s: Seq<char>, k: int)
    requires
        0 <= k <= s.len(),
        forall|j: int| k <= j < s.len() ==> is_space_char(s[j]),
        k == 0 || !is_space_char(s[k - 1]),
    ensures
        last_non_space_end(s) == k,
    decreases s.len() - k,
{
    if k == s.len() {
    } else {
        assert(is_space_char(s.last()));
        assert(s.drop_last() =~= s.subrange(0, s.len() - 1));
        lemma_last_non_space_end(s.drop_last(), k);
    }
}

/// `s` with leading and trailing whitespace removed.
pub fn trim_str(s: &str) -> (r: &str)
    ensures
        r@ == trim_spec(s@),
{
    let len = s.unicode_len();
    let mut a: usize = 0;
    while a < len && space_char(s.get_char(a))
        invariant
            len == s@.len(),
            0 <= a <= len,
            forall|j: int| 0 <= j < a ==> is_space_char(s@[j]),
        decreases len - a,
    {
        a += 1;
    }
    proof {
        lemma_first_non_space(s@, a as int);
    }
    if a == len {
        let r = s.substring_char(0, 0);
        assert(r@ =~= trim_spec(s@));
        return r;
    }
    let mut b: usize = len;
    while b > 0 && space_char(s.get_char(b - 1))
        invariant
            len == s@.len(),
            0 <= b <= len,
            forall|j: int| b <= j < len ==> is_space_char(s@[j]),
        decreases b,
    {
        b -= 1;
    }
    proof {
        lemma_last_non_space_end(s@, b as int);
    }
    assert(a < b) by {
        if b <= a {
            assert(is_space_char(s@[a as int]));
        }
    }
    let r = s.substring_char(a, b);
    assert(r@ =~= trim_spec(s@));
    r
}

// ---------------------------------------------------------------------------
// Whitespace-separated tokens
// ---------------------------------------------------------------------------

/// First index at or after `i` holding whitespace, or the length.
pub open spec fn token_end_from(s: Seq<char>, i: int) -> int
    decreases s.len() - i,
{
    if i < 0 || i >= s.len() {
        s.len() as int
    } else if is_space_char(s[i]) {
        i
    } else {
        token_end_from(s, i + 1)
    }
}

pub proof fn lemma_token_end_from_bounds(s: Seq<char>, i: int)
    requires
        0 <= i <= s.len(),
    ensures
        i <= token_end_from(s, i) <= s.len(),
    decreases s.len() - i,
{
    if i < s.len() && !is_space_char(s[i]) {
        lemma_token_end_from_bounds(s, i + 1);
    }
}

/// Characterization of `token_end_from` by a scanned range.
pub proof fn lemma_token_end_from(s: Seq<char>, i: int, k: int)
    requires
        0 <= i <= k <= s.len(),
        forall|m: int| i <= m < k ==> !is_space_char(s[m]),
        k == s.len() || is_space_char(s[k]),
    ensures
        token_end_from(s, i) == k,
    decreases k - i,
{
    if i < k {
        lemma_token_end_from(s, i + 1, k);
    }
}

/// The whitespace-separated tokens of `s`, starting at index `i`.
pub open spec fn ws_tokens_from(s: Seq<char>, i: int) -> Seq<Seq<char>>
    decreases s.len() - i,
    via ws_tokens_from_dec
{
    if i < 0 || i >= s.len() {
        Seq::empty()
    } else if is_space_char(s[i]) {
        ws_tokens_from(s, i + 1)
    } else {
        seq![s.subrange(i, token_end_from(s, i))] + ws_tokens_from(s, token_end_from(s, i))
    }
}

#[via_fn]
proof fn ws_tokens_from_dec(s: Seq<char>, i: int) {
    if 0 <= i < s.len() && !is_space_char(s[i]) {
        lemma_token_end_from_bounds(s, i + 1);
    }
}

pub open spec fn ws_tokens(s: Seq<char>) -> Seq<Seq<char>> {
    ws_tokens_from(s, 0)
}

/// Splits `s` at whitespace runs, dropping the separators, as
/// `str::split_whitespace` does.
pub fn split_ws(s: &str) -> (r: Vec<&str>)
    ensures
        r.deep_view() == ws_tokens(s@),
{
    let len = s.unicode_len();
    let mut out: Vec<&str> = Vec::new();
    let mut i: usize = 0;
    while i < len
        invariant
            len == s@.len(),
            0 <= i <= len,
            ws_tokens(s@) == out.deep_view() + ws_tokens_from(s@, i as int),
        decreases len - i,
    {
        if space_char(s.get_char(i)) {
            i += 1;
            continue ;
        }
        let start = i;
        let mut j = i + 1;
        while j < len && !space_char(s.get_char(j))
            invariant
                len == s@.len(),
                0 <= start < j <= len,
                !is_space_char(s@[start as int]),
                forall|m: int| start <= m < j ==> !is_space_char(s@[m]),
            decreases len - j,
        {
            j += 1;
        }
        proof {
            lemma_token_end_from(s@, start as int, j as int);
        }
        let tok = s.substring_char(start, j);
        let ghost old_dv = out.deep_view();
        out.push(tok);
        proof {
            assert(out.deep_view() =~= old_dv.push(tok@));
            assert(ws_tokens_from(s@, start as int) == seq![s@.subrange(
                start as int,
                j as int,
            )] + ws_tokens_from(s@, j as int));
            assert(out.deep_view() + ws_tokens_from(s@, j as int) =~= old_dv + ws_tokens_from(
                s@,
                start as int,
            ));
        }
        i = j;
    }
    assert(out.deep_view() =~= out.deep_view() + ws_tokens_from(s@, i as int));
    out
}

// ---------------------------------------------------------------------------
// Dash-separated parts (as `str::split('-')`, empty parts kept)
// ---------------------------------------------------------------------------

/// First index at or after `i` holding `'-'`, or the length.
pub open spec fn dash_end_from(s: Seq<char>, i: int) -> int
    decreases s.len() - i,
{
    if i < 0 || i >= s.len() {
        s.len() as int
    } else if s[i] == '-' {
        i
    } else {
        dash_end_from(s, i + 1)
    }
}

pub proof fn lemma_dash_end_from_bounds(s: Seq<char>, i: int)
    requires
        0 <= i <= s.len(),
    ensures
        i <= dash_end_from(s, i) <= s.len(),
    decreases s.len() - i,
{
    if i < s.len() && s[i] != '-' {
        lemma_dash_end_from_bounds(s, i + 1);
    }
}

pub proof fn lemma_dash_end_from(s: Seq<char>, i: int, k: int)
    requires
        0 <= i <= k <= s.len(),
        forall|m: int| i <= m < k ==> s[m] != '-',
        k == s.len() || s[k] == '-',
    ensures
        dash_end_from(s, i) == k,
    decreases k - i,
{
    if i < k {
        lemma_dash_end_from(s, i + 1, k);
    }
}

/// The `'-'`-separated parts of `s` from index `i` on; separators are
/// dropped and empty parts are kept.
pub open spec fn dash_parts_from(s: Seq<char>, i: int) -> Seq<Seq<char>>
    decreases s.len() - i,
    via dash_parts_from_dec
{
    if i < 0 || i > s.len() {
        Seq::empty()
    } else {
        let e = dash_end_from(s, i);
        if e >= s.len() {
            seq![s.subrange(i, s.len() as int)]
        } else {
            seq![s.subrange(i, e)] + dash_parts_from(s, e + 1)
        }
    }
}

#[via_fn]
proof fn dash_parts_from_dec(s: Seq<char>, i: int) {
    if 0 <= i <= s.len() {
        lemma_dash_end_from_bounds(s, i);
    }
}

pub open spec fn dash_parts(s: Seq<char>) -> Seq<Seq<char>> {
    dash_parts_from(s, 0)
}

/// Splits `s` at every `'-'`, keeping empty parts.
pub fn split_dash(s: &str) -> (r: Vec<&str>)
    ensures
        r.deep_view() == dash_parts(s@),
        r.len() >= 1,
{
    let len = s.unicode_len();
    let mut out: Vec<&str> = Vec::new();
    let mut i: usize = 0;
    loop
        invariant
            len == s@.len(),
            0 <= i <= len,
            dash_parts(s@) == out.deep_view() + dash_parts_from(s@, i as int),
        decreases len - i,
    {
        let start = i;
        let mut j = i;
        while j < len && s.get_char(j) != '-'
            invariant
                len == s@.len(),
                0 <= start <= j <= len,
                forall|m: int| start <= m < j ==> s@[m] != '-',
            decreases len - j,
        {
            j += 1;
        }
        proof {
            lemma_dash_end_from(s@, start as int, j as int);
        }
        let part = s.substring_char(start, j);
        let ghost old_dv = out.deep_view();
        out.push(part);
        proof {
            assert(out.deep_view() =~= old_dv.push(part@));
        }
        if j == len {
            proof {
                assert(dash_parts_from(s@, start as int) =~= seq![s@.subrange(
                    start as int,
                    len as int,
                )]);
                assert(out.deep_view() =~= old_dv + dash_parts_from(s@, start as int));
            }
            return out;
        }
        proof {
            assert(out.deep_view() + dash_parts_from(s@, j as int + 1) =~= old_dv
                + dash_parts_from(s@, start as int));
        }
        i = j + 1;
    }
}

// ---------------------------------------------------------------------------
// Integer literal grammar and value
// ---------------------------------------------------------------------------

pub open spec fn all_digits(s: Seq<char>) -> bool {
    forall|i: int| 0 <= i < s.len() ==> is_digit_char(#[trigger] s[i])
}

pub open spec fn digits1(s: Seq<char>) -> bool {
    s.len() > 0 && all_digits(s)
}

/// The decimal value of a digit sequence.
pub open spec fn dec_val(s: Seq<char>) -> int
    decreases s.len(),
{
    if s.len() == 0 {
        0
    } else {
        dec_val(s.drop_last()) * 10 + (s.last() as u32 - 0x30)
    }
}

pub proof fn lemma_dec_val_nonneg(s: Seq<char>)
    requires
        all_digits(s),
    ensures
        dec_val(s) >= 0,
    decreases s.len(),
{
    if s.len() > 0 {
        assert(all_digits(s.drop_last()));
        lemma_dec_val_nonneg(s.drop_last());
    }
}

/// The input with one leading `'+'` or `'-'` removed.
pub open spec fn sign_body(s: Seq<char>) -> Seq<char> {
    if s.len() > 0 && (s[0] == '+' || s[0] == '-') {
        s.drop_first()
    } else {
        s
    }
}

pub open spec fn int_negative(s: Seq<char>) -> bool {
    s.len() > 0 && s[0] == '-'
}

/// The grammar accepted by Rust's integer `FromStr`: an optional sign
/// followed by one or more ASCII digits.
pub open spec fn int_grammar_ok(s: Seq<char>) -> bool {
    digits1(sign_body(s))
}

/// The mathematical value of an integer literal.
pub open spec fn int_value(s: Seq<char>) -> int {
    if int_negative(s) {
        -dec_val(sign_body(s))
    } else {
        dec_val(sign_body(s))
    }
}

/// Whether `s` parses as an `i64`: the grammar holds and the value is in
/// range.
pub open spec fn is_i64_string(s: Seq<char>) -> bool {
    int_grammar_ok(s) && -0x8000_0000_0000_0000 <= int_value(s) <= 0x7fff_ffff_ffff_ffff
}

/// Whether `s` parses as an `i32`.
pub open spec fn is_i32_string(s: Seq<char>) -> bool {
    int_grammar_ok(s) && -0x8000_0000 <= int_value(s) <= 0x7fff_ffff
}

/// Scans an optional sign followed by digits. Yields whether the grammar
/// holds, whether the sign is negative, whether the magnitude exceeds
/// `u64::MAX`, and (otherwise) the magnitude itself.
fn scan_int(s: &str) -> (r: (bool, bool, bool, u64))
    ensures
        r.0 == int_grammar_ok(s@),
        r.1 == int_negative(s@),
        r.0 && !r.2 ==> r.3 as int == dec_val(sign_body(s@)),
        r.0 && r.2 ==> dec_val(sign_body(s@)) > u64::MAX as int,
{
    let len = s.unicode_len();
    let mut p: usize = 0;
    let mut neg = false;
    if len > 0 {
        let c0 = s.get_char(0);
        if c0 == '+' || c0 == '-' {
            p = 1;
            neg = c0 == '-';
        }
    }
    let ghost body = sign_body(s@);
    proof {
        assert(body =~= s@.skip(p as int));
    }
    if p == len {
        assert(body.len() == 0);
        return (false, neg, false, 0);
    }
    let mut acc: u128 = 0;
    let mut big = false;
    let mut i: usize = p;
    while i < len
        invariant
            len == s@.len(),
            p <= i <= len,
            p <= 1,
            body == s@.skip(p as int),
            body == sign_body(s@),
            neg == int_negative(s@),
            all_digits(body.take(i - p)),
            !big ==> acc <= u64::MAX && acc as int == dec_val(body.take(i - p)),
            big ==> dec_val(body.take(i - p)) > u64::MAX as int,
        decreases len - i,
    {
        let c = s.get_char(i);
        if !digit_char(c) {
            assert(!all_digits(body)) by {
                assert(body[i - p] == s@[i as int]);
                assert(!is_digit_char(body[i - p]));
            }
            assert(!int_grammar_ok(s@));
            return (false, neg, false, 0);
        }
        let d = (c as u32 - 0x30) as u128;
        let ghost pre = body.take(i - p);
        let ghost pre1 = body.take(i + 1 - p);
        proof {
            assert(pre1.drop_last() =~= pre);
            assert(pre1.last() == s@[i as int]);
            assert(dec_val(pre1) == dec_val(pre) * 10 + d);
        }
        if !big {
            acc = acc * 10 + d;
            if acc > u64::MAX as u128 {
                big = true;
            }
        } else {
            proof {
                assert(dec_val(pre1) > u64::MAX as int);
            }
        }
        i += 1;
    }
    assert(body.take(len - p) =~= body);
    assert(digits1(body));
    (true, neg, big, if big {
        0
    } else {
        acc as u64
    })
}

/// Whether `s` parses as an `i64`, as `str::parse::<i64>` decides it.
pub fn is_valid_integer(s: &str) -> (r: bool)
    ensures
        r == is_i64_string(s@),
{
    let (ok, neg, big, mag) = scan_int(s);
    if !ok {
        return false;
    }
    proof {
        lemma_dec_val_nonneg(sign_body(s@));
    }
    if big {
        return false;
    }
    if neg {
        mag <= 0x8000_0000_0000_0000u64
    } else {
        mag <= 0x7fff_ffff_ffff_ffffu64
    }
}

/// Parses `s` as an `i32`, as `str::parse::<i32>` does: `Some` exactly
/// when the grammar holds and the value is in range.
pub fn parse_i32_str(s: &str) -> (r: Option<i32>)
    ensures
        r is Some <==> is_i32_string(s@),
        r matches Some(v) ==> v as int == int_value(s@),
{
    let (ok, neg, big, mag) = scan_int(s);
    if !ok {
        return None;
    }
    proof {
        lemma_dec_val_nonneg(sign_body(s@));
    }
    if big {
        return None;
    }
    if neg {
        if mag <= 0x8000_0000u64 {
            let m = mag as i64;
            Some((-m) as i32)
        } else {
            None
        }
    } else {
        if mag <= 0x7fff_ffffu64 {
            Some(mag as i32)
        } else {
            None
        }
    }
}

// ---------------------------------------------------------------------------
// Floating-point literal grammar
// ---------------------------------------------------------------------------

/// First index at or after `i` holding a non-digit, or the length.
pub open spec fn digits_end_from(s: Seq<char>, i: int) -> int
    decreases s.len() - i,
{
    if i < 0 || i >= s.len() {
        s.len() as int
    } else if !is_digit_char(s[i]) {
        i
    } else {
        digits_end_from(s, i + 1)
    }
}

pub proof fn lemma_digits_end_from(s: Seq<char>, i: int, k: int)
    requires
        0 <= i <= k <= s.len(),
        forall|m: int| i <= m < k ==> is_digit_char(s[m]),
        k == s.len() || !is_digit_char(s[k]),
    ensures
        digits_end_from(s, i) == k,
    decreases k - i,
{
    if i < k {
        lemma_digits_end_from(s, i + 1, k);
    }
}

/// Case-insensitive match of `c` against a lowercase ASCII letter `l`.
pub open spec fn eq_ci(c: char, l: char) -> bool {
    c as u32 == l as u32 || c as u32 + 0x20 == l as u32
}

fn char_ci(c: char, l: char) -> (r: bool)
    ensures
        r == eq_ci(c, l),
{
    c as u32 == l as u32 || (c as u32) + 0x20 == l as u32
}

/// The special float spellings `inf`, `infinity` and `nan`, in any case.
pub open spec fn is_inf_nan(t: Seq<char>) -> bool {
    (t.len() == 3 && eq_ci(t[0], 'i') && eq_ci(t[1], 'n') && eq_ci(t[2], 'f')) || (t.len() == 8
        && eq_ci(t[0], 'i') && eq_ci(t[1], 'n') && eq_ci(t[2], 'f') && eq_ci(t[3], 'i') && eq_ci(
        t[4],
        'n',
    ) && eq_ci(t[5], 'i') && eq_ci(t[6], 't') && eq_ci(t[7], 'y')) || (t.len() == 3 && eq_ci(
        t[0],
        'n',
    ) && eq_ci(t[1], 'a') && eq_ci(t[2], 'n'))
}

/// An exponent part at index `f` of `t`: `e` or `E`, an optional sign, and
/// one or more digits reaching the end.
pub open spec fn exp_ok_at(t: Seq<char>, f: int) -> bool {
    0 <= f < t.len() && (t[f] == 'e' || t[f] == 'E') && digits1(sign_body(t.skip(f + 1)))
}

/// A decimal number: digits with an optional fractional part, at least one
/// digit overall, optionally followed by an exponent.
pub open spec fn number_ok(t: Seq<char>) -> bool {
    let a = digits_end_from(t, 0);
    if a < t.len() && t[a] == '.' {
        let f = digits_end_from(t, a + 1);
        (a > 0 || f > a + 1) && (f == t.len() || exp_ok_at(t, f))
    } else {
        a > 0 && (a == t.len() || exp_ok_at(t, a))
    }
}

/// The grammar accepted by Rust's `f64` `FromStr`: an optional sign, then
/// `inf`, `infinity`, `nan` (any case) or a decimal number with optional
/// fraction and exponent. Overflow never makes the parse fail, so the
/// grammar alone decides validity.
pub open spec fn float_ok(s: Seq<char>) -> bool {
    is_inf_nan(sign_body(s)) || number_ok(sign_body(s))
}

/// Scans digits starting at absolute index `i`; returns the first index at
/// or after `i` holding a non-digit, or the length.
fn scan_digits(s: &str, i: usize) -> (r: usize)
    requires
        i <= s@.len(),
    ensures
        i <= r <= s@.len(),
        forall|m: int| i <= m < r ==> is_digit_char(s@[m]),
        r < s@.len() ==> !is_digit_char(s@[r as int]),
{
    let len = s.unicode_len();
    let mut j = i;
    while j < len && digit_char(s.get_char(j))
        invariant
            len == s@.len(),
            i <= j <= len,
            forall|m: int| i <= m < j ==> is_digit_char(s@[m]),
        decreases len - j,
    {
        j += 1;
    }
    j
}

/// Whether the suffix of `s` from `p` on spells `inf`, `infinity` or
/// `nan`, in any case.
fn special_spelling(s: &str, p: usize) -> (r: bool)
    requires
        p <= s@.len(),
    ensures
        r == is_inf_nan(s@.skip(p as int)),
{
    let len = s.unicode_len();
    let n = len - p;
    let ghost t = s@.skip(p as int);
    if n == 3 {
        let c0 = s.get_char(p);
        let c1 = s.get_char(p + 1);
        let c2 = s.get_char(p + 2);
        if char_ci(c0, 'i') && char_ci(c1, 'n') && char_ci(c2, 'f') {
            return true;
        }
        if char_ci(c0, 'n') && char_ci(c1, 'a') && char_ci(c2, 'n') {
            return true;
        }
        return false;
    }
    if n == 8 {
        return char_ci(s.get_char(p), 'i') && char_ci(s.get_char(p + 1), 'n') && char_ci(
            s.get_char(p + 2),
            'f',
        ) && char_ci(s.get_char(p + 3), 'i') && char_ci(s.get_char(p + 4), 'n') && char_ci(
            s.get_char(p + 5),
            'i',
        ) && char_ci(s.get_char(p + 6), 't') && char_ci(s.get_char(p + 7), 'y');
    }
    false
}

/// Whether the suffix of `s` from `q` on is an optional sign followed by
/// one or more digits reaching the end.
fn signed_digits_to_end(s: &str, q: usize) -> (r: bool)
    requires
        q <= s@.len(),
    ensures
        r == digits1(sign_body(s@.skip(q as int))),
{
    let len = s.unicode_len();
    let ghost u = s@.skip(q as int);
    let mut w = q;
    if w < len {
        let cs = s.get_char(w);
        if cs == '+' || cs == '-' {
            w += 1;
        }
    }
    proof {
        assert(sign_body(u) =~= s@.skip(w as int));
    }
    if w == len {
        return false;
    }
    let e = scan_digits(s, w);
    if e == len {
        assert(digits1(sign_body(u))) by {
            assert(forall|m: int|
                0 <= m < sign_body(u).len() ==> is_digit_char(#[trigger] sign_body(u)[m]));
        }
        true
    } else {
        assert(!digits1(sign_body(u))) by {
            assert(sign_body(u)[e - w] == s@[e as int]);
        }
        false
    }
}

/// Whether `s` parses as an `f64`, as `str::parse::<f64>` decides it.
pub fn is_valid_number(s: &str) -> (r: bool)
    ensures
        r == float_ok(s@),
{
    let len = s.unicode_len();
    let mut p: usize = 0;
    if len > 0 {
        let c0 = s.get_char(0);
        if c0 == '+' || c0 == '-' {
            p = 1;
        }
    }
    let ghost t = sign_body(s@);
    proof {
        assert(t =~= s@.skip(p as int));
    }
    if special_spelling(s, p) {
        return true;
    }
    // The number grammar: digits, an optional fraction, an optional
    // exponent.
    let a = scan_digits(s, p);
    proof {
        lemma_digits_end_from(t, 0, a - p);
    }
    let frac_end: usize;
    let has_digits: bool;
    if a < len && s.get_char(a) == '.' {
        let f = scan_digits(s, a + 1);
        proof {
            lemma_digits_end_from(t, a + 1 - p, f - p);
        }
        frac_end = f;
        has_digits = a > p || f > a + 1;
    } else {
        frac_end = a;
        has_digits = a > p;
    }
    if !has_digits {
        return false;
    }
    if frac_end == len {
        return true;
    }
    let ce = s.get_char(frac_end);
    if !(ce == 'e' || ce == 'E') {
        return false;
    }
    proof {
        assert(t.skip(frac_end + 1 - p as int) =~= s@.skip(frac_end as int + 1));
    }
    signed_digits_to_end(s, frac_end + 1)
}

// ---------------------------------------------------------------------------
// Lowercasing (trusted)
// ---------------------------------------------------------------------------

/// The character sequence that `str::to_lowercase` maps `s` to. The result
/// depends on the characters of `s` alone.
pub uninterp spec fn lower_of(s: Seq<char>) -> Seq<char>;

/// Relies on `str::to_lowercase` for Unicode-correct lowercasing; its
/// result is a pure function of the input characters.
#[verifier::external_body]
pub(crate) fn lowercase(s: &str) -> (r: String)
    ensures
        r@ == lower_of(s@),
{
    s.to_lowercase()
}

} // verus!
