//! Verified string utilities: whitespace trimming, comparison, prefix
//! tests, decimal rendering and parsing, and whitespace splitting.
//!
//! Remote commands answer with small text fragments ("active\n",
//! "exists", a decimal timestamp, an `ls` line); everything the library
//! decides from such text goes through the functions here, so their
//! contracts pin the text handling down exactly.

use vstd::prelude::*;
use vstd::string::*;

verus! {

/// The whitespace characters that trimming and splitting recognise.
pub open spec fn is_space_char(c: char) -> bool {
    c == ' ' || c == '\t' || c == '\n' || c == '\r'
}

/// `s` with its leading whitespace removed.
pub open spec fn trim_start_spec(s: Seq<char>) -> Seq<char>
    decreases s.len(),
{
    if s.len() == 0 {
        s
    } else if is_space_char(s[0]) {
        trim_start_spec(s.drop_first())
    } else {
        s
    }
}

/// `s` with its trailing whitespace removed.
pub open spec fn trim_end_spec(s: Seq<char>) -> Seq<char>
    decreases s.len(),
{
    if s.len() == 0 {
        s
    } else if is_space_char(s[s.len() - 1]) {
        trim_end_spec(s.drop_last())
    } else {
        s
    }
}

/// `s` with leading and trailing whitespace removed.
pub open spec fn trimmed(s: Seq<char>) -> Seq<char> {
    trim_end_spec(trim_start_spec(s))
}

proof fn lemma_trim_start_skip(s: Seq<char>, i: int)
    requires
        0 <= i <= s.len(),
        forall|k: int| 0 <= k < i ==> is_space_char(s[k]),
        i == s.len() || !is_space_char(s[i]),
    ensures
        trim_start_spec(s) == s.skip(i),
    decreases i,
{
    if i == 0 {
        assert(trim_start_spec(s) == s.skip(0)) by {
            assert(s.skip(0) =~= s);
        }
    } else {
        assert(is_space_char(s[0]));
        let t = s.drop_first();
        assert(forall|k: int| 0 <= k < i - 1 ==> is_space_char(#[trigger] t[k]));
        assert(i - 1 == t.len() || !is_space_char(t[i - 1]));
        lemma_trim_start_skip(t, i - 1);
        assert(t.skip(i - 1) =~= s.skip(i));
    }
}

proof fn lemma_trim_end_take(s: Seq<char>, j: int)
    requires
        0 <= j <= s.len(),
        forall|k: int| j <= k < s.len() ==> is_space_char(s[k]),
        j == 0 || !is_space_char(s[j - 1]),
    ensures
        trim_end_spec(s) == s.take(j),
    decreases s.len() - j,
{
    if j == s.len() {
        assert(j == 0 || !is_space_char(s[s.len() - 1]));
        if j == 0 {
            assert(s.len() == 0);
            assert(s.take(0) =~= s);
        } else {
            assert(s.take(j) =~= s);
        }
    } else {
        assert(is_space_char(s[s.len() - 1]));
        let t = s.drop_last();
        assert(forall|k: int| j <= k < t.len() ==> is_space_char(#[trigger] t[k]));
        lemma_trim_end_take(t, j);
        assert(t.take(j) =~= s.take(j));
    }
}

/// Whether `c` is one of the recognised whitespace characters.
pub fn is_space(c: char) -> (r: bool)
    ensures
        r == is_space_char(c),
{
    c == ' ' || c == '\t' || c == '\n' || c == '\r'
}

/// A copy of `s` with leading and trailing whitespace removed.
pub fn trim_str(s: &str) -> (r: String)
    ensures
        r@ == trimmed(s@),
{
    let len = s.unicode_len();
    let mut i: usize = 0;
    while i < len && is_space(s.get_char(i))
        invariant
            0 <= i <= len,
            len == s@.len(),
            forall|k: int| 0 <= k < i ==> is_space_char(s@[k]),
        decreases len - i,
    {
        i = i + 1;
    }
    proof {
        lemma_trim_start_skip(s@, i as int);
    }
    if i == len {
        proof {
            assert(s@.skip(len as int) =~= Seq::<char>::empty());
            assert(trim_end_spec(Seq::<char>::empty()) =~= Seq::<char>::empty());
        }
        return String::new();
    }
    let mut j: usize = len;
    while j > i && is_space(s.get_char(j - 1))
        invariant
            i <= j <= len,
            i < len,
            len == s@.len(),
            forall|k: int| j <= k < len ==> is_space_char(s@[k]),
        decreases j,
    {
        j = j - 1;
    }
    let piece = s.substring_char(i, j);
    proof {
        let t = s@.skip(i as int);
        assert(forall|k: int| j - i <= k < t.len() ==> is_space_char(#[trigger] t[k]));
        if j == i {
            assert(!is_space_char(s@[i as int]));
            assert(is_space_char(t[0]));
            assert(false);
        }
        assert(!is_space_char(t[j - i - 1]));
        lemma_trim_end_take(t, j - i);
        assert(t.take(j - i) =~= s@.subrange(i as int, j as int));
    }
    String::from_str(piece)
}

/// Whether two string slices hold the same characters.
pub fn str_eq(a: &str, b: &str) -> (r: bool)
    ensures
        r == (a@ == b@),
{
    let an = a.unicode_len();
    let bn = b.unicode_len();
    if an != bn {
        return false;
    }
    let mut i: usize = 0;
    while i < an
        invariant
            0 <= i <= an,
            an == a@.len(),
            an == b@.len(),
            forall|k: int| 0 <= k < i ==> a@[k] == b@[k],
        decreases an - i,
    {
        if a.get_char(i) != b.get_char(i) {
            return false;
        }
        i = i + 1;
    }
    proof {
        assert(a@ =~= b@);
    }
    true
}

/// Whether `s` begins with the characters of `p`.
pub open spec fn starts_with_spec(s: Seq<char>, p: Seq<char>) -> bool {
    p.len() <= s.len() && forall|k: int| 0 <= k < p.len() ==> s[k] == p[k]
}

/// Whether `s` begins with the prefix `p`.
pub fn starts_with_str(s: &str, p: &str) -> (r: bool)
    ensures
        r == starts_with_spec(s@, p@),
{
    let sn = s.unicode_len();
    let pn = p.unicode_len();
    if pn > sn {
        return false;
    }
    let mut i: usize = 0;
    while i < pn
        invariant
            0 <= i <= pn,
            pn == p@.len(),
            sn == s@.len(),
            pn <= sn,
            forall|k: int| 0 <= k < i ==> s@[k] == p@[k],
        decreases pn - i,
    {
        if s.get_char(i) != p.get_char(i) {
            return false;
        }
        i = i + 1;
    }
    true
}

/// The decimal digit that the value `d` (below ten) is written as.
pub open spec fn digit_char(d: int) -> char {
    if d == 0 {
        '0'
    } else if d == 1 {
        '1'
    } else if d == 2 {
        '2'
    } else if d == 3 {
        '3'
    } else if d == 4 {
        '4'
    } else if d == 5 {
        '5'
    } else if d == 6 {
        '6'
    } else if d == 7 {
        '7'
    } else if d == 8 {
        '8'
    } else {
        '9'
    }
}

/// The decimal writing of `n`, without sign or leading zeros.
pub open spec fn dec_rep(n: int) -> Seq<char>
    decreases n,
{
    if n < 10 {
        seq![digit_char(n)]
    } else {
        dec_rep(n / 10) + seq![digit_char(n % 10)]
    }
}

/// The one-character string slice holding the digit `d`.
pub fn digit_str(d: u64) -> (r: &'static str)
    requires
        d < 10,
    ensures
        r@ =~= seq![digit_char(d as int)],
{
    let r: &'static str = if d == 0 {
        "0"
    } else if d == 1 {
        "1"
    } else if d == 2 {
        "2"
    } else if d == 3 {
        "3"
    } else if d == 4 {
        "4"
    } else if d == 5 {
        "5"
    } else if d == 6 {
        "6"
    } else if d == 7 {
        "7"
    } else if d == 8 {
        "8"
    } else {
        "9"
    };
    proof {
        reveal_strlit("0");
        reveal_strlit("1");
        reveal_strlit("2");
        reveal_strlit("3");
        reveal_strlit("4");
        reveal_strlit("5");
        reveal_strlit("6");
        reveal_strlit("7");
        reveal_strlit("8");
        reveal_strlit("9");
    }
    r
}

/// `n` written in decimal.
pub fn u64_to_dec(n: u64) -> (r: String)
    ensures
        r@ == dec_rep(n as int),
    decreases n,
{
    if n < 10 {
        let r = String::from_str(digit_str(n));
        proof {
            assert(r@ =~= dec_rep(n as int));
        }
        r
    } else {
        let high = u64_to_dec(n / 10);
        let r = high.concat(digit_str(n % 10));
        proof {
            assert(r@ =~= dec_rep(n as int));
        }
        r
    }
}

/// Whether `c` is a decimal digit.
pub open spec fn is_dec_digit(c: char) -> bool {
    '0' as int <= c as int && c as int <= '9' as int
}

/// Whether every character of `s` is a decimal digit.
pub open spec fn all_dec_digits(s: Seq<char>) -> bool {
    forall|k: int| 0 <= k < s.len() ==> is_dec_digit(s[k])
}

/// The value of the digit string `s` read in decimal; meaningful only
/// when `all_dec_digits(s)`.
pub open spec fn dec_val(s: Seq<char>) -> int
    decreases s.len(),
{
    if s.len() == 0 {
        0
    } else {
        dec_val(s.drop_last()) * 10 + (s.last() as int - '0' as int)
    }
}

proof fn lemma_dec_val_nonneg(s: Seq<char>)
    requires
        all_dec_digits(s),
    ensures
        dec_val(s) >= 0,
    decreases s.len(),
{
    if s.len() > 0 {
        let t = s.drop_last();
        assert(forall|k: int| 0 <= k < t.len() ==> is_dec_digit(#[trigger] t[k]));
        lemma_dec_val_nonneg(t);
    }
}

proof fn lemma_dec_val_prefix_le(s: Seq<char>, i: int)
    requires
        all_dec_digits(s),
        0 <= i <= s.len(),
    ensures
        dec_val(s.take(i)) <= dec_val(s),
    decreases s.len(),
{
    if i == s.len() {
        assert(s.take(i) =~= s);
    } else {
        let t = s.drop_last();
        assert(forall|k: int| 0 <= k < t.len() ==> is_dec_digit(#[trigger] t[k]));
        assert(s.take(i) =~= t.take(i));
        lemma_dec_val_prefix_le(t, i);
        lemma_dec_val_nonneg(t);
        assert(dec_val(t) * 10 >= dec_val(t));
        assert(is_dec_digit(s.last()));
    }
}

/// The value that the digit part `ds` parses to with the given sign,
/// or nothing when `ds` is empty, holds a non-digit, or the value does
/// not fit a 64-bit signed integer.
pub open spec fn parse_digits_spec(ds: Seq<char>, neg: bool) -> Option<i64> {
    if ds.len() == 0 || !all_dec_digits(ds) {
        None
    } else if neg {
        if -dec_val(ds) >= i64::MIN {
            Some((-dec_val(ds)) as i64)
        } else {
            None
        }
    } else {
        if dec_val(ds) <= i64::MAX {
            Some(dec_val(ds) as i64)
        } else {
            None
        }
    }
}

/// The value that `s` parses to as a signed decimal integer: an
/// optional `+` or `-` sign, then one or more digits, the whole string
/// and nothing but the string.
pub open spec fn parse_i64_spec(s: Seq<char>) -> Option<i64> {
    if s.len() > 0 && (s[0] == '-' || s[0] == '+') {
        parse_digits_spec(s.drop_first(), s[0] == '-')
    } else {
        parse_digits_spec(s, false)
    }
}

/// Parse `s` as a signed decimal integer.
pub fn parse_i64(s: &str) -> (r: Option<i64>)
    ensures
        r == parse_i64_spec(s@),
{
    let len = s.unicode_len();
    let mut idx: usize = 0;
    let mut neg = false;
    if len > 0 {
        let c0 = s.get_char(0);
        if c0 == '-' {
            neg = true;
            idx = 1;
        } else if c0 == '+' {
            idx = 1;
        }
    }
    let ghost ds = s@.skip(idx as int);
    proof {
        if idx == 1 {
            assert(ds =~= s@.drop_first());
        } else {
            assert(ds =~= s@);
        }
    }
    if idx == len {
        return None;
    }
    let mut acc: u64 = 0;
    let mut i: usize = idx;
    proof {
        assert(parse_i64_spec(s@) == parse_digits_spec(ds, neg));
    }
    while i < len
        invariant
            idx <= i <= len,
            len == s@.len(),
            idx <= 1,
            ds == s@.skip(idx as int),
            parse_i64_spec(s@) == parse_digits_spec(ds, neg),
            forall|k: int| idx <= k < i ==> is_dec_digit(s@[k]),
            acc == dec_val(s@.subrange(idx as int, i as int)),
            acc <= 9223372036854775808,
        decreases len - i,
    {
        let c = s.get_char(i);
        let cv = c as u32;
        if cv < 48 || cv > 57 {
            proof {
                assert(s@[i as int] as int == cv as int);
                assert('0' as int == 48 && '9' as int == 57);
                assert(!is_dec_digit(s@[i as int]));
                assert(ds[i - idx] == s@[i as int]);
                assert(!all_dec_digits(ds));
            }
            return None;
        }
        proof {
            assert(s@[i as int] as int == cv as int);
            assert('0' as int == 48 && '9' as int == 57);
        }
        assert(is_dec_digit(s@[i as int]));
        let d: u64 = (cv - 48) as u64;
        if acc > 922337203685477580 {
            proof {
                if all_dec_digits(ds) {
                    lemma_dec_val_prefix_le(ds, i - idx);
                    assert(ds.take(i - idx) =~= s@.subrange(idx as int, i as int));
                    lemma_dec_val_nonneg(ds.take(i - idx));
                    assert(dec_val(ds) >= acc);
                    assert(is_dec_digit(ds[i - idx]));
                    lemma_dec_val_prefix_le(ds, i + 1 - idx);
                    let p = ds.take(i + 1 - idx);
                    assert(p.drop_last() =~= ds.take(i - idx));
                    assert(p.last() == ds[i - idx]);
                    assert(dec_val(p) == acc * 10 + (ds[i - idx] as int - '0' as int));
                    assert(dec_val(ds) > 9223372036854775808);
                }
            }
            return None;
        }
        acc = acc * 10 + d;
        proof {
            let p = s@.subrange(idx as int, i + 1);
            assert(p.drop_last() =~= s@.subrange(idx as int, i as int));
            assert(p.last() == s@[i as int]);
            assert(s@[i as int] as int == cv as int);
        }
        i = i + 1;
        if acc > 9223372036854775808 {
            proof {
                if all_dec_digits(ds) {
                    lemma_dec_val_prefix_le(ds, i - idx);
                    assert(ds.take(i - idx) =~= s@.subrange(idx as int, i as int));
                    assert(dec_val(ds) >= acc > 9223372036854775808);
                }
            }
            return None;
        }
    }
    proof {
        assert(s@.subrange(idx as int, len as int) =~= ds);
        assert(all_dec_digits(ds));
        assert(ds.len() > 0);
    }
    if neg {
        if acc == 9223372036854775808 {
            Some(i64::MIN)
        } else {
            Some(-(acc as i64))
        }
    } else {
        if acc == 9223372036854775808 {
            None
        } else {
            Some(acc as i64)
        }
    }
}

/// The views of a sequence of owned strings.
pub open spec fn views_of(v: Seq<String>) -> Seq<Seq<char>> {
    v.map_values(|x: String| x@)
}

/// The whitespace-separated tokens of `s`, in order, each nonempty.
pub open spec fn ws_tokens(s: Seq<char>) -> Seq<Seq<char>>
    decreases s.len(),
{
    if s.len() == 0 {
        seq![]
    } else if is_space_char(s[0]) {
        ws_tokens(s.drop_first())
    } else {
        let rest = ws_tokens(s.drop_first());
        if s.len() > 1 && !is_space_char(s[1]) {
            seq![seq![s[0]] + rest.first()] + rest.drop_first()
        } else {
            seq![seq![s[0]]] + rest
        }
    }
}

proof fn lemma_ws_tokens_take(s: Seq<char>, j: int)
    requires
        1 <= j <= s.len(),
        forall|k: int| 0 <= k < j ==> !is_space_char(s[k]),
        j == s.len() || is_space_char(s[j]),
    ensures
        ws_tokens(s) == seq![s.take(j)] + ws_tokens(s.skip(j)),
    decreases j,
{
    let t = s.drop_first();
    let rest = ws_tokens(t);
    if j == 1 {
        assert(!(s.len() > 1 && !is_space_char(s[1])));
        assert(ws_tokens(s) == seq![seq![s[0]]] + rest);
        assert(s.take(1) =~= seq![s[0]]);
        assert(s.skip(1) =~= t);
        assert(ws_tokens(s) =~~= seq![s.take(j)] + ws_tokens(s.skip(j)));
    } else {
        assert(s.len() > 1 && !is_space_char(s[1]));
        assert(forall|k: int| 0 <= k < j - 1 ==> !is_space_char(#[trigger] t[k]));
        assert(j - 1 == t.len() || is_space_char(t[j - 1]));
        lemma_ws_tokens_take(t, j - 1);
        assert(rest.first() == t.take(j - 1));
        assert(rest.drop_first() =~~= ws_tokens(t.skip(j - 1)));
        assert(seq![s[0]] + t.take(j - 1) =~= s.take(j));
        assert(t.skip(j - 1) =~= s.skip(j));
        assert(ws_tokens(s) =~~= seq![s.take(j)] + ws_tokens(s.skip(j)));
    }
}

/// The pieces of `l` joined with `", "` between them.
pub open spec fn join_commas(l: Seq<Seq<char>>) -> Seq<char>
    decreases l.len(),
{
    if l.len() == 0 {
        Seq::empty()
    } else if l.len() == 1 {
        l[0]
    } else {
        l[0] + ", "@ + join_commas(l.drop_first())
    }
}

proof fn lemma_join_step(l: Seq<Seq<char>>, i: int)
    requires
        1 <= i < l.len(),
    ensures
        join_commas(l.take(i + 1)) == join_commas(l.take(i)) + ", "@ + l[i],
    decreases i,
{
    let t = l.drop_first();
    if i == 1 {
        assert(l.take(2).drop_first() =~= seq![l[1]]);
        assert(l.take(2)[0] == l[0]);
        assert(join_commas(seq![l[1]]) == l[1]);
        assert(join_commas(l.take(2)) == l[0] + ", "@ + l[1]);
        assert(l.take(1) =~= seq![l[0]]);
    } else {
        lemma_join_step(t, i - 1);
        assert(t.take(i) =~= l.take(i + 1).drop_first());
        assert(t.take(i - 1) =~= l.take(i).drop_first());
        assert(t[i - 1] == l[i]);
        assert(join_commas(l.take(i + 1)) == l[0] + ", "@ + join_commas(l.take(i + 1).drop_first()));
        assert(join_commas(l.take(i)) == l[0] + ", "@ + join_commas(l.take(i).drop_first()));
        assert((l[0] + ", "@ + (join_commas(t.take(i - 1)) + ", "@ + t[i - 1])) =~= ((l[0] + ", "@
            + join_commas(t.take(i - 1))) + ", "@ + t[i - 1]));
    }
}

/// Join owned strings with `", "` between them.
pub fn join_comma_strs(v: &Vec<String>) -> (r: String)
    ensures
        r@ == join_commas(views_of(v@)),
{
    let ghost l = views_of(v@);
    let mut r = String::new();
    let mut i: usize = 0;
    while i < v.len()
        invariant
            0 <= i <= v.len(),
            l == views_of(v@),
            l.len() == v.len(),
            r@ == join_commas(l.take(i as int)),
        decreases v.len() - i,
    {
        if i > 0 {
            r.append(", ");
        }
        r.append(v[i].as_str());
        proof {
            assert(l[i as int] == v@[i as int]@);
            if i == 0 {
                assert(l.take(1) =~= seq![l[0]]);
                assert(l.take(0) =~= Seq::<Seq<char>>::empty());
            } else {
                lemma_join_step(l, i as int);
            }
        }
        i = i + 1;
    }
    proof {
        assert(l.take(v.len() as int) =~= l);
    }
    r
}

/// Split `s` at whitespace into its nonempty tokens.
pub fn split_ws(s: &str) -> (r: Vec<String>)
    ensures
        views_of(r@) == ws_tokens(s@),
{
    let len = s.unicode_len();
    let mut out: Vec<String> = Vec::new();
    let mut i: usize = 0;
    proof {
        assert(s@.skip(0) =~= s@);
        assert(views_of(out@) + ws_tokens(s@) =~~= ws_tokens(s@));
    }
    while i < len
        invariant
            0 <= i <= len,
            len == s@.len(),
            views_of(out@) + ws_tokens(s@.skip(i as int)) == ws_tokens(s@),
        decreases len - i,
    {
        if is_space(s.get_char(i)) {
            proof {
                assert(s@.skip(i as int).drop_first() =~= s@.skip(i + 1));
            }
            i = i + 1;
        } else {
            let start = i;
            let mut j: usize = i + 1;
            while j < len && !is_space(s.get_char(j))
                invariant
                    start < j <= len,
                    len == s@.len(),
                    forall|k: int| start <= k < j ==> !is_space_char(s@[k]),
                decreases len - j,
            {
                j = j + 1;
            }
            let tok = s.substring_char(start, j);
            let ghost prev = out@;
            out.push(String::from_str(tok));
            proof {
                let t = s@.skip(start as int);
                assert(forall|k: int| 0 <= k < j - start ==> !is_space_char(#[trigger] t[k]));
                assert(j - start == t.len() || is_space_char(t[j - start]));
                lemma_ws_tokens_take(t, j - start);
                assert(t.take(j - start) =~= s@.subrange(start as int, j as int));
                assert(t.skip(j - start) =~= s@.skip(j as int));
                assert(views_of(out@) =~~= views_of(prev) + seq![s@.subrange(start as int, j as int)]);
                assert(views_of(out@) + ws_tokens(s@.skip(j as int)) =~~= ws_tokens(s@));
            }
            i = j;
        }
    }
    proof {
        assert(s@.skip(len as int) =~= Seq::<char>::empty());
        assert(views_of(out@) + ws_tokens(Seq::<char>::empty()) =~~= views_of(out@));
    }
    out
}

} // verus!
