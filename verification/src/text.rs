//! Verified text helpers: whitespace trimming, comma splitting,
//! joining, decimal rendering and string comparison, used by the
//! command builder, the result formatting and the normalizer.

use vstd::prelude::*;
use vstd::string::*;

verus! {

/// The Unicode `White_Space` property, as `char::is_whitespace`
/// decides it.
pub open spec fn is_ws_char(c: char) -> bool {
    c == ' ' || c == '\u{9}' || c == '\u{a}' || c == '\u{b}' || c == '\u{c}' || c == '\u{d}'
        || c == '\u{85}' || c == '\u{a0}' || c == '\u{1680}' || c == '\u{2000}' || c == '\u{2001}'
        || c == '\u{2002}' || c == '\u{2003}' || c == '\u{2004}' || c == '\u{2005}'
        || c == '\u{2006}' || c == '\u{2007}' || c == '\u{2008}' || c == '\u{2009}'
        || c == '\u{200a}' || c == '\u{2028}' || c == '\u{2029}' || c == '\u{202f}'
        || c == '\u{205f}' || c == '\u{3000}'
}

/// Decides the `White_Space` property of one character.
pub fn is_ws(c: char) -> (r: bool)
    ensures
        r == is_ws_char(c),
{
    c == ' ' || c == '\u{9}' || c == '\u{a}' || c == '\u{b}' || c == '\u{c}' || c == '\u{d}'
        || c == '\u{85}' || c == '\u{a0}' || c == '\u{1680}' || c == '\u{2000}' || c == '\u{2001}'
        || c == '\u{2002}' || c == '\u{2003}' || c == '\u{2004}' || c == '\u{2005}'
        || c == '\u{2006}' || c == '\u{2007}' || c == '\u{2008}' || c == '\u{2009}'
        || c == '\u{200a}' || c == '\u{2028}' || c == '\u{2029}' || c == '\u{202f}'
        || c == '\u{205f}' || c == '\u{3000}'
}

/// A sequence is blank when every character is whitespace; the empty
/// sequence is blank.
pub open spec fn is_blank(s: Seq<char>) -> bool {
    forall|i: int| 0 <= i < s.len() ==> is_ws_char(s[i])
}

/// Decides whether a string is blank (empty or all whitespace).
pub fn str_is_blank(s: &str) -> (r: bool)
    ensures
        r == is_blank(s@),
{
    let n = s.unicode_len();
    let mut i: usize = 0;
    while i < n
        invariant
            0 <= i <= n,
            n == s@.len(),
            forall|m: int| 0 <= m < i ==> is_ws_char(s@[m]),
        decreases n - i,
    {
        if !is_ws(s.get_char(i)) {
            return false;
        }
        i += 1;
    }
    true
}

/// The sequence with its leading whitespace removed.
pub open spec fn trim_front(s: Seq<char>) -> Seq<char>
    decreases s.len(),
{
    if s.len() > 0 && is_ws_char(s[0]) {
        trim_front(s.drop_first())
    } else {
        s
    }
}

/// The sequence with its trailing whitespace removed.
pub open spec fn trim_back(s: Seq<char>) -> Seq<char>
    decreases s.len(),
{
    if s.len() > 0 && is_ws_char(s.last()) {
        trim_back(s.drop_last())
    } else {
        s
    }
}

/// The sequence with leading and trailing whitespace removed, as
/// `str::trim` computes it.
pub open spec fn spec_trim(s: Seq<char>) -> Seq<char> {
    trim_back(trim_front(s))
}

/// When the first `i` characters are whitespace and the character at
/// `i` (if any) is not, trimming the front drops exactly those `i`.
proof fn lemma_trim_front_skip(s: Seq<char>, i: int)
    requires
        0 <= i <= s.len(),
        forall|m: int| 0 <= m < i ==> is_ws_char(s[m]),
        i == s.len() || !is_ws_char(s[i]),
    ensures
        trim_front(s) == s.skip(i),
    decreases i,
{
    if i == 0 {
        assert(s.skip(0) =~= s);
    } else {
        let t = s.drop_first();
        assert(forall|m: int| 0 <= m < i - 1 ==> is_ws_char(t[m]));
        lemma_trim_front_skip(t, i - 1);
        assert(t.skip(i - 1) =~= s.skip(i));
    }
}

/// When the characters from `j` on are whitespace and the character
/// before `j` (if any) is not, trimming the back keeps exactly the
/// first `j`.
proof fn lemma_trim_back_take(s: Seq<char>, j: int)
    requires
        0 <= j <= s.len(),
        forall|m: int| j <= m < s.len() ==> is_ws_char(s[m]),
        j == 0 || !is_ws_char(s[j - 1]),
    ensures
        trim_back(s) == s.take(j),
    decreases s.len() - j,
{
    if j == s.len() {
        assert(s.take(j) =~= s);
    } else {
        let t = s.drop_last();
        assert(t =~= s.take(s.len() - 1));
        lemma_trim_back_take(t, j);
        assert(t.take(j) =~= s.take(j));
    }
}

/// Removes leading and trailing whitespace, as `str::trim` does.
pub fn trim(s: &str) -> (r: &str)
    ensures
        r@ == spec_trim(s@),
{
    let n = s.unicode_len();
    let mut i: usize = 0;
    while i < n && is_ws(s.get_char(i))
        invariant
            0 <= i <= n,
            n == s@.len(),
            forall|m: int| 0 <= m < i ==> is_ws_char(s@[m]),
        decreases n - i,
    {
        i += 1;
    }
    proof {
        lemma_trim_front_skip(s@, i as int);
    }
    if i == n {
        proof {
            assert(s@.skip(n as int) =~= Seq::<char>::empty());
            reveal_strlit("");
            assert(""@ =~= Seq::<char>::empty());
        }
        return "";
    }
    let mut j: usize = n;
    while j > i + 1 && is_ws(s.get_char(j - 1))
        invariant
            i < j <= n,
            n == s@.len(),
            forall|m: int| j <= m < n ==> is_ws_char(s@[m]),
        decreases j,
    {
        j -= 1;
    }
    // the loop stops either at a non-whitespace character or at the
    // known non-whitespace character at position i
    let r = s.substring_char(i, j);
    proof {
        let t = s@.skip(i as int);
        lemma_trim_back_take(t, j - i as int);
        assert(t.take(j - i as int) =~= s@.subrange(i as int, j as int));
    }
    r
}

/// Every character of the front-trimmed sequence stands in the
/// original, shifted by the count of dropped characters.
proof fn lemma_trim_front_suffix(s: Seq<char>)
    ensures
        trim_front(s).len() <= s.len(),
        forall|k: int|
            0 <= k < trim_front(s).len() ==> trim_front(s)[k] == s[k + s.len()
                - trim_front(s).len()],
    decreases s.len(),
{
    if s.len() > 0 && is_ws_char(s[0]) {
        lemma_trim_front_suffix(s.drop_first());
    }
}

/// Every character of the back-trimmed sequence stands unchanged in
/// the original.
proof fn lemma_trim_back_prefix(s: Seq<char>)
    ensures
        trim_back(s).len() <= s.len(),
        forall|k: int| 0 <= k < trim_back(s).len() ==> trim_back(s)[k] == s[k],
    decreases s.len(),
{
    if s.len() > 0 && is_ws_char(s.last()) {
        let t = s.drop_last();
        lemma_trim_back_prefix(t);
        assert(trim_back(s) == trim_back(t));
        assert forall|k: int| 0 <= k < trim_back(s).len() implies trim_back(s)[k] == s[k] by {
            assert(trim_back(t)[k] == t[k]);
            assert(t[k] == s[k]);
        }
    }
}

/// A nonempty front-trimmed sequence does not start with whitespace.
proof fn lemma_trim_front_first(s: Seq<char>)
    ensures
        trim_front(s).len() > 0 ==> !is_ws_char(trim_front(s)[0]),
    decreases s.len(),
{
    if s.len() > 0 && is_ws_char(s[0]) {
        lemma_trim_front_first(s.drop_first());
    }
}

/// A nonempty back-trimmed sequence does not end with whitespace.
proof fn lemma_trim_back_last(s: Seq<char>)
    ensures
        trim_back(s).len() > 0 ==> !is_ws_char(trim_back(s).last()),
    decreases s.len(),
{
    if s.len() > 0 && is_ws_char(s.last()) {
        lemma_trim_back_last(s.drop_last());
    }
}

/// A nonempty trimmed sequence neither starts nor ends with
/// whitespace.
pub proof fn lemma_trim_props(s: Seq<char>)
    ensures
        spec_trim(s).len() <= s.len(),
        spec_trim(s).len() > 0 ==> !is_ws_char(spec_trim(s)[0]),
        spec_trim(s).len() > 0 ==> !is_ws_char(spec_trim(s).last()),
{
    let u = trim_front(s);
    let t = trim_back(u);
    lemma_trim_front_suffix(s);
    lemma_trim_back_prefix(u);
    lemma_trim_back_last(u);
    lemma_trim_front_first(s);
    assert(t.len() > 0 ==> t[0] == u[0]);
}

/// A character absent from a sequence is absent from its trim.
pub proof fn lemma_trim_no_char(s: Seq<char>, c: char)
    requires
        forall|m: int| 0 <= m < s.len() ==> #[trigger] s[m] != c,
    ensures
        forall|k: int| 0 <= k < spec_trim(s).len() ==> #[trigger] spec_trim(s)[k] != c,
{
    let u = trim_front(s);
    let t = trim_back(u);
    lemma_trim_front_suffix(s);
    lemma_trim_back_prefix(u);
    assert forall|k: int| 0 <= k < t.len() implies #[trigger] t[k] != c by {
        assert(t[k] == u[k]);
        assert(u[k] == s[k + s.len() - u.len()]);
    }
}

/// Trimming is idempotent.
pub proof fn lemma_trim_idempotent(s: Seq<char>)
    ensures
        spec_trim(spec_trim(s)) == spec_trim(s),
{
    let t = spec_trim(s);
    lemma_trim_props(s);
    if t.len() == 0 {
        assert(trim_front(t) == t);
        assert(trim_back(t) == t);
    } else {
        assert(trim_front(t) == t);
        assert(trim_back(t) == t);
    }
}

/// The segments of a sequence split on commas; a sequence without a
/// comma is one segment, and each comma separates two (possibly
/// empty) segments.
pub open spec fn split_commas(s: Seq<char>) -> Seq<Seq<char>>
    decreases s.len(),
{
    if s.len() == 0 {
        seq![Seq::<char>::empty()]
    } else if s[0] == ',' {
        seq![Seq::<char>::empty()] + split_commas(s.drop_first())
    } else {
        let rest = split_commas(s.drop_first());
        seq![seq![s[0]] + rest[0]] + rest.drop_first()
    }
}

/// Trims each segment and drops the segments that are then empty.
pub open spec fn clean_list(parts: Seq<Seq<char>>) -> Seq<Seq<char>>
    decreases parts.len(),
{
    if parts.len() == 0 {
        Seq::<Seq<char>>::empty()
    } else {
        let w = spec_trim(parts[0]);
        (if w.len() > 0 {
            seq![w]
        } else {
            Seq::<Seq<char>>::empty()
        }) + clean_list(parts.drop_first())
    }
}

/// The keyword list a comma-separated string denotes: split on
/// commas, trim each segment, drop the empty ones.
pub open spec fn clean_keywords(s: Seq<char>) -> Seq<Seq<char>> {
    clean_list(split_commas(s))
}

/// When the first `j` characters hold no comma and position `j` (if
/// any) holds one, the first split segment is exactly those `j`
/// characters.
proof fn lemma_split_commas_at(s: Seq<char>, j: int)
    requires
        0 <= j <= s.len(),
        forall|m: int| 0 <= m < j ==> #[trigger] s[m] != ',',
        j == s.len() || s[j] == ',',
    ensures
        split_commas(s) == seq![s.take(j)] + (if j == s.len() {
            Seq::<Seq<char>>::empty()
        } else {
            split_commas(s.skip(j + 1))
        }),
    decreases j,
{
    if s.len() == 0 {
        assert(s.take(0) =~= Seq::<char>::empty());
        assert(seq![s.take(j)] + Seq::<Seq<char>>::empty() =~= seq![s.take(j)]);
        assert(split_commas(s) =~= seq![s.take(j)]);
    } else if j == 0 {
        assert(s[0] == ',');
        assert(s.take(0) =~= Seq::<char>::empty());
        assert(s.drop_first() =~= s.skip(1));
        assert(split_commas(s) =~= seq![s.take(0)] + split_commas(s.skip(1)));
    } else {
        let t = s.drop_first();
        assert(forall|m: int| 0 <= m < j - 1 ==> #[trigger] t[m] == s[m + 1]);
        lemma_split_commas_at(t, j - 1);
        let tail: Seq<Seq<char>> = if j - 1 == t.len() {
            Seq::<Seq<char>>::empty()
        } else {
            split_commas(t.skip(j))
        };
        assert(split_commas(t) == seq![t.take(j - 1)] + tail);
        assert(split_commas(t)[0] == t.take(j - 1));
        assert(seq![s[0]] + t.take(j - 1) =~= s.take(j));
        assert(split_commas(t).drop_first() =~= tail);
        if j < s.len() {
            assert(t.skip(j) =~= s.skip(j + 1));
        }
        assert(split_commas(s) =~= seq![s.take(j)] + (if j == s.len() {
            Seq::<Seq<char>>::empty()
        } else {
            split_commas(s.skip(j + 1))
        }));
    }
}

/// Splits a comma-separated keyword string, trims each segment, and
/// drops the empty ones, in order.
pub fn split_keywords(s: &str) -> (r: Vec<String>)
    ensures
        r.deep_view() == clean_keywords(s@),
{
    let n = s.unicode_len();
    let ghost full = clean_keywords(s@);
    let mut acc: Vec<String> = Vec::new();
    let mut start: usize = 0;
    proof {
        assert(acc.deep_view() =~= Seq::<Seq<char>>::empty());
        assert(s@.skip(0) =~= s@);
        assert(Seq::<Seq<char>>::empty() + clean_keywords(s@) =~= clean_keywords(s@));
    }
    loop
        invariant_except_break
            n == s@.len(),
            0 <= start <= n,
            full == clean_keywords(s@),
            full == acc.deep_view() + clean_list(split_commas(s@.skip(start as int))),
        ensures
            acc.deep_view() == full,
        decreases n - start,
    {
        let mut i: usize = start;
        while i < n && s.get_char(i) != ','
            invariant
                start <= i <= n,
                n == s@.len(),
                forall|m: int| start <= m < i ==> s@[m] != ',',
            decreases n - i,
        {
            i += 1;
        }
        let seg = s.substring_char(start, i);
        let w = trim(seg);
        let ghost rest = s@.skip(start as int);
        let ghost tail: Seq<Seq<char>> = if i == n {
            Seq::<Seq<char>>::empty()
        } else {
            split_commas(s@.skip(i + 1 as int))
        };
        proof {
            assert(forall|m: int|
                0 <= m < i - start ==> #[trigger] rest[m] == s@[m + start] && rest[m] != ',');
            lemma_split_commas_at(rest, i - start as int);
            assert(rest.take(i - start as int) =~= s@.subrange(start as int, i as int));
            if i < n {
                assert(rest.skip(i - start + 1 as int) =~= s@.skip(i + 1 as int));
            }
            assert(split_commas(rest) == seq![seg@] + tail);
            // distribute clean_list over the leading segment
            assert((seq![seg@] + tail).drop_first() =~= tail);
            assert(clean_list(split_commas(rest)) == (if spec_trim(seg@).len() > 0 {
                seq![spec_trim(seg@)]
            } else {
                Seq::<Seq<char>>::empty()
            }) + clean_list(tail));
        }
        if !w.is_empty() {
            let ghost acc0 = acc.deep_view();
            acc.push(String::from_str(w));
            proof {
                assert(acc.deep_view() =~= acc0 + seq![w@]);
                assert(acc0 + seq![w@] + clean_list(tail) =~= acc0 + (seq![w@] + clean_list(
                    tail,
                )));
            }
        } else {
            proof {
                assert(acc.deep_view() + (Seq::<Seq<char>>::empty() + clean_list(tail))
                    =~= acc.deep_view() + clean_list(tail));
            }
        }
        if i == n {
            proof {
                assert(clean_list(Seq::<Seq<char>>::empty()) =~= Seq::<Seq<char>>::empty());
                assert(acc.deep_view() + Seq::<Seq<char>>::empty() =~= acc.deep_view());
            }
            break ;
        }
        start = i + 1;
    }
    acc
}

/// The segments joined with the separator between each two.
pub open spec fn join_sep(parts: Seq<Seq<char>>, sep: Seq<char>) -> Seq<char>
    decreases parts.len(),
{
    if parts.len() == 0 {
        Seq::<char>::empty()
    } else if parts.len() == 1 {
        parts[0]
    } else {
        parts[0] + sep + join_sep(parts.drop_first(), sep)
    }
}

/// Joining one more segment appends the separator and the segment.
proof fn lemma_join_snoc(ps: Seq<Seq<char>>, sep: Seq<char>, i: int)
    requires
        1 <= i < ps.len(),
    ensures
        join_sep(ps.take(i + 1), sep) == join_sep(ps.take(i), sep) + sep + ps[i],
    decreases i,
{
    if i == 1 {
        assert(ps.take(2).drop_first() =~= seq![ps[1]]);
        assert(ps.take(2)[0] == ps[0]);
        assert(seq![ps[1]].len() == 1);
        assert(join_sep(seq![ps[1]], sep) == seq![ps[1]][0]);
        assert(seq![ps[1]][0] == ps[1]);
        assert(join_sep(ps.take(2), sep) == ps[0] + sep + ps[1]);
        assert(ps.take(1)[0] == ps[0]);
        assert(join_sep(ps.take(1), sep) == ps[0]);
    } else {
        let t = ps.drop_first();
        lemma_join_snoc(t, sep, i - 1);
        assert(ps.take(i + 1).drop_first() =~= t.take(i));
        assert(ps.take(i).drop_first() =~= t.take(i - 1));
        assert(ps.take(i + 1)[0] == ps[0]);
        assert(ps.take(i)[0] == ps[0]);
        assert(join_sep(ps.take(i + 1), sep) == ps[0] + sep + join_sep(t.take(i), sep));
        assert(join_sep(ps.take(i), sep) == ps[0] + sep + join_sep(t.take(i - 1), sep));
        assert(t[i - 1] == ps[i]);
        assert(ps[0] + sep + (join_sep(t.take(i - 1), sep) + sep + ps[i]) =~= (ps[0] + sep
            + join_sep(t.take(i - 1), sep)) + sep + ps[i]);
    }
}

/// Joins keyword segments with a comma and a space between each two.
pub fn join_keywords(parts: &Vec<String>) -> (r: String)
    ensures
        r@ == join_sep(parts.deep_view(), ", "@),
{
    if parts.len() == 0 {
        proof {
            assert(parts.deep_view().len() == 0);
        }
        return String::new();
    }
    let mut r = parts[0].clone();
    proof {
        assert(parts.deep_view().take(1) =~= seq![parts.deep_view()[0]]);
        assert(parts.deep_view()[0] == parts[0]@);
    }
    let mut i: usize = 1;
    while i < parts.len()
        invariant
            1 <= i <= parts.len(),
            parts.deep_view().len() == parts.len(),
            r@ == join_sep(parts.deep_view().take(i as int), ", "@),
        decreases parts.len() - i,
    {
        r.append(", ");
        r.append(parts[i].as_str());
        proof {
            lemma_join_snoc(parts.deep_view(), ", "@, i as int);
            assert(parts.deep_view()[i as int] == parts[i as int]@);
        }
        i += 1;
    }
    proof {
        assert(parts.deep_view().take(parts.len() as int) =~= parts.deep_view());
    }
    r
}

/// The decimal digit character for a value below ten.
pub open spec fn dec_digit(d: int) -> char {
    if d == 0 {
        '0'
    } else if d == 1 {
        '1'
    } else if d == 2 {
        '2'
    } else if d == 3 {
        '3'
    } else if d == 4 {
        '4'
    } else if d == 5 {
        '5'
    } else if d == 6 {
        '6'
    } else if d == 7 {
        '7'
    } else if d == 8 {
        '8'
    } else {
        '9'
    }
}

/// The decimal rendering of a natural number, without sign or
/// leading zeros.
pub open spec fn dec_nat(n: nat) -> Seq<char>
    decreases n,
{
    if n < 10 {
        seq![dec_digit(n as int)]
    } else {
        dec_nat(n / 10) + seq![dec_digit((n % 10) as int)]
    }
}

/// The decimal rendering of an integer, with a leading minus sign
/// when it is negative.
pub open spec fn dec_int(c: int) -> Seq<char> {
    if c < 0 {
        seq!['-'] + dec_nat((-c) as nat)
    } else {
        dec_nat(c as nat)
    }
}

/// The one-character string for a decimal digit.
fn digit_str(d: u64) -> (r: &'static str)
    requires
        d < 10,
    ensures
        r@ == seq![dec_digit(d as int)],
{
    if d == 0 {
        proof {
            reveal_strlit("0");
            assert("0"@ =~= seq![dec_digit(0)]);
        }
        "0"
    } else if d == 1 {
        proof {
            reveal_strlit("1");
            assert("1"@ =~= seq![dec_digit(1)]);
        }
        "1"
    } else if d == 2 {
        proof {
            reveal_strlit("2");
            assert("2"@ =~= seq![dec_digit(2)]);
        }
        "2"
    } else if d == 3 {
        proof {
            reveal_strlit("3");
            assert("3"@ =~= seq![dec_digit(3)]);
        }
        "3"
    } else if d == 4 {
        proof {
            reveal_strlit("4");
            assert("4"@ =~= seq![dec_digit(4)]);
        }
        "4"
    } else if d == 5 {
        proof {
            reveal_strlit("5");
            assert("5"@ =~= seq![dec_digit(5)]);
        }
        "5"
    } else if d == 6 {
        proof {
            reveal_strlit("6");
            assert("6"@ =~= seq![dec_digit(6)]);
        }
        "6"
    } else if d == 7 {
        proof {
            reveal_strlit("7");
            assert("7"@ =~= seq![dec_digit(7)]);
        }
        "7"
    } else if d == 8 {
        proof {
            reveal_strlit("8");
            assert("8"@ =~= seq![dec_digit(8)]);
        }
        "8"
    } else {
        proof {
            reveal_strlit("9");
            assert("9"@ =~= seq![dec_digit(9)]);
        }
        "9"
    }
}

/// Renders a natural number in decimal.
pub fn u64_to_string(n: u64) -> (r: String)
    ensures
        r@ == dec_nat(n as nat),
    decreases n,
{
    if n < 10 {
        String::from_str(digit_str(n))
    } else {
        let mut r = u64_to_string(n / 10);
        r.append(digit_str(n % 10));
        r
    }
}

/// Renders a signed integer in decimal, with a minus sign when it is
/// negative.
pub fn i32_to_string(c: i32) -> (r: String)
    ensures
        r@ == dec_int(c as int),
{
    if c < 0 {
        let mag: u64 = (-(c as i64)) as u64;
        let mut r = String::from_str("-");
        r.append(u64_to_string(mag).as_str());
        proof {
            reveal_strlit("-");
            assert("-"@ =~= seq!['-']);
        }
        r
    } else {
        u64_to_string(c as u64)
    }
}

/// A sequence that holds no comma.
spec fn no_comma(w: Seq<char>) -> bool {
    forall|k: int| 0 <= k < w.len() ==> w[k] != ','
}

/// A word as keyword cleaning produces it: nonempty, comma-free and
/// already trimmed.
spec fn clean_word(w: Seq<char>) -> bool {
    w.len() > 0 && no_comma(w) && spec_trim(w) == w
}

/// Every word of a list is a clean word.
spec fn all_clean(ks: Seq<Seq<char>>) -> bool {
    forall|i: int| 0 <= i < ks.len() ==> clean_word(#[trigger] ks[i])
}

/// No segment of a comma split holds a comma.
proof fn lemma_split_no_comma(s: Seq<char>)
    ensures
        forall|i: int| 0 <= i < split_commas(s).len() ==> no_comma(#[trigger] split_commas(s)[i]),
    decreases s.len(),
{
    if s.len() == 0 {
    } else if s[0] == ',' {
        lemma_split_no_comma(s.drop_first());
        let rest = split_commas(s.drop_first());
        assert forall|i: int| 0 <= i < split_commas(s).len() implies no_comma(
            #[trigger] split_commas(s)[i],
        ) by {
            if i > 0 {
                assert(split_commas(s)[i] == rest[i - 1]);
            }
        }
    } else {
        lemma_split_no_comma(s.drop_first());
        let rest = split_commas(s.drop_first());
        assert forall|i: int| 0 <= i < split_commas(s).len() implies no_comma(
            #[trigger] split_commas(s)[i],
        ) by {
            if i == 0 {
                let w = seq![s[0]] + rest[0];
                assert(split_commas(s)[0] == w);
                assert(no_comma(rest[0]));
                assert forall|k: int| 0 <= k < w.len() implies w[k] != ',' by {
                    if k > 0 {
                        assert(w[k] == rest[0][k - 1]);
                    }
                }
            } else {
                assert(split_commas(s)[i] == rest.drop_first()[i - 1]);
                assert(rest.drop_first()[i - 1] == rest[i]);
            }
        }
    }
}

/// Cleaning comma-free segments yields clean words.
proof fn lemma_clean_list_clean(parts: Seq<Seq<char>>)
    requires
        forall|i: int| 0 <= i < parts.len() ==> no_comma(#[trigger] parts[i]),
    ensures
        all_clean(clean_list(parts)),
    decreases parts.len(),
{
    if parts.len() > 0 {
        let w = spec_trim(parts[0]);
        lemma_clean_list_clean(parts.drop_first());
        let tail = clean_list(parts.drop_first());
        lemma_trim_no_char(parts[0], ',');
        lemma_trim_idempotent(parts[0]);
        assert forall|i: int| 0 <= i < clean_list(parts).len() implies clean_word(
            #[trigger] clean_list(parts)[i],
        ) by {
            if w.len() > 0 {
                if i == 0 {
                    assert(clean_list(parts)[0] == w);
                } else {
                    assert(clean_list(parts)[i] == tail[i - 1]);
                }
            } else {
                assert(clean_list(parts)[i] == tail[i]);
            }
        }
    }
}

/// A leading space changes nothing of the cleaned keyword list.
proof fn lemma_clean_space_prefix(t: Seq<char>)
    ensures
        clean_keywords(seq![' '] + t) == clean_keywords(t),
{
    let s = seq![' '] + t;
    assert(s.len() > 0 && s[0] == ' ');
    assert(s[0] != ',');
    let rest = split_commas(t);
    assert(s.drop_first() =~= t);
    assert(split_commas(s) == seq![seq![s[0]] + rest[0]] + rest.drop_first());
    let w0 = seq![s[0]] + rest[0];
    // trimming drops the added leading space
    assert(w0.len() > 0 && is_ws_char(w0[0]));
    assert(w0.drop_first() =~= rest[0]);
    assert(trim_front(w0) == trim_front(rest[0]));
    assert(spec_trim(w0) == spec_trim(rest[0]));
    // both splits then clean segment for segment alike
    assert(split_commas(s)[0] == w0);
    assert(split_commas(s).drop_first() =~= rest.drop_first());
    assert(rest.len() > 0 ==> rest[0] == rest[0]);
    lemma_split_nonempty(t);
    assert(clean_list(split_commas(s)) == (if spec_trim(w0).len() > 0 {
        seq![spec_trim(w0)]
    } else {
        Seq::<Seq<char>>::empty()
    }) + clean_list(rest.drop_first()));
    assert(clean_list(rest) == (if spec_trim(rest[0]).len() > 0 {
        seq![spec_trim(rest[0])]
    } else {
        Seq::<Seq<char>>::empty()
    }) + clean_list(rest.drop_first()));
}

/// A comma split always yields at least one segment.
proof fn lemma_split_nonempty(s: Seq<char>)
    ensures
        split_commas(s).len() > 0,
    decreases s.len(),
{
    if s.len() > 0 {
        lemma_split_nonempty(s.drop_first());
    }
}

/// Cleaning the join of clean words gives the words back.
proof fn lemma_clean_of_join(ks: Seq<Seq<char>>)
    requires
        ks.len() > 0,
        all_clean(ks),
    ensures
        clean_keywords(join_sep(ks, ", "@)) == ks,
    decreases ks.len(),
{
    let sep = ", "@;
    reveal_strlit(", ");
    assert(sep =~= seq![',', ' ']);
    if ks.len() == 1 {
        let w = ks[0];
        assert(clean_word(w));
        assert(join_sep(ks, sep) == w);
        lemma_split_commas_at(w, w.len() as int);
        assert(w.take(w.len() as int) =~= w);
        assert(split_commas(w) =~= seq![w]);
        assert(seq![w].drop_first() =~= Seq::<Seq<char>>::empty());
        assert(clean_list(seq![w]) == seq![spec_trim(w)] + clean_list(Seq::<Seq<char>>::empty()));
        assert(clean_list(seq![w]) =~= seq![w]);
        assert(clean_keywords(join_sep(ks, sep)) =~= ks);
    } else {
        let w0 = ks[0];
        let rest = ks.drop_first();
        let jr = join_sep(rest, sep);
        let s = w0 + sep + jr;
        assert(join_sep(ks, sep) == s);
        assert(clean_word(w0));
        // the first comma of the join stands right after the first word
        assert forall|m: int| 0 <= m < w0.len() implies #[trigger] s[m] != ',' by {
            assert(s[m] == w0[m]);
        }
        assert(s[w0.len() as int] == ',');
        lemma_split_commas_at(s, w0.len() as int);
        assert(s.take(w0.len() as int) =~= w0);
        assert(s.skip(w0.len() as int + 1) =~= seq![' '] + jr);
        assert(split_commas(s) == seq![w0] + split_commas(seq![' '] + jr));
        // the leading space is trimmed away, and the rest recurses
        lemma_clean_space_prefix(jr);
        assert(all_clean(rest)) by {
            assert(forall|i: int|
                0 <= i < rest.len() ==> #[trigger] rest[i] == ks[i + 1] && clean_word(ks[i + 1]));
        }
        lemma_clean_of_join(rest);
        let tail = split_commas(seq![' '] + jr);
        assert((seq![w0] + tail).drop_first() =~= tail);
        assert(clean_list(seq![w0] + tail) == seq![spec_trim(w0)] + clean_list(tail));
        assert(clean_keywords(s) =~= seq![w0] + clean_keywords(seq![' '] + jr));
        assert(seq![w0] + rest =~= ks);
    }
}

/// Cleaning a keyword string is idempotent: when splitting on
/// commas, trimming and dropping empties leaves at least one
/// keyword, cleaning the keywords rejoined with ", " yields the same
/// list again.
pub proof fn lemma_clean_keywords_idempotent(s: Seq<char>)
    requires
        clean_keywords(s).len() > 0,
    ensures
        clean_keywords(join_sep(clean_keywords(s), ", "@)) == clean_keywords(s),
{
    lemma_split_no_comma(s);
    lemma_clean_list_clean(split_commas(s));
    lemma_clean_of_join(clean_keywords(s));
}

/// Compares two strings character for character.
pub fn str_eq(a: &str, b: &str) -> (r: bool)
    ensures
        r == (a@ == b@),
{
    let an = a.unicode_len();
    let bn = b.unicode_len();
    if an != bn {
        return false;
    }
    let mut i: usize = 0;
    while i < an
        invariant
            0 <= i <= an,
            an == a@.len(),
            an == b@.len(),
            forall|m: int| 0 <= m < i ==> a@[m] == b@[m],
        decreases an - i,
    {
        if a.get_char(i) != b.get_char(i) {
            return false;
        }
        i += 1;
    }
    proof {
        assert(a@ =~= b@);
    }
    true
}

} // verus!
