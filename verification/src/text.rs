//! Text helpers shared by the rest of the library: ordering of strings,
//! prefix/suffix handling, pattern replacement and decimal rendering.

use vstd::prelude::*;

verus! {

/// Strict lexicographic order on character sequences, comparing characters by
/// their scalar value. This is the order `String` uses (UTF-8 preserves the
/// order of scalar values).
pub open spec fn text_lt(a: Seq<char>, b: Seq<char>) -> bool
    decreases a.len(),
{
    if a.len() == 0 {
        b.len() > 0
    } else if b.len() == 0 {
        false
    } else if a[0] != b[0] {
        (a[0] as int) < (b[0] as int)
    } else {
        text_lt(a.drop_first(), b.drop_first())
    }
}

/// The text order compares texts by their first differing character, by
/// scalar value; a text comes before every longer text it begins.
pub proof fn law_text_order(a: Seq<char>, b: Seq<char>)
    ensures
        text_lt(a, b) <==> {
            ||| (a.len() < b.len() && b.take(a.len() as int) == a)
            ||| exists|i: int|
                0 <= i < a.len() && i < b.len() && #[trigger] a.take(i) == b.take(i) && (a[i] as int)
                    < (b[i] as int)
        },
    decreases a.len(),
{
    if a.len() == 0 {
        assert(b.take(0) =~= a);
    } else if b.len() == 0 {
    } else if a[0] != b[0] {
        assert(a.take(0) =~= b.take(0));
        if (a.len() < b.len() && b.take(a.len() as int) == a) {
            assert(b.take(a.len() as int)[0] == b[0]);
        }
        if exists|i: int|
            0 <= i < a.len() && i < b.len() && #[trigger] a.take(i) == b.take(i) && (a[i] as int)
                < (b[i] as int) {
            let i = choose|i: int|
                0 <= i < a.len() && i < b.len() && #[trigger] a.take(i) == b.take(i) && (a[i] as int)
                    < (b[i] as int);
            if i > 0 {
                assert(a.take(i)[0] == b.take(i)[0]);
            }
        }
    } else {
        let a1 = a.drop_first();
        let b1 = b.drop_first();
        law_text_order(a1, b1);
        if a1.len() < b1.len() && b1.take(a1.len() as int) == a1 {
            assert forall|k: int| 0 <= k < a.len() implies #[trigger] b.take(a.len() as int)[k]
                == a[k] by {
                if k > 0 {
                    assert(b1.take(a1.len() as int)[k - 1] == a1[k - 1]);
                }
            }
            assert(b.take(a.len() as int) =~= a);
        }
        if a.len() < b.len() && b.take(a.len() as int) == a {
            assert(b1.take(a1.len() as int) =~= a1);
        }
        if exists|j: int|
            0 <= j < a1.len() && j < b1.len() && #[trigger] a1.take(j) == b1.take(j) && (a1[j] as int)
                < (b1[j] as int) {
            let j = choose|j: int|
                0 <= j < a1.len() && j < b1.len() && #[trigger] a1.take(j) == b1.take(j) && (a1[j] as int)
                    < (b1[j] as int);
            assert(a.take(j + 1) =~= b.take(j + 1)) by {
                assert forall|k: int| 0 <= k < j + 1 implies #[trigger] a.take(j + 1)[k] == b.take(j + 1)[k] by {
                    if k > 0 {
                        assert(a1.take(j)[k - 1] == b1.take(j)[k - 1]);
                    }
                }
            }
            assert(a[j + 1] == a1[j] && b[j + 1] == b1[j]);
        }
        if exists|i: int|
            0 <= i < a.len() && i < b.len() && #[trigger] a.take(i) == b.take(i) && (a[i] as int)
                < (b[i] as int) {
            let i = choose|i: int|
                0 <= i < a.len() && i < b.len() && #[trigger] a.take(i) == b.take(i) && (a[i] as int)
                    < (b[i] as int);
            assert(i > 0);
            assert(a1.take(i - 1) =~= b1.take(i - 1)) by {
                assert forall|k: int| 0 <= k < i - 1 implies #[trigger] a1.take(i - 1)[k] == b1.take(i - 1)[k] by {
                    assert(a.take(i)[k + 1] == b.take(i)[k + 1]);
                }
            }
            assert(a1[i - 1] == a[i] && b1[i - 1] == b[i]);
        }
    }
}

/// The text order is transitive.
pub proof fn lemma_text_lt_transitive(a: Seq<char>, b: Seq<char>, c: Seq<char>)
    requires
        text_lt(a, b),
        text_lt(b, c),
    ensures
        text_lt(a, c),
    decreases a.len(),
{
    if a.len() > 0 && b.len() > 0 && c.len() > 0 {
        if a[0] == b[0] && b[0] == c[0] {
            lemma_text_lt_transitive(a.drop_first(), b.drop_first(), c.drop_first());
        }
    }
}

/// Any two different texts are ordered one way or the other.
pub proof fn lemma_text_lt_total(a: Seq<char>, b: Seq<char>)
    requires
        a != b,
    ensures
        text_lt(a, b) || text_lt(b, a),
    decreases a.len(),
{
    if a.len() > 0 && b.len() > 0 {
        if a[0] == b[0] {
            if a.drop_first() == b.drop_first() {
                assert(a =~= seq![a[0]] + a.drop_first());
                assert(b =~= seq![b[0]] + b.drop_first());
            }
            lemma_text_lt_total(a.drop_first(), b.drop_first());
        } else {
            assert((a[0] as int) != (b[0] as int));
        }
    } else if a.len() == 0 && b.len() == 0 {
        assert(a =~= b);
    }
}

proof fn lemma_text_lt_skip(a: Seq<char>, b: Seq<char>, i: int)
    requires
        0 <= i < a.len(),
        i < b.len(),
        a[i] == b[i],
    ensures
        text_lt(a.skip(i), b.skip(i)) == text_lt(a.skip(i + 1), b.skip(i + 1)),
{
    assert(a.skip(i).drop_first() =~= a.skip(i + 1));
    assert(b.skip(i).drop_first() =~= b.skip(i + 1));
}

/// Whether `a` comes strictly before `b` in text order.
pub fn text_less(a: &String, b: &String) -> (r: bool)
    ensures
        r == text_lt(a@, b@),
{
    let sa = a.as_str();
    let sb = b.as_str();
    let la = sa.unicode_len();
    let lb = sb.unicode_len();
    let mut i: usize = 0;
    assert(a@.skip(0) =~= a@);
    assert(b@.skip(0) =~= b@);
    while i < la && i < lb
        invariant
            la == a@.len(),
            lb == b@.len(),
            sa@ == a@,
            sb@ == b@,
            i <= la,
            i <= lb,
            text_lt(a@, b@) == text_lt(a@.skip(i as int), b@.skip(i as int)),
        decreases la - i,
    {
        let ca = sa.get_char(i);
        let cb = sb.get_char(i);
        if ca != cb {
            assert(a@.skip(i as int)[0] == ca);
            assert(b@.skip(i as int)[0] == cb);
            return ca < cb;
        }
        proof {
            lemma_text_lt_skip(a@, b@, i as int);
        }
        i = i + 1;
    }
    i < lb
}

/// Whether two texts are equal.
pub fn text_eq(a: &str, b: &str) -> (r: bool)
    ensures
        r == (a@ == b@),
{
    let la = a.unicode_len();
    let lb = b.unicode_len();
    if la != lb {
        return false;
    }
    let mut i: usize = 0;
    while i < la
        invariant
            la == a@.len(),
            lb == b@.len(),
            la == lb,
            i <= la,
            forall|j: int| 0 <= j < i ==> a@[j] == b@[j],
        decreases la - i,
    {
        if a.get_char(i) != b.get_char(i) {
            return false;
        }
        i = i + 1;
    }
    assert(a@ =~= b@);
    true
}

/// The part of `s` after the last `sep` (all of `s` when `sep` does not
/// occur), as `s.split(sep).next_back()` yields it.
pub open spec fn last_segment(s: Seq<char>, sep: char) -> Seq<char>
    decreases s.len(),
{
    if s.len() == 0 {
        s
    } else if s.last() == sep {
        Seq::empty()
    } else {
        last_segment(s.drop_last(), sep).push(s.last())
    }
}

proof fn lemma_last_segment_after(s: Seq<char>, sep: char, p: int)
    requires
        0 <= p < s.len(),
        s[p] == sep,
        forall|j: int| p < j < s.len() ==> s[j] != sep,
    ensures
        last_segment(s, sep) == s.subrange(p + 1, s.len() as int),
    decreases s.len(),
{
    if p == s.len() - 1 {
        assert(s.subrange(p + 1, s.len() as int) =~= Seq::<char>::empty());
    } else {
        lemma_last_segment_after(s.drop_last(), sep, p);
        assert(s.subrange(p + 1, s.len() as int) =~= s.drop_last().subrange(
            p + 1,
            s.len() - 1,
        ).push(s.last()));
    }
}

proof fn lemma_last_segment_whole(s: Seq<char>, sep: char)
    requires
        forall|j: int| 0 <= j < s.len() ==> s[j] != sep,
    ensures
        last_segment(s, sep) == s,
    decreases s.len(),
{
    if s.len() > 0 {
        lemma_last_segment_whole(s.drop_last(), sep);
        assert(s.drop_last().push(s.last()) =~= s);
    }
}

/// The part of `s` after its last `sep` (all of `s` when there is none).
pub fn last_segment_of(s: &str, sep: char) -> (r: &str)
    ensures
        r@ == last_segment(s@, sep),
{
    let len = s.unicode_len();
    let mut i: usize = len;
    while i > 0
        invariant
            len == s@.len(),
            i <= len,
            forall|j: int| i <= j < len ==> s@[j] != sep,
        decreases i,
    {
        if s.get_char(i - 1) == sep {
            proof {
                lemma_last_segment_after(s@, sep, i - 1);
            }
            return s.substring_char(i, len);
        }
        i = i - 1;
    }
    proof {
        lemma_last_segment_whole(s@, sep);
        assert(s@.subrange(0, len as int) =~= s@);
    }
    s.substring_char(0, len)
}

/// The lowercase form of a text, as `str::to_lowercase` computes it (Unicode
/// lowercase mapping).
pub uninterp spec fn lowercase(s: Seq<char>) -> Seq<char>;

/// ASCII lowercase mapping: `A`..`Z` become `a`..`z`, every other character
/// is kept.
pub open spec fn ascii_lowercase(s: Seq<char>) -> Seq<char> {
    Seq::new(
        s.len(),
        |i: int|
            if 'A' <= s[i] && s[i] <= 'Z' {
                ((s[i] as u32) + 32) as char
            } else {
                s[i]
            },
    )
}

/// Lowercasing ASCII letters keeps every character that is not a letter
/// where it is, so a text holds such a character exactly when its lowercase
/// form does.
pub proof fn lemma_ascii_lowercase_contains(s: Seq<char>, c: char)
    requires
        !('A' <= c && c <= 'Z'),
        !('a' <= c && c <= 'z'),
    ensures
        ascii_lowercase(s).contains(c) == s.contains(c),
{
    let t = ascii_lowercase(s);
    if s.contains(c) {
        let i = choose|i: int| 0 <= i < s.len() && s[i] == c;
        assert(t[i] == c);
    }
    if t.contains(c) {
        let i = choose|i: int| 0 <= i < t.len() && t[i] == c;
        assert(s[i] == c);
    }
}

/// Whether `s` holds the character `c`.
pub fn contains_char(s: &str, c: char) -> (r: bool)
    ensures
        r == s@.contains(c),
{
    let len = s.unicode_len();
    let mut i: usize = 0;
    while i < len
        invariant
            len == s@.len(),
            i <= len,
            forall|j: int| 0 <= j < i ==> s@[j] != c,
        decreases len - i,
    {
        if s.get_char(i) == c {
            assert(s@[i as int] == c);
            return true;
        }
        i = i + 1;
    }
    false
}

/// The part after the last separator of an ASCII text is ASCII too.
pub proof fn lemma_last_segment_ascii(s: Seq<char>, sep: char)
    requires
        vstd::utf8::is_ascii_chars(s),
    ensures
        vstd::utf8::is_ascii_chars(last_segment(s, sep)),
    decreases s.len(),
{
    if s.len() > 0 && s.last() != sep {
        lemma_last_segment_ascii(s.drop_last(), sep);
        let t = last_segment(s.drop_last(), sep);
        assert forall|i: int| 0 <= i < t.push(s.last()).len() implies '\0' <= #[trigger] t.push(
            s.last(),
        )[i] <= '\u{7f}' by {
            if i < t.len() {
                assert(t.push(s.last())[i] == t[i]);
            }
        }
    }
}

/// For a separator that is not a letter, lowercasing the ASCII letters of a
/// text and taking the part after its last separator can be done in either
/// order.
pub proof fn lemma_last_segment_ascii_lowercase(s: Seq<char>, sep: char)
    requires
        !('A' <= sep && sep <= 'Z'),
        !('a' <= sep && sep <= 'z'),
    ensures
        last_segment(ascii_lowercase(s), sep) == ascii_lowercase(last_segment(s, sep)),
    decreases s.len(),
{
    let t = ascii_lowercase(s);
    if s.len() == 0 {
        assert(ascii_lowercase(s) =~= Seq::<char>::empty());
    } else {
        assert(t.drop_last() =~= ascii_lowercase(s.drop_last()));
        assert(t.last() == t[s.len() - 1]);
        if s.last() == sep {
            assert(t.last() == sep);
            assert(ascii_lowercase(Seq::<char>::empty()) =~= Seq::<char>::empty());
        } else {
            assert(t.last() != sep);
            lemma_last_segment_ascii_lowercase(s.drop_last(), sep);
            let u = last_segment(s.drop_last(), sep);
            assert(ascii_lowercase(u.push(s.last())) =~= ascii_lowercase(u).push(t.last()));
        }
    }
}

/// Calls `str::to_lowercase`. Claims that the result is the string's
/// lowercase form (a function of the string alone); that, on ASCII text, it
/// maps `A`..`Z` to `a`..`z` and keeps every other character, as the standard
/// library documents for ASCII; and that lowercasing the ASCII letters first
/// changes nothing: the Unicode lowercase of `A`..`Z` is `a`..`z`, that of
/// `a`..`z` is themselves, and ASCII letters of either case count alike as
/// cased letters in the one context-dependent rule (the final sigma).
#[verifier::external_body]
pub(crate) fn to_lowercase(s: &str) -> (r: String)
    ensures
        r@ == lowercase(s@),
        r@ == lowercase(ascii_lowercase(s@)),
        vstd::utf8::is_ascii_chars(s@) ==> r@ == ascii_lowercase(s@),
{
    s.to_lowercase()
}

/// `s` without the leading run of `c` characters.
pub open spec fn trim_start(s: Seq<char>, c: char) -> Seq<char>
    decreases s.len(),
{
    if s.len() > 0 && s[0] == c {
        trim_start(s.drop_first(), c)
    } else {
        s
    }
}

/// `s` without its leading `c` characters, as `str::trim_start_matches(c)`.
pub fn trim_start_char(s: &str, c: char) -> (r: &str)
    ensures
        r@ == trim_start(s@, c),
{
    let len = s.unicode_len();
    let mut i: usize = 0;
    assert(s@.skip(0) =~= s@);
    while i < len && s.get_char(i) == c
        invariant
            len == s@.len(),
            i <= len,
            trim_start(s@, c) == trim_start(s@.skip(i as int), c),
        decreases len - i,
    {
        assert(s@.skip(i as int).drop_first() =~= s@.skip(i + 1));
        i = i + 1;
    }
    assert(s@.subrange(i as int, len as int) =~= s@.skip(i as int));
    s.substring_char(i, len)
}

/// `s` begins with `prefix`.
pub open spec fn has_prefix(s: Seq<char>, prefix: Seq<char>) -> bool {
    prefix.len() <= s.len() && s.take(prefix.len() as int) == prefix
}

/// Whether `s` begins with `prefix`.
pub fn starts_with(s: &str, prefix: &str) -> (r: bool)
    ensures
        r == has_prefix(s@, prefix@),
{
    let ls = s.unicode_len();
    let lp = prefix.unicode_len();
    if lp > ls {
        return false;
    }
    let mut i: usize = 0;
    while i < lp
        invariant
            ls == s@.len(),
            lp == prefix@.len(),
            lp <= ls,
            i <= lp,
            forall|j: int| 0 <= j < i ==> s@[j] == prefix@[j],
        decreases lp - i,
    {
        if s.get_char(i) != prefix.get_char(i) {
            assert(s@.take(lp as int)[i as int] != prefix@[i as int]);
            return false;
        }
        i = i + 1;
    }
    assert(s@.take(lp as int) =~= prefix@);
    true
}

/// `s` with every occurrence of `pat` replaced by `rep`, scanning left to
/// right without overlaps, as `str::replace` does for a non-empty pattern.
pub open spec fn replace_all(s: Seq<char>, pat: Seq<char>, rep: Seq<char>) -> Seq<char>
    decreases s.len(),
{
    if pat.len() == 0 || s.len() == 0 {
        s
    } else if has_prefix(s, pat) {
        rep + replace_all(s.skip(pat.len() as int), pat, rep)
    } else {
        seq![s[0]] + replace_all(s.drop_first(), pat, rep)
    }
}

/// `s` with every occurrence of the non-empty `pat` replaced by `rep`.
pub fn replace(s: &str, pat: &str, rep: &str) -> (r: String)
    requires
        pat@.len() > 0,
    ensures
        r@ == replace_all(s@, pat@, rep@),
{
    let len = s.unicode_len();
    let lp = pat.unicode_len();
    let mut out = String::new();
    let mut i: usize = 0;
    assert(s@.skip(0) =~= s@);
    while i < len
        invariant
            len == s@.len(),
            lp == pat@.len(),
            lp > 0,
            i <= len,
            replace_all(s@, pat@, rep@) == out@ + replace_all(s@.skip(i as int), pat@, rep@),
        decreases len - i,
    {
        let rest = s.substring_char(i, len);
        assert(rest@ =~= s@.skip(i as int));
        if starts_with(rest, pat) {
            let ghost before = out@;
            out.append(rep);
            assert(s@.skip(i as int).skip(lp as int) =~= s@.skip(i + lp));
            assert(before + (rep@ + replace_all(s@.skip(i + lp), pat@, rep@)) =~= out@
                + replace_all(s@.skip(i + lp), pat@, rep@));
            i = i + lp;
        } else {
            let c = s.substring_char(i, i + 1);
            assert(c@ =~= seq![s@[i as int]]);
            let ghost before = out@;
            out.append(c);
            assert(s@.skip(i as int).drop_first() =~= s@.skip(i + 1));
            assert(before + (seq![s@[i as int]] + replace_all(s@.skip(i + 1), pat@, rep@))
                =~= out@ + replace_all(s@.skip(i + 1), pat@, rep@));
            i = i + 1;
        }
    }
    assert(s@.skip(len as int) =~= Seq::<char>::empty());
    assert(out@ + Seq::<char>::empty() =~= out@);
    out
}

/// `s` without one trailing `c`, when it ends with one.
pub open spec fn strip_one_suffix(s: Seq<char>, c: char) -> Seq<char> {
    if s.len() > 0 && s.last() == c {
        s.drop_last()
    } else {
        s
    }
}

/// `s` without one trailing `c`, as `s.strip_suffix(c).unwrap_or(s)`.
pub fn strip_suffix_char(s: &str, c: char) -> (r: &str)
    ensures
        r@ == strip_one_suffix(s@, c),
{
    let len = s.unicode_len();
    if len > 0 && s.get_char(len - 1) == c {
        s.substring_char(0, len - 1)
    } else {
        s.substring_char(0, len)
    }
}

/// The decimal digit character for `d` (`0 <= d < 10`).
pub open spec fn digit_char(d: nat) -> char {
    if d == 0 {
        '0'
    } else if d == 1 {
        '1'
    } else if d == 2 {
        '2'
    } else if d == 3 {
        '3'
    } else if d == 4 {
        '4'
    } else if d == 5 {
        '5'
    } else if d == 6 {
        '6'
    } else if d == 7 {
        '7'
    } else if d == 8 {
        '8'
    } else {
        '9'
    }
}

/// Decimal representation of a natural number, without leading zeros.
pub open spec fn decimal(n: nat) -> Seq<char>
    decreases n,
{
    if n < 10 {
        seq![digit_char(n)]
    } else {
        decimal(n / 10).push(digit_char(n % 10))
    }
}

/// Decimal representation of an integer, with a leading `-` when negative.
pub open spec fn signed_decimal(i: int) -> Seq<char> {
    if i < 0 {
        seq!['-'] + decimal((-i) as nat)
    } else {
        decimal(i as nat)
    }
}

fn digit_text(d: u64) -> (s: &'static str)
    requires
        d < 10,
    ensures
        s@ == seq![digit_char(d as nat)],
{
    proof {
        reveal_strlit("0");
        reveal_strlit("1");
        reveal_strlit("2");
        reveal_strlit("3");
        reveal_strlit("4");
        reveal_strlit("5");
        reveal_strlit("6");
        reveal_strlit("7");
        reveal_strlit("8");
        reveal_strlit("9");
    }
    if d == 0 {
        "0"
    } else if d == 1 {
        "1"
    } else if d == 2 {
        "2"
    } else if d == 3 {
        "3"
    } else if d == 4 {
        "4"
    } else if d == 5 {
        "5"
    } else if d == 6 {
        "6"
    } else if d == 7 {
        "7"
    } else if d == 8 {
        "8"
    } else {
        "9"
    }
}

/// Appends the decimal representation of `n` to `out`.
fn push_decimal(out: &mut String, n: u64)
    ensures
        final(out)@ == old(out)@ + decimal(n as nat),
    decreases n,
{
    if n < 10 {
        out.append(digit_text(n));
    } else {
        push_decimal(out, n / 10);
        out.append(digit_text(n % 10));
        assert(decimal(n as nat) == decimal((n / 10) as nat).push(digit_char((n % 10) as nat)));
    }
}

/// The decimal representation of `v`, as `v.to_string()` renders it.
pub fn i64_to_text(v: i64) -> (s: String)
    ensures
        s@ == signed_decimal(v as int),
{
    let mut out = String::new();
    if v < 0 {
        proof {
            reveal_strlit("-");
        }
        out.append("-");
        let magnitude: u64 = if v == i64::MIN {
            9223372036854775808u64
        } else {
            (-v) as u64
        };
        push_decimal(&mut out, magnitude);
    } else {
        push_decimal(&mut out, v as u64);
        assert(out@ =~= decimal(v as nat));
    }
    out
}

} // verus!
