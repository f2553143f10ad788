use vstd::prelude::*;
use vstd::utf8::{char_is_scalar, encode_utf8};

verus! {

/// The views of a sequence of strings.
pub open spec fn views(v: Seq<String>) -> Seq<Seq<char>> {
    v.map_values(|s: String| s@)
}

/// Whether `c` has the Unicode `White_Space` property, which is what `char::is_whitespace`
/// and therefore `str::trim` go by.
pub open spec fn is_ws(c: char) -> bool {
    let u = c as u32;
    ||| 0x09 <= u <= 0x0d
    ||| u == 0x20
    ||| u == 0x85
    ||| u == 0xa0
    ||| u == 0x1680
    ||| 0x2000 <= u <= 0x200a
    ||| u == 0x2028
    ||| u == 0x2029
    ||| u == 0x202f
    ||| u == 0x205f
    ||| u == 0x3000
}

/// `s` without its leading whitespace.
pub open spec fn trim_start_spec(s: Seq<char>) -> Seq<char>
    decreases s.len(),
{
    if s.len() > 0 && is_ws(s[0]) {
        trim_start_spec(s.drop_first())
    } else {
        s
    }
}

/// `s` without its trailing whitespace.
pub open spec fn trim_end_spec(s: Seq<char>) -> Seq<char>
    decreases s.len(),
{
    if s.len() > 0 && is_ws(s.last()) {
        trim_end_spec(s.drop_last())
    } else {
        s
    }
}

/// `s` without leading and trailing whitespace, as `str::trim` gives it.
pub open spec fn trim_spec(s: Seq<char>) -> Seq<char> {
    trim_end_spec(trim_start_spec(s))
}

/// The pieces of `s` between the occurrences of `sep`, as `str::split` with a `char` gives them:
/// a string without `sep` is one piece, and each `sep` starts a new one.
pub open spec fn split_spec(s: Seq<char>, sep: char) -> Seq<Seq<char>>
    decreases s.len(),
{
    if s.len() == 0 {
        seq![Seq::<char>::empty()]
    } else {
        let prev = split_spec(s.drop_last(), sep);
        if s.last() == sep {
            prev.push(Seq::<char>::empty())
        } else {
            prev.update(prev.len() - 1, prev.last().push(s.last()))
        }
    }
}

/// The pieces that `str::splitn(n, sep)` gives: as `split_spec`, but once `n` pieces have been
/// started the rest of `s` goes into the last one.
pub open spec fn splitn_spec(s: Seq<char>, sep: char, n: nat) -> Seq<Seq<char>>
    decreases s.len(),
{
    if s.len() == 0 {
        seq![Seq::<char>::empty()]
    } else {
        let prev = splitn_spec(s.drop_last(), sep, n);
        if s.last() == sep && prev.len() < n {
            prev.push(Seq::<char>::empty())
        } else {
            prev.update(prev.len() - 1, prev.last().push(s.last()))
        }
    }
}

/// `s` without one trailing carriage return, if it has one.
pub open spec fn strip_cr(s: Seq<char>) -> Seq<char> {
    if s.len() > 0 && s.last() == '\r' {
        s.drop_last()
    } else {
        s
    }
}

/// The lines of `s`, as `str::lines` gives them: the pieces between line feeds, a carriage
/// return before a line feed dropped, and no empty last line after a final line feed.
pub open spec fn lines_spec(s: Seq<char>) -> Seq<Seq<char>> {
    let pieces = split_spec(s, '\n');
    let stripped = Seq::new(
        pieces.len(),
        |i: int|
            if i < pieces.len() - 1 {
                strip_cr(pieces[i])
            } else {
                pieces[i]
            },
    );
    if pieces.last().len() == 0 {
        stripped.drop_last()
    } else {
        stripped
    }
}

/// The `k`-th piece, or the empty string where there is none (`next().unwrap_or("")`).
pub open spec fn piece_or_empty(pieces: Seq<Seq<char>>, k: int) -> Seq<char> {
    if 0 <= k < pieces.len() {
        pieces[k]
    } else {
        Seq::<char>::empty()
    }
}

/// Whether `s` has no occurrence of `c`.
pub open spec fn lacks(s: Seq<char>, c: char) -> bool {
    forall|i: int| 0 <= i < s.len() ==> s[i] != c
}

/// The pieces joined back together with `sep` between them.
pub open spec fn join_spec(pieces: Seq<Seq<char>>, sep: char) -> Seq<char>
    decreases pieces.len(),
{
    if pieces.len() == 0 {
        Seq::<char>::empty()
    } else if pieces.len() == 1 {
        pieces[0]
    } else {
        join_spec(pieces.drop_last(), sep).push(sep) + pieces.last()
    }
}

pub proof fn lemma_split_nonempty(s: Seq<char>, sep: char)
    ensures
        split_spec(s, sep).len() >= 1,
    decreases s.len(),
{
    if s.len() > 0 {
        lemma_split_nonempty(s.drop_last(), sep);
    }
}

pub proof fn lemma_splitn_nonempty(s: Seq<char>, sep: char, n: nat)
    ensures
        splitn_spec(s, sep, n).len() >= 1,
    decreases s.len(),
{
    if s.len() > 0 {
        lemma_splitn_nonempty(s.drop_last(), sep, n);
    }
}

/// Splitting and joining back with the same separator gives the string back, and no piece
/// holds the separator.
pub proof fn lemma_split_join(s: Seq<char>, sep: char)
    ensures
        join_spec(split_spec(s, sep), sep) == s,
        forall|i: int|
            0 <= i < split_spec(s, sep).len() ==> lacks(#[trigger] split_spec(s, sep)[i], sep),
        split_spec(s, sep).len() >= 1,
    decreases s.len(),
{
    if s.len() == 0 {
        assert(join_spec(seq![Seq::<char>::empty()], sep) == Seq::<char>::empty());
    } else {
        let prev = split_spec(s.drop_last(), sep);
        lemma_split_join(s.drop_last(), sep);
        let cur = split_spec(s, sep);
        if s.last() == sep {
            assert(cur.drop_last() == prev);
            assert(join_spec(cur, sep) == join_spec(prev, sep).push(sep) + Seq::<char>::empty());
            assert(s == s.drop_last().push(s.last()));
        } else {
            let l = prev.len() - 1;
            assert(cur.drop_last() == prev.drop_last());
            if prev.len() == 1 {
                assert(join_spec(cur, sep) == cur[0]);
                assert(join_spec(prev, sep) == prev[0]);
            } else {
                assert(join_spec(cur, sep) == join_spec(prev.drop_last(), sep).push(sep)
                    + prev.last().push(s.last()));
                assert(join_spec(prev, sep) == join_spec(prev.drop_last(), sep).push(sep)
                    + prev.last());
            }
            assert(s == s.drop_last().push(s.last()));
            assert forall|i: int| 0 <= i < cur.len() implies lacks(#[trigger] cur[i], sep) by {
                if i == l {
                    assert(lacks(prev[l], sep));
                    assert forall|j: int| 0 <= j < cur[i].len() implies cur[i][j] != sep by {
                        if j < prev[l].len() {
                            assert(cur[i][j] == prev[l][j]);
                        }
                    }
                } else {
                    assert(cur[i] == prev[i]);
                }
            }
        }
    }
}

/// Appends `c` to `s` (`String::push`).
#[verifier::external_body]
pub(crate) fn string_push(s: &mut String, c: char)
    ensures
        final(s)@ == old(s)@.push(c),
{
    s.push(c);
}

/// The characters of `s`, in order.
pub fn chars_of(s: &str) -> (res: Vec<char>)
    ensures
        res@ == s@,
{
    let mut res: Vec<char> = Vec::new();
    for c in it: s.chars()
        invariant
            res@ == it.seq().take(it.index() as int),
            it.seq() == s@,
    {
        res.push(c);
    }
    res
}

/// The string made of `c[lo..hi]`.
pub fn string_of(c: &Vec<char>, lo: usize, hi: usize) -> (res: String)
    requires
        lo <= hi <= c.len(),
    ensures
        res@ == c@.subrange(lo as int, hi as int),
{
    let mut res = String::new();
    let mut i = lo;
    while i < hi
        invariant
            lo <= i <= hi <= c.len(),
            res@ == c@.subrange(lo as int, i as int),
        decreases hi - i,
    {
        string_push(&mut res, c[i]);
        assert(c@.subrange(lo as int, i + 1) == c@.subrange(lo as int, i as int).push(c@[i as int]));
        i += 1;
    }
    res
}

/// Whether `c` is whitespace (`char::is_whitespace`).
pub fn is_whitespace(c: char) -> (res: bool)
    ensures
        res == is_ws(c),
{
    let u = c as u32;
    (0x09 <= u && u <= 0x0d) || u == 0x20 || u == 0x85 || u == 0xa0 || u == 0x1680 || (0x2000
        <= u && u <= 0x200a) || u == 0x2028 || u == 0x2029 || u == 0x202f || u == 0x205f || u
        == 0x3000
}

/// The bounds of `c[lo..hi]` trimmed of whitespace.
pub fn trim_bounds(c: &Vec<char>, lo: usize, hi: usize) -> (res: (usize, usize))
    requires
        lo <= hi <= c.len(),
    ensures
        lo <= res.0 <= res.1 <= hi,
        c@.subrange(res.0 as int, res.1 as int) == trim_spec(c@.subrange(lo as int, hi as int)),
{
    let mut a = lo;
    while a < hi && is_whitespace(c[a])
        invariant
            lo <= a <= hi <= c.len(),
            trim_start_spec(c@.subrange(lo as int, hi as int)) == trim_start_spec(
                c@.subrange(a as int, hi as int),
            ),
        decreases hi - a,
    {
        assert(c@.subrange(a as int, hi as int).drop_first() == c@.subrange(a + 1, hi as int));
        a += 1;
    }
    assert(trim_start_spec(c@.subrange(a as int, hi as int)) == c@.subrange(a as int, hi as int));
    let mut b = hi;
    while b > a && is_whitespace(c[b - 1])
        invariant
            lo <= a <= b <= hi <= c.len(),
            trim_end_spec(c@.subrange(a as int, hi as int)) == trim_end_spec(
                c@.subrange(a as int, b as int),
            ),
        decreases b - a,
    {
        assert(c@.subrange(a as int, b as int).drop_last() == c@.subrange(a as int, b - 1));
        b -= 1;
    }
    (a, b)
}

/// `s` trimmed of whitespace (`str::trim`), as an owned string.
pub fn trim(s: &str) -> (res: String)
    ensures
        res@ == trim_spec(s@),
{
    let c = chars_of(s);
    let (a, b) = trim_bounds(&c, 0, c.len());
    assert(c@.subrange(0, c@.len() as int) == c@);
    string_of(&c, a, b)
}

/// The pieces of `s` between occurrences of `sep` (`str::split`).
pub fn split(s: &str, sep: char) -> (res: Vec<String>)
    ensures
        views(res@) == split_spec(s@, sep),
{
    let c = chars_of(s);
    let mut pieces: Vec<String> = Vec::new();
    let mut cur = String::new();
    let mut i: usize = 0;
    while i < c.len()
        invariant
            i <= c.len(),
            c@ == s@,
            views(pieces@).push(cur@) == split_spec(c@.take(i as int), sep),
        decreases c.len() - i,
    {
        let ghost prev = split_spec(c@.take(i as int), sep);
        assert(c@.take(i + 1).drop_last() == c@.take(i as int));
        if c[i] == sep {
            pieces.push(cur);
            cur = String::new();
            assert(views(pieces@).push(cur@) == prev.push(Seq::<char>::empty()));
        } else {
            let ghost old_cur = cur@;
            string_push(&mut cur, c[i]);
            assert(views(pieces@).push(cur@) == prev.update(prev.len() - 1, old_cur.push(c@[i as int])));
        }
        i += 1;
    }
    pieces.push(cur);
    assert(c@.take(c@.len() as int) == c@);
    pieces
}

/// At most `n` pieces of `s` between occurrences of `sep`, the last holding the rest
/// (`str::splitn`).
pub fn splitn(s: &str, n: usize, sep: char) -> (res: Vec<String>)
    ensures
        views(res@) == splitn_spec(s@, sep, n as nat),
{
    let c = chars_of(s);
    let mut pieces: Vec<String> = Vec::new();
    let mut cur = String::new();
    let mut i: usize = 0;
    while i < c.len()
        invariant
            i <= c.len(),
            c@ == s@,
            views(pieces@).push(cur@) == splitn_spec(c@.take(i as int), sep, n as nat),
        decreases c.len() - i,
    {
        let ghost prev = splitn_spec(c@.take(i as int), sep, n as nat);
        assert(c@.take(i + 1).drop_last() == c@.take(i as int));
        if c[i] == sep && n > 0 && pieces.len() < n - 1 {
            pieces.push(cur);
            cur = String::new();
            assert(views(pieces@).push(cur@) == prev.push(Seq::<char>::empty()));
        } else {
            let ghost old_cur = cur@;
            string_push(&mut cur, c[i]);
            assert(views(pieces@).push(cur@) == prev.update(prev.len() - 1, old_cur.push(c@[i as int])));
        }
        i += 1;
    }
    pieces.push(cur);
    assert(c@.take(c@.len() as int) == c@);
    pieces
}


/// The number of bytes that the UTF-8 encoding of `c` takes (`char::len_utf8`).
pub open spec fn utf8_width(c: char) -> nat {
    let u = c as u32;
    if u < 0x80 {
        1
    } else if u < 0x800 {
        2
    } else if u < 0x10000 {
        3
    } else {
        4
    }
}

/// The number of bytes of the UTF-8 encoding of `s` (`str::len`).
pub open spec fn byte_len(s: Seq<char>) -> nat
    decreases s.len(),
{
    if s.len() == 0 {
        0
    } else {
        byte_len(s.drop_last()) + utf8_width(s.last())
    }
}

/// Whether byte offset `n` of `s` falls between two characters.
pub open spec fn is_boundary(s: Seq<char>, n: nat) -> bool {
    exists|k: int| 0 <= k <= s.len() && byte_len(#[trigger] s.take(k)) == n
}

/// The number of characters that make up the first `n` bytes of `s`.
pub open spec fn chars_in_bytes(s: Seq<char>, n: nat) -> int {
    choose|k: int| 0 <= k <= s.len() && byte_len(#[trigger] s.take(k)) == n
}

pub proof fn lemma_byte_len_take_mono(s: Seq<char>, i: int, j: int)
    requires
        0 <= i <= j <= s.len(),
    ensures
        byte_len(s.take(i)) <= byte_len(s.take(j)),
        i < j ==> byte_len(s.take(i)) < byte_len(s.take(j)),
    decreases j - i,
{
    if i < j {
        lemma_byte_len_take_mono(s, i, j - 1);
        assert(s.take(j).drop_last() == s.take(j - 1));
    }
}

/// The number of characters of `c[lo..hi]` whose encoding takes exactly `n` bytes, if the
/// `n`-th byte falls between two characters.
pub fn chars_for_bytes(c: &Vec<char>, lo: usize, hi: usize, n: usize) -> (res: Option<usize>)
    requires
        lo <= hi <= c.len(),
    ensures
        res is Some <==> is_boundary(c@.subrange(lo as int, hi as int), n as nat),
        res matches Some(k) ==> k <= hi - lo && byte_len(c@.subrange(lo as int, hi as int).take(
            k as int,
        )) == n && chars_in_bytes(c@.subrange(lo as int, hi as int), n as nat) == k,
{
    let ghost s = c@.subrange(lo as int, hi as int);
    let mut k: usize = 0;
    let mut bytes: usize = 0;
    while lo + k < hi && bytes < n
        invariant
            lo + k <= hi <= c.len(),
            s == c@.subrange(lo as int, hi as int),
            bytes == byte_len(s.take(k as int)),
            bytes <= n,
        decreases hi - lo - k,
    {
        let ch = c[lo + k];
        let u = ch as u32;
        let w: usize = if u < 0x80 {
            1
        } else if u < 0x800 {
            2
        } else if u < 0x10000 {
            3
        } else {
            4
        };
        assert(s.take(k + 1).drop_last() == s.take(k as int));
        assert(s.take(k + 1).last() == ch);
        assert(w == utf8_width(ch));
        if w > n - bytes {
            proof {
                assert forall|j: int| 0 <= j <= s.len() implies byte_len(#[trigger] s.take(j))
                    != n by {
                    if j <= k {
                        lemma_byte_len_take_mono(s, j, k as int);
                    } else {
                        lemma_byte_len_take_mono(s, k + 1, j);
                    }
                }
            }
            return None;
        }
        bytes = bytes + w;
        k = k + 1;
    }
    if bytes == n {
        proof {
            assert(s.take(k as int) == s.take(k as int));
            assert forall|j: int| 0 <= j <= s.len() && byte_len(#[trigger] s.take(j)) == n implies j
                == k by {
                if j < k {
                    lemma_byte_len_take_mono(s, j, k as int);
                } else if j > k {
                    lemma_byte_len_take_mono(s, k as int, j);
                }
            }
        }
        Some(k)
    } else {
        proof {
            assert(s.take(k as int) == s);
            assert forall|j: int| 0 <= j <= s.len() implies byte_len(#[trigger] s.take(j)) != n by {
                lemma_byte_len_take_mono(s, j, k as int);
            }
        }
        None
    }
}

/// The lines of `s` (`str::lines`).
pub fn lines(s: &str) -> (res: Vec<String>)
    ensures
        views(res@) == lines_spec(s@),
{
    let c = chars_of(s);
    let mut done: Vec<String> = Vec::new();
    let mut start: usize = 0;
    let mut i: usize = 0;
    proof {
        assert(split_spec(c@.take(0), '\n') == seq![Seq::<char>::empty()]);
    }
    while i < c.len()
        invariant
            start <= i <= c.len(),
            c@ == s@,
            split_spec(c@.take(i as int), '\n').len() == done@.len() + 1,
            split_spec(c@.take(i as int), '\n').last() == c@.subrange(start as int, i as int),
            forall|j: int|
                0 <= j < done@.len() ==> (#[trigger] done@[j])@ == strip_cr(
                    split_spec(c@.take(i as int), '\n')[j],
                ),
        decreases c.len() - i,
    {
        let ghost prev = split_spec(c@.take(i as int), '\n');
        assert(c@.take(i + 1).drop_last() == c@.take(i as int));
        if c[i] == '\n' {
            let end = if i > start && c[i - 1] == '\r' {
                i - 1
            } else {
                i
            };
            let piece = string_of(&c, start, end);
            proof {
                let p = c@.subrange(start as int, i as int);
                if i > start && c@[i - 1] == '\r' {
                    assert(p.drop_last() == c@.subrange(start as int, end as int));
                }
                assert(piece@ == strip_cr(p));
            }
            done.push(piece);
            start = i + 1;
            assert(c@.subrange(start as int, i + 1) == Seq::<char>::empty());
        } else {
            assert(c@.subrange(start as int, i + 1) == c@.subrange(start as int, i as int).push(
                c@[i as int],
            ));
        }
        i += 1;
    }
    assert(c@.take(c@.len() as int) == c@);
    let ghost pieces = split_spec(s@, '\n');
    if start < c.len() {
        let last = string_of(&c, start, c.len());
        done.push(last);
    }
    proof {
        let stripped = Seq::new(
            pieces.len(),
            |i: int|
                if i < pieces.len() - 1 {
                    strip_cr(pieces[i])
                } else {
                    pieces[i]
                },
        );
        if pieces.last().len() == 0 {
            assert(views(done@) == stripped.drop_last());
        } else {
            assert(views(done@) == stripped);
        }
    }
    done
}

/// The `k`-th string of `pieces`, or the empty string where there is none.
pub fn piece_at(pieces: &Vec<String>, k: usize) -> (res: String)
    ensures
        res@ == piece_or_empty(views(pieces@), k as int),
{
    if k < pieces.len() {
        pieces[k].clone()
    } else {
        String::new()
    }
}

/// A prefix of more than `k` characters has more bytes than the first `k`.
pub proof fn lemma_byte_len_over(s: Seq<char>, k: int)
    requires
        0 <= k <= s.len(),
    ensures
        k < s.len() ==> byte_len(s) > byte_len(s.take(k)),
        k == s.len() ==> byte_len(s) == byte_len(s.take(k)),
{
    assert(s.take(s.len() as int) == s);
    lemma_byte_len_take_mono(s, k, s.len() as int);
}


/// The decimal digit for `d`.
pub open spec fn digit_char(d: nat) -> char {
    if d == 0 {
        '0'
    } else if d == 1 {
        '1'
    } else if d == 2 {
        '2'
    } else if d == 3 {
        '3'
    } else if d == 4 {
        '4'
    } else if d == 5 {
        '5'
    } else if d == 6 {
        '6'
    } else if d == 7 {
        '7'
    } else if d == 8 {
        '8'
    } else {
        '9'
    }
}

/// Whether `s` is one or more ASCII digits.
pub open spec fn all_digits(s: Seq<char>) -> bool {
    s.len() > 0 && forall|i: int| 0 <= i < s.len() ==> '0' <= #[trigger] s[i] <= '9'
}

/// The value of the ASCII digits `s`, the most significant first.
pub open spec fn digits_value(s: Seq<char>) -> nat
    decreases s.len(),
{
    if s.len() == 0 {
        0
    } else {
        digits_value(s.drop_last()) * 10 + ((s.last() as int) - ('0' as int)) as nat
    }
}

/// The number that `str::parse::<usize>` reads: an optional `+` and then one or more ASCII
/// digits, of a value that fits in a `usize`; nothing else is a number.
pub open spec fn usize_numeral(s: Seq<char>) -> Option<nat> {
    let d = if s.len() > 0 && s[0] == '+' {
        s.skip(1)
    } else {
        s
    };
    if all_digits(d) && digits_value(d) <= usize::MAX {
        Some(digits_value(d))
    } else {
        None
    }
}

proof fn lemma_digits_value_prefix(s: Seq<char>, k: int)
    requires
        0 <= k <= s.len(),
        forall|i: int| 0 <= i < s.len() ==> '0' <= #[trigger] s[i] <= '9',
    ensures
        digits_value(s.take(k)) <= digits_value(s),
    decreases s.len(),
{
    if k < s.len() {
        lemma_digits_value_prefix(s.drop_last(), k);
        assert(s.drop_last().take(k) == s.take(k));
    } else {
        assert(s.take(k) == s);
    }
}

/// The number `s` reads as, as `str::parse::<usize>` reads it.
pub fn parse_usize(s: &str) -> (res: Option<usize>)
    ensures
        match res {
            Some(n) => usize_numeral(s@) == Some(n as nat),
            None => usize_numeral(s@) is None,
        },
{
    let c = chars_of(s);
    let start: usize = if c.len() > 0 && c[0] == '+' {
        1
    } else {
        0
    };
    let ghost d = c@.skip(start as int);
    assert(d == (if s@.len() > 0 && s@[0] == '+' { s@.skip(1) } else { s@ }));
    if start >= c.len() {
        assert(d.len() == 0);
        return None;
    }
    let mut v: usize = 0;
    let mut i: usize = start;
    assert(c@.subrange(start as int, start as int) =~= Seq::<char>::empty());
    while i < c.len()
        invariant
            start <= i <= c.len(),
            start < c.len(),
            d == c@.skip(start as int),
            c@ == s@,
            d == (if s@.len() > 0 && s@[0] == '+' { s@.skip(1) } else { s@ }),
            v == digits_value(c@.subrange(start as int, i as int)),
            forall|j: int| start <= j < i ==> '0' <= #[trigger] c@[j] <= '9',
        decreases c.len() - i,
    {
        let ch = c[i];
        if !('0' <= ch && ch <= '9') {
            assert(d[i - start] == ch);
            return None;
        }
        let digit = (ch as u8 - 48u8) as usize;
        let ghost next = c@.subrange(start as int, i + 1);
        assert(next.drop_last() =~= c@.subrange(start as int, i as int));
        assert(digits_value(next) == v * 10 + digit);
        proof {
            if all_digits(d) {
                assert(next =~= d.take(i + 1 - start));
                lemma_digits_value_prefix(d, i + 1 - start);
            }
        }
        match v.checked_mul(10) {
            None => return None,
            Some(m) => match m.checked_add(digit) {
                None => return None,
                Some(n) => v = n,
            },
        }
        i += 1;
    }
    assert(c@.subrange(start as int, c@.len() as int) =~= d);
    Some(v)
}

/// The decimal form of `n`, as `to_string` writes it.
pub open spec fn decimal(n: nat) -> Seq<char>
    decreases n,
{
    if n < 10 {
        seq![digit_char(n)]
    } else {
        decimal(n / 10).push(digit_char(n % 10))
    }
}

/// The decimal form of `n` (`usize::to_string`).
pub fn usize_to_string(n: usize) -> (res: String)
    ensures
        res@ == decimal(n as nat),
    decreases n,
{
    let mut s = if n < 10 {
        String::new()
    } else {
        usize_to_string(n / 10)
    };
    let d = n % 10;
    let c = if d == 0 {
        '0'
    } else if d == 1 {
        '1'
    } else if d == 2 {
        '2'
    } else if d == 3 {
        '3'
    } else if d == 4 {
        '4'
    } else if d == 5 {
        '5'
    } else if d == 6 {
        '6'
    } else if d == 7 {
        '7'
    } else if d == 8 {
        '8'
    } else {
        '9'
    };
    string_push(&mut s, c);
    s
}

/// `a` followed by `b`, as a new string.
pub fn concat(a: &str, b: &str) -> (res: String)
    ensures
        res@ == a@ + b@,
{
    let mut s = a.to_owned();
    s.append(b);
    s
}

/// Whether the two strings are equal.
pub fn str_equal(a: &str, b: &str) -> (res: bool)
    ensures
        res == (a@ == b@),
{
    let x = chars_of(a);
    let y = chars_of(b);
    if x.len() != y.len() {
        return false;
    }
    let mut i: usize = 0;
    while i < x.len()
        invariant
            x@ == a@,
            y@ == b@,
            x@.len() == y@.len(),
            i <= x@.len(),
            forall|j: int| 0 <= j < i ==> x@[j] == y@[j],
        decreases x.len() - i,
    {
        if x[i] != y[i] {
            return false;
        }
        i += 1;
    }
    assert(x@ =~= y@);
    true
}
/// The UTF-8 bytes of the characters.
pub open spec fn utf8(s: Seq<char>) -> Seq<u8> {
    encode_utf8(s)
}

/// The byte count also adds up from the front.
pub proof fn lemma_byte_len_first(s: Seq<char>)
    requires
        s.len() > 0,
    ensures
        byte_len(s) == utf8_width(s[0]) + byte_len(s.drop_first()),
    decreases s.len(),
{
    if s.len() > 1 {
        lemma_byte_len_first(s.drop_last());
        assert(s.drop_first().drop_last() == s.drop_last().drop_first());
        assert(s.drop_last()[0] == s[0]);
        assert(s.drop_first().last() == s.last());
        assert(byte_len(s) == byte_len(s.drop_last()) + utf8_width(s.last()));
        assert(byte_len(s.drop_first()) == byte_len(s.drop_first().drop_last()) + utf8_width(
            s.drop_first().last(),
        ));
    } else {
        assert(s.drop_first().len() == 0);
        assert(s.drop_last().len() == 0);
        assert(byte_len(s.drop_first()) == 0);
        assert(byte_len(s.drop_last()) == 0);
        assert(s.last() == s[0]);
        assert(byte_len(s) == byte_len(s.drop_last()) + utf8_width(s.last()));
    }
}

/// The UTF-8 encoding has `byte_len` bytes.
pub proof fn lemma_utf8_len(s: Seq<char>)
    ensures
        utf8(s).len() == byte_len(s),
    decreases s.len(),
{
    if s.len() > 0 {
        lemma_utf8_len(s.drop_first());
        lemma_byte_len_first(s);
        char_is_scalar(s[0]);
    }
}

/// The number of bytes of `s` (`str::len`).
pub fn str_byte_len(s: &str) -> (res: usize)
    ensures
        res == byte_len(s@),
        res == utf8(s@).len(),
{
    proof {
        lemma_utf8_len(s@);
    }
    let b = s.as_bytes();
    b.len()
}


/// The bytes of two texts put together add up.
pub proof fn lemma_byte_len_concat(a: Seq<char>, b: Seq<char>)
    ensures
        byte_len(a + b) == byte_len(a) + byte_len(b),
    decreases b.len(),
{
    if b.len() == 0 {
        assert(a + b == a);
    } else {
        lemma_byte_len_concat(a, b.drop_last());
        assert((a + b).drop_last() == a + b.drop_last());
        assert((a + b).last() == b.last());
    }
}

/// A text of ASCII characters takes one byte per character.
pub proof fn lemma_byte_len_ascii(s: Seq<char>)
    requires
        forall|i: int| 0 <= i < s.len() ==> ((#[trigger] s[i]) as u32) < 0x80,
    ensures
        byte_len(s) == s.len(),
    decreases s.len(),
{
    if s.len() > 0 {
        assert forall|i: int| 0 <= i < s.drop_last().len() implies ((#[trigger] s.drop_last()[i]) as u32) < 0x80 by {
            assert(s.drop_last()[i] == s[i]);
        }
        lemma_byte_len_ascii(s.drop_last());
        assert(s.last() == s[s.len() - 1]);
    }
}

} // verus!
