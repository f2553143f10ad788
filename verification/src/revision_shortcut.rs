use vstd::prelude::*;

use crate::text::{chars_of, str_byte_len, string_of, string_push, utf8, views};

verus! {

/// The marker around a revision hash in a log printed for shortcuts.
pub open spec fn node_marker() -> Seq<char> {
    "__VERCO_NODE__"@
}

/// Whether `c` is a hexadecimal digit: `0`-`9`, `a`-`f` or `A`-`F`.
pub open spec fn is_hex(c: char) -> bool {
    ('0' <= c && c <= '9') || ('a' <= c && c <= 'f') || ('A' <= c && c <= 'F')
}

/// How many hexadecimal digits follow one another in `s` from `i`.
pub open spec fn hex_run(s: Seq<char>, i: int) -> int
    decreases s.len() - i,
{
    if 0 <= i < s.len() && is_hex(s[i]) {
        1 + hex_run(s, i + 1)
    } else {
        0
    }
}

/// Where a marked hash that starts at `i` in `s` ends, if one starts there: a marker, one or
/// more hexadecimal digits, and a marker.
pub open spec fn marked_hash_end(s: Seq<char>, i: int) -> Option<int> {
    let m = node_marker().len() as int;
    let r = hex_run(s, i + m);
    if 0 <= i && i + m + r + m <= s.len() && r > 0 && s.subrange(i, i + m) == node_marker()
        && s.subrange(i + m + r, i + m + r + m) == node_marker() {
        Some(i + m + r + m)
    } else {
        None
    }
}

/// The marked hashes of `s` from `i` on, in order and without overlap, each as the whole
/// occurrence and the hash: the search goes on after the end of each one found.
pub open spec fn node_captures_from(s: Seq<char>, i: int) -> Seq<(Seq<char>, Seq<char>)>
    decreases s.len() + 1 - i,
{
    if i < 0 || i > s.len() {
        Seq::empty()
    } else {
        match marked_hash_end(s, i) {
            Some(e) => seq![(s.subrange(i, e), s.subrange(i + node_marker().len(), e - node_marker().len()))]
                + node_captures_from(s, e),
            None => node_captures_from(s, i + 1),
        }
    }
}

/// The marked hashes in a text, in order: what the pattern
/// `(__VERCO_NODE__([0-9a-fA-F]+)__VERCO_NODE__)` captures, left to right without overlap.
pub open spec fn node_captures(text: Seq<char>) -> Seq<(Seq<char>, Seq<char>)> {
    node_captures_from(text, 0)
}

/// The occurrences of marked hashes in `text` and their hashes, found with the `regex`
/// crate's `captures_iter`: its matches are the leftmost ones, one after another without
/// overlap, and as the digits are followed by a marker that starts with `_`, each match is the
/// marker, the whole run of digits after it, and the marker.
#[verifier::external_body]
fn find_node_captures(text: &str) -> (res: Vec<(String, String)>)
    ensures
        res@.map_values(|p: (String, String)| (p.0@, p.1@)) == node_captures(text@),
{
    let re = regex::Regex::new(r"(__VERCO_NODE__([0-9a-fA-F]+)__VERCO_NODE__)").unwrap();
    re.captures_iter(text).map(|c| (c[1].to_owned(), c[2].to_owned())).collect()
}

proof fn lemma_captures_from_marked(s: Seq<char>, i: int)
    ensures
        forall|k: int|
            0 <= k < node_captures_from(s, i).len() ==> {
                let (occurrence, hash) = #[trigger] node_captures_from(s, i)[k];
                &&& occurrence == node_marker() + hash + node_marker()
                &&& hash.len() > 0
                &&& forall|j: int| 0 <= j < hash.len() ==> is_hex(#[trigger] hash[j])
            },
    decreases s.len() + 1 - i,
{
    if 0 <= i <= s.len() {
        let m = node_marker().len() as int;
        match marked_hash_end(s, i) {
            Some(e) => {
                lemma_captures_from_marked(s, e);
                let hash = s.subrange(i + m, e - m);
                assert(s.subrange(i, e) =~= node_marker() + hash + node_marker());
                lemma_hex_run(s, i + m);
                assert forall|j: int| 0 <= j < hash.len() implies is_hex(#[trigger] hash[j]) by {
                    assert(hash[j] == s[i + m + j]);
                }
                let rest = node_captures_from(s, e);
                let all = node_captures_from(s, i);
                assert(all == seq![(s.subrange(i, e), hash)] + rest);
                assert forall|k: int| 0 <= k < all.len() implies {
                    let (occurrence, h) = #[trigger] all[k];
                    &&& occurrence == node_marker() + h + node_marker()
                    &&& h.len() > 0
                    &&& forall|j: int| 0 <= j < h.len() ==> is_hex(#[trigger] h[j])
                } by {
                    if k > 0 {
                        assert(all[k] == rest[k - 1]);
                    }
                }
            },
            None => {
                lemma_captures_from_marked(s, i + 1);
                assert(node_captures_from(s, i) == node_captures_from(s, i + 1));
            },
        }
    }
}

proof fn lemma_hex_run(s: Seq<char>, i: int)
    requires
        0 <= i,
    ensures
        i + hex_run(s, i) <= s.len() || hex_run(s, i) == 0,
        forall|j: int| i <= j < i + hex_run(s, i) ==> is_hex(#[trigger] s[j]),
    decreases s.len() - i,
{
    if 0 <= i < s.len() && is_hex(s[i]) {
        lemma_hex_run(s, i + 1);
    }
}

/// Every marked hash found is the whole occurrence of a marker, one or more hexadecimal
/// digits (the hash) and a marker.
pub proof fn lemma_captures_are_marked(text: Seq<char>)
    ensures
        forall|k: int|
            0 <= k < node_captures(text).len() ==> {
                let (occurrence, hash) = #[trigger] node_captures(text)[k];
                &&& occurrence == node_marker() + hash + node_marker()
                &&& hash.len() > 0
                &&& forall|j: int| 0 <= j < hash.len() ==> is_hex(#[trigger] hash[j])
            },
{
    lemma_captures_from_marked(text, 0);
}

/// Where `pat` first occurs in `s` at or after `i`, if it does.
pub open spec fn first_match_from(s: Seq<char>, pat: Seq<char>, i: int) -> Option<int>
    decreases s.len() + 1 - i,
{
    if i < 0 || i + pat.len() > s.len() {
        None
    } else if s.subrange(i, i + pat.len()) == pat {
        Some(i)
    } else {
        first_match_from(s, pat, i + 1)
    }
}

/// `s` with the first occurrence of `pat` replaced by `rep` (`str::replacen` with a count of
/// one); `s` itself when `pat` does not occur.
pub open spec fn replace_first(s: Seq<char>, pat: Seq<char>, rep: Seq<char>) -> Seq<char> {
    match first_match_from(s, pat, 0) {
        Some(i) => s.take(i) + rep + s.skip(i + pat.len()),
        None => s,
    }
}

/// The letter of the `i`-th shortcut: `A` for the first.
pub open spec fn shortcut_letter(i: int) -> char {
    ('A' as int + i) as char
}

/// How many shortcuts there are: one per letter from `A` to `Z`.
pub open spec fn max_shortcuts() -> int {
    26
}

/// The text with the marked hashes from the `i`-th on replaced: each of the first 26 by the
/// hash and its letter in parentheses, the others by the hash alone.
pub open spec fn with_shortcuts(text: Seq<char>, caps: Seq<(Seq<char>, Seq<char>)>, i: int) -> Seq<char>
    decreases caps.len() - i,
{
    if i < 0 || i >= caps.len() {
        text
    } else {
        let rep = if i < max_shortcuts() {
            caps[i].1 + seq![' ', '('] + seq![shortcut_letter(i), ')']
        } else {
            caps[i].1
        };
        with_shortcuts(replace_first(text, caps[i].0, rep), caps, i + 1)
    }
}

/// The hash a shortcut stands for: one character, a letter whose place from `A` is a known
/// hash.
pub open spec fn shortcut_hash(hashes: Seq<Seq<char>>, target: Seq<char>) -> Option<Seq<char>> {
    if utf8(target).len() != 1 {
        None
    } else {
        let index = target[0] as u32 - 0x41;
        if index < 0 || index >= hashes.len() {
            None
        } else {
            Some(hashes[index])
        }
    }
}

/// The hashes of the revisions shown with shortcuts, the first for `A`.
pub struct RevisionShortcut {
    pub hashes: Vec<String>,
}

/// `s` with its first occurrence of `pat` replaced by `rep`.
pub fn replacen_first(s: &str, pat: &str, rep: &str) -> (res: String)
    ensures
        res@ == replace_first(s@, pat@, rep@),
{
    let c = chars_of(s);
    let p = chars_of(pat);
    let mut i: usize = 0;
    if p.len() > c.len() {
        return s.to_owned();
    }
    let last = c.len() - p.len();
    while i <= last
        invariant
            c@ == s@,
            p@ == pat@,
            last + p.len() == c.len(),
            i <= last + 1,
            first_match_from(s@, pat@, 0) == first_match_from(s@, pat@, i as int),
        decreases last + 1 - i,
    {
        let mut j: usize = 0;
        while j < p.len() && c[i + j] == p[j]
            invariant
                j <= p.len(),
                i <= last,
                last + p.len() == c.len(),
                c@ == s@,
                p@ == pat@,
                forall|k: int| 0 <= k < j ==> c@[i + k] == p@[k],
            decreases p.len() - j,
        {
            j = j + 1;
        }
        if j == p.len() {
            assert(c@.subrange(i as int, i + p.len()) =~= p@);
            let mut res = string_of(&c, 0, i);
            res.append(rep);
            let tail = string_of(&c, i + p.len(), c.len());
            res.append(tail.as_str());
            assert(c@.subrange(i + p.len(), c@.len() as int) == s@.skip(i + pat@.len()));
            return res;
        }
        assert(c@.subrange(i as int, i + p.len()) != p@) by {
            assert(c@.subrange(i as int, i + p.len())[j as int] != p@[j as int]);
        }
        i = i + 1;
    }
    assert(first_match_from(s@, pat@, i as int) is None);
    s.to_owned()
}

impl RevisionShortcut {
    /// No shortcuts yet.
    pub fn new() -> (res: RevisionShortcut)
        ensures
            res.hashes@.len() == 0,
    {
        RevisionShortcut { hashes: Vec::new() }
    }

    /// How many shortcuts there are.
    pub fn max() -> (res: usize)
        ensures
            res == max_shortcuts(),
    {
        26
    }

    /// Sets the hashes the shortcuts stand for.
    pub fn update_hashes(&mut self, hashes: Vec<String>)
        ensures
            final(self).hashes@ == hashes@,
    {
        self.hashes = hashes;
    }

    /// Replaces the marked hashes of `text`: the first 26 by the hash and its letter, the
    /// others by the hash alone. Returns the hashes given letters, in order.
    pub fn replace_occurrences(&self, text: &mut String) -> (res: Vec<String>)
        ensures
            final(text)@ == with_shortcuts(old(text)@, node_captures(old(text)@), 0),
            views(res@) == node_captures(old(text)@).take(
                if node_captures(old(text)@).len() < 26 { node_captures(old(text)@).len() as int } else { 26 },
            ).map_values(|p: (Seq<char>, Seq<char>)| p.1),
    {
        let caps = find_node_captures(text.as_str());
        let ghost cv = caps@.map_values(|p: (String, String)| (p.0@, p.1@));
        let mut final_text = text.clone();
        let mut hashes: Vec<String> = Vec::new();
        let mut i: usize = 0;
        while i < caps.len()
            invariant
                i <= caps.len(),
                cv == caps@.map_values(|p: (String, String)| (p.0@, p.1@)),
                cv == node_captures(old(text)@),
                with_shortcuts(old(text)@, cv, 0) == with_shortcuts(final_text@, cv, i as int),
                views(hashes@) == cv.take(if i < 26 { i as int } else { 26 }).map_values(
                    |p: (Seq<char>, Seq<char>)| p.1,
                ),
            decreases caps.len() - i,
        {
            let (occurrence, hash) = (&caps[i].0, &caps[i].1);
            if i < 26 {
                let ghost before = views(hashes@);
                hashes.push(hash.clone());
                assert(views(hashes@) == before.push(cv[i as int].1));
                assert(cv.take(i as int + 1).map_values(|p: (Seq<char>, Seq<char>)| p.1) == cv.take(i as int).map_values(
                    |p: (Seq<char>, Seq<char>)| p.1,
                ).push(cv[i as int].1));
                let mut replacement = hash.clone();
                string_push(&mut replacement, ' ');
                string_push(&mut replacement, '(');
                let letter = ((0x41 + i) as u8) as char;
                string_push(&mut replacement, letter);
                string_push(&mut replacement, ')');
                assert(replacement@ == cv[i as int].1 + seq![' ', '('] + seq![shortcut_letter(i as int), ')']);
                final_text = replacen_first(final_text.as_str(), occurrence.as_str(), replacement.as_str());
            } else {
                final_text = replacen_first(final_text.as_str(), occurrence.as_str(), hash.as_str());
            }
            i = i + 1;
        }
        assert(cv.take(if caps.len() < 26 { caps.len() as int } else { 26 }) == cv.take(
            if i < 26 { i as int } else { 26 },
        ));
        *text = final_text;
        hashes
    }

    /// The hash a shortcut stands for, if any.
    pub fn get_hash(&self, target: &str) -> (res: Option<&str>)
        ensures
            match shortcut_hash(views(self.hashes@), target@) {
                Some(h) => res matches Some(r) && r@ == h,
                None => res is None,
            },
    {
        if str_byte_len(target) != 1 {
            return None;
        }
        let c = chars_of(target);
        proof {
            crate::text::lemma_utf8_len(target@);
        }
        assert(c.len() >= 1) by {
            if c.len() == 0 {
                assert(target@ =~= Seq::<char>::empty());
            }
        }
        let code = c[0] as u32;
        assert(code == target@[0] as u32);
        if code < 0x41 {
            return None;
        }
        let index = (code - 0x41) as usize;
        if index >= self.hashes.len() {
            return None;
        }
        assert(views(self.hashes@)[index as int] == self.hashes@[index as int]@);
        Some(self.hashes[index].as_str())
    }
}

/// A shortcut gives back the hash it was given: once the hashes are set, the letter of the
/// `i`-th stands for it.
pub proof fn lemma_shortcut_roundtrip(hashes: Seq<Seq<char>>, i: int)
    requires
        0 <= i < hashes.len(),
        i < max_shortcuts(),
    ensures
        shortcut_hash(hashes, seq![shortcut_letter(i)]) == Some(hashes[i]),
{
    let t = seq![shortcut_letter(i)];
    let c = shortcut_letter(i);
    assert(c as u32 == 65 + i);
    assert(t.drop_last() =~= Seq::<char>::empty());
    assert(t.last() == c);
    assert(crate::text::byte_len(t.drop_last()) == 0);
    assert(crate::text::utf8_width(c) == 1);
    assert(crate::text::byte_len(t) == 1);
    crate::text::lemma_utf8_len(t);
    assert(t[0] as u32 - 0x41 == i);
}

} // verus!
