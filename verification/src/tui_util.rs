use vstd::prelude::*;

use crate::text::{
    byte_len, chars_for_bytes, chars_in_bytes, chars_of, concat, is_boundary, lemma_byte_len_ascii, lemma_byte_len_concat,
    str_byte_len, string_of, string_push,
};

verus! {

/// How the header shows the state of the current action.
#[derive(PartialEq, Eq, Structural, Clone, Copy, Debug)]
pub enum HeaderKind {
    Waiting,
    Succeeded,
    Error,
    Canceled,
}

/// The words on the header: the current action and the repository directory.
pub struct Header<'a> {
    pub action_name: &'a str,
    pub directory_name: &'a str,
}

/// The text that starts the header.
pub open spec fn header_prefix() -> Seq<char> {
    "Verco @ "@
}

/// How many bytes of the directory name a short header keeps.
pub open spec fn dir_name_max_length() -> nat {
    32
}

/// The bytes the header takes with the whole directory name.
pub open spec fn full_length_spec(action: Seq<char>, dir: Seq<char>) -> int {
    (8 + byte_len(dir) + 3 + byte_len(action)) as int
}

/// The bytes the header takes with at most the last 32 bytes of the directory name.
pub open spec fn min_length_spec(action: Seq<char>, dir: Seq<char>) -> int {
    (8 + (if byte_len(dir) < 32 {
        byte_len(dir)
    } else {
        32
    }) + 3 + byte_len(action)) as int
}

/// The lengths that `Header::min_length` and `Header::full_length` return, for every header:
/// the shortest header takes 11 bytes, at most 32 bytes of the directory name and the action
/// name; it is never longer than the whole one, and the two are the same length exactly when
/// the directory name has at most 32 bytes.
pub proof fn lemma_min_length_at_most_full(header: Header)
    ensures
        min_length_spec(header.action_name@, header.directory_name@) == 11 + (if byte_len(
            header.directory_name@,
        ) < 32 {
            byte_len(header.directory_name@)
        } else {
            32
        }) + byte_len(header.action_name@),
        full_length_spec(header.action_name@, header.directory_name@) == 11 + byte_len(
            header.directory_name@,
        ) + byte_len(header.action_name@),
        min_length_spec(header.action_name@, header.directory_name@) <= full_length_spec(
            header.action_name@,
            header.directory_name@,
        ),
        (min_length_spec(header.action_name@, header.directory_name@) == full_length_spec(
            header.action_name@,
            header.directory_name@,
        )) <==> byte_len(header.directory_name@) <= 32,
{
}

/// The word that ends the header for each state.
pub open spec fn status_word(kind: HeaderKind) -> Seq<char> {
    match kind {
        HeaderKind::Waiting => "waiting"@,
        HeaderKind::Succeeded => "ok"@,
        HeaderKind::Error => "error"@,
        HeaderKind::Canceled => "canceled"@,
    }
}

impl<'a> Header<'a> {
    /// The bytes the header takes with the whole directory name.
    pub fn full_length(&self) -> (res: usize)
        requires
            full_length_spec(self.action_name@, self.directory_name@) <= usize::MAX,
        ensures
            res == full_length_spec(self.action_name@, self.directory_name@),
    {
        8 + str_byte_len(self.directory_name) + 3 + str_byte_len(self.action_name)
    }

    /// The bytes the header takes with at most the last 32 bytes of the directory name.
    pub fn min_length(&self) -> (res: usize)
        requires
            min_length_spec(self.action_name@, self.directory_name@) <= usize::MAX,
        ensures
            res == min_length_spec(self.action_name@, self.directory_name@),
    {
        let dir = str_byte_len(self.directory_name);
        let dir = if dir < 32 {
            dir
        } else {
            32
        };
        8 + dir + 3 + str_byte_len(self.action_name)
    }
}

/// What the header shows: the status word, the directory name as shown, and the spaces that
/// fill the line.
pub struct HeaderLayout {
    pub status: &'static str,
    pub directory_name: String,
    pub padding: usize,
}

/// Whether the header fits in `width` bytes with the whole directory name.
pub open spec fn fits_full(header_action: Seq<char>, dir: Seq<char>, kind: HeaderKind, width: int) -> bool {
    width >= full_length_spec(header_action, dir) + byte_len(status_word(kind)) + 2
}

/// Whether the header fits in `width` bytes with the short directory name.
pub open spec fn fits_short(header_action: Seq<char>, dir: Seq<char>, kind: HeaderKind, width: int) -> bool {
    width >= min_length_spec(header_action, dir) + byte_len(status_word(kind)) + 2
}

/// The layout of the header on a terminal `width` bytes wide: the whole directory name when it
/// fits, else its last 32 bytes; the rest of the line is padding. The header must fit.
pub fn show_header(header: &Header, kind: HeaderKind, width: u16) -> (res: HeaderLayout)
    requires
        fits_short(header.action_name@, header.directory_name@, kind, width as int),
        !fits_full(header.action_name@, header.directory_name@, kind, width as int)
            ==> is_boundary(
            header.directory_name@,
            (byte_len(header.directory_name@) - 32) as nat,
        ),
    ensures
        res.status@ == status_word(kind),
        fits_full(header.action_name@, header.directory_name@, kind, width as int) ==> res.directory_name@
            == header.directory_name@ && res.padding == width - full_length_spec(
            header.action_name@,
            header.directory_name@,
        ) - byte_len(status_word(kind)) - 2,
        !fits_full(header.action_name@, header.directory_name@, kind, width as int) ==> res.directory_name@
            == header.directory_name@.skip(
            chars_in_bytes(header.directory_name@, (byte_len(header.directory_name@) - 32) as nat),
        ) && res.padding == width - min_length_spec(header.action_name@, header.directory_name@)
            - byte_len(status_word(kind)) - 2,
{
    let status = match kind {
        HeaderKind::Waiting => "waiting",
        HeaderKind::Succeeded => "ok",
        HeaderKind::Error => "error",
        HeaderKind::Canceled => "canceled",
    };
    let width = width as usize;
    let status_len = str_byte_len(status);
    let dir_len = str_byte_len(header.directory_name);
    let action_len = str_byte_len(header.action_name);
    let base = 8 + 3 + action_len + status_len + 2;
    if dir_len <= width - base {
        return HeaderLayout {
            status,
            directory_name: header.directory_name.to_owned(),
            padding: width - base - dir_len,
        };
    }
    let short = base + (if dir_len < 32 {
        dir_len
    } else {
        32
    });
    let c = chars_of(header.directory_name);
    proof {
        assert(c@.subrange(0, c@.len() as int) == c@);
    }
    let k = match chars_for_bytes(&c, 0, c.len(), dir_len - 32) {
        Some(k) => k,
        None => 0,
    };
    assert(c@.subrange(k as int, c@.len() as int) == c@.skip(k as int));
    HeaderLayout { status, directory_name: string_of(&c, k, c.len()), padding: width - short }
}

/// The colors the header is drawn in.
#[derive(PartialEq, Eq, Structural, Clone, Copy, Debug)]
pub enum HeaderColor {
    Black,
    White,
    Magenta,
    DarkMagenta,
    Green,
    DarkGreen,
    Red,
    DarkRed,
    Yellow,
    DarkYellow,
}

/// The background of the header for each state.
pub open spec fn header_background(kind: HeaderKind) -> HeaderColor {
    match kind {
        HeaderKind::Waiting => HeaderColor::Magenta,
        HeaderKind::Succeeded => HeaderColor::Green,
        HeaderKind::Error => HeaderColor::Red,
        HeaderKind::Canceled => HeaderColor::Yellow,
    }
}

/// The darker background of the header's action and status for each state.
pub open spec fn header_dark_background(kind: HeaderKind) -> HeaderColor {
    match kind {
        HeaderKind::Waiting => HeaderColor::DarkMagenta,
        HeaderKind::Succeeded => HeaderColor::DarkGreen,
        HeaderKind::Error => HeaderColor::DarkRed,
        HeaderKind::Canceled => HeaderColor::DarkYellow,
    }
}

/// A run of the header's text in one color.
pub struct HeaderPiece {
    pub text: String,
    pub background: HeaderColor,
    pub foreground: HeaderColor,
}

/// The directory name the header shows on a terminal `width` bytes wide.
pub open spec fn shown_directory(action: Seq<char>, dir: Seq<char>, kind: HeaderKind, width: int) -> Seq<char> {
    if fits_full(action, dir, kind, width) {
        dir
    } else {
        dir.skip(chars_in_bytes(dir, (byte_len(dir) - 32) as nat))
    }
}

/// The spaces that fill the header on a terminal `width` bytes wide.
pub open spec fn header_padding(action: Seq<char>, dir: Seq<char>, kind: HeaderKind, width: int) -> int {
    width - (if fits_full(action, dir, kind, width) {
        full_length_spec(action, dir)
    } else {
        min_length_spec(action, dir)
    }) - byte_len(status_word(kind)) - 2
}

/// The texts of the header, in order: `Verco @ `, the directory and a space; the action
/// between spaces; the padding; the status word between spaces.
pub open spec fn header_texts(action: Seq<char>, dir: Seq<char>, kind: HeaderKind, width: int) -> Seq<Seq<char>> {
    seq![
        header_prefix() + shown_directory(action, dir, kind, width) + seq![' '],
        seq![' '] + action + seq![' '],
        Seq::new(header_padding(action, dir, kind, width) as nat, |i: int| ' '),
        seq![' '] + status_word(kind) + seq![' '],
    ]
}

/// The whole text of the header.
pub open spec fn header_line(action: Seq<char>, dir: Seq<char>, kind: HeaderKind, width: int) -> Seq<char> {
    let t = header_texts(action, dir, kind, width);
    t[0] + t[1] + t[2] + t[3]
}

/// `n` spaces take `n` bytes.
proof fn lemma_spaces_byte_len(n: nat)
    ensures
        byte_len(Seq::new(n, |i: int| ' ')) == n,
{
    lemma_byte_len_ascii(Seq::new(n, |i: int| ' '));
}

/// `n` spaces.
fn spaces(n: usize) -> (res: String)
    ensures
        res@ == Seq::new(n as nat, |i: int| ' '),
{
    let mut s = String::new();
    let mut i: usize = 0;
    while i < n
        invariant
            i <= n,
            s@ == Seq::new(i as nat, |k: int| ' '),
        decreases n - i,
    {
        string_push(&mut s, ' ');
        i = i + 1;
        assert(s@ =~= Seq::new(i as nat, |k: int| ' '));
    }
    s
}

/// The header on a terminal `width` bytes wide, as texts with their colors: `Verco @ ` and
/// the directory name (its last 32 bytes when the whole does not fit), the action, spaces,
/// and the status word. The line is exactly `width` bytes long; the header must fit.
pub fn header_pieces(header: &Header, kind: HeaderKind, width: u16) -> (res: Vec<HeaderPiece>)
    requires
        fits_short(header.action_name@, header.directory_name@, kind, width as int),
        !fits_full(header.action_name@, header.directory_name@, kind, width as int)
            ==> is_boundary(
            header.directory_name@,
            (byte_len(header.directory_name@) - 32) as nat,
        ),
    ensures
        res@.len() == 4,
        forall|k: int|
            0 <= k < 4 ==> (#[trigger] res@[k]).text@ == header_texts(
                header.action_name@,
                header.directory_name@,
                kind,
                width as int,
            )[k],
        res@[0].background == header_background(kind) && res@[0].foreground == HeaderColor::Black,
        res@[1].background == header_dark_background(kind) && res@[1].foreground == HeaderColor::White,
        res@[2].background == header_background(kind) && res@[2].foreground == HeaderColor::Black,
        res@[3].background == header_dark_background(kind) && res@[3].foreground == HeaderColor::White,
        byte_len(header_line(header.action_name@, header.directory_name@, kind, width as int)) == width,
{
    let layout = show_header(header, kind, width);
    let (background, dark) = match kind {
        HeaderKind::Waiting => (HeaderColor::Magenta, HeaderColor::DarkMagenta),
        HeaderKind::Succeeded => (HeaderColor::Green, HeaderColor::DarkGreen),
        HeaderKind::Error => (HeaderColor::Red, HeaderColor::DarkRed),
        HeaderKind::Canceled => (HeaderColor::Yellow, HeaderColor::DarkYellow),
    };
    proof {
        reveal_strlit("Verco @ ");
        reveal_strlit(" ");
    }
    assert(" "@ =~= seq![' ']);
    let first = concat(concat("Verco @ ", layout.directory_name.as_str()).as_str(), " ");
    let action = concat(concat(" ", header.action_name).as_str(), " ");
    let pad = spaces(layout.padding);
    let status = concat(concat(" ", layout.status).as_str(), " ");
    let ghost a = header.action_name@;
    let ghost d = header.directory_name@;
    let ghost t = header_texts(a, d, kind, width as int);
    proof {
        let w = width as int;
        let dd = shown_directory(a, d, kind, w);
        assert(first@ == t[0]);
        assert(action@ == t[1]);
        assert(pad@ == t[2]);
        assert(status@ == t[3]);
        lemma_byte_len_ascii(header_prefix());
        lemma_byte_len_ascii(seq![' ']);
        lemma_byte_len_concat(header_prefix(), dd);
        lemma_byte_len_concat(header_prefix() + dd, seq![' ']);
        lemma_byte_len_concat(seq![' '], a);
        lemma_byte_len_concat(seq![' '] + a, seq![' ']);
        lemma_byte_len_concat(seq![' '], status_word(kind));
        lemma_byte_len_concat(seq![' '] + status_word(kind), seq![' ']);
        lemma_spaces_byte_len(header_padding(a, d, kind, w) as nat);
        lemma_byte_len_concat(t[0], t[1]);
        lemma_byte_len_concat(t[0] + t[1], t[2]);
        lemma_byte_len_concat(t[0] + t[1] + t[2], t[3]);
        if !fits_full(a, d, kind, w) {
            let k = chars_in_bytes(d, (byte_len(d) - 32) as nat);
            assert(d == d.take(k) + d.skip(k));
            lemma_byte_len_concat(d.take(k), d.skip(k));
        }
    }
    let mut res: Vec<HeaderPiece> = Vec::new();
    res.push(HeaderPiece { text: first, background, foreground: HeaderColor::Black });
    res.push(HeaderPiece { text: action, background: dark, foreground: HeaderColor::White });
    res.push(HeaderPiece { text: pad, background, foreground: HeaderColor::Black });
    res.push(HeaderPiece { text: status, background: dark, foreground: HeaderColor::White });
    res
}

/// The size of the terminal, in columns and rows.
#[derive(Default, Clone, Copy)]
pub struct TerminalSize {
    pub width: u16,
    pub height: u16,
}

/// The size left for content below the header and above the status line.
#[derive(Clone, Copy)]
pub struct AvailableSize {
    pub width: usize,
    pub height: usize,
}

impl AvailableSize {
    /// The size left on a terminal: its width, and two rows fewer.
    pub fn from_temrinal_size(terminal_size: TerminalSize) -> (res: Self)
        requires
            terminal_size.height >= 2,
        ensures
            res.width == terminal_size.width,
            res.height == terminal_size.height - 2,
    {
        AvailableSize {
            width: terminal_size.width as usize,
            height: terminal_size.height as usize - 2,
        }
    }
}

/// Where the cursor lands when moved by `delta` over `count` entries: past either end it
/// stops at the end, unless it already was there, in which case it wraps around (a target
/// below zero wraps as the machine's unsigned conversion does).
pub open spec fn moved_cursor(cursor: int, count: int, delta: int) -> int {
    let target = cursor + delta;
    if target < 0 {
        if cursor == 0 {
            if target + count >= 0 {
                (target + count) % count
            } else {
                (target + count + usize::MAX + 1) % count
            }
        } else {
            0
        }
    } else if target >= count {
        if cursor == count - 1 {
            (target + count) % count
        } else {
            count - 1
        }
    } else {
        target
    }
}

/// Where the scroll goes so that the cursor is shown: up to the cursor, or down so that the
/// cursor is on the last available line.
pub open spec fn scrolled_to(scroll: int, cursor: int, height: int) -> int {
    if cursor < scroll {
        cursor
    } else if cursor >= scroll + height - 1 {
        1 + cursor - height
    } else {
        scroll
    }
}

/// Moves the cursor by `delta` over `entry_count` entries and scrolls so that it shows; with
/// no entries both go to zero.
pub fn move_cursor(scroll: &mut usize, cursor: &mut usize, available_size: AvailableSize, entry_count: usize, delta: i32)
    requires
        entry_count <= i32::MAX,
        entry_count > 0 ==> *old(cursor) <= i32::MAX,
        entry_count > 0 ==> i32::MIN <= *old(cursor) + delta + entry_count <= i32::MAX,
        entry_count > 0 ==> *old(scroll) + available_size.height >= 1,
        entry_count > 0 ==> *old(scroll) + available_size.height <= usize::MAX,
    ensures
        entry_count == 0 ==> *final(scroll) == 0 && *final(cursor) == 0,
        entry_count > 0 ==> *final(cursor) == moved_cursor(
            *old(cursor) as int,
            entry_count as int,
            delta as int,
        ) && *final(scroll) == scrolled_to(
            *old(scroll) as int,
            *final(cursor) as int,
            available_size.height as int,
        ),
        entry_count > 0 ==> *final(cursor) < entry_count,
{
    if entry_count == 0 {
        *scroll = 0;
        *cursor = 0;
        return;
    }
    let previous_cursor = *cursor;
    let count = entry_count as i32;
    let target = previous_cursor as i32 + delta;
    let next = if target < 0 {
        if previous_cursor == 0 {
            let wrapped = target + count;
            if wrapped >= 0 {
                (wrapped as usize) % entry_count
            } else {
                let m = (-(wrapped as i64)) as usize;
                (usize::MAX - (m - 1)) % entry_count
            }
        } else {
            0
        }
    } else if target >= count {
        if previous_cursor == entry_count - 1 {
            ((target + count) as usize) % entry_count
        } else {
            entry_count - 1
        }
    } else {
        target as usize
    };
    *cursor = next;
    if next < *scroll {
        *scroll = next;
    } else if next >= *scroll + available_size.height - 1 {
        *scroll = 1 + next - available_size.height;
    }
}


/// Whether the characters of `pattern` occur in `text` in the same order, not necessarily
/// next to each other (the first unmatched pattern character is matched at its earliest
/// occurrence).
pub open spec fn subsequence(pattern: Seq<char>, text: Seq<char>) -> bool
    decreases text.len(),
{
    if pattern.len() == 0 {
        true
    } else if text.len() == 0 {
        false
    } else if text[0] == pattern[0] {
        subsequence(pattern.skip(1), text.skip(1))
    } else {
        subsequence(pattern, text.skip(1))
    }
}

/// Whether `at` places the characters of `pattern` in `text`: one position per character,
/// increasing, each holding that character.
pub open spec fn placed_in_order(pattern: Seq<char>, text: Seq<char>, at: Seq<int>) -> bool {
    &&& at.len() == pattern.len()
    &&& forall|k: int| 0 <= k < at.len() ==> 0 <= #[trigger] at[k] < text.len() && text[at[k]] == pattern[k]
    &&& forall|k: int, l: int| 0 <= k < l < at.len() ==> #[trigger] at[k] < #[trigger] at[l]
}

proof fn lemma_placed_matches(pattern: Seq<char>, text: Seq<char>, at: Seq<int>)
    requires
        placed_in_order(pattern, text, at),
    ensures
        subsequence(pattern, text),
    decreases text.len(),
{
    if pattern.len() > 0 {
        assert(0 <= at[0] < text.len());
        let shifted = Seq::new(at.len(), |k: int| at[k] - 1);
        if text[0] == pattern[0] {
            let rest = Seq::new((at.len() - 1) as nat, |k: int| at[k + 1] - 1);
            assert forall|k: int| 0 <= k < rest.len() implies 0 <= #[trigger] rest[k] < text.skip(1).len()
                && text.skip(1)[rest[k]] == pattern.skip(1)[k] by {
                assert(at[0] < at[k + 1]);
            }
            assert forall|k: int, l: int| 0 <= k < l < rest.len() implies #[trigger] rest[k] < #[trigger] rest[l] by {
                assert(at[k + 1] < at[l + 1]);
            }
            lemma_placed_matches(pattern.skip(1), text.skip(1), rest);
        } else {
            assert forall|k: int| 0 <= k < shifted.len() implies 0 <= #[trigger] shifted[k] < text.skip(1).len()
                && text.skip(1)[shifted[k]] == pattern[k] by {
                assert(at[0] != 0);
                if k > 0 {
                    assert(at[0] < at[k]);
                }
            }
            assert forall|k: int, l: int| 0 <= k < l < shifted.len() implies #[trigger] shifted[k] < #[trigger] shifted[l] by {
                assert(at[k] < at[l]);
            }
            lemma_placed_matches(pattern, text.skip(1), shifted);
        }
    }
}

proof fn lemma_match_placed(pattern: Seq<char>, text: Seq<char>) -> (at: Seq<int>)
    requires
        subsequence(pattern, text),
    ensures
        placed_in_order(pattern, text, at),
    decreases text.len(),
{
    if pattern.len() == 0 {
        Seq::empty()
    } else if text[0] == pattern[0] {
        let rest = lemma_match_placed(pattern.skip(1), text.skip(1));
        let at = seq![0int] + Seq::new(rest.len(), |k: int| rest[k] + 1);
        assert forall|k: int| 0 <= k < at.len() implies 0 <= #[trigger] at[k] < text.len() && text[at[k]] == pattern[k] by {
            if k > 0 {
                assert(at[k] == rest[k - 1] + 1);
            }
        }
        assert forall|k: int, l: int| 0 <= k < l < at.len() implies #[trigger] at[k] < #[trigger] at[l] by {
            if k > 0 {
                assert(rest[k - 1] < rest[l - 1]);
            } else {
                assert(0 <= rest[l - 1]);
            }
        }
        at
    } else {
        let rest = lemma_match_placed(pattern, text.skip(1));
        let at = Seq::new(rest.len(), |k: int| rest[k] + 1);
        assert forall|k: int| 0 <= k < at.len() implies 0 <= #[trigger] at[k] < text.len() && text[at[k]] == pattern[k] by {
            assert(0 <= rest[k] < text.skip(1).len());
        }
        assert forall|k: int, l: int| 0 <= k < l < at.len() implies #[trigger] at[k] < #[trigger] at[l] by {
            assert(rest[k] < rest[l]);
        }
        at
    }
}

/// A text matches a filter exactly when the filter's characters can be found in the text in
/// order, at increasing positions, not necessarily next to each other.
pub proof fn lemma_match_iff_in_order(pattern: Seq<char>, text: Seq<char>)
    ensures
        subsequence(pattern, text) <==> exists|at: Seq<int>| placed_in_order(pattern, text, at),
{
    if subsequence(pattern, text) {
        let at = lemma_match_placed(pattern, text);
    } else {
        assert forall|at: Seq<int>| !placed_in_order(pattern, text, at) by {
            if placed_in_order(pattern, text, at) {
                lemma_placed_matches(pattern, text, at);
            }
        }
    }
}

/// Every part of a text matches as a filter: the text `before + pattern + after` matches
/// `pattern`.
pub proof fn lemma_part_of_text_matches(before: Seq<char>, pattern: Seq<char>, after: Seq<char>)
    ensures
        subsequence(pattern, before + pattern + after),
{
    let text = before + pattern + after;
    let at = Seq::new(pattern.len(), |k: int| before.len() + k);
    assert forall|k: int| 0 <= k < at.len() implies 0 <= #[trigger] at[k] < text.len() && text[at[k]] == pattern[k] by {}
    assert forall|k: int, l: int| 0 <= k < l < at.len() implies #[trigger] at[k] < #[trigger] at[l] by {}
    lemma_placed_matches(pattern, text, at);
}

/// Whether `text` matches the filter `pattern`: its characters occur in `text` in order.
pub fn fuzzy_matches(text: &str, pattern: &[char]) -> (res: bool)
    ensures
        res == subsequence(pattern@, text@),
{
    let t = chars_of(text);
    let mut i: usize = 0;
    let mut j: usize = 0;
    assert(pattern@.skip(0) == pattern@);
    assert(t@.skip(0) == t@);
    while i < t.len() && j < pattern.len()
        invariant
            i <= t.len(),
            j <= pattern@.len(),
            t@ == text@,
            subsequence(pattern@, text@) == subsequence(pattern@.skip(j as int), t@.skip(i as int)),
        decreases t.len() - i,
    {
        assert(t@.skip(i as int).skip(1) == t@.skip(i as int + 1));
        assert(pattern@.skip(j as int).skip(1) == pattern@.skip(j as int + 1));
        if t[i] == pattern[j] {
            j = j + 1;
        }
        i = i + 1;
    }
    j == pattern.len()
}

} // verus!
