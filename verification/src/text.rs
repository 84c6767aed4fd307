//! Character-level helpers shared by the pattern matcher and the layout
//! builder: comparing, splitting and joining qualified names.

use vstd::prelude::*;
use vstd::utf8::{encode_utf8, encode_utf8_decode_utf8};

verus! {

/// The character content of each string of a list.
pub open spec fn views(v: Seq<String>) -> Seq<Seq<char>> {
    v.map_values(|s: String| s@)
}

/// Whether the two-character separator `::` starts at position `i` of `s`.
pub open spec fn separator_at(s: Seq<char>, i: int) -> bool {
    0 <= i && i + 1 < s.len() && s[i] == ':' && s[i + 1] == ':'
}

/// The tokens of `s` from position `start` on, while the scan stands at `i`.
/// Separators are found left to right and never overlap, so `a:::b` splits
/// into `a` and `:b`.
pub open spec fn scan_tokens(s: Seq<char>, start: int, i: int) -> Seq<Seq<char>>
    decreases s.len() - i,
{
    if i < start || start < 0 || i >= s.len() {
        seq![s.subrange(start, s.len() as int)]
    } else if separator_at(s, i) {
        seq![s.subrange(start, i)] + scan_tokens(s, i + 2, i + 2)
    } else {
        scan_tokens(s, start, i + 1)
    }
}

/// The tokens between the `::` separators of `s`. There is always at least
/// one token; the empty string has the single empty token.
pub open spec fn split_path(s: Seq<char>) -> Seq<Seq<char>> {
    scan_tokens(s, 0, 0)
}

/// The parts written one behind the other with `separator` between them.
pub open spec fn join_with(parts: Seq<Seq<char>>, separator: Seq<char>) -> Seq<char>
    decreases parts.len(),
{
    if parts.len() == 0 {
        Seq::empty()
    } else if parts.len() == 1 {
        parts[0]
    } else {
        join_with(parts.drop_last(), separator) + separator + parts.last()
    }
}

/// The segments of a qualified name written out with `::` between them.
pub open spec fn join_path(segments: Seq<Seq<char>>) -> Seq<char> {
    join_with(segments, seq![':', ':'])
}

/// Compares two strings character by character.
pub fn str_eq(a: &str, b: &str) -> (r: bool)
    ensures
        r == (a@ == b@),
{
    let x = a.as_bytes();
    let y = b.as_bytes();
    proof {
        encode_utf8_decode_utf8(a@);
        encode_utf8_decode_utf8(b@);
    }
    if x.len() != y.len() {
        return false;
    }
    let mut i: usize = 0;
    while i < x.len()
        invariant
            i <= x.len(),
            x.len() == y.len(),
            x@ == encode_utf8(a@),
            y@ == encode_utf8(b@),
            forall|j: int| 0 <= j < i ==> x@[j] == y@[j],
        decreases x.len() - i,
    {
        if x[i] != y[i] {
            return false;
        }
        i += 1;
    }
    assert(x@ =~= y@);
    true
}

/// The characters of a string, in order.
pub fn chars_of(s: &str) -> (v: Vec<char>)
    ensures
        v@ == s@,
{
    let mut v: Vec<char> = Vec::new();
    for c in it: s.chars()
        invariant
            v@ == it.seq().take(it.index() as int),
            it.seq() == s@,
    {
        v.push(c);
    }
    v
}

/// Splits a string at each `::`.
pub fn split(s: &str) -> (tokens: Vec<String>)
    ensures
        views(tokens@) == split_path(s@),
{
    let chars = chars_of(s);
    let n: usize = chars.len();
    let mut tokens: Vec<String> = Vec::new();
    let mut start: usize = 0;
    let mut i: usize = 0;
    while i < n
        invariant
            chars@ == s@,
            n == chars.len(),
            start <= i <= n,
            views(tokens@) + scan_tokens(s@, start as int, i as int) == split_path(s@),
        decreases n - i,
    {
        if i + 1 < n && chars[i] == ':' && chars[i + 1] == ':' {
            let token = s.substring_char(start, i).to_owned();
            proof {
                let before = views(tokens@);
                let after = views(tokens@.push(token));
                assert(after =~= before.push(token@));
                assert(before.push(token@) + scan_tokens(s@, i + 2, i + 2) =~= before
                    + scan_tokens(s@, start as int, i as int));
            }
            tokens.push(token);
            i += 2;
            start = i;
        } else {
            i += 1;
        }
    }
    let token = s.substring_char(start, n).to_owned();
    proof {
        let before = views(tokens@);
        assert(views(tokens@.push(token)) =~= before.push(token@));
        assert(before.push(token@) =~= before + scan_tokens(s@, start as int, i as int));
    }
    tokens.push(token);
    tokens
}

/// Writes the parts out with `separator` between them.
pub fn join_by(parts: &Vec<String>, separator: &str) -> (joined: String)
    ensures
        joined@ == join_with(views(parts@), separator@),
{
    let mut joined = String::new();
    let mut i: usize = 0;
    while i < parts.len()
        invariant
            i <= parts.len(),
            joined@ == join_with(views(parts@).take(i as int), separator@),
        decreases parts.len() - i,
    {
        proof {
            let all = views(parts@);
            let next = all.take(i + 1);
            assert(next.drop_last() =~= all.take(i as int));
            assert(next.last() == parts@[i as int]@);
        }
        if i > 0 {
            joined.append(separator);
        }
        joined.append(parts[i].as_str());
        i += 1;
    }
    proof {
        assert(views(parts@).take(i as int) =~= views(parts@));
    }
    joined
}

/// The decimal digit of a number below ten.
pub open spec fn digit(n: nat) -> char {
    if n == 0 {
        '0'
    } else if n == 1 {
        '1'
    } else if n == 2 {
        '2'
    } else if n == 3 {
        '3'
    } else if n == 4 {
        '4'
    } else if n == 5 {
        '5'
    } else if n == 6 {
        '6'
    } else if n == 7 {
        '7'
    } else if n == 8 {
        '8'
    } else {
        '9'
    }
}

/// A number written in decimal, without leading zeros.
pub open spec fn decimal(n: nat) -> Seq<char>
    decreases n,
{
    if n < 10 {
        seq![digit(n)]
    } else {
        decimal(n / 10).push(digit(n % 10))
    }
}

/// The decimal digit of a number below ten, as a string.
fn digit_text(n: u64) -> (text: &'static str)
    requires
        n < 10,
    ensures
        text@ == seq![digit(n as nat)],
{
    proof {
        reveal_strlit("0");
        reveal_strlit("1");
        reveal_strlit("2");
        reveal_strlit("3");
        reveal_strlit("4");
        reveal_strlit("5");
        reveal_strlit("6");
        reveal_strlit("7");
        reveal_strlit("8");
        reveal_strlit("9");
    }
    let text = if n == 0 {
        "0"
    } else if n == 1 {
        "1"
    } else if n == 2 {
        "2"
    } else if n == 3 {
        "3"
    } else if n == 4 {
        "4"
    } else if n == 5 {
        "5"
    } else if n == 6 {
        "6"
    } else if n == 7 {
        "7"
    } else if n == 8 {
        "8"
    } else {
        "9"
    };
    assert(text@ =~= seq![digit(n as nat)]);
    text
}

/// Writes a number in decimal.
pub fn to_decimal(n: u64) -> (text: String)
    ensures
        text@ == decimal(n as nat),
    decreases n,
{
    if n < 10 {
        digit_text(n).to_owned()
    } else {
        let mut text = to_decimal(n / 10);
        let last = digit_text(n % 10);
        text.append(last);
        assert(text@ =~= decimal(n as nat));
        text
    }
}

/// Writes the segments out with `::` between them.
pub fn join(segments: &Vec<String>) -> (joined: String)
    ensures
        joined@ == join_path(views(segments@)),
{
    proof {
        reveal_strlit("::");
        assert("::"@ =~= seq![':', ':']);
    }
    join_by(segments, "::")
}

/// What `str::to_lowercase` makes of a string: each character replaced by
/// its lowercase form as Unicode defines it, which may be several characters.
pub uninterp spec fn lowercase(s: Seq<char>) -> Seq<char>;

/// Lower-cases a string with `str::to_lowercase` of the standard library.
/// The result is a function of the characters alone: the conversion knows
/// no locale.
#[verifier::external_body]
pub(crate) fn to_lowercase(s: &str) -> (lowered: String)
    ensures
        lowered@ == lowercase(s@),
{
    s.to_lowercase()
}

/// No character of `s` is a colon.
pub open spec fn colon_free(s: Seq<char>) -> bool {
    forall|i: int| 0 <= i < s.len() ==> s[i] != ':'
}

/// A split always yields a token.
pub proof fn lemma_scan_tokens_nonempty(s: Seq<char>, start: int, i: int)
    ensures
        scan_tokens(s, start, i).len() >= 1,
    decreases s.len() - i,
{
    if i < start || start < 0 || i >= s.len() {
    } else if separator_at(s, i) {
        lemma_scan_tokens_nonempty(s, i + 2, i + 2);
    } else {
        lemma_scan_tokens_nonempty(s, start, i + 1);
    }
}

/// Joining puts the first part in front of the others, joined.
pub proof fn lemma_join_first(parts: Seq<Seq<char>>, separator: Seq<char>)
    requires
        parts.len() >= 2,
    ensures
        join_with(parts, separator) == parts[0] + separator + join_with(
            parts.drop_first(),
            separator,
        ),
    decreases parts.len(),
{
    let front = parts.drop_last();
    let back = parts.drop_first();
    if parts.len() == 2 {
        assert(join_with(front, separator) == parts[0]);
        assert(join_with(back, separator) == parts[1]);
    } else {
        lemma_join_first(front, separator);
        assert(front.drop_first() =~= back.drop_last());
        assert(back.last() == parts.last());
        assert(front[0] == parts[0]);
        assert(join_with(parts, separator) =~= parts[0] + separator + join_with(back, separator));
    }
}

/// Where no separator starts from `i` on, the scan ends with one token.
proof fn lemma_scan_to_end(s: Seq<char>, start: int, i: int)
    requires
        0 <= start <= i <= s.len(),
        forall|j: int| i <= j < s.len() ==> !separator_at(s, j),
    ensures
        scan_tokens(s, start, i) == seq![s.subrange(start, s.len() as int)],
    decreases s.len() - i,
{
    if i < s.len() {
        lemma_scan_to_end(s, start, i + 1);
    }
}

/// Where the next separator starts at `k`, the scan cuts a token there and
/// goes on behind the separator.
proof fn lemma_scan_to_separator(s: Seq<char>, start: int, i: int, k: int)
    requires
        0 <= start <= i <= k,
        separator_at(s, k),
        forall|j: int| i <= j < k ==> !separator_at(s, j),
    ensures
        scan_tokens(s, start, i) == seq![s.subrange(start, k)] + scan_tokens(s, k + 2, k + 2),
    decreases k - i,
{
    if i < k {
        lemma_scan_to_separator(s, start, i + 1, k);
    }
}

/// A scan does not look at what lies before its start.
proof fn lemma_scan_shift(s: Seq<char>, d: int, start: int, i: int)
    requires
        0 <= d <= start <= i <= s.len(),
    ensures
        scan_tokens(s, start, i) == scan_tokens(s.skip(d), start - d, i - d),
    decreases s.len() - i,
{
    let t = s.skip(d);
    assert(s.subrange(start, s.len() as int) =~= t.subrange(start - d, t.len() as int));
    if i < s.len() {
        assert(separator_at(s, i) == separator_at(t, i - d));
        if separator_at(s, i) {
            assert(s.subrange(start, i) =~= t.subrange(start - d, i - d));
            lemma_scan_shift(s, d, i + 2, i + 2);
        } else {
            lemma_scan_shift(s, d, start, i + 1);
        }
    }
}

/// Splitting what was joined gives the segments back, as long as there is a
/// segment and none holds a colon.
pub proof fn lemma_split_join(segments: Seq<Seq<char>>)
    requires
        segments.len() >= 1,
        forall|i: int| 0 <= i < segments.len() ==> colon_free(#[trigger] segments[i]),
    ensures
        split_path(join_path(segments)) == segments,
    decreases segments.len(),
{
    let s = join_path(segments);
    if segments.len() == 1 {
        assert(colon_free(segments[0]));
        lemma_scan_to_end(s, 0, 0);
        assert(s.subrange(0, s.len() as int) =~= s);
        assert(seq![s] =~= segments);
    } else {
        let head = segments[0];
        let tail = segments.drop_first();
        let k = head.len() as int;
        lemma_join_first(segments, seq![':', ':']);
        assert(colon_free(head));
        assert(s =~= head + seq![':', ':'] + join_path(tail));
        assert(s[k] == ':' && s[k + 1] == ':');
        assert forall|j: int| 0 <= j < k implies !separator_at(s, j) by {
            assert(s[j] == head[j]);
        }
        lemma_scan_to_separator(s, 0, 0, k);
        lemma_scan_shift(s, k + 2, k + 2, k + 2);
        assert(s.skip(k + 2) =~= join_path(tail));
        assert(s.subrange(0, k) =~= head);
        assert forall|i: int| 0 <= i < tail.len() implies colon_free(#[trigger] tail[i]) by {
            assert(tail[i] == segments[i + 1]);
        }
        lemma_split_join(tail);
        assert(seq![head] + tail =~= segments);
    }
}

} // verus!
