//! Text handling: whitespace trimming, lowercasing and splitting text into lines.
use vstd::prelude::*;
use vstd::string::StrSliceExecFns;

verus! {

/// Unicode `White_Space`, the whitespace of `char::is_whitespace`.
pub open spec fn spec_is_whitespace(c: char) -> bool {
    let u = c as u32;
    ||| 0x09 <= u <= 0x0D
    ||| u == 0x20
    ||| u == 0x85
    ||| u == 0xA0
    ||| u == 0x1680
    ||| 0x2000 <= u <= 0x200A
    ||| u == 0x2028
    ||| u == 0x2029
    ||| u == 0x202F
    ||| u == 0x205F
    ||| u == 0x3000
}

/// `s` without leading whitespace.
pub open spec fn spec_trim_start(s: Seq<char>) -> Seq<char>
    decreases s.len(),
{
    if s.len() > 0 && spec_is_whitespace(s[0]) {
        spec_trim_start(s.drop_first())
    } else {
        s
    }
}

/// `s` without trailing whitespace.
pub open spec fn spec_trim_end(s: Seq<char>) -> Seq<char>
    decreases s.len(),
{
    if s.len() > 0 && spec_is_whitespace(s.last()) {
        spec_trim_end(s.drop_last())
    } else {
        s
    }
}

/// `s` without leading and trailing whitespace.
pub open spec fn spec_trim(s: Seq<char>) -> Seq<char> {
    spec_trim_end(spec_trim_start(s))
}

/// Whether a character is whitespace, as `char::is_whitespace` has it.
fn is_whitespace(c: char) -> (res: bool)
    ensures
        res == spec_is_whitespace(c),
{
    let u = c as u32;
    (0x09 <= u && u <= 0x0D) || u == 0x20 || u == 0x85 || u == 0xA0 || u == 0x1680 || (0x2000 <= u
        && u <= 0x200A) || u == 0x2028 || u == 0x2029 || u == 0x202F || u == 0x205F || u == 0x3000
}

/// Remove leading and trailing whitespace, as `str::trim` does.
pub fn trim(s: &str) -> (res: &str)
    ensures
        res@ == spec_trim(s@),
{
    let n = s.unicode_len();
    let mut i: usize = 0;
    while i < n && is_whitespace(s.get_char(i))
        invariant
            n == s@.len(),
            i <= n,
            forall|m: int| 0 <= m < i ==> spec_is_whitespace(#[trigger] s@[m]),
        decreases n - i,
    {
        i = i + 1;
    }
    let mut j: usize = n;
    while j > i && is_whitespace(s.get_char(j - 1))
        invariant
            n == s@.len(),
            i <= j <= n,
            forall|m: int| j <= m < n ==> spec_is_whitespace(#[trigger] s@[m]),
        decreases j,
    {
        j = j - 1;
    }
    proof {
        let u = s@.subrange(i as int, n as int);
        if i < n {
            lemma_trim_start_at(s@, i as int);
        } else {
            lemma_trim_start_all(s@);
            assert(u =~= Seq::<char>::empty());
        }
        assert forall|m: int| j - i <= m < u.len() implies spec_is_whitespace(#[trigger] u[m]) by {
            assert(u[m] == s@[i + m]);
        }
        if j > i {
            assert(u[j - i - 1] == s@[j - 1]);
        }
        lemma_trim_end_at(u, (j - i) as int);
        assert(u.subrange(0, (j - i) as int) =~= s@.subrange(i as int, j as int));
    }
    s.substring_char(i, j)
}

/// A text of whitespace only trims at the start to nothing.
proof fn lemma_trim_start_all(s: Seq<char>)
    requires
        forall|m: int| 0 <= m < s.len() ==> spec_is_whitespace(#[trigger] s[m]),
    ensures
        spec_trim_start(s) == Seq::<char>::empty(),
    decreases s.len(),
{
    if s.len() > 0 {
        let rest = s.drop_first();
        assert forall|m: int| 0 <= m < rest.len() implies spec_is_whitespace(#[trigger] rest[m]) by {
            assert(rest[m] == s[m + 1]);
        }
        lemma_trim_start_all(rest);
    }
}

/// Trimming the end drops the trailing whitespace: what is left ends at the last other
/// character.
proof fn lemma_trim_end_at(s: Seq<char>, m: int)
    requires
        0 <= m <= s.len(),
        forall|i: int| m <= i < s.len() ==> spec_is_whitespace(#[trigger] s[i]),
        m > 0 ==> !spec_is_whitespace(s[m - 1]),
    ensures
        spec_trim_end(s) == s.subrange(0, m),
    decreases s.len(),
{
    if s.len() > m {
        let init = s.drop_last();
        assert(spec_is_whitespace(s.last()));
        assert forall|i: int| m <= i < init.len() implies spec_is_whitespace(#[trigger] init[i]) by {
            assert(init[i] == s[i]);
        }
        if m > 0 {
            assert(init[m - 1] == s[m - 1]);
        }
        lemma_trim_end_at(init, m);
        assert(init.subrange(0, m) =~= s.subrange(0, m));
    } else {
        assert(s.subrange(0, m) =~= s);
        if m > 0 {
            assert(s.last() == s[m - 1]);
        }
    }
}

/// Whether every character of `s` is ASCII.
pub open spec fn is_ascii_text(s: Seq<char>) -> bool {
    forall|i: int| 0 <= i < s.len() ==> (#[trigger] s[i]) as u32 <= 0x7f
}

/// ASCII lowercase of a character: `A`-`Z` become `a`-`z`, all else stays.
pub open spec fn ascii_lower(c: char) -> char {
    if 'A' <= c && c <= 'Z' {
        ((c as u32) + 32) as char
    } else {
        c
    }
}

/// What `str::to_lowercase` makes of a text that is not all ASCII and does not start with
/// `#`.
pub uninterp spec fn unicode_lowercase(s: Seq<char>) -> Seq<char>;

/// What follows the leading `#` in what `str::to_lowercase` makes of a text that is not all
/// ASCII and starts with `#`.
pub uninterp spec fn unicode_lowercase_after_hash(s: Seq<char>) -> Seq<char>;

/// What `str::to_lowercase` makes of `s`: in ASCII text the letters `A`-`Z` become `a`-`z`
/// and all else stays; other text is its Unicode lowercase form, named, which keeps a
/// leading `#` (the sign has no lowercase form).
#[verifier::opaque]
pub open spec fn lowercase(s: Seq<char>) -> Seq<char> {
    if is_ascii_text(s) {
        s.map_values(|c: char| ascii_lower(c))
    } else if s[0] == '#' {
        seq!['#'] + unicode_lowercase_after_hash(s)
    } else {
        unicode_lowercase(s)
    }
}

/// Lowercase a string.
///
/// Calls `str::to_lowercase`. Claimed, as its documentation gives: each character becomes
/// its Unicode lowercase form, so ASCII letters `A`-`Z` become `a`-`z`, other ASCII
/// characters stay, and a leading `#` stays; the rest of a text that is not ASCII is
/// named, not stated.
#[verifier::external_body]
pub(crate) fn to_lowercase(s: &str) -> (res: String)
    ensures
        res@ == lowercase(s@),
        !is_ascii_text(s@) && s@[0] != '#' ==> res@ == unicode_lowercase(s@),
        !is_ascii_text(s@) && s@[0] == '#' ==> res@ == seq!['#'] + unicode_lowercase_after_hash(
            s@,
        ),
{
    s.to_lowercase()
}

/// A text that starts with `#` lowercases to a text that starts with `#`.
pub proof fn lemma_lowercase_keeps_hash(s: Seq<char>)
    requires
        s.len() > 0,
        s[0] == '#',
    ensures
        lowercase(s).len() > 0,
        lowercase(s)[0] == '#',
{
    reveal(lowercase);
}

/// The characters of a string.
pub fn chars_of(s: &str) -> (res: Vec<char>)
    ensures
        res@ == s@,
{
    let n = s.unicode_len();
    let mut out: Vec<char> = Vec::new();
    let mut i: usize = 0;
    while i < n
        invariant
            n == s@.len(),
            i <= n,
            out@ == s@.subrange(0, i as int),
        decreases n - i,
    {
        out.push(s.get_char(i));
        i = i + 1;
        proof {
            assert(out@ =~= s@.subrange(0, i as int));
        }
    }
    proof {
        assert(out@ =~= s@);
    }
    out
}

/// Index of the first `c` in `s`, or the length of `s` if there is none.
pub open spec fn first_index_of(s: Seq<char>, c: char) -> int
    decreases s.len(),
{
    if s.len() == 0 {
        0
    } else if s[0] == c {
        0
    } else {
        1 + first_index_of(s.drop_first(), c)
    }
}

/// `first_index_of` is the first occurrence, or the length of the text when it has none.
pub proof fn lemma_first_index_of(s: Seq<char>, c: char)
    ensures
        0 <= first_index_of(s, c) <= s.len(),
        first_index_of(s, c) < s.len() ==> s[first_index_of(s, c)] == c,
        forall|i: int| 0 <= i < first_index_of(s, c) ==> s[i] != c,
    decreases s.len(),
{
    if s.len() > 0 && s[0] != c {
        lemma_first_index_of(s.drop_first(), c);
        assert forall|i: int| 0 <= i < first_index_of(s, c) implies s[i] != c by {
            if i > 0 {
                assert(s[i] == s.drop_first()[i - 1]);
            }
        }
    }
}

/// An index with no `c` before it and `c` or the end at it is the first index of `c`.
pub proof fn lemma_first_index_of_at(s: Seq<char>, c: char, k: int)
    requires
        0 <= k <= s.len(),
        forall|i: int| 0 <= i < k ==> s[i] != c,
        k < s.len() ==> s[k] == c,
    ensures
        first_index_of(s, c) == k,
{
    lemma_first_index_of(s, c);
    let f = first_index_of(s, c);
    if f < k {
        assert(s[f] == c);
    } else if k < f {
        assert(s[k] != c);
    }
}

/// A line without its carriage return, if it ends with one.
pub open spec fn strip_cr(line: Seq<char>) -> Seq<char> {
    if line.len() > 0 && line.last() == '\r' {
        line.drop_last()
    } else {
        line
    }
}

/// The lines of a text, as `str::lines` gives them: split at `\n`, dropping a `\r` before
/// it; a final line ending adds no empty line.
pub open spec fn spec_lines(s: Seq<char>) -> Seq<Seq<char>>
    decreases s.len(),
{
    if s.len() == 0 {
        seq![]
    } else {
        let k = first_index_of(s, '\n');
        proof {
            lemma_first_index_of(s, '\n');
        }
        if k >= s.len() {
            seq![s]
        } else {
            seq![strip_cr(s.subrange(0, k))] + spec_lines(s.subrange(k + 1, s.len() as int))
        }
    }
}

/// The text a list of character ranges selects.
pub open spec fn range_texts(chars: Seq<char>, ranges: Seq<(usize, usize)>) -> Seq<Seq<char>> {
    ranges.map_values(|r: (usize, usize)| chars.subrange(r.0 as int, r.1 as int))
}

/// The ranges of the lines of a text.
pub fn line_ranges(chars: &Vec<char>) -> (res: Vec<(usize, usize)>)
    ensures
        forall|j: int| 0 <= j < res@.len() ==> #[trigger] res@[j].0 <= res@[j].1 <= chars@.len(),
        range_texts(chars@, res@) == spec_lines(chars@),
{
    let n = chars.len();
    let mut ranges: Vec<(usize, usize)> = Vec::new();
    let mut start: usize = 0;
    let mut i: usize = 0;
    proof {
        assert(chars@.subrange(0, n as int) =~= chars@);
        assert(range_texts(chars@, ranges@) + spec_lines(chars@) =~= spec_lines(chars@));
    }
    while i < n
        invariant
            n == chars@.len(),
            start <= i <= n,
            forall|j: int| start <= j < i ==> chars@[j] != '\n',
            forall|j: int| 0 <= j < ranges@.len() ==> #[trigger] ranges@[j].0 <= ranges@[j].1 <= n,
            range_texts(chars@, ranges@) + spec_lines(chars@.subrange(start as int, n as int))
                == spec_lines(chars@),
        decreases n - i,
    {
        if chars[i] == '\n' {
            let end = if i > start && chars[i - 1] == '\r' {
                i - 1
            } else {
                i
            };
            proof {
                let t = chars@.subrange(start as int, n as int);
                let k = (i - start) as int;
                assert forall|j: int| 0 <= j < k implies t[j] != '\n' by {
                    assert(t[j] == chars@[start + j]);
                }
                lemma_first_index_of_at(t, '\n', k);
                assert(t.subrange(0, k) =~= chars@.subrange(start as int, i as int));
                assert(strip_cr(t.subrange(0, k)) =~= chars@.subrange(start as int, end as int));
                assert(t.subrange(k + 1, t.len() as int) =~= chars@.subrange(i + 1, n as int));
                assert(range_texts(chars@, ranges@.push((start, end))) =~= range_texts(
                    chars@,
                    ranges@,
                ).push(chars@.subrange(start as int, end as int)));
            }
            let ghost before = ranges@;
            ranges.push((start, end));
            proof {
                assert forall|j: int| 0 <= j < ranges@.len() implies #[trigger] ranges@[j].0
                    <= ranges@[j].1 <= n by {
                    if j < before.len() {
                        assert(ranges@[j] == before[j]);
                    }
                }
            }
            start = i + 1;
        }
        i = i + 1;
    }
    proof {
        let t = chars@.subrange(start as int, n as int);
        if start < n {
            assert forall|j: int| 0 <= j < t.len() implies t[j] != '\n' by {
                assert(t[j] == chars@[start + j]);
            }
            lemma_first_index_of_at(t, '\n', t.len() as int);
            assert(range_texts(chars@, ranges@.push((start, n))) =~= range_texts(
                chars@,
                ranges@,
            ).push(t));
        } else {
            assert(t.len() == 0);
            assert(range_texts(chars@, ranges@) + spec_lines(t) =~= range_texts(chars@, ranges@));
        }
    }
    if start < n {
        let ghost before = ranges@;
        ranges.push((start, n));
        proof {
            assert forall|j: int| 0 <= j < ranges@.len() implies #[trigger] ranges@[j].0
                <= ranges@[j].1 <= n by {
                if j < before.len() {
                    assert(ranges@[j] == before[j]);
                }
            }
        }
    }
    ranges
}

/// Lines joined with a separator between each two.
pub open spec fn spec_join(lines: Seq<Seq<char>>, sep: Seq<char>) -> Seq<char>
    decreases lines.len(),
{
    if lines.len() == 0 {
        seq![]
    } else if lines.len() == 1 {
        lines[0]
    } else {
        spec_join(lines.drop_last(), sep) + sep + lines.last()
    }
}

/// Whether `s` starts with `prefix`.
pub fn starts_with(s: &str, prefix: &str) -> (res: bool)
    ensures
        res == prefix@.is_prefix_of(s@),
{
    let n = prefix.unicode_len();
    if n > s.unicode_len() {
        return false;
    }
    let mut i: usize = 0;
    while i < n
        invariant
            n == prefix@.len(),
            n <= s@.len(),
            i <= n,
            forall|j: int| 0 <= j < i ==> prefix@[j] == s@[j],
        decreases n - i,
    {
        if prefix.get_char(i) != s.get_char(i) {
            return false;
        }
        i = i + 1;
    }
    proof {
        assert(prefix@ =~= s@.subrange(0, n as int));
    }
    true
}

/// The digit character for `d`, in lowercase for the hexadecimal digits above 9.
pub open spec fn digit_char(d: int) -> char {
    if d < 10 {
        (d + 48) as char
    } else {
        (d + 87) as char
    }
}

/// The decimal text of a number, without leading zeros.
pub open spec fn spec_decimal(n: nat) -> Seq<char>
    decreases n,
{
    if n < 10 {
        seq![digit_char(n as int)]
    } else {
        spec_decimal(n / 10).push(digit_char((n % 10) as int))
    }
}

/// The lowercase hexadecimal text of a number, without leading zeros.
pub open spec fn spec_hex(n: nat) -> Seq<char>
    decreases n,
{
    if n < 16 {
        seq![digit_char(n as int)]
    } else {
        spec_hex(n / 16).push(digit_char((n % 16) as int))
    }
}

/// The text of one digit.
fn digit_str(d: u32) -> (res: &'static str)
    requires
        d < 16,
    ensures
        res@ == seq![digit_char(d as int)],
{
    proof {
        reveal_strlit("0");
        reveal_strlit("1");
        reveal_strlit("2");
        reveal_strlit("3");
        reveal_strlit("4");
        reveal_strlit("5");
        reveal_strlit("6");
        reveal_strlit("7");
        reveal_strlit("8");
        reveal_strlit("9");
        reveal_strlit("a");
        reveal_strlit("b");
        reveal_strlit("c");
        reveal_strlit("d");
        reveal_strlit("e");
        reveal_strlit("f");
    }
    match d {
        0 => "0",
        1 => "1",
        2 => "2",
        3 => "3",
        4 => "4",
        5 => "5",
        6 => "6",
        7 => "7",
        8 => "8",
        9 => "9",
        10 => "a",
        11 => "b",
        12 => "c",
        13 => "d",
        14 => "e",
        _ => "f",
    }
}

/// The decimal text of a number, as `to_string` gives it.
pub fn decimal(n: u32) -> (res: String)
    ensures
        res@ == spec_decimal(n as nat),
    decreases n,
{
    if n < 10 {
        String::from_str(digit_str(n))
    } else {
        let mut s = decimal(n / 10);
        s.append(digit_str(n % 10));
        s
    }
}

/// The lowercase hexadecimal text of a number, as `{:x}` formats it.
pub fn hex(n: u32) -> (res: String)
    ensures
        res@ == spec_hex(n as nat),
    decreases n,
{
    if n < 16 {
        String::from_str(digit_str(n))
    } else {
        let mut s = hex(n / 16);
        s.append(digit_str(n % 16));
        s
    }
}

/// The texts of a list of strings.
pub open spec fn texts(v: Seq<String>) -> Seq<Seq<char>> {
    v.map_values(|s: String| s@)
}
/// Whether `s` holds no `c`.
pub open spec fn lacks(s: Seq<char>, c: char) -> bool {
    forall|i: int| 0 <= i < s.len() ==> s[i] != c
}

/// The lines of a text hold no line feed.
pub proof fn lemma_lines_lack_newline(s: Seq<char>)
    ensures
        forall|i: int| 0 <= i < spec_lines(s).len() ==> lacks(#[trigger] spec_lines(s)[i], '\n'),
    decreases s.len(),
{
    if s.len() > 0 {
        let k = first_index_of(s, '\n');
        lemma_first_index_of(s, '\n');
        if k < s.len() {
            let rest = s.subrange(k + 1, s.len() as int);
            lemma_lines_lack_newline(rest);
            let first = strip_cr(s.subrange(0, k));
            assert(lacks(first, '\n')) by {
                assert forall|i: int| 0 <= i < first.len() implies first[i] != '\n' by {
                    assert(first[i] == s[i]);
                }
            }
            assert forall|i: int| 0 <= i < spec_lines(s).len() implies lacks(
                #[trigger] spec_lines(s)[i],
                '\n',
            ) by {
                if i > 0 {
                    assert(spec_lines(s)[i] == spec_lines(rest)[i - 1]);
                }
            }
        }
    }
}

/// Joining two or more lines puts the first, a separator and the rest joined.
pub proof fn lemma_join_front(lines: Seq<Seq<char>>, sep: Seq<char>)
    requires
        lines.len() >= 2,
    ensures
        spec_join(lines, sep) == lines[0] + sep + spec_join(lines.drop_first(), sep),
    decreases lines.len(),
{
    if lines.len() == 2 {
        assert(lines.drop_last().len() == 1);
        assert(lines.drop_first().len() == 1);
        assert(lines.drop_first()[0] == lines.last());
        assert(spec_join(lines.drop_last(), sep) == lines.drop_last()[0]);
        assert(spec_join(lines.drop_first(), sep) == lines.drop_first()[0]);
        assert(lines.drop_last()[0] == lines[0]);
    } else {
        let init = lines.drop_last();
        lemma_join_front(init, sep);
        assert(init.drop_first() =~= lines.drop_first().drop_last());
        assert(lines.drop_first().last() == lines.last());
        assert(init[0] == lines[0]);
        assert(spec_join(lines, sep) =~= lines[0] + sep + spec_join(lines.drop_first(), sep));
    }
}

/// Lines without line feeds, joined with `\r\n`, read back as the same lines, but for a last
/// line that is empty.
pub proof fn lemma_lines_of_join(lines: Seq<Seq<char>>)
    requires
        forall|i: int| 0 <= i < lines.len() ==> lacks(#[trigger] lines[i], '\n'),
    ensures
        spec_lines(spec_join(lines, "\r\n"@)) == if lines.len() > 0 && lines.last().len() == 0 {
            lines.drop_last()
        } else {
            lines
        },
    decreases lines.len(),
{
    reveal_strlit("\r\n");
    let eol = "\r\n"@;
    if lines.len() == 0 {
    } else if lines.len() == 1 {
        let l = lines[0];
        if l.len() > 0 {
            lemma_first_index_of_at(l, '\n', l.len() as int);
            assert(lines =~= seq![l]);
        } else {
            assert(lines.drop_last() =~= Seq::<Seq<char>>::empty());
        }
    } else {
        lemma_join_front(lines, eol);
        let rest = lines.drop_first();
        assert forall|i: int| 0 <= i < rest.len() implies lacks(#[trigger] rest[i], '\n') by {
            assert(rest[i] == lines[i + 1]);
        }
        lemma_lines_of_join(rest);
        let l = lines[0];
        let s = spec_join(lines, eol);
        assert(s =~= l + eol + spec_join(rest, eol));
        let k = l.len() as int;
        assert forall|i: int| 0 <= i < k + 1 implies s[i] != '\n' by {
            if i < k {
                assert(s[i] == l[i]);
            } else {
                assert(s[i] == '\r');
            }
        }
        assert(s[k + 1] == '\n');
        lemma_first_index_of_at(s, '\n', k + 1);
        assert(s.subrange(0, k + 1) =~= l.push('\r'));
        assert(strip_cr(s.subrange(0, k + 1)) =~= l);
        assert(s.subrange(k + 2, s.len() as int) =~= spec_join(rest, eol));
        assert(rest.last() == lines.last());
        if lines.last().len() == 0 {
            assert(seq![l] + rest.drop_last() =~= lines.drop_last());
        } else {
            assert(seq![l] + rest =~= lines);
        }
    }
}

/// Trimming the start drops the leading whitespace: what is left starts at the first other
/// character.
pub proof fn lemma_trim_start_at(s: Seq<char>, w: int)
    requires
        0 <= w < s.len(),
        forall|i: int| 0 <= i < w ==> spec_is_whitespace(#[trigger] s[i]),
        !spec_is_whitespace(s[w]),
    ensures
        spec_trim_start(s) == s.subrange(w, s.len() as int),
    decreases w,
{
    if w == 0 {
        assert(s.subrange(0, s.len() as int) =~= s);
    } else {
        let rest = s.drop_first();
        assert forall|i: int| 0 <= i < w - 1 implies spec_is_whitespace(#[trigger] rest[i]) by {
            assert(rest[i] == s[i + 1]);
        }
        lemma_trim_start_at(rest, w - 1);
        assert(rest.subrange(w - 1, rest.len() as int) =~= s.subrange(w, s.len() as int));
    }
}

/// Trimming the end of a text that starts with a character other than whitespace keeps that
/// character first.
pub proof fn lemma_trim_end_keeps_first(s: Seq<char>)
    requires
        s.len() > 0,
        !spec_is_whitespace(s[0]),
    ensures
        spec_trim_end(s).len() > 0,
        spec_trim_end(s)[0] == s[0],
    decreases s.len(),
{
    if spec_is_whitespace(s.last()) {
        assert(s.len() > 1);
        lemma_trim_end_keeps_first(s.drop_last());
    }
}

/// A text that starts with a part holding a character other than whitespace trims to a
/// text that starts as that part trimmed does.
pub proof fn lemma_trim_head(p: Seq<char>, x: Seq<char>, w: int)
    requires
        0 <= w < p.len(),
        !spec_is_whitespace(p[w]),
    ensures
        spec_trim(p + x).len() > 0,
        spec_trim(p).len() > 0,
        spec_trim(p + x)[0] == spec_trim(p)[0],
{
    let s = p + x;
    // The first character of `p` other than whitespace.
    let first = choose|f: int|
        0 <= f <= w && !spec_is_whitespace(p[f]) && forall|i: int|
            0 <= i < f ==> spec_is_whitespace(#[trigger] p[i]);
    assert(exists|f: int|
        0 <= f <= w && !spec_is_whitespace(p[f]) && forall|i: int|
            0 <= i < f ==> spec_is_whitespace(#[trigger] p[i])) by {
        lemma_first_non_whitespace(p, w);
    }
    lemma_trim_start_at(p, first);
    assert forall|i: int| 0 <= i < first implies spec_is_whitespace(#[trigger] s[i]) by {
        assert(s[i] == p[i]);
    }
    assert(s[first] == p[first]);
    lemma_trim_start_at(s, first);
    lemma_trim_end_keeps_first(p.subrange(first, p.len() as int));
    lemma_trim_end_keeps_first(s.subrange(first, s.len() as int));
}

/// A text holding a character other than whitespace at `w` has a first such character.
proof fn lemma_first_non_whitespace(p: Seq<char>, w: int)
    requires
        0 <= w < p.len(),
        !spec_is_whitespace(p[w]),
    ensures
        exists|f: int|
            0 <= f <= w && !spec_is_whitespace(p[f]) && forall|i: int|
                0 <= i < f ==> spec_is_whitespace(#[trigger] p[i]),
    decreases w,
{
    if exists|i: int| 0 <= i < w && !spec_is_whitespace(#[trigger] p[i]) {
        let i = choose|i: int| 0 <= i < w && !spec_is_whitespace(#[trigger] p[i]);
        lemma_first_non_whitespace(p, i);
    } else {
        assert(forall|i: int| 0 <= i < w ==> spec_is_whitespace(#[trigger] p[i]));
    }
}

/// A text that is its own trim does not start with whitespace.
pub proof fn lemma_trimmed_first(k: Seq<char>)
    requires
        spec_trim(k) == k,
        k.len() > 0,
    ensures
        !spec_is_whitespace(k[0]),
{
    lemma_trim_lengths(k);
    if spec_is_whitespace(k[0]) {
        lemma_trim_lengths(k.drop_first());
        assert(spec_trim_start(k) == spec_trim_start(k.drop_first()));
        assert(spec_trim(k).len() <= spec_trim_start(k).len());
    }
}

/// Trimming never makes a text longer.
pub proof fn lemma_trim_lengths(s: Seq<char>)
    ensures
        spec_trim_start(s).len() <= s.len(),
        spec_trim_end(s).len() <= s.len(),
        spec_trim(s).len() <= spec_trim_start(s).len(),
    decreases s.len(),
{
    if s.len() > 0 {
        lemma_trim_lengths(s.drop_first());
        lemma_trim_lengths(s.drop_last());
    }
    lemma_trim_end_len(spec_trim_start(s));
}

/// Trimming the end never makes a text longer.
proof fn lemma_trim_end_len(s: Seq<char>)
    ensures
        spec_trim_end(s).len() <= s.len(),
    decreases s.len(),
{
    if s.len() > 0 {
        lemma_trim_end_len(s.drop_last());
    }
}

} // verus!
