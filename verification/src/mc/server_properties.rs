//! The server's `server.properties` file: rewriting properties and reading them.
use vstd::prelude::*;
use vstd::string::StrSliceExecFns;

use crate::util::text::{
    chars_of, first_index_of, lacks, lemma_first_index_of, lemma_first_index_of_at,
    lemma_lines_lack_newline, lemma_lines_of_join, lemma_lowercase_keeps_hash,
    lemma_trim_end_keeps_first, lemma_trim_head, lemma_trim_start_at, lemma_trimmed_first,
    line_ranges, lowercase, range_texts, spec_is_whitespace, spec_join, spec_lines, spec_trim,
    to_lowercase, trim,
};

verus! {

/// File name.
pub const FILE: &'static str = "server.properties";

/// EOL in server.properties file.
pub const EOL: &'static str = "\r\n";

/// Keys and values of a list of property changes.
pub open spec fn changes_view(changes: Seq<(String, String)>) -> Seq<(Seq<char>, Seq<char>)> {
    changes.map_values(|c: (String, String)| (c.0@, c.1@))
}

/// No property is changed twice.
pub open spec fn distinct_keys(changes: Seq<(Seq<char>, Seq<char>)>) -> bool {
    forall|a: int, b: int|
        0 <= a < changes.len() && 0 <= b < changes.len() && a != b ==> #[trigger] changes[a].0
            != #[trigger] changes[b].0
}

/// Key and value of a `key=value` line, split at its first `=`.
pub open spec fn spec_split_eq(line: Seq<char>) -> Option<(Seq<char>, Seq<char>)> {
    let k = first_index_of(line, '=');
    if k < line.len() {
        Some((line.subrange(0, k), line.subrange(k + 1, line.len() as int)))
    } else {
        None
    }
}

/// A comment or blank line.
pub open spec fn is_comment_or_blank(line: Seq<char>) -> bool {
    let t = spec_trim(line);
    t.len() == 0 || t[0] == '#'
}

/// The key a property line is matched by: trimmed and lowercased.
pub open spec fn property_key(key: Seq<char>) -> Seq<char> {
    lowercase(spec_trim(key))
}

/// Whether change `j` is not applied yet and is for `key`.
pub open spec fn change_for(changes: Seq<(Seq<char>, Seq<char>)>, used: Seq<bool>, key: Seq<char>, j: int) -> bool {
    0 <= j < changes.len() && j < used.len() && !used[j] && changes[j].0 == key
}

/// The change not applied yet for `key`, if any.
pub open spec fn find_change(changes: Seq<(Seq<char>, Seq<char>)>, used: Seq<bool>, key: Seq<char>) -> Option<int> {
    if exists|j: int| change_for(changes, used, key, j) {
        Some(choose|j: int| change_for(changes, used, key, j))
    } else {
        None
    }
}

/// One line rewritten: a property line whose key has a change not applied yet gets the new
/// value, and the change counts as applied. Gives the line, the applied changes and whether
/// the line changed.
pub open spec fn spec_rewrite_line(
    line: Seq<char>,
    changes: Seq<(Seq<char>, Seq<char>)>,
    used: Seq<bool>,
) -> (Seq<char>, Seq<bool>, bool) {
    if is_comment_or_blank(line) {
        (line, used, false)
    } else {
        match spec_split_eq(line) {
            None => (line, used, false),
            Some((key, value)) => match find_change(changes, used, property_key(key)) {
                None => (line, used, false),
                Some(j) => if value != changes[j].1 {
                    (key + "="@ + changes[j].1, used.update(j, true), true)
                } else {
                    (line, used.update(j, true), false)
                },
            },
        }
    }
}

/// The first `n` lines rewritten, with the changes applied and whether any line changed.
pub open spec fn spec_rewrite_prefix(
    lines: Seq<Seq<char>>,
    changes: Seq<(Seq<char>, Seq<char>)>,
    n: nat,
) -> (Seq<Seq<char>>, Seq<bool>, bool)
    decreases n,
{
    if n == 0 {
        (seq![], Seq::new(changes.len(), |i: int| false), false)
    } else {
        let (out, used, changed) = spec_rewrite_prefix(lines, changes, (n - 1) as nat);
        let (line, used2, changed2) = spec_rewrite_line(lines[n - 1], changes, used);
        (out.push(line), used2, changed || changed2)
    }
}

/// The lines appended for the first `n` changes that no line took.
pub open spec fn spec_appended(changes: Seq<(Seq<char>, Seq<char>)>, used: Seq<bool>, n: nat) -> Seq<char>
    decreases n,
{
    if n == 0 {
        seq![]
    } else {
        spec_appended(changes, used, (n - 1) as nat) + if !used[n - 1] {
            EOL@ + changes[n - 1].0 + "="@ + changes[n - 1].1
        } else {
            seq![]
        }
    }
}

/// Whether any of the first `n` changes was taken by no line.
pub open spec fn any_unused(used: Seq<bool>, n: int) -> bool {
    exists|j: int| 0 <= j < n && !used[j]
}

/// File contents with the changes applied: properties are rewritten in place, missing ones
/// appended; `None` if no change is to be made.
pub open spec fn spec_rewrite_contents(contents: Seq<char>, changes: Seq<(Seq<char>, Seq<char>)>) -> Option<Seq<char>> {
    if changes.len() == 0 {
        None
    } else {
        let lines = spec_lines(contents);
        let (out, used, changed) = spec_rewrite_prefix(lines, changes, lines.len());
        if changed || any_unused(used, changes.len() as int) {
            Some(spec_join(out, EOL@) + spec_appended(changes, used, changes.len()))
        } else {
            None
        }
    }
}

/// The change not applied yet for `key`.
fn find_unused_change(changes: &Vec<(String, String)>, used: &Vec<bool>, key: &String) -> (res: Option<usize>)
    requires
        used@.len() == changes@.len(),
        distinct_keys(changes_view(changes@)),
    ensures
        match res {
            Some(r) => find_change(changes_view(changes@), used@, key@) == Some(r as int),
            None => find_change(changes_view(changes@), used@, key@) is None,
        },
{
    let ghost cv = changes_view(changes@);
    let mut j: usize = 0;
    while j < changes.len()
        invariant
            j <= changes@.len(),
            used@.len() == changes@.len(),
            cv == changes_view(changes@),
            distinct_keys(cv),
            forall|k: int| 0 <= k < j ==> !change_for(cv, used@, key@, k),
        decreases changes.len() - j,
    {
        if !used[j] && changes[j].0 == *key {
            proof {
                assert(cv[j as int] == (changes@[j as int].0@, changes@[j as int].1@));
                assert(change_for(cv, used@, key@, j as int));
                let c = choose|c: int| change_for(cv, used@, key@, c);
                if c != j {
                    assert(cv[c].0 != cv[j as int].0);
                }
            }
            return Some(j);
        }
        proof {
            assert(cv[j as int] == (changes@[j as int].0@, changes@[j as int].1@));
        }
        j = j + 1;
    }
    None
}

/// Rewrite one line, marking the change it takes as applied.
///
/// Returns the line and whether it changed.
fn rewrite_line(line: &str, changes: &Vec<(String, String)>, used: &mut Vec<bool>) -> (res: (String, bool))
    requires
        old(used)@.len() == changes@.len(),
        distinct_keys(changes_view(changes@)),
    ensures
        res.0@ == spec_rewrite_line(line@, changes_view(changes@), old(used)@).0,
        final(used)@ == spec_rewrite_line(line@, changes_view(changes@), old(used)@).1,
        res.1 == spec_rewrite_line(line@, changes_view(changes@), old(used)@).2,
        final(used)@.len() == changes@.len(),
{
    let trimmed = trim(line);
    if trimmed.unicode_len() == 0 || trimmed.get_char(0) == '#' {
        return (String::from_str(line), false);
    }
    let chars = chars_of(line);
    let k = find_char(&chars, '=');
    if k == chars.len() {
        return (String::from_str(line), false);
    }
    let key = line.substring_char(0, k);
    let value = line.substring_char(k + 1, chars.len());
    let lookup = to_lowercase(trim(key));
    let ghost cv = changes_view(changes@);
    proof {
        assert(spec_split_eq(line@) == Some((key@, value@)));
        assert(property_key(key@) == lookup@);
    }
    match find_unused_change(changes, used, &lookup) {
        None => (String::from_str(line), false),
        Some(j) => {
            used.set(j, true);
            proof {
                assert(cv[j as int] == (changes@[j as int].0@, changes@[j as int].1@));
            }
            if String::from_str(value) != changes[j].1 {
                let mut rewritten = String::from_str(key);
                rewritten.append("=");
                rewritten.append(changes[j].1.as_str());
                (rewritten, true)
            } else {
                (String::from_str(line), false)
            }
        },
    }
}

/// Index of the first `c` in `chars`, or its length if there is none.
fn find_char(chars: &Vec<char>, c: char) -> (res: usize)
    ensures
        res == first_index_of(chars@, c),
        res <= chars@.len(),
{
    let mut i: usize = 0;
    while i < chars.len()
        invariant
            i <= chars@.len(),
            forall|j: int| 0 <= j < i ==> chars@[j] != c,
        decreases chars.len() - i,
    {
        if chars[i] == c {
            proof {
                lemma_first_index_of_at(chars@, c, i as int);
            }
            return i;
        }
        i = i + 1;
    }
    proof {
        lemma_first_index_of_at(chars@, c, i as int);
    }
    i
}

/// Rewrite file contents with new properties.
///
/// A property line (not a comment, not blank, holding `=`) whose trimmed, lowercased key
/// has a change gets the new value, the first such line for each key; changes no line took
/// are appended as `key=value` lines. Lines are joined with `\r\n`.
///
/// Returns new file contents if anything has changed.
pub fn rewrite_contents(contents: String, changes: Vec<(String, String)>) -> (res: Option<String>)
    requires
        distinct_keys(changes_view(changes@)),
    ensures
        match spec_rewrite_contents(contents@, changes_view(changes@)) {
            Some(c) => res matches Some(r) && r@ == c,
            None => res is None,
        },
{
    if changes.len() == 0 {
        return None;
    }
    let ghost cv = changes_view(changes@);
    let chars = chars_of(contents.as_str());
    let ranges = line_ranges(&chars);
    let ghost lines = spec_lines(contents@);
    let mut used: Vec<bool> = Vec::new();
    let mut u: usize = 0;
    while u < changes.len()
        invariant
            u <= changes@.len(),
            used@ =~= Seq::new(u as nat, |i: int| false),
        decreases changes.len() - u,
    {
        used.push(false);
        u = u + 1;
    }
    let mut changed = false;
    let mut out = String::new();
    let ghost mut out_lines: Seq<Seq<char>> = seq![];
    let mut i: usize = 0;
    while i < ranges.len()
        invariant
            i <= ranges@.len(),
            lines == spec_lines(contents@),
            chars@ == contents@,
            range_texts(chars@, ranges@) == lines,
            forall|j: int| 0 <= j < ranges@.len() ==> #[trigger] ranges@[j].0 <= ranges@[j].1
                <= chars@.len(),
            cv == changes_view(changes@),
            distinct_keys(cv),
            used@.len() == changes@.len(),
            (out_lines, used@, changed) == spec_rewrite_prefix(lines, cv, i as nat),
            out@ == spec_join(out_lines, EOL@),
            out_lines.len() == i,
        decreases ranges.len() - i,
    {
        let (start, end) = ranges[i];
        let line = contents.as_str().substring_char(start, end);
        proof {
            assert(lines[i as int] == chars@.subrange(start as int, end as int));
        }
        let ghost used_before = used@;
        let (new_line, line_changed) = rewrite_line(line, &changes, &mut used);
        if i > 0 {
            out.append(EOL);
        }
        out.append(new_line.as_str());
        proof {
            let next = out_lines.push(new_line@);
            if i > 0 {
                assert(next.drop_last() =~= out_lines);
            }
            out_lines = next;
        }
        changed = changed || line_changed;
        i = i + 1;
    }
    proof {
        assert(ranges@.len() == lines.len());
    }
    let ghost used_final = used@;
    let ghost changed_lines = changed;
    let mut j: usize = 0;
    while j < changes.len()
        invariant
            j <= changes@.len(),
            used@ == used_final,
            used@.len() == changes@.len(),
            cv == changes_view(changes@),
            out@ == spec_join(out_lines, EOL@) + spec_appended(cv, used_final, j as nat),
            changed == (changed_lines || any_unused(used_final, j as int)),
        decreases changes.len() - j,
    {
        proof {
            assert(cv[j as int] == (changes@[j as int].0@, changes@[j as int].1@));
        }
        if !used[j] {
            out.append(EOL);
            out.append(changes[j].0.as_str());
            out.append("=");
            out.append(changes[j].1.as_str());
            changed = true;
        }
        proof {
            if !used_final[j as int] {
                assert(any_unused(used_final, j + 1));
            } else {
                if any_unused(used_final, j + 1) {
                    let k = choose|k: int| 0 <= k < j + 1 && !used_final[k];
                    assert(k != j);
                    assert(any_unused(used_final, j as int));
                }
            }
        }
        j = j + 1;
    }
    if changed {
        Some(out)
    } else {
        None
    }
}

/// The trimmed value of the first property line, from line `i` on, whose trimmed key
/// matches `property` ignoring case.
pub open spec fn spec_find_property_from(lines: Seq<Seq<char>>, property: Seq<char>, i: int) -> Option<Seq<char>>
    decreases lines.len() - i,
{
    if i < 0 || i >= lines.len() {
        None
    } else {
        match spec_split_eq(lines[i]) {
            Some((key, value)) => if property_key(key) == lowercase(property) {
                Some(spec_trim(value))
            } else {
                spec_find_property_from(lines, property, i + 1)
            },
            None => spec_find_property_from(lines, property, i + 1),
        }
    }
}

/// The value of a property in server.properties contents.
pub open spec fn spec_find_property(contents: Seq<char>, property: Seq<char>) -> Option<Seq<char>> {
    spec_find_property_from(spec_lines(contents), property, 0)
}

/// Find the given property in server.properties file contents.
///
/// Looks at each line holding `=`, split at its first `=`; the first whose trimmed key equals
/// `property` ignoring case gives its trimmed value. Returns `None` if no line has the property.
pub fn find_property(contents: &str, property: &str) -> (res: Option<String>)
    ensures
        match spec_find_property(contents@, property@) {
            Some(v) => res matches Some(r) && r@ == v,
            None => res is None,
        },
{
    let chars = chars_of(contents);
    let ranges = line_ranges(&chars);
    let ghost lines = spec_lines(contents@);
    let target = to_lowercase(property);
    let mut i: usize = 0;
    while i < ranges.len()
        invariant
            i <= ranges@.len(),
            lines == spec_lines(contents@),
            chars@ == contents@,
            range_texts(chars@, ranges@) == lines,
            forall|j: int| 0 <= j < ranges@.len() ==> #[trigger] ranges@[j].0 <= ranges@[j].1
                <= chars@.len(),
            target@ == lowercase(property@),
            spec_find_property_from(lines, property@, i as int) == spec_find_property(contents@, property@),
        decreases ranges.len() - i,
    {
        let (start, end) = ranges[i];
        let line = contents.substring_char(start, end);
        proof {
            assert(lines[i as int] == chars@.subrange(start as int, end as int));
        }
        let line_chars = chars_of(line);
        let k = find_char(&line_chars, '=');
        if k < line_chars.len() {
            let key = line.substring_char(0, k);
            let value = line.substring_char(k + 1, line_chars.len());
            proof {
                assert(spec_split_eq(line@) == Some((key@, value@)));
            }
            let found = to_lowercase(trim(key));
            if found == target {
                return Some(String::from_str(trim(value)));
            }
        }
        i = i + 1;
    }
    None
}

/// Whether a line is a property line for `key`: split at its first `=`, its trimmed,
/// lowercased key is `key`.
pub open spec fn is_line_for(line: Seq<char>, key: Seq<char>) -> bool {
    spec_split_eq(line) matches Some((k, v)) && property_key(k) == key
}

/// A change whose key is written as lines match it (trimmed, lowercase, without `=`), and
/// whose key and value fit on one line.
pub open spec fn valid_change(change: (Seq<char>, Seq<char>)) -> bool {
    &&& spec_trim(change.0) == change.0
    &&& lowercase(change.0) == change.0
    &&& lacks(change.0, '=')
    &&& lacks(change.0, '\n')
    &&& lacks(change.1, '\n')
}

/// The file contents after a rewrite: the new contents, or the old ones if nothing changed.
pub open spec fn spec_rewritten(contents: Seq<char>, changes: Seq<(Seq<char>, Seq<char>)>) -> Seq<char> {
    match spec_rewrite_contents(contents, changes) {
        Some(c) => c,
        None => contents,
    }
}

/// A line `key=value` splits into its key and value when the key holds no `=`.
proof fn lemma_split_key_value(key: Seq<char>, value: Seq<char>)
    requires
        lacks(key, '='),
    ensures
        spec_split_eq(key + "="@ + value) == Some((key, value)),
{
    reveal_strlit("=");
    let s = key + "="@ + value;
    let k = key.len() as int;
    assert forall|i: int| 0 <= i < k implies s[i] != '=' by {
        assert(s[i] == key[i]);
    }
    assert(s[k] == '=');
    lemma_first_index_of_at(s, '=', k);
    assert(s.subrange(0, k) =~= key);
    assert(s.subrange(k + 1, s.len() as int) =~= value);
}

/// The key of a split line holds no `=`; key and value hold no line feed if the line holds
/// none.
proof fn lemma_split_parts(line: Seq<char>)
    requires
        spec_split_eq(line) is Some,
    ensures
        lacks(spec_split_eq(line)->Some_0.0, '='),
        lacks(line, '\n') ==> lacks(spec_split_eq(line)->Some_0.0, '\n'),
{
    lemma_first_index_of(line, '=');
    let k = first_index_of(line, '=');
    let key = line.subrange(0, k);
    assert forall|i: int| 0 <= i < key.len() implies key[i] != '=' by {
        assert(key[i] == line[i]);
    }
    if lacks(line, '\n') {
        assert forall|i: int| 0 <= i < key.len() implies key[i] != '\n' by {
            assert(key[i] == line[i]);
        }
    }
}

/// Finding a property in lines with one more line: the earlier lines take precedence.
proof fn lemma_find_push(lines: Seq<Seq<char>>, property: Seq<char>, x: Seq<char>, i: int)
    requires
        0 <= i <= lines.len(),
    ensures
        spec_find_property_from(lines.push(x), property, i) == match spec_find_property_from(
            lines,
            property,
            i,
        ) {
            Some(v) => Some(v),
            None => spec_find_property_from(seq![x], property, 0),
        },
    decreases lines.len() - i,
{
    if i < lines.len() {
        lemma_find_push(lines, property, x, i + 1);
        assert(lines.push(x)[i] == lines[i]);
    } else {
        assert(lines.push(x)[i] == x);
        assert(seq![x][0] == x);
        assert(spec_find_property_from(seq![x], property, 1) is None);
        assert(spec_find_property_from(lines.push(x), property, i + 1) is None);
    }
}

/// Finding a property in one line.
proof fn lemma_find_single(x: Seq<char>, property: Seq<char>)
    ensures
        spec_find_property_from(seq![x], property, 0) == if is_line_for(x, lowercase(property)) {
            Some(spec_trim(spec_split_eq(x)->Some_0.1))
        } else {
            None
        },
{
    assert(seq![x][0] == x);
    assert(spec_find_property_from(seq![x], property, 1) is None);
}

/// A change for `key` that is not applied yet is the one a lookup of `key` finds.
proof fn lemma_find_change_of(changes: Seq<(Seq<char>, Seq<char>)>, used: Seq<bool>, key: Seq<char>, j: int)
    requires
        distinct_keys(changes),
        change_for(changes, used, key, j),
    ensures
        find_change(changes, used, key) == Some(j),
{
    let c = choose|c: int| change_for(changes, used, key, c);
    assert(change_for(changes, used, key, c));
    if c != j {
        assert(changes[c].0 != changes[j].0);
    }
}

/// What the rewritten lines say of change `j`: the first line for its key gives its new
/// value once it is applied, and no line is for its key before.
proof fn lemma_rewrite_prefix_reads(
    lines: Seq<Seq<char>>,
    changes: Seq<(Seq<char>, Seq<char>)>,
    n: nat,
    j: int,
)
    requires
        n <= lines.len(),
        distinct_keys(changes),
        0 <= j < changes.len(),
        lowercase(changes[j].0) == changes[j].0,
        forall|i: int| 0 <= i < lines.len() ==> lacks(#[trigger] lines[i], '\n'),
        forall|i: int| 0 <= i < changes.len() ==> lacks(#[trigger] changes[i].1, '\n'),
        forall|i: int|
            0 <= i < lines.len() && is_comment_or_blank(#[trigger] lines[i]) ==> !is_line_for(
                lines[i],
                changes[j].0,
            ),
    ensures
        ({
            let r = spec_rewrite_prefix(lines, changes, n);
            &&& r.0.len() == n
            &&& r.1.len() == changes.len()
            &&& forall|i: int| 0 <= i < n ==> lacks(#[trigger] r.0[i], '\n')
            &&& !r.2 ==> r.0 == lines.subrange(0, n as int)
            &&& spec_find_property_from(r.0, changes[j].0, 0) == if r.1[j] {
                Some(spec_trim(changes[j].1))
            } else {
                None
            }
        }),
    decreases n,
{
    let k = changes[j].0;
    if n == 0 {
        assert(lines.subrange(0, 0) =~= Seq::<Seq<char>>::empty());
    } else {
        lemma_rewrite_prefix_reads(lines, changes, (n - 1) as nat, j);
        let (out, used, changed) = spec_rewrite_prefix(lines, changes, (n - 1) as nat);
        let line = lines[n - 1];
        let (line2, used2, changed2) = spec_rewrite_line(line, changes, used);
        let out2 = out.push(line2);
        lemma_find_push(out, k, line2, 0);
        lemma_find_single(line2, k);
        if is_comment_or_blank(line) {
            assert(line2 == line && used2 == used);
        } else {
            match spec_split_eq(line) {
                None => {
                    assert(line2 == line && used2 == used);
                },
                Some((key, value)) => {
                    let pk = property_key(key);
                    lemma_split_parts(line);
                    match find_change(changes, used, pk) {
                        None => {
                            if pk == k && !used[j] {
                                lemma_find_change_of(changes, used, k, j);
                            }
                            assert(line2 == line && used2 == used);
                        },
                        Some(j2) => {
                            assert(change_for(changes, used, pk, j2));
                            assert(used2 == used.update(j2, true));
                            if pk == k && !used[j] {
                                lemma_find_change_of(changes, used, k, j);
                                assert(j2 == j);
                            }
                            if pk != k {
                                assert(j2 != j);
                            }
                            if value != changes[j2].1 {
                                lemma_split_key_value(key, changes[j2].1);
                                assert(line2 == key + "="@ + changes[j2].1);
                                reveal_strlit("=");
                                assert forall|i: int| 0 <= i < line2.len() implies line2[i] != '\n' by {
                                    if i < key.len() {
                                        assert(line2[i] == key[i]);
                                    } else if i > key.len() {
                                        assert(line2[i] == changes[j2].1[i - key.len() - 1]);
                                    }
                                }
                            } else {
                                assert(line2 == line);
                            }
                        },
                    }
                },
            }
        }
        assert forall|i: int| 0 <= i < n implies lacks(#[trigger] out2[i], '\n') by {
            if i < n - 1 {
                assert(out2[i] == out[i]);
            }
        }
        if !(changed || changed2) {
            assert(out2 =~= lines.subrange(0, n as int));
        }
    }
}

/// The lines appended for the changes no line took, among the first `n`.
pub open spec fn appended_lines(changes: Seq<(Seq<char>, Seq<char>)>, used: Seq<bool>, n: nat) -> Seq<Seq<char>>
    decreases n,
{
    if n == 0 {
        seq![]
    } else {
        appended_lines(changes, used, (n - 1) as nat) + if !used[n - 1] {
            seq![changes[n - 1].0 + "="@ + changes[n - 1].1]
        } else {
            seq![]
        }
    }
}

/// Appending the changes no line took adds one line each, and a lookup of change `j`'s
/// key finds its value there when no earlier line had it.
proof fn lemma_appended_reads(
    base: Seq<Seq<char>>,
    changes: Seq<(Seq<char>, Seq<char>)>,
    used: Seq<bool>,
    n: nat,
    j: int,
)
    requires
        base.len() > 0,
        n <= changes.len(),
        used.len() == changes.len(),
        distinct_keys(changes),
        0 <= j < changes.len(),
        forall|i: int| 0 <= i < changes.len() ==> valid_change(#[trigger] changes[i]),
    ensures
        spec_join(base, EOL@) + spec_appended(changes, used, n) == spec_join(
            base + appended_lines(changes, used, n),
            EOL@,
        ),
        forall|i: int|
            0 <= i < appended_lines(changes, used, n).len() ==> lacks(
                #[trigger] appended_lines(changes, used, n)[i],
                '\n',
            ),
        spec_find_property_from(base + appended_lines(changes, used, n), changes[j].0, 0)
            == match spec_find_property_from(base, changes[j].0, 0) {
            Some(v) => Some(v),
            None => if !used[j] && j < n {
                Some(spec_trim(changes[j].1))
            } else {
                None
            },
        },
    decreases n,
{
    reveal_strlit("=");
    let k = changes[j].0;
    if n == 0 {
        assert(base + appended_lines(changes, used, 0) =~= base);
        assert(spec_appended(changes, used, 0) =~= Seq::<char>::empty());
    } else {
        lemma_appended_reads(base, changes, used, (n - 1) as nat, j);
        let prev = base + appended_lines(changes, used, (n - 1) as nat);
        let c = changes[n - 1];
        assert(valid_change(c));
        if used[n - 1] {
            assert(base + appended_lines(changes, used, n) =~= prev);
            assert(spec_appended(changes, used, n) =~= spec_appended(changes, used, (n - 1) as nat));
        } else {
            let x = c.0 + "="@ + c.1;
            let apps = appended_lines(changes, used, n);
            assert(apps =~= appended_lines(changes, used, (n - 1) as nat).push(x));
            assert(base + apps =~= prev.push(x));
            assert((base + apps).drop_last() =~= prev);
            assert(spec_join(base + apps, EOL@) == spec_join(prev, EOL@) + EOL@ + x);
            assert(spec_join(base, EOL@) + spec_appended(changes, used, n) =~= spec_join(
                base + apps,
                EOL@,
            ));
            assert forall|i: int| 0 <= i < apps.len() implies lacks(#[trigger] apps[i], '\n') by {
                if i < apps.len() - 1 {
                    assert(apps[i] == appended_lines(changes, used, (n - 1) as nat)[i]);
                } else {
                    assert(apps[i] == x);
                    assert forall|m: int| 0 <= m < x.len() implies x[m] != '\n' by {
                        if m < c.0.len() {
                            assert(x[m] == c.0[m]);
                        } else if m > c.0.len() {
                            assert(x[m] == c.1[m - c.0.len() - 1]);
                        }
                    }
                }
            }
            lemma_find_push(prev, k, x, 0);
            lemma_find_single(x, k);
            lemma_split_key_value(c.0, c.1);
            assert(property_key(c.0) == c.0);
            if n - 1 != j {
                assert(c.0 != k);
            }
        }
    }
}

/// Reading a property back after a rewrite gives the value it was set to (trimmed, as reads
/// trim values).
///
/// This holds for every change whose key is written as lines match it (trimmed, lowercase,
/// without `=`) and does not start with `#`, and whose key and value fit on one line.
pub proof fn lemma_read_after_rewrite(contents: Seq<char>, changes: Seq<(Seq<char>, Seq<char>)>, j: int)
    requires
        distinct_keys(changes),
        0 <= j < changes.len(),
        forall|i: int| 0 <= i < changes.len() ==> valid_change(#[trigger] changes[i]),
        appendable(changes[j]),
    ensures
        spec_find_property(spec_rewritten(contents, changes), changes[j].0) == Some(
            spec_trim(changes[j].1),
        ),
{
    let k = changes[j].0;
    let lines = spec_lines(contents);
    lemma_lines_lack_newline(contents);
    assert(valid_change(changes[j]));
    assert forall|i: int| 0 <= i < changes.len() implies lacks(#[trigger] changes[i].1, '\n') by {
        assert(valid_change(changes[i]));
    }
    lemma_comments_not_for(lines, k);
    lemma_rewrite_prefix_reads(lines, changes, lines.len(), j);
    let (out, used, changed) = spec_rewrite_prefix(lines, changes, lines.len());
    let n = changes.len();
    if changed || any_unused(used, n as int) {
        let base = if out.len() > 0 {
            out
        } else {
            seq![Seq::<char>::empty()]
        };
        if out.len() == 0 {
            assert(spec_join(base, EOL@) == base[0]);
            assert(spec_find_property_from(out, k, 0) is None);
            lemma_find_single(Seq::<char>::empty(), k);
            assert(first_index_of(Seq::<char>::empty(), '=') == 0);
        }
        lemma_appended_reads(base, changes, used, n, j);
        let m = base + appended_lines(changes, used, n);
        assert forall|i: int| 0 <= i < m.len() implies lacks(#[trigger] m[i], '\n') by {
            if i < base.len() {
                assert(m[i] == base[i]);
            } else {
                assert(m[i] == appended_lines(changes, used, n)[i - base.len()]);
            }
        }
        lemma_lines_of_join(m);
        reveal_strlit("\r\n");
        assert(EOL@ == "\r\n"@);
        assert(spec_rewritten(contents, changes) == spec_join(m, EOL@));
        if m.last().len() == 0 {
            assert(m.drop_last().push(m.last()) =~= m);
            lemma_find_push(m.drop_last(), k, m.last(), 0);
            lemma_find_single(m.last(), k);
            assert(first_index_of(m.last(), '=') == 0);
        }
    } else {
        assert(used[j]) by {
            if !used[j] {
                assert(any_unused(used, n as int));
            }
        }
        assert(lines.subrange(0, lines.len() as int) =~= lines);
    }
}

/// Index of the first line from `i` on that is a property line for `key`, or the number of
/// lines if there is none.
pub open spec fn first_line_for(lines: Seq<Seq<char>>, key: Seq<char>, i: nat) -> nat
    decreases lines.len() - i,
{
    if i >= lines.len() {
        lines.len()
    } else if is_line_for(lines[i as int], key) {
        i
    } else {
        first_line_for(lines, key, i + 1)
    }
}

/// The first property line for the key of `change` is a property line, not a comment, and
/// holds exactly the change's value.
pub open spec fn settled(lines: Seq<Seq<char>>, change: (Seq<char>, Seq<char>)) -> bool {
    let f = first_line_for(lines, change.0, 0);
    &&& f < lines.len()
    &&& !is_comment_or_blank(lines[f as int])
    &&& spec_split_eq(lines[f as int])->Some_0.1 == change.1
}

/// A change whose appended line does not read as a comment: its key is empty or does not
/// start with `#`.
pub open spec fn appendable(change: (Seq<char>, Seq<char>)) -> bool {
    change.0.len() == 0 || change.0[0] != '#'
}

/// `first_line_for` is the first property line for the key, from `i` on.
proof fn lemma_first_line(lines: Seq<Seq<char>>, key: Seq<char>, i: nat)
    requires
        i <= lines.len(),
    ensures
        i <= first_line_for(lines, key, i) <= lines.len(),
        first_line_for(lines, key, i) < lines.len() ==> is_line_for(
            lines[first_line_for(lines, key, i) as int],
            key,
        ),
        forall|m: int| i <= m < first_line_for(lines, key, i) ==> !is_line_for(#[trigger] lines[m], key),
    decreases lines.len() - i,
{
    if i < lines.len() && !is_line_for(lines[i as int], key) {
        lemma_first_line(lines, key, i + 1);
    }
}

/// A line that is the first property line for the key, or the end when there is none, is
/// what `first_line_for` gives.
proof fn lemma_first_line_at(lines: Seq<Seq<char>>, key: Seq<char>, p: nat)
    requires
        p <= lines.len(),
        forall|m: int| 0 <= m < p ==> !is_line_for(#[trigger] lines[m], key),
        p < lines.len() ==> is_line_for(lines[p as int], key),
    ensures
        first_line_for(lines, key, 0) == p,
{
    lemma_first_line(lines, key, 0);
    let f = first_line_for(lines, key, 0);
    if f < p {
        assert(!is_line_for(lines[f as int], key));
    } else if p < f {
        assert(!is_line_for(lines[p as int], key));
    }
}

/// The first property line for a key among lines with one more line.
proof fn lemma_first_line_push(lines: Seq<Seq<char>>, key: Seq<char>, x: Seq<char>)
    ensures
        first_line_for(lines.push(x), key, 0) == if first_line_for(lines, key, 0) < lines.len() {
            first_line_for(lines, key, 0)
        } else if is_line_for(x, key) {
            lines.len()
        } else {
            lines.len() + 1
        },
{
    lemma_first_line(lines, key, 0);
    let f = first_line_for(lines, key, 0);
    let pushed = lines.push(x);
    assert forall|m: int| 0 <= m < lines.len() implies pushed[m] == lines[m] by {}
    if f < lines.len() {
        lemma_first_line_at(pushed, key, f);
    } else if is_line_for(x, key) {
        lemma_first_line_at(pushed, key, lines.len());
    } else {
        assert forall|m: int| 0 <= m < lines.len() + 1 implies !is_line_for(#[trigger] pushed[m], key) by {
            if m < lines.len() {
                assert(pushed[m] == lines[m]);
            }
        }
        lemma_first_line_at(pushed, key, lines.len() + 1);
    }
}

/// A line `key=value` reads as a comment or not whatever its value.
proof fn lemma_comment_by_key(key: Seq<char>, a: Seq<char>, b: Seq<char>)
    ensures
        is_comment_or_blank(key + "="@ + a) == is_comment_or_blank(key + "="@ + b),
{
    reveal_strlit("=");
    let p = key + "="@;
    assert(p[key.len() as int] == '=');
    lemma_trim_head(p, a, key.len() as int);
    lemma_trim_head(p, b, key.len() as int);
    assert(key + "="@ + a =~= p + a);
    assert(key + "="@ + b =~= p + b);
}

/// The appended line of an appendable change with a trimmed key is no comment.
proof fn lemma_appended_not_comment(change: (Seq<char>, Seq<char>))
    requires
        spec_trim(change.0) == change.0,
        appendable(change),
    ensures
        !is_comment_or_blank(change.0 + "="@ + change.1),
{
    reveal_strlit("=");
    let k = change.0;
    let s = k + "="@ + change.1;
    if k.len() > 0 {
        lemma_trimmed_first(k);
        assert(s[0] == k[0]);
    } else {
        assert(s[0] == '=');
    }
    lemma_trim_start_at(s, 0);
    assert(s.subrange(0, s.len() as int) =~= s);
    lemma_trim_end_keeps_first(s);
}

/// A split line is its key, `=` and its value.
proof fn lemma_split_rejoin(line: Seq<char>)
    requires
        spec_split_eq(line) is Some,
    ensures
        line == spec_split_eq(line)->Some_0.0 + "="@ + spec_split_eq(line)->Some_0.1,
{
    reveal_strlit("=");
    lemma_first_index_of(line, '=');
    let k = first_index_of(line, '=');
    assert(line =~= line.subrange(0, k) + "="@ + line.subrange(k + 1, line.len() as int));
}

/// After the first `n` lines are rewritten, change `j` is settled in them once it is
/// applied, and no line is for its key before.
proof fn lemma_rewrite_prefix_settles(
    lines: Seq<Seq<char>>,
    changes: Seq<(Seq<char>, Seq<char>)>,
    n: nat,
    j: int,
)
    requires
        n <= lines.len(),
        distinct_keys(changes),
        0 <= j < changes.len(),
        forall|i: int|
            0 <= i < lines.len() && is_comment_or_blank(#[trigger] lines[i]) ==> !is_line_for(
                lines[i],
                changes[j].0,
            ),
    ensures
        ({
            let r = spec_rewrite_prefix(lines, changes, n);
            &&& r.0.len() == n
            &&& r.1.len() == changes.len()
            &&& r.1[j] ==> settled(r.0, changes[j])
            &&& !r.1[j] ==> first_line_for(r.0, changes[j].0, 0) == n
        }),
    decreases n,
{
    let k = changes[j].0;
    if n == 0 {
    } else {
        lemma_rewrite_prefix_settles(lines, changes, (n - 1) as nat, j);
        let (out, used, changed) = spec_rewrite_prefix(lines, changes, (n - 1) as nat);
        let line = lines[n - 1];
        let (line2, used2, changed2) = spec_rewrite_line(line, changes, used);
        let out2 = out.push(line2);
        lemma_first_line_push(out, k, line2);
        lemma_first_line(out, k, 0);
        if used[j] {
            let f = first_line_for(out, k, 0);
            assert(out2[f as int] == out[f as int]);
        }
        if is_comment_or_blank(line) {
            assert(line2 == line && used2 == used);
        } else {
            match spec_split_eq(line) {
                None => {
                    assert(line2 == line && used2 == used);
                },
                Some((key, value)) => {
                    let pk = property_key(key);
                    lemma_split_parts(line);
                    lemma_split_rejoin(line);
                    match find_change(changes, used, pk) {
                        None => {
                            if pk == k && !used[j] {
                                lemma_find_change_of(changes, used, k, j);
                            }
                            assert(line2 == line && used2 == used);
                        },
                        Some(j2) => {
                            assert(change_for(changes, used, pk, j2));
                            if pk == k && !used[j] {
                                lemma_find_change_of(changes, used, k, j);
                                assert(j2 == j);
                            }
                            if pk != k {
                                assert(j2 != j);
                            }
                            if value != changes[j2].1 {
                                lemma_split_key_value(key, changes[j2].1);
                                lemma_comment_by_key(key, value, changes[j2].1);
                            }
                            assert(out2[n - 1] == line2);
                        },
                    }
                },
            }
        }
    }
}

/// The first property line for a key among lines with more lines appended.
proof fn lemma_appended_settles(
    base: Seq<Seq<char>>,
    changes: Seq<(Seq<char>, Seq<char>)>,
    used: Seq<bool>,
    n: nat,
    j: int,
)
    requires
        n <= changes.len(),
        used.len() == changes.len(),
        distinct_keys(changes),
        0 <= j < changes.len(),
        forall|i: int|
            0 <= i < changes.len() ==> valid_change(#[trigger] changes[i]) && appendable(changes[i]),
    ensures
        ({
            let m = base + appended_lines(changes, used, n);
            let k = changes[j].0;
            &&& settled(base, changes[j]) ==> settled(m, changes[j])
            &&& first_line_for(base, k, 0) == base.len() ==> if !used[j] && j < n {
                settled(m, changes[j])
            } else {
                first_line_for(m, k, 0) == m.len()
            }
        }),
    decreases n,
{
    reveal_strlit("=");
    let k = changes[j].0;
    if n == 0 {
        assert(base + appended_lines(changes, used, 0) =~= base);
    } else {
        lemma_appended_settles(base, changes, used, (n - 1) as nat, j);
        let prev = base + appended_lines(changes, used, (n - 1) as nat);
        let c = changes[n - 1];
        assert(valid_change(c) && appendable(c));
        if used[n - 1] {
            assert(base + appended_lines(changes, used, n) =~= prev);
        } else {
            let x = c.0 + "="@ + c.1;
            let m = base + appended_lines(changes, used, n);
            assert(m =~= prev.push(x));
            lemma_first_line_push(prev, k, x);
            lemma_first_line(prev, k, 0);
            lemma_split_key_value(c.0, c.1);
            assert(property_key(c.0) == c.0);
            if n - 1 != j {
                assert(c.0 != k);
            }
            let f = first_line_for(prev, k, 0);
            if f < prev.len() {
                assert(m[f as int] == prev[f as int]);
            } else if n - 1 == j {
                lemma_appended_not_comment(c);
                assert(m[prev.len() as int] == x);
            }
        }
    }
}

/// Rewriting lines in which every change is settled changes nothing and applies every change.
proof fn lemma_settled_pass(lines: Seq<Seq<char>>, changes: Seq<(Seq<char>, Seq<char>)>, n: nat)
    requires
        n <= lines.len(),
        distinct_keys(changes),
        forall|j: int| 0 <= j < changes.len() ==> settled(lines, #[trigger] changes[j]),
    ensures
        ({
            let r = spec_rewrite_prefix(lines, changes, n);
            &&& !r.2
            &&& r.1.len() == changes.len()
            &&& forall|j: int|
                0 <= j < changes.len() ==> (#[trigger] r.1[j] <==> first_line_for(lines, changes[j].0, 0) < n)
        }),
    decreases n,
{
    if n > 0 {
        lemma_settled_pass(lines, changes, (n - 1) as nat);
        let (out, used, changed) = spec_rewrite_prefix(lines, changes, (n - 1) as nat);
        let line = lines[n - 1];
        let (line2, used2, changed2) = spec_rewrite_line(line, changes, used);
        assert forall|j: int| 0 <= j < changes.len() implies (#[trigger] used2[j] <==> first_line_for(
            lines,
            changes[j].0,
            0,
        ) < n) by {
            let f = first_line_for(lines, changes[j].0, 0);
            assert(settled(lines, changes[j]));
            lemma_first_line(lines, changes[j].0, 0);
            if is_comment_or_blank(line) {
                assert(f != n - 1);
            } else {
                match spec_split_eq(line) {
                    None => {
                        assert(f != n - 1);
                    },
                    Some((key, value)) => {
                        let pk = property_key(key);
                        match find_change(changes, used, pk) {
                            None => {
                                if f == n - 1 {
                                    assert(pk == changes[j].0);
                                    lemma_find_change_of(changes, used, pk, j);
                                }
                            },
                            Some(j2) => {
                                assert(change_for(changes, used, pk, j2));
                                if j != j2 && f == n - 1 {
                                    assert(changes[j].0 != changes[j2].0);
                                }
                            },
                        }
                    },
                }
            }
        }
        if !is_comment_or_blank(line) {
            match spec_split_eq(line) {
                None => {},
                Some((key, value)) => {
                    let pk = property_key(key);
                    match find_change(changes, used, pk) {
                        None => {},
                        Some(j2) => {
                            assert(change_for(changes, used, pk, j2));
                            let f2 = first_line_for(lines, changes[j2].0, 0);
                            assert(settled(lines, changes[j2]));
                            lemma_first_line(lines, changes[j2].0, 0);
                            assert(is_line_for(lines[n - 1], changes[j2].0));
                            if f2 > n - 1 {
                                assert(!is_line_for(lines[n - 1], changes[j2].0));
                            }
                            assert(f2 == n - 1);
                        },
                    }
                },
            }
        }
    }
}

/// Rewriting a rewritten file again with the same changes changes nothing.
///
/// This holds for changes whose keys are written as lines match them (trimmed, lowercase,
/// without `=`), do not start with `#`, and whose keys and values fit on one line.
pub proof fn lemma_rewrite_settles(contents: Seq<char>, changes: Seq<(Seq<char>, Seq<char>)>)
    requires
        distinct_keys(changes),
        forall|i: int|
            0 <= i < changes.len() ==> valid_change(#[trigger] changes[i]) && appendable(changes[i]),
    ensures
        spec_rewrite_contents(spec_rewritten(contents, changes), changes) is None,
{
    if changes.len() == 0 || spec_rewrite_contents(contents, changes) is None {
        return;
    }
    let lines = spec_lines(contents);
    lemma_lines_lack_newline(contents);
    assert forall|i: int| 0 <= i < changes.len() implies lacks(#[trigger] changes[i].1, '\n') by {
        assert(valid_change(changes[i]));
    }
    let (out, used, changed) = spec_rewrite_prefix(lines, changes, lines.len());
    let n = changes.len();
    let base = if out.len() > 0 {
        out
    } else {
        seq![Seq::<char>::empty()]
    };
    let m = base + appended_lines(changes, used, n);
    assert forall|j: int| 0 <= j < n implies settled(m, #[trigger] changes[j]) by {
        assert(appendable(changes[j]));
        lemma_comments_not_for(lines, changes[j].0);
        lemma_rewrite_prefix_settles(lines, changes, lines.len(), j);
        lemma_appended_settles(base, changes, used, n, j);
        if out.len() == 0 {
            assert(first_index_of(Seq::<char>::empty(), '=') == 0);
            assert(!is_line_for(base[0], changes[j].0));
            lemma_first_line_at(base, changes[j].0, 1);
        }
    }
    // How the rewritten contents are laid out in lines does not depend on the change looked
    // at; take the first one.
    let j0 = 0int;
    assert(valid_change(changes[j0]) && appendable(changes[j0]));
    lemma_comments_not_for(lines, changes[j0].0);
    lemma_rewrite_prefix_reads(lines, changes, lines.len(), j0);
    lemma_appended_reads(base, changes, used, n, j0);
    if out.len() == 0 {
        assert(spec_join(base, EOL@) == base[0]);
    }
    assert forall|i: int| 0 <= i < m.len() implies lacks(#[trigger] m[i], '\n') by {
        if i < base.len() {
            assert(m[i] == base[i]);
        } else {
            assert(m[i] == appended_lines(changes, used, n)[i - base.len()]);
        }
    }
    lemma_lines_of_join(m);
    reveal_strlit("\r\n");
    assert(EOL@ == "\r\n"@);
    let rewritten = spec_join(m, EOL@);
    assert(spec_rewritten(contents, changes) == rewritten);
    let lines2 = spec_lines(rewritten);
    assert forall|j: int| 0 <= j < n implies settled(lines2, #[trigger] changes[j]) by {
        assert(settled(m, changes[j]));
        if m.len() > 0 && m.last().len() == 0 {
            let f = first_line_for(m, changes[j].0, 0);
            lemma_first_line(m, changes[j].0, 0);
            assert(lines2 == m.drop_last());
            if f == m.len() - 1 {
                assert(first_index_of(m.last(), '=') == 0);
            }
            assert(f < m.len() - 1);
            assert forall|i: int| 0 <= i < f implies !is_line_for(#[trigger] lines2[i], changes[j].0) by {
                assert(lines2[i] == m[i]);
            }
            assert(lines2[f as int] == m[f as int]);
            lemma_first_line_at(lines2, changes[j].0, f);
        }
    }
    lemma_settled_pass(lines2, changes, lines2.len());
    let (out2, used2, changed2) = spec_rewrite_prefix(lines2, changes, lines2.len());
    assert forall|j: int| 0 <= j < n implies #[trigger] used2[j] by {
        assert(settled(lines2, changes[j]));
    }
    assert(!any_unused(used2, n as int));
}

/// No comment or blank line reads as a property line for a key that does not start with `#`:
/// a comment's key, trimmed and lowercased, starts with `#`.
proof fn lemma_comment_not_for(line: Seq<char>, key: Seq<char>)
    requires
        is_comment_or_blank(line),
        key.len() == 0 || key[0] != '#',
    ensures
        !is_line_for(line, key),
{
    reveal_strlit("=");
    if spec_split_eq(line) is Some {
        let (k, v) = spec_split_eq(line)->Some_0;
        lemma_split_rejoin(line);
        assert(line =~= k + ("="@ + v));
        if exists|w: int| 0 <= w < k.len() && !spec_is_whitespace(#[trigger] k[w]) {
            let w = choose|w: int| 0 <= w < k.len() && !spec_is_whitespace(#[trigger] k[w]);
            lemma_trim_head(k, "="@ + v, w);
            lemma_lowercase_keeps_hash(spec_trim(k));
        } else {
            let p = k + "="@;
            assert(p[k.len() as int] == '=');
            assert(line =~= p + v);
            lemma_trim_head(p, v, k.len() as int);
            assert forall|i: int| 0 <= i < k.len() implies spec_is_whitespace(#[trigger] p[i]) by {
                assert(p[i] == k[i]);
            }
            lemma_trim_start_at(p, k.len() as int);
            let tail = p.subrange(k.len() as int, p.len() as int);
            assert(tail[0] == '=');
            lemma_trim_end_keeps_first(tail);
        }
    }
}

/// No comment or blank line among `lines` reads as a property line for a key that does not
/// start with `#`.
proof fn lemma_comments_not_for(lines: Seq<Seq<char>>, key: Seq<char>)
    requires
        key.len() == 0 || key[0] != '#',
    ensures
        forall|i: int|
            0 <= i < lines.len() && is_comment_or_blank(#[trigger] lines[i]) ==> !is_line_for(
                lines[i],
                key,
            ),
{
    assert forall|i: int| 0 <= i < lines.len() && is_comment_or_blank(#[trigger] lines[i]) implies !is_line_for(
        lines[i],
        key,
    ) by {
        lemma_comment_not_for(lines[i], key);
    }
}

} // verus!
