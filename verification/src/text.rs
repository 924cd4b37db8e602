//! Text in ASCII bytes: case, blanks and separators.

use crate::headers::lower;
use vstd::prelude::*;
use vstd::slice::slice_subrange;
use vstd::string::StrSliceExecFns;

verus! {

pub open spec fn lower_byte(b: u8) -> u8 {
    if 65 <= b <= 90 {
        (b + 32) as u8
    } else {
        b
    }
}

/// Whether two texts are the same but for the case of ASCII letters.
pub open spec fn same_text(a: Seq<u8>, b: Seq<u8>) -> bool {
    &&& a.len() == b.len()
    &&& forall|i: int| 0 <= i < a.len() ==> lower_byte(#[trigger] a[i]) == lower_byte(b[i])
}

fn to_lower(b: u8) -> (r: u8)
    ensures
        r == lower_byte(b),
{
    if 65 <= b && b <= 90 {
        b + 32
    } else {
        b
    }
}

pub fn eq_ignore_ascii_case(a: &[u8], b: &[u8]) -> (r: bool)
    ensures
        r == same_text(a@, b@),
{
    if a.len() != b.len() {
        return false;
    }
    let mut i: usize = 0;
    while i < a.len()
        invariant
            i <= a@.len(),
            a@.len() == b@.len(),
            forall|j: int| 0 <= j < i ==> lower_byte(#[trigger] a@[j]) == lower_byte(b@[j]),
        decreases a@.len() - i,
    {
        if to_lower(a[i]) != to_lower(b[i]) {
            proof {
                assert(lower_byte(a@[i as int]) != lower_byte(b@[i as int]));
            }
            return false;
        }
        i = i + 1;
    }
    true
}

pub fn eq_bytes(a: &[u8], b: &[u8]) -> (r: bool)
    ensures
        r == (a@ == b@),
{
    if a.len() != b.len() {
        return false;
    }
    let mut i: usize = 0;
    while i < a.len()
        invariant
            i <= a@.len(),
            a@.len() == b@.len(),
            forall|j: int| 0 <= j < i ==> a@[j] == b@[j],
        decreases a@.len() - i,
    {
        if a[i] != b[i] {
            return false;
        }
        i = i + 1;
    }
    proof {
        assert(a@ =~= b@);
    }
    true
}

pub open spec fn is_blank(b: u8) -> bool {
    b == 32 || b == 9
}

/// A text without the blanks at its end.
pub open spec fn trim_end(s: Seq<u8>) -> Seq<u8>
    decreases s.len(),
{
    if s.len() > 0 && is_blank(s.last()) {
        trim_end(s.drop_last())
    } else {
        s
    }
}

/// A text without the blanks at its start.
pub open spec fn trim_start(s: Seq<u8>) -> Seq<u8>
    decreases s.len(),
{
    if s.len() > 0 && is_blank(s[0]) {
        trim_start(s.skip(1))
    } else {
        s
    }
}

/// A text without the blanks around it.
pub open spec fn trimmed(s: Seq<u8>) -> Seq<u8> {
    trim_end(trim_start(s))
}

pub fn trim(s: &[u8]) -> (r: &[u8])
    ensures
        r@ == trimmed(s@),
{
    let mut from: usize = 0;
    proof {
        assert(s@.skip(0) =~= s@);
    }
    while from < s.len() && (s[from] == 32 || s[from] == 9)
        invariant
            from <= s@.len(),
            trim_start(s@.skip(from as int)) == trim_start(s@),
        decreases s@.len() - from,
    {
        proof {
            assert(s@.skip(from as int).skip(1) =~= s@.skip(from + 1));
        }
        from = from + 1;
    }
    let ghost rest = s@.skip(from as int);
    proof {
        assert(trim_start(s@) == rest);
    }
    let mut to: usize = s.len();
    proof {
        assert(s@.subrange(from as int, to as int) =~= rest);
    }
    while to > from && (s[to - 1] == 32 || s[to - 1] == 9)
        invariant
            from <= to <= s@.len(),
            trim_end(s@.subrange(from as int, to as int)) == trim_end(rest),
        decreases to,
    {
        proof {
            assert(s@.subrange(from as int, to as int).drop_last() =~= s@.subrange(
                from as int,
                to - 1,
            ));
        }
        to = to - 1;
    }
    slice_subrange(s, from, to)
}

/// The parts of a text between separators.
pub open spec fn parts(s: Seq<u8>, separator: u8) -> Seq<Seq<u8>>
    decreases s.len(),
{
    if s.len() == 0 {
        seq![Seq::empty()]
    } else {
        let before = parts(s.drop_last(), separator);
        if s.last() == separator {
            before.push(Seq::empty())
        } else {
            before.drop_last().push(before.last().push(s.last()))
        }
    }
}

/// Splits a text at each separator.
pub fn split(s: &[u8], separator: u8) -> (r: Vec<Vec<u8>>)
    ensures
        r@.map_values(|p: Vec<u8>| p@) == parts(s@, separator),
{
    let mut done: Vec<Vec<u8>> = Vec::new();
    let mut current: Vec<u8> = Vec::new();
    let mut i: usize = 0;
    proof {
        assert(s@.take(0) =~= Seq::<u8>::empty());
        assert(done@.map_values(|p: Vec<u8>| p@).push(current@) =~= parts(s@.take(0), separator));
    }
    while i < s.len()
        invariant
            i <= s@.len(),
            done@.map_values(|p: Vec<u8>| p@).push(current@) == parts(
                s@.take(i as int),
                separator,
            ),
        decreases s@.len() - i,
    {
        let b: u8 = s[i];
        let ghost before = done@.map_values(|p: Vec<u8>| p@);
        let ghost part = current@;
        proof {
            assert(s@.take(i + 1).drop_last() =~= s@.take(i as int));
            assert(s@.take(i + 1).last() == b);
            assert(before.push(part).drop_last() =~= before);
            assert(before.push(part).last() == part);
        }
        if b == separator {
            done.push(current);
            current = Vec::new();
            proof {
                assert(done@.map_values(|p: Vec<u8>| p@) =~= before.push(part));
                assert(current@ =~= Seq::<u8>::empty());
            }
        } else {
            current.push(b);
        }
        i = i + 1;
    }
    let ghost before = done@.map_values(|p: Vec<u8>| p@);
    let ghost part = current@;
    proof {
        assert(s@.take(i as int) =~= s@);
    }
    done.push(current);
    proof {
        assert(done@.map_values(|p: Vec<u8>| p@) =~= before.push(part));
    }
    done
}

/// The place of the first separator, the length of the text if there is none.
pub open spec fn first_index(s: Seq<u8>, separator: u8) -> int
    decreases s.len(),
{
    if s.len() == 0 || s[0] == separator {
        0
    } else {
        1 + first_index(s.skip(1), separator)
    }
}

pub fn find(s: &[u8], separator: u8) -> (r: usize)
    ensures
        r == first_index(s@, separator),
        r <= s@.len(),
        r < s@.len() ==> s@[r as int] == separator,
        forall|j: int| 0 <= j < r ==> s@[j] != separator,
{
    let mut i: usize = 0;
    proof {
        assert(s@.skip(0) =~= s@);
    }
    while i < s.len() && s[i] != separator
        invariant
            i <= s@.len(),
            first_index(s@, separator) == i + first_index(s@.skip(i as int), separator),
            forall|j: int| 0 <= j < i ==> s@[j] != separator,
        decreases s@.len() - i,
    {
        proof {
            assert(s@.skip(i as int).skip(1) =~= s@.skip(i + 1));
        }
        i = i + 1;
    }
    i
}

/// The parts of a text in characters between separators.
pub open spec fn char_parts(s: Seq<char>, separator: char) -> Seq<Seq<char>>
    decreases s.len(),
{
    if s.len() == 0 {
        seq![Seq::empty()]
    } else {
        let before = char_parts(s.drop_last(), separator);
        if s.last() == separator {
            before.push(Seq::empty())
        } else {
            before.drop_last().push(before.last().push(s.last()))
        }
    }
}

/// Splits a text in characters at each separator.
pub fn split_chars(s: &str, separator: char) -> (r: Vec<String>)
    ensures
        r@.map_values(|p: String| p@) == char_parts(s@, separator),
{
    let len: usize = s.unicode_len();
    let mut done: Vec<String> = Vec::new();
    let mut start: usize = 0;
    let mut i: usize = 0;
    proof {
        assert(s@.take(0) =~= Seq::<char>::empty());
        assert(done@.map_values(|p: String| p@).push(s@.subrange(0, 0)) =~= char_parts(
            s@.take(0),
            separator,
        ));
    }
    while i < len
        invariant
            start <= i <= len,
            len == s@.len(),
            done@.map_values(|p: String| p@).push(s@.subrange(start as int, i as int))
                == char_parts(s@.take(i as int), separator),
        decreases len - i,
    {
        let c: char = s.get_char(i);
        let ghost before = done@.map_values(|p: String| p@);
        let ghost part = s@.subrange(start as int, i as int);
        proof {
            assert(s@.take(i + 1).drop_last() =~= s@.take(i as int));
            assert(s@.take(i + 1).last() == c);
            assert(before.push(part).drop_last() =~= before);
            assert(before.push(part).last() == part);
        }
        if c == separator {
            done.push(s.substring_char(start, i).to_owned());
            start = i + 1;
            proof {
                assert(done@.map_values(|p: String| p@) =~= before.push(part));
                assert(s@.subrange(start as int, i + 1) =~= Seq::<char>::empty());
            }
        } else {
            proof {
                assert(s@.subrange(start as int, i + 1) =~= part.push(c));
            }
        }
        i = i + 1;
    }
    let ghost before = done@.map_values(|p: String| p@);
    let ghost part = s@.subrange(start as int, len as int);
    proof {
        assert(s@.take(i as int) =~= s@);
    }
    done.push(s.substring_char(start, len).to_owned());
    proof {
        assert(done@.map_values(|p: String| p@) =~= before.push(part));
    }
    done
}

/// Whether two texts in characters are the same but for the case of ASCII letters.
pub open spec fn same_chars(a: Seq<char>, b: Seq<char>) -> bool {
    &&& a.len() == b.len()
    &&& forall|i: int| 0 <= i < a.len() ==> lower(#[trigger] a[i]) == lower(b[i])
}

fn to_lower_char(c: char) -> (r: char)
    ensures
        r == lower(c),
{
    if 'A' <= c && c <= 'Z' {
        (c as u8 + 32) as char
    } else {
        c
    }
}

pub fn eq_ignore_ascii_case_chars(a: &str, b: &str) -> (r: bool)
    ensures
        r == same_chars(a@, b@),
{
    let len: usize = a.unicode_len();
    if len != b.unicode_len() {
        return false;
    }
    let mut i: usize = 0;
    while i < len
        invariant
            i <= len,
            a@.len() == len,
            b@.len() == len,
            forall|j: int| 0 <= j < i ==> lower(#[trigger] a@[j]) == lower(b@[j]),
        decreases len - i,
    {
        if to_lower_char(a.get_char(i)) != to_lower_char(b.get_char(i)) {
            proof {
                assert(lower(a@[i as int]) != lower(b@[i as int]));
            }
            return false;
        }
        i = i + 1;
    }
    true
}

/// Texts put one behind the other, with a separator between each two.
pub open spec fn joined<A>(pieces: Seq<Seq<A>>, separator: A) -> Seq<A>
    decreases pieces.len(),
{
    if pieces.len() == 0 {
        Seq::empty()
    } else if pieces.len() == 1 {
        pieces[0]
    } else {
        joined(pieces.drop_last(), separator).push(separator) + pieces.last()
    }
}

proof fn lemma_parts_behind_separator(s: Seq<u8>, last: Seq<u8>, separator: u8)
    requires
        forall|i: int| 0 <= i < last.len() ==> last[i] != separator,
    ensures
        parts(s.push(separator) + last, separator) == parts(s, separator).push(last),
    decreases last.len(),
{
    let all = s.push(separator) + last;
    if last.len() == 0 {
        assert(all.drop_last() =~= s);
        assert(last =~= Seq::<u8>::empty());
    } else {
        let shorter = last.drop_last();
        assert forall|i: int| 0 <= i < shorter.len() implies shorter[i] != separator by {
            assert(shorter[i] == last[i]);
        }
        lemma_parts_behind_separator(s, shorter, separator);
        assert(all.drop_last() =~= s.push(separator) + shorter);
        assert(all.last() == last[last.len() - 1]);
        let before = parts(s, separator).push(shorter);
        assert(before.drop_last() =~= parts(s, separator));
        assert(shorter.push(last.last()) =~= last);
    }
}

proof fn lemma_parts_without_separator(s: Seq<u8>, separator: u8)
    requires
        forall|i: int| 0 <= i < s.len() ==> s[i] != separator,
    ensures
        parts(s, separator) == seq![s],
    decreases s.len(),
{
    if s.len() == 0 {
        assert(s =~= Seq::<u8>::empty());
    } else {
        let shorter = s.drop_last();
        assert forall|i: int| 0 <= i < shorter.len() implies shorter[i] != separator by {
            assert(shorter[i] == s[i]);
        }
        lemma_parts_without_separator(shorter, separator);
        assert(s.last() == s[s.len() - 1]);
        assert(shorter.push(s.last()) =~= s);
        assert(parts(s, separator) =~= seq![s]);
    }
}

/// Splitting undoes joining: parts that hold no separator come back as they were.
pub proof fn parts_come_back(pieces: Seq<Seq<u8>>, separator: u8)
    requires
        pieces.len() >= 1,
        forall|i: int, j: int|
            0 <= i < pieces.len() && 0 <= j < pieces[i].len() ==> (#[trigger] pieces[i][j])
                != separator,
    ensures
        parts(joined(pieces, separator), separator) == pieces,
    decreases pieces.len(),
{
    if pieces.len() == 1 {
        assert(joined(pieces, separator) == pieces[0]);
        lemma_parts_without_separator(pieces[0], separator);
        assert(pieces =~= seq![pieces[0]]);
    } else {
        let before = pieces.drop_last();
        assert forall|i: int, j: int| 0 <= i < before.len() && 0 <= j < before[i].len() implies (
        #[trigger] before[i][j]) != separator by {
            assert(before[i] == pieces[i]);
            assert(pieces[i][j] != separator);
        }
        parts_come_back(before, separator);
        let last = pieces.last();
        assert forall|j: int| 0 <= j < last.len() implies last[j] != separator by {
            assert(pieces[pieces.len() - 1][j] != separator);
        }
        lemma_parts_behind_separator(joined(before, separator), last, separator);
        assert(before.push(last) =~= pieces);
    }
}

/// Joining undoes splitting, and no part holds a separator: nothing is lost or left in.
pub proof fn parts_hold_everything(s: Seq<u8>, separator: u8)
    ensures
        parts(s, separator).len() >= 1,
        joined(parts(s, separator), separator) == s,
        forall|i: int, j: int|
            0 <= i < parts(s, separator).len() && 0 <= j < parts(s, separator)[i].len() ==> (
            #[trigger] parts(s, separator)[i][j]) != separator,
    decreases s.len(),
{
    if s.len() == 0 {
        assert(joined(parts(s, separator), separator) =~= s);
    } else {
        parts_hold_everything(s.drop_last(), separator);
        let before = parts(s.drop_last(), separator);
        let after = parts(s, separator);
        assert(s.drop_last().push(s.last()) =~= s);
        if s.last() == separator {
            assert(after.drop_last() =~= before);
            assert(joined(after, separator) =~= s);
        } else {
            assert(after.drop_last() =~= before.drop_last());
            assert(joined(after, separator) =~= joined(before, separator).push(s.last()));
        }
        assert forall|i: int, j: int| 0 <= i < after.len() && 0 <= j < after[i].len() implies (
        #[trigger] after[i][j]) != separator by {
            if i < after.len() - 1 {
                assert(after[i] == before[i]);
                assert(before[i][j] != separator);
            } else if s.last() != separator {
                if j < before.last().len() {
                    assert(after[i][j] == before[before.len() - 1][j]);
                }
            }
        }
    }
}

proof fn lemma_char_parts_behind_separator(s: Seq<char>, last: Seq<char>, separator: char)
    requires
        forall|i: int| 0 <= i < last.len() ==> last[i] != separator,
    ensures
        char_parts(s.push(separator) + last, separator) == char_parts(s, separator).push(last),
    decreases last.len(),
{
    let all = s.push(separator) + last;
    if last.len() == 0 {
        assert(all.drop_last() =~= s);
        assert(last =~= Seq::<char>::empty());
    } else {
        let shorter = last.drop_last();
        assert forall|i: int| 0 <= i < shorter.len() implies shorter[i] != separator by {
            assert(shorter[i] == last[i]);
        }
        lemma_char_parts_behind_separator(s, shorter, separator);
        assert(all.drop_last() =~= s.push(separator) + shorter);
        assert(all.last() == last[last.len() - 1]);
        let before = char_parts(s, separator).push(shorter);
        assert(before.drop_last() =~= char_parts(s, separator));
        assert(shorter.push(last.last()) =~= last);
    }
}

proof fn lemma_char_parts_without_separator(s: Seq<char>, separator: char)
    requires
        forall|i: int| 0 <= i < s.len() ==> s[i] != separator,
    ensures
        char_parts(s, separator) == seq![s],
    decreases s.len(),
{
    if s.len() == 0 {
        assert(s =~= Seq::<char>::empty());
    } else {
        let shorter = s.drop_last();
        assert forall|i: int| 0 <= i < shorter.len() implies shorter[i] != separator by {
            assert(shorter[i] == s[i]);
        }
        lemma_char_parts_without_separator(shorter, separator);
        assert(s.last() == s[s.len() - 1]);
        assert(shorter.push(s.last()) =~= s);
        assert(char_parts(s, separator) =~= seq![s]);
    }
}

/// Splitting undoes joining: parts that hold no separator come back as they were.
pub proof fn char_parts_come_back(pieces: Seq<Seq<char>>, separator: char)
    requires
        pieces.len() >= 1,
        forall|i: int, j: int|
            0 <= i < pieces.len() && 0 <= j < pieces[i].len() ==> (#[trigger] pieces[i][j])
                != separator,
    ensures
        char_parts(joined(pieces, separator), separator) == pieces,
    decreases pieces.len(),
{
    if pieces.len() == 1 {
        assert(joined(pieces, separator) == pieces[0]);
        lemma_char_parts_without_separator(pieces[0], separator);
        assert(pieces =~= seq![pieces[0]]);
    } else {
        let before = pieces.drop_last();
        assert forall|i: int, j: int| 0 <= i < before.len() && 0 <= j < before[i].len() implies (
        #[trigger] before[i][j]) != separator by {
            assert(before[i] == pieces[i]);
            assert(pieces[i][j] != separator);
        }
        char_parts_come_back(before, separator);
        let last = pieces.last();
        assert forall|j: int| 0 <= j < last.len() implies last[j] != separator by {
            assert(pieces[pieces.len() - 1][j] != separator);
        }
        lemma_char_parts_behind_separator(joined(before, separator), last, separator);
        assert(before.push(last) =~= pieces);
    }
}

/// Joining undoes splitting, and no part holds a separator: nothing is lost or left in.
pub proof fn char_parts_hold_everything(s: Seq<char>, separator: char)
    ensures
        char_parts(s, separator).len() >= 1,
        joined(char_parts(s, separator), separator) == s,
        forall|i: int, j: int|
            0 <= i < char_parts(s, separator).len() && 0 <= j < char_parts(s, separator)[i].len() ==> (
            #[trigger] char_parts(s, separator)[i][j]) != separator,
    decreases s.len(),
{
    if s.len() == 0 {
        assert(joined(char_parts(s, separator), separator) =~= s);
    } else {
        char_parts_hold_everything(s.drop_last(), separator);
        let before = char_parts(s.drop_last(), separator);
        let after = char_parts(s, separator);
        assert(s.drop_last().push(s.last()) =~= s);
        if s.last() == separator {
            assert(after.drop_last() =~= before);
            assert(joined(after, separator) =~= s);
        } else {
            assert(after.drop_last() =~= before.drop_last());
            assert(joined(after, separator) =~= joined(before, separator).push(s.last()));
        }
        assert forall|i: int, j: int| 0 <= i < after.len() && 0 <= j < after[i].len() implies (
        #[trigger] after[i][j]) != separator by {
            if i < after.len() - 1 {
                assert(after[i] == before[i]);
                assert(before[i][j] != separator);
            } else if s.last() != separator {
                if j < before.last().len() {
                    assert(after[i][j] == before[before.len() - 1][j]);
                }
            }
        }
    }
}

/// The case of ASCII letters is all that is ignored: two texts are the same exactly if they are as
/// long as each other and two bytes at the same place are the same byte, or one and the same
/// letter in upper and lower case.
pub proof fn only_letter_case_is_ignored(a: Seq<u8>, b: Seq<u8>)
    ensures
        same_text(a, b) <==> a.len() == b.len() && forall|i: int|
            #![trigger a[i]]
            0 <= i < a.len() ==> a[i] == b[i] || 65 <= a[i] <= 90 && b[i] == a[i] + 32 || 65 <= b[i]
                <= 90 && a[i] == b[i] + 32,
{
    if same_text(a, b) {
        assert forall|i: int|
            #![trigger a[i]]
            0 <= i < a.len() implies a[i] == b[i] || 65 <= a[i] <= 90 && b[i] == a[i] + 32 || 65
            <= b[i] <= 90 && a[i] == b[i] + 32 by {
            assert(lower_byte(a[i]) == lower_byte(b[i]));
        }
    }
}

/// The same of texts in characters.
pub proof fn only_letter_case_is_ignored_in_chars(a: Seq<char>, b: Seq<char>)
    ensures
        same_chars(a, b) <==> a.len() == b.len() && forall|i: int|
            #![trigger a[i]]
            0 <= i < a.len() ==> a[i] == b[i] || 65 <= (a[i] as u32) <= 90 && b[i] as u32 == a[i] as u32
                + 32 || 65 <= (b[i] as u32) <= 90 && a[i] as u32 == b[i] as u32 + 32,
{
    assert forall|c: char| 65 <= (c as u32) <= 90 implies (#[trigger] lower(c)) as u32 == c as u32
        + 32 by {}
    if same_chars(a, b) {
        assert forall|i: int|
            #![trigger a[i]]
            0 <= i < a.len() implies a[i] == b[i] || 65 <= (a[i] as u32) <= 90 && b[i] as u32 == a[i] as u32
            + 32 || 65 <= (b[i] as u32) <= 90 && a[i] as u32 == b[i] as u32 + 32 by {
            assert(lower(a[i]) == lower(b[i]));
        }
    }
}

/// Trimming takes the spaces and tabs around a text, all of them and nothing else.
pub proof fn blanks_around_are_taken(before: Seq<u8>, s: Seq<u8>, after: Seq<u8>)
    requires
        forall|i: int| 0 <= i < before.len() ==> before[i] == 32 || before[i] == 9,
        forall|i: int| 0 <= i < after.len() ==> after[i] == 32 || after[i] == 9,
        s.len() > 0,
        s[0] != 32 && s[0] != 9,
        s.last() != 32 && s.last() != 9,
    ensures
        trimmed(before + s + after) == s,
        trimmed(s) == s,
        trimmed(before) == Seq::<u8>::empty(),
{
    lemma_trim_start(before, s + after);
    assert(before + (s + after) =~= before + s + after);
    lemma_trim_end(s, after);
    lemma_trim_start(before, Seq::empty());
    assert(before + Seq::<u8>::empty() =~= before);
}

proof fn lemma_trim_start(before: Seq<u8>, s: Seq<u8>)
    requires
        forall|i: int| 0 <= i < before.len() ==> before[i] == 32 || before[i] == 9,
        s.len() > 0 ==> s[0] != 32 && s[0] != 9,
    ensures
        trim_start(before + s) == s,
    decreases before.len(),
{
    if before.len() == 0 {
        assert(before + s =~= s);
    } else {
        assert((before + s)[0] == before[0]);
        assert((before + s).skip(1) =~= before.skip(1) + s);
        lemma_trim_start(before.skip(1), s);
    }
}

proof fn lemma_trim_end(s: Seq<u8>, after: Seq<u8>)
    requires
        forall|i: int| 0 <= i < after.len() ==> after[i] == 32 || after[i] == 9,
        s.len() > 0 ==> s.last() != 32 && s.last() != 9,
    ensures
        trim_end(s + after) == s,
    decreases after.len(),
{
    if after.len() == 0 {
        assert(s + after =~= s);
    } else {
        assert((s + after).last() == after[after.len() - 1]);
        assert((s + after).drop_last() =~= s + after.drop_last());
        lemma_trim_end(s, after.drop_last());
    }
}

/// The first separator is found: there is none before it.
pub proof fn first_separator_is_found(s: Seq<u8>, separator: u8)
    ensures
        0 <= first_index(s, separator) <= s.len(),
        first_index(s, separator) < s.len() ==> s[first_index(s, separator)] == separator,
        forall|i: int| 0 <= i < first_index(s, separator) ==> s[i] != separator,
    decreases s.len(),
{
    if s.len() > 0 && s[0] != separator {
        first_separator_is_found(s.skip(1), separator);
        assert forall|i: int| 0 <= i < first_index(s, separator) implies s[i] != separator by {
            if i > 0 {
                assert(s.skip(1)[i - 1] == s[i]);
            }
        }
    }
}

} // verus!
