//! Text helpers: comparing and taking apart strings, with contracts over
//! sequences of characters.

use vstd::prelude::*;

verus! {

/// `<str as PartialEq>::eq`: two string slices are equal exactly when they
/// hold the same characters.
pub assume_specification[ <str as PartialEq>::eq ](a: &str, b: &str) -> (r: bool)
    ensures
        r == (a@ == b@),
;

/// `String::push`: appends one character.
pub assume_specification[ String::push ](s: &mut String, c: char)
    ensures
        final(s)@ == old(s)@.push(c),
;

/// `String::pop`: removes the last character and returns it, or returns
/// `None` and changes nothing where the string is empty.
pub assume_specification[ String::pop ](s: &mut String) -> (c: Option<char>)
    ensures
        old(s)@.len() > 0 ==> c == Some(old(s)@.last()) && final(s)@ == old(s)@.drop_last(),
        old(s)@.len() == 0 ==> c is None && final(s)@ == old(s)@,
;

/// What `char::is_whitespace` returns for `c`: whether `c` has the Unicode
/// property White_Space.
pub uninterp spec fn is_whitespace(c: char) -> bool;

/// What `char::is_alphanumeric` returns for `c`: whether `c` is a letter or
/// a number in Unicode's terms.
pub uninterp spec fn is_alphanumeric(c: char) -> bool;

/// What `str::to_lowercase` returns for a string of the characters `s`.
pub uninterp spec fn lowercased(s: Seq<char>) -> Seq<char>;

/// `char::is_whitespace`.
#[verifier::external_body]
pub(crate) fn char_is_whitespace(c: char) -> (b: bool)
    ensures
        b == is_whitespace(c),
{
    c.is_whitespace()
}

/// `char::is_alphanumeric`.
#[verifier::external_body]
pub(crate) fn char_is_alphanumeric(c: char) -> (b: bool)
    ensures
        b == is_alphanumeric(c),
{
    c.is_alphanumeric()
}

/// `str::to_lowercase`: the lowercase equivalent of the string, as a new
/// string.
#[verifier::external_body]
pub(crate) fn to_lowercase(s: &str) -> (lower: String)
    ensures
        lower@ == lowercased(s@),
{
    s.to_lowercase()
}

/// Whether two strings hold the same characters.
pub fn same_text(a: &str, b: &str) -> (r: bool)
    ensures
        r == (a@ == b@),
{
    a.eq(b)
}

/// The characters of a string.
pub fn chars_of(s: &str) -> (chars: Vec<char>)
    ensures
        chars@ == s@,
{
    let mut chars: Vec<char> = Vec::new();
    for c in it: s.chars()
        invariant
            it.seq() == s@,
            chars@ == s@.take(it.index() as int),
    {
        chars.push(c);
        assert(s@.take(it.index() + 1) =~= s@.take(it.index() as int).push(c));
    }
    assert(s@.take(s@.len() as int) =~= s@);
    chars
}

/// The string that holds the given characters.
pub fn string_of(chars: &Vec<char>) -> (s: String)
    ensures
        s@ == chars@,
{
    let mut s = String::new();
    let mut i: usize = 0;
    while i < chars.len()
        invariant
            i <= chars@.len(),
            s@ == chars@.take(i as int),
        decreases chars@.len() - i,
    {
        s.push(chars[i]);
        assert(chars@.take(i + 1) =~= chars@.take(i as int).push(chars@[i as int]));
        i = i + 1;
    }
    assert(chars@.take(chars@.len() as int) =~= chars@);
    s
}


/// The texts of a list of strings.
pub open spec fn texts(list: Seq<String>) -> Seq<Seq<char>> {
    Seq::new(list.len(), |i: int| list[i]@)
}

/// The texts of a list with one more string.
pub proof fn lemma_texts_push(list: Seq<String>, s: String)
    ensures
        texts(list.push(s)) == texts(list).push(s@),
{
    assert(texts(list.push(s)) =~= texts(list).push(s@));
}

/// One step of cutting a text into words: the words that are complete, and
/// the word that is being read.
pub open spec fn words_step(state: (Seq<Seq<char>>, Seq<char>), c: char) -> (
    Seq<Seq<char>>,
    Seq<char>,
) {
    if is_whitespace(c) {
        if state.1.len() > 0 {
            (state.0.push(state.1), Seq::empty())
        } else {
            state
        }
    } else {
        (state.0, state.1.push(c))
    }
}

/// The state of cutting a text into words after its first `n` characters.
pub open spec fn words_scan(s: Seq<char>, n: nat) -> (Seq<Seq<char>>, Seq<char>)
    decreases n,
{
    if n == 0 {
        (Seq::empty(), Seq::empty())
    } else {
        words_step(words_scan(s, (n - 1) as nat), s[n - 1])
    }
}

/// The words of a text: its maximal runs of characters that are not
/// whitespace, in order.
pub open spec fn words(s: Seq<char>) -> Seq<Seq<char>> {
    let (done, word) = words_scan(s, s.len());
    if word.len() > 0 {
        done.push(word)
    } else {
        done
    }
}

/// Every word holds a character, and none holds whitespace.
pub proof fn lemma_words_are_solid(s: Seq<char>)
    ensures
        forall|k: int|
            0 <= k < words(s).len() ==> (#[trigger] words(s)[k]).len() > 0 && forall|i: int|
                0 <= i < words(s)[k].len() ==> !is_whitespace(#[trigger] words(s)[k][i]),
{
    lemma_words_scan_is_solid(s, s.len());
}

proof fn lemma_words_scan_is_solid(s: Seq<char>, n: nat)
    ensures
        forall|k: int|
            0 <= k < words_scan(s, n).0.len() ==> (#[trigger] words_scan(s, n).0[k]).len() > 0
                && forall|i: int|
                0 <= i < words_scan(s, n).0[k].len() ==> !is_whitespace(
                    #[trigger] words_scan(s, n).0[k][i],
                ),
        forall|i: int|
            0 <= i < words_scan(s, n).1.len() ==> !is_whitespace(#[trigger] words_scan(s, n).1[i]),
    decreases n,
{
    if n > 0 {
        lemma_words_scan_is_solid(s, (n - 1) as nat);
        let before = words_scan(s, (n - 1) as nat);
        let after = words_scan(s, n);
        assert forall|k: int| 0 <= k < after.0.len() implies (#[trigger] after.0[k]).len() > 0
            && forall|i: int| 0 <= i < after.0[k].len() ==> !is_whitespace(#[trigger] after.0[k][i]) by {
            if k < before.0.len() {
                assert(after.0[k] == before.0[k]);
            } else {
                assert(after.0[k] == before.1);
            }
        }
    }
}

/// Cuts a text into words at whitespace.
pub fn split_words(line: &str) -> (out: Vec<String>)
    ensures
        texts(out@) == words(line@),
{
    let mut out: Vec<String> = Vec::new();
    let mut word = String::new();
    let mut has_word = false;
    assert(texts(out@) =~= Seq::empty());
    for c in it: line.chars()
        invariant
            it.seq() == line@,
            (texts(out@), word@) == words_scan(line@, it.index() as nat),
            has_word == (word@.len() > 0),
    {
        if char_is_whitespace(c) {
            if has_word {
                let mut finished = String::new();
                core::mem::swap(&mut word, &mut finished);
                proof {
                    lemma_texts_push(out@, finished);
                }
                out.push(finished);
                has_word = false;
            }
        } else {
            word.push(c);
            has_word = true;
        }
    }
    if has_word {
        proof {
            lemma_texts_push(out@, word);
        }
        out.push(word);
    }
    out
}

/// A line without the carriage return that ends it, if one does.
pub open spec fn without_cr(line: Seq<char>) -> Seq<char> {
    if line.len() > 0 && line.last() == '\r' {
        line.drop_last()
    } else {
        line
    }
}

/// One step of cutting a text into lines: the lines that are complete, and
/// the line that is being read.
pub open spec fn lines_step(state: (Seq<Seq<char>>, Seq<char>), c: char) -> (
    Seq<Seq<char>>,
    Seq<char>,
) {
    if c == '\n' {
        (state.0.push(without_cr(state.1)), Seq::empty())
    } else {
        (state.0, state.1.push(c))
    }
}

/// The state of cutting a text into lines after its first `n` characters.
pub open spec fn lines_scan(s: Seq<char>, n: nat) -> (Seq<Seq<char>>, Seq<char>)
    decreases n,
{
    if n == 0 {
        (Seq::empty(), Seq::empty())
    } else {
        lines_step(lines_scan(s, (n - 1) as nat), s[n - 1])
    }
}

/// The lines of a text. A line ends at a line feed, which is not part of it,
/// nor is a carriage return right before the line feed. What follows the last
/// line feed is a line if it holds a character.
pub open spec fn lines(s: Seq<char>) -> Seq<Seq<char>> {
    let (done, line) = lines_scan(s, s.len());
    if line.len() > 0 {
        done.push(line)
    } else {
        done
    }
}

/// Cuts a text into lines.
pub fn split_lines(text: &str) -> (out: Vec<String>)
    ensures
        texts(out@) == lines(text@),
{
    let mut out: Vec<String> = Vec::new();
    let mut line = String::new();
    let mut pending: usize = 0;
    let mut ends_in_cr = false;
    assert(texts(out@) =~= Seq::empty());
    for c in it: text.chars()
        invariant
            it.seq() == text@,
            (texts(out@), line@) == lines_scan(text@, it.index() as nat),
            (pending > 0) == (line@.len() > 0),
            ends_in_cr == (line@.len() > 0 && line@.last() == '\r'),
    {
        if c == '\n' {
            let mut finished = String::new();
            core::mem::swap(&mut line, &mut finished);
            if ends_in_cr {
                finished.pop();
            }
            proof {
                lemma_texts_push(out@, finished);
            }
            out.push(finished);
            pending = 0;
            ends_in_cr = false;
        } else {
            line.push(c);
            pending = 1;
            ends_in_cr = c == '\r';
        }
    }
    if pending > 0 {
        proof {
            lemma_texts_push(out@, line);
        }
        out.push(line);
    }
    out
}

/// The first place at or after `from` that holds no whitespace, or the
/// length of the text.
pub open spec fn first_text(s: Seq<char>, from: nat) -> nat
    decreases s.len() - from,
{
    if from < s.len() && is_whitespace(s[from as int]) {
        first_text(s, from + 1)
    } else {
        from
    }
}

/// The end of the last run of characters before `to` that are not
/// whitespace, or 0.
pub open spec fn last_text(s: Seq<char>, to: nat) -> nat
    decreases to,
{
    if to > 0 && is_whitespace(s[to - 1]) {
        last_text(s, (to - 1) as nat)
    } else {
        to
    }
}

/// A text without the whitespace at its two ends.
pub open spec fn trimmed(s: Seq<char>) -> Seq<char> {
    let start = first_text(s, 0);
    if start >= s.len() {
        Seq::empty()
    } else {
        s.subrange(start as int, last_text(s, s.len()) as int)
    }
}

/// The whitespace at the end stops at the latest behind a character that is
/// not whitespace.
pub proof fn lemma_last_text_bound(s: Seq<char>, to: nat, keep: nat)
    requires
        keep < to <= s.len(),
        !is_whitespace(s[keep as int]),
    ensures
        keep < last_text(s, to) <= to,
    decreases to,
{
    if to > 0 && is_whitespace(s[to - 1]) {
        lemma_last_text_bound(s, (to - 1) as nat, keep);
    }
}

/// Takes the whitespace off both ends of a text.
pub fn trim(text: &str) -> (out: String)
    ensures
        out@ == trimmed(text@),
{
    let chars = chars_of(text);
    let mut start: usize = 0;
    while start < chars.len() && char_is_whitespace(chars[start])
        invariant
            start <= chars@.len(),
            first_text(chars@, start as nat) == first_text(chars@, 0),
        decreases chars@.len() - start,
    {
        start = start + 1;
    }
    let mut out = String::new();
    if start >= chars.len() {
        return out;
    }
    let mut end: usize = chars.len();
    proof {
        lemma_last_text_bound(chars@, chars@.len(), start as nat);
    }
    while end > 0 && char_is_whitespace(chars[end - 1])
        invariant
            end <= chars@.len(),
            last_text(chars@, end as nat) == last_text(chars@, chars@.len()),
        decreases end,
    {
        end = end - 1;
    }
    let mut i: usize = start;
    while i < end
        invariant
            start <= i <= end <= chars@.len(),
            out@ == chars@.subrange(start as int, i as int),
        decreases end - i,
    {
        out.push(chars[i]);
        assert(chars@.subrange(start as int, i + 1) =~= chars@.subrange(
            start as int,
            i as int,
        ).push(chars@[i as int]));
        i = i + 1;
    }
    out
}

/// Whether `needle` stands in `text` at place `at`.
pub open spec fn occurs_at(text: Seq<char>, needle: Seq<char>, at: int) -> bool {
    0 <= at && at + needle.len() <= text.len() && text.subrange(at, at + needle.len()) == needle
}

/// Whether `needle` stands somewhere in `text`.
pub open spec fn has_part(text: Seq<char>, needle: Seq<char>) -> bool {
    exists|at: int| occurs_at(text, needle, at)
}

/// Whether `text` begins with `prefix`.
pub open spec fn begins_with(text: Seq<char>, prefix: Seq<char>) -> bool {
    occurs_at(text, prefix, 0)
}

fn matches_at(text: &Vec<char>, needle: &Vec<char>, at: usize) -> (found: bool)
    requires
        at + needle@.len() <= text@.len(),
    ensures
        found == occurs_at(text@, needle@, at as int),
{
    let mut k: usize = 0;
    assert(text.len() <= usize::MAX);
    while k < needle.len()
        invariant
            k <= needle@.len(),
            at + needle@.len() <= text@.len() <= usize::MAX,
            forall|j: int| 0 <= j < k ==> text@[at + j] == needle@[j],
        decreases needle@.len() - k,
    {
        if text[at + k] != needle[k] {
            assert(text@.subrange(at as int, at + needle@.len())[k as int] != needle@[k as int]);
            return false;
        }
        k = k + 1;
    }
    assert(text@.subrange(at as int, at + needle@.len()) =~= needle@);
    true
}

/// Whether `needle` stands somewhere in `text`.
pub fn contains(text: &str, needle: &str) -> (found: bool)
    ensures
        found == has_part(text@, needle@),
{
    let hay = chars_of(text);
    let pin = chars_of(needle);
    if pin.len() > hay.len() {
        return false;
    }
    if pin.len() == 0 {
        assert(text@.subrange(0, 0) =~= needle@);
        assert(occurs_at(text@, needle@, 0));
        return true;
    }
    let last = hay.len() - pin.len();
    let mut at: usize = 0;
    while at <= last
        invariant
            hay@ == text@,
            pin@ == needle@,
            0 < pin@.len() <= hay@.len() <= usize::MAX,
            last == hay@.len() - pin@.len(),
            at <= last + 1,
            forall|j: int| 0 <= j < at ==> !occurs_at(hay@, pin@, j),
        decreases last + 1 - at,
    {
        if matches_at(&hay, &pin, at) {
            assert(occurs_at(text@, needle@, at as int));
            return true;
        }
        at = at + 1;
    }
    false
}

/// Whether `text` begins with `prefix`.
pub fn starts_with(text: &str, prefix: &str) -> (found: bool)
    ensures
        found == begins_with(text@, prefix@),
{
    let hay = chars_of(text);
    let pin = chars_of(prefix);
    if pin.len() > hay.len() {
        return false;
    }
    matches_at(&hay, &pin, 0)
}

/// The characters from place `from` up to place `to` as a string.
pub fn sub_string(chars: &Vec<char>, from: usize, to: usize) -> (out: String)
    requires
        from <= to <= chars@.len(),
    ensures
        out@ == chars@.subrange(from as int, to as int),
{
    let mut out = String::new();
    let mut i: usize = from;
    while i < to
        invariant
            from <= i <= to <= chars@.len(),
            out@ == chars@.subrange(from as int, i as int),
        decreases to - i,
    {
        out.push(chars[i]);
        assert(chars@.subrange(from as int, i + 1) =~= chars@.subrange(from as int, i as int).push(
            chars@[i as int],
        ));
        i = i + 1;
    }
    out
}

/// What follows the first `n` characters of a text.
pub fn skip_chars(text: &str, n: usize) -> (rest: String)
    requires
        n <= text@.len(),
    ensures
        rest@ == text@.skip(n as int),
{
    let chars = chars_of(text);
    let mut rest = String::new();
    let mut i: usize = n;
    while i < chars.len()
        invariant
            n <= i <= chars@.len(),
            rest@ == chars@.subrange(n as int, i as int),
        decreases chars@.len() - i,
    {
        rest.push(chars[i]);
        assert(chars@.subrange(n as int, i + 1) =~= chars@.subrange(n as int, i as int).push(
            chars@[i as int],
        ));
        i = i + 1;
    }
    assert(chars@.subrange(n as int, chars@.len() as int) =~= chars@.skip(n as int));
    rest
}

/// Two texts, one behind the other.
pub fn join(first: &str, second: &str) -> (out: String)
    ensures
        out@ == first@ + second@,
{
    let mut out = String::new();
    for c in it: first.chars()
        invariant
            it.seq() == first@,
            out@ == first@.take(it.index() as int),
    {
        out.push(c);
        assert(first@.take(it.index() + 1) =~= first@.take(it.index() as int).push(c));
    }
    assert(first@.take(first@.len() as int) =~= first@);
    for c in it: second.chars()
        invariant
            it.seq() == second@,
            out@ == first@ + second@.take(it.index() as int),
    {
        out.push(c);
        assert(first@ + second@.take(it.index() + 1) =~= (first@ + second@.take(
            it.index() as int,
        )).push(c));
    }
    assert(second@.take(second@.len() as int) =~= second@);
    out
}

/// Whether a list of strings holds one with the given text.
pub fn holds_text(list: &Vec<String>, text: &str) -> (found: bool)
    ensures
        found == texts(list@).contains(text@),
{
    let mut i: usize = 0;
    while i < list.len()
        invariant
            i <= list@.len(),
            forall|j: int| 0 <= j < i ==> (#[trigger] list@[j])@ != text@,
        decreases list@.len() - i,
    {
        if same_text(list[i].as_str(), text) {
            assert(texts(list@)[i as int] == text@);
            return true;
        }
        i = i + 1;
    }
    assert forall|j: int| 0 <= j < texts(list@).len() implies texts(list@)[j] != text@ by {
        assert(list@[j]@ != text@);
    }
    false
}

} // verus!
