//! Small helpers on texts: comparing them and cutting them into words.

use vstd::prelude::*;
use vstd::string::StrSliceExecFns;
use vstd::utf8::{decode_utf8, valid_utf8};

verus! {

/// Whether `c` is white space: one of the characters that Unicode marks as
/// such.
pub open spec fn is_white_space(c: char) -> bool {
    let code = c as u32;
    ||| 0x09 <= code <= 0x0d
    ||| code == 0x20
    ||| code == 0x85
    ||| code == 0xa0
    ||| code == 0x1680
    ||| 0x2000 <= code <= 0x200a
    ||| code == 0x2028
    ||| code == 0x2029
    ||| code == 0x202f
    ||| code == 0x205f
    ||| code == 0x3000
}

/// The views of the texts in `texts`, in order.
pub open spec fn views(texts: Seq<String>) -> Seq<Seq<char>> {
    Seq::new(texts.len(), |i: int| texts[i]@)
}

/// The words that end inside `text`, and the word that `text` ends in, which
/// is empty where `text` ends in white space.
pub open spec fn scan_words(text: Seq<char>) -> (Seq<Seq<char>>, Seq<char>)
    decreases text.len(),
{
    if text.len() == 0 {
        (Seq::empty(), Seq::empty())
    } else {
        let (done, current) = scan_words(text.drop_last());
        if is_white_space(text.last()) {
            if current.len() > 0 {
                (done.push(current), Seq::empty())
            } else {
                (done, Seq::empty())
            }
        } else {
            (done, current.push(text.last()))
        }
    }
}

/// The words of `text`: its longest runs of characters that are not white
/// space, in order.
pub open spec fn words_of(text: Seq<char>) -> Seq<Seq<char>> {
    let (done, current) = scan_words(text);
    if current.len() > 0 {
        done.push(current)
    } else {
        done
    }
}

/// `text` without the white space that it ends in.
pub open spec fn trimmed_end(text: Seq<char>) -> Seq<char>
    decreases text.len(),
{
    if text.len() > 0 && is_white_space(text.last()) {
        trimmed_end(text.drop_last())
    } else {
        text
    }
}

/// Whether `c` is one of the digits `0` to `9`.
pub open spec fn is_digit(c: char) -> bool {
    '0' <= c <= '9'
}

/// The number that the digits spell, most significant first.
pub open spec fn digits_value(digits: Seq<char>) -> nat
    decreases digits.len(),
{
    if digits.len() == 0 {
        0
    } else {
        (digits_value(digits.drop_last()) * 10 + (digits.last() as u32 - '0' as u32)) as nat
    }
}

/// The number that `text` spells in decimal: one digit or more, which a `+`
/// may precede. Any other text spells none.
pub open spec fn decimal(text: Seq<char>) -> Option<nat> {
    let digits = if text.len() > 0 && text[0] == '+' {
        text.drop_first()
    } else {
        text
    };
    if digits.len() > 0 && all_digits(digits) {
        Some(digits_value(digits))
    } else {
        None
    }
}

/// Whether every character of `text` is a digit.
pub open spec fn all_digits(text: Seq<char>) -> bool {
    forall|i: int| 0 <= i < text.len() ==> is_digit(#[trigger] text[i])
}

/// The number that `text` spells in decimal, if it spells one that is at most
/// `max`.
pub open spec fn decimal_up_to(text: Seq<char>, max: nat) -> Option<nat> {
    match decimal(text) {
        Some(value) if value <= max => Some(value),
        _ => None,
    }
}

/// The part of `text` behind the last `mark` in it: all of it where it holds
/// none, nothing where it ends in one.
pub open spec fn after_last_mark(text: Seq<char>, mark: char) -> Seq<char>
    decreases text.len(),
{
    if text.len() == 0 || text.last() == mark {
        Seq::empty()
    } else {
        after_last_mark(text.drop_last(), mark).push(text.last())
    }
}

/// The part of `path` behind its last slash: all of it where it holds none,
/// nothing where it ends in one.
pub open spec fn last_segment(path: Seq<char>) -> Seq<char> {
    after_last_mark(path, '/')
}

/// Whether `mark` stands somewhere in `text`.
pub open spec fn has_mark(text: Seq<char>, mark: char) -> bool {
    exists|i: int| 0 <= i < text.len() && #[trigger] text[i] == mark
}

/// The lines that end inside `text`, and the line that `text` ends in, which
/// is empty where `text` ends in a line feed.
pub open spec fn scan_lines(text: Seq<char>) -> (Seq<Seq<char>>, Seq<char>)
    decreases text.len(),
{
    if text.len() == 0 {
        (Seq::empty(), Seq::empty())
    } else {
        let (done, current) = scan_lines(text.drop_last());
        if text.last() == '\n' {
            (done.push(current), Seq::empty())
        } else {
            (done, current.push(text.last()))
        }
    }
}

/// The lines of `text`: what stands between its line feeds, and what follows
/// the last one unless that is nothing.
pub open spec fn lines_of(text: Seq<char>) -> Seq<Seq<char>> {
    let (done, current) = scan_lines(text);
    if current.len() > 0 {
        done.push(current)
    } else {
        done
    }
}

/// `words` with a blank between each two, one after the other.
pub open spec fn joined(words: Seq<Seq<char>>) -> Seq<char>
    decreases words.len(),
{
    if words.len() == 0 {
        Seq::empty()
    } else if words.len() == 1 {
        words[0]
    } else {
        joined(words.drop_last()) + seq![' '] + words.last()
    }
}

/// Whether `text` is the shortest way to write a number in decimal: digits
/// only, and no zero in front unless it is the only digit.
pub open spec fn is_plain_decimal(text: Seq<char>) -> bool {
    &&& text.len() > 0
    &&& all_digits(text)
    &&& text.len() > 1 ==> text[0] != '0'
}

/// Whether `c` is an ASCII letter or digit.
pub open spec fn is_ascii_alphanumeric(c: char) -> bool {
    ('0' <= c <= '9') || ('A' <= c <= 'Z') || ('a' <= c <= 'z')
}

/// Whether `part` stands somewhere in `text`.
pub open spec fn has_part(text: Seq<char>, part: Seq<char>) -> bool {
    exists|i: int|
        0 <= i <= text.len() - part.len() && #[trigger] text.subrange(i, i + part.len()) == part
}

/// Whether `text` begins with `prefix`.
pub open spec fn has_prefix(text: Seq<char>, prefix: Seq<char>) -> bool {
    prefix.len() <= text.len() && text.take(prefix.len() as int) == prefix
}

/// Whether `word` is a word: not empty, and without white space.
pub open spec fn is_word(word: Seq<char>) -> bool {
    word.len() > 0 && forall|k: int| 0 <= k < word.len() ==> !is_white_space(#[trigger] word[k])
}

/// Every word of a text is a word: none is empty and none holds white space.
pub proof fn lemma_words_hold_no_space(text: Seq<char>)
    ensures
        forall|i: int| 0 <= i < words_of(text).len() ==> is_word(#[trigger] words_of(text)[i]),
{
    lemma_scan_holds_no_space(text);
}

proof fn lemma_scan_holds_no_space(text: Seq<char>)
    ensures
        forall|i: int|
            0 <= i < scan_words(text).0.len() ==> is_word(#[trigger] scan_words(text).0[i]),
        forall|k: int|
            0 <= k < scan_words(text).1.len() ==> !is_white_space(#[trigger] scan_words(text).1[k]),
    decreases text.len(),
{
    if text.len() > 0 {
        lemma_scan_holds_no_space(text.drop_last());
        let (done, current) = scan_words(text.drop_last());
        if is_white_space(text.last()) {
            if current.len() > 0 {
                assert(is_word(current));
                assert forall|i: int| 0 <= i < done.push(current).len() implies is_word(
                    #[trigger] done.push(current)[i],
                ) by {
                    if i < done.len() {
                        assert(done.push(current)[i] == done[i]);
                    }
                }
            }
        } else {
            let grown = current.push(text.last());
            assert forall|k: int| 0 <= k < grown.len() implies !is_white_space(
                #[trigger] grown[k],
            ) by {
                if k < current.len() {
                    assert(grown[k] == current[k]);
                }
            }
        }
    }
}

/// Tells whether `c` is white space, through `char::is_whitespace`. The
/// contract lists the characters that carry Unicode's white space property,
/// which is what the standard library documents the method to test.
#[verifier::external_body]
fn is_whitespace(c: char) -> (white: bool)
    ensures
        white == is_white_space(c),
{
    c.is_whitespace()
}

/// Reads bytes as a text, through `String::from_utf8`. The contract claims
/// that the call succeeds exactly on UTF-8, and that the text is then what
/// the bytes decode to.
#[verifier::external_body]
pub(crate) fn from_utf8(bytes: Vec<u8>) -> (text: Option<String>)
    ensures
        valid_utf8(bytes@) ==> (text matches Some(text) && text@ == decode_utf8(bytes@)),
        !valid_utf8(bytes@) ==> text is None,
{
    String::from_utf8(bytes).ok()
}

/// Reads a text as a `u32` in decimal, through `str::parse`. The contract
/// claims what the standard library documents: digits, which a `+` may
/// precede, are taken as a number, and anything else, or a number that does
/// not fit, is refused.
#[verifier::external_body]
pub(crate) fn parse_u32(text: &str) -> (number: Option<u32>)
    ensures
        match number {
            Some(number) => decimal_up_to(text@, u32::MAX as nat) == Some(number as nat),
            None => decimal_up_to(text@, u32::MAX as nat) is None,
        },
{
    text.parse::<u32>().ok()
}

/// Reads a text as a `usize` in decimal, through `str::parse`. The contract
/// claims what the standard library documents: digits, which a `+` may
/// precede, are taken as a number, and anything else, or a number that does
/// not fit, is refused. Of the text that comes with a refusal it claims
/// nothing.
#[verifier::external_body]
pub(crate) fn parse_usize(text: &str) -> (number: Result<usize, String>)
    ensures
        match number {
            Ok(number) => decimal_up_to(text@, usize::MAX as nat) == Some(number as nat),
            Err(_) => decimal_up_to(text@, usize::MAX as nat) is None,
        },
{
    text.parse::<usize>().map_err(|error| error.to_string())
}

/// Writes a number in decimal, through `ToString::to_string` on a `usize`.
/// The contract claims that the text is the shortest way to write the number
/// in decimal.
#[verifier::external_body]
pub(crate) fn number_text(number: usize) -> (text: String)
    ensures
        is_plain_decimal(text@),
        decimal(text@) == Some(number as nat),
{
    number.to_string()
}

/// Reads a text as a `u8` in decimal, through `str::parse`. The contract
/// claims what the standard library documents: digits, which a `+` may
/// precede, are taken as a number, and anything else, or a number above 255,
/// is refused. Of the text that comes with a refusal it claims nothing.
#[verifier::external_body]
pub(crate) fn parse_u8(text: &str) -> (number: Result<u8, String>)
    ensures
        match number {
            Ok(number) => decimal_up_to(text@, u8::MAX as nat) == Some(number as nat),
            Err(_) => decimal_up_to(text@, u8::MAX as nat) is None,
        },
{
    text.parse::<u8>().map_err(|error| error.to_string())
}

/// Tells whether `part` stands somewhere in `text`, through `str::contains`.
/// The contract claims that the answer is yes exactly if the characters of
/// `part` stand in `text` one after the other.
#[verifier::external_body]
pub(crate) fn contains(text: &str, part: &str) -> (found: bool)
    ensures
        found == has_part(text@, part@),
{
    text.contains(part)
}

/// Tells whether `text` begins with `prefix`, through `str::starts_with`.
/// The contract claims that the answer is yes exactly if the first
/// characters of `text` are those of `prefix`.
#[verifier::external_body]
pub(crate) fn starts_with(text: &str, prefix: &str) -> (found: bool)
    ensures
        found == has_prefix(text@, prefix@),
{
    text.starts_with(prefix)
}

/// Whether two texts are the same, character by character.
pub fn same_text(left: &str, right: &str) -> (same: bool)
    ensures
        same == (left@ == right@),
{
    left.to_owned() == right.to_owned()
}

/// A copy of `texts`.
pub fn copy_texts(texts: &Vec<String>) -> (copy: Vec<String>)
    ensures
        views(copy@) == views(texts@),
{
    let mut copy: Vec<String> = Vec::new();
    let mut i: usize = 0;
    while i < texts.len()
        invariant
            i <= texts@.len(),
            views(copy@) == views(texts@).take(i as int),
        decreases texts@.len() - i,
    {
        let ghost before = copy@;
        copy.push(texts[i].clone());
        assert(views(copy@) =~= views(before).push(texts@[i as int]@));
        assert(views(texts@).take(i + 1) =~= views(texts@).take(i as int).push(texts@[i as int]@));
        i = i + 1;
    }
    assert(views(texts@).take(texts@.len() as int) =~= views(texts@));
    copy
}

/// Cuts `text` into its words.
pub fn words(text: &str) -> (found: Vec<String>)
    ensures
        views(found@) == words_of(text@),
{
    let n: usize = text.unicode_len();
    let mut found: Vec<String> = Vec::new();
    let mut start: usize = 0;
    let mut i: usize = 0;
    assert(text@.take(0) =~= Seq::<char>::empty());
    assert(views(found@) =~= Seq::<Seq<char>>::empty());
    assert(text@.subrange(0, 0) =~= Seq::<char>::empty());
    while i < n
        invariant
            n == text@.len(),
            start <= i <= n,
            scan_words(text@.take(i as int)) == (views(found@), text@.subrange(
                start as int,
                i as int,
            )),
        decreases n - i,
    {
        let c = text.get_char(i);
        let ghost before = text@.take(i as int);
        let ghost next = text@.take(i + 1);
        assert(next.drop_last() =~= before);
        assert(next.last() == c);
        if is_whitespace(c) {
            if start < i {
                let word = text.substring_char(start, i).to_owned();
                let ghost old_found = found@;
                found.push(word);
                assert(views(found@) =~= views(old_found).push(
                    text@.subrange(start as int, i as int),
                ));
            }
            start = i + 1;
            assert(text@.subrange(start as int, i + 1) =~= Seq::<char>::empty());
        } else {
            assert(text@.subrange(start as int, i + 1) =~= text@.subrange(
                start as int,
                i as int,
            ).push(c));
        }
        i = i + 1;
    }
    assert(text@.take(n as int) =~= text@);
    if start < n {
        let word = text.substring_char(start, n).to_owned();
        let ghost old_found = found@;
        found.push(word);
        assert(views(found@) =~= views(old_found).push(text@.subrange(start as int, n as int)));
    }
    found
}

/// The name of a program from the path under which it was called: the part
/// behind the last slash.
pub fn bin_name(path: &str) -> (name: String)
    ensures
        name@ == last_segment(path@),
{
    after_last(path, '/')
}

/// The part of `text` behind the last `mark` in it.
pub fn after_last(text: &str, mark: char) -> (part: String)
    ensures
        part@ == after_last_mark(text@, mark),
{
    let n: usize = text.unicode_len();
    let mut start: usize = n;
    while start > 0 && text.get_char(start - 1) != mark
        invariant
            start <= n,
            n == text@.len(),
            forall|k: int| start <= k < n ==> text@[k] != mark,
        decreases start,
    {
        start = start - 1;
    }
    proof {
        lemma_after_last_mark(text@, mark, start as int);
    }
    text.substring_char(start, n).to_owned()
}

/// Whether `mark` stands somewhere in `text`.
pub fn holds_mark(text: &str, mark: char) -> (found: bool)
    ensures
        found == has_mark(text@, mark),
{
    let n: usize = text.unicode_len();
    let mut i: usize = 0;
    while i < n
        invariant
            i <= n,
            n == text@.len(),
            forall|k: int| 0 <= k < i ==> text@[k] != mark,
        decreases n - i,
    {
        if text.get_char(i) == mark {
            return true;
        }
        i = i + 1;
    }
    false
}

/// The part behind the last mark starts where no mark follows.
proof fn lemma_after_last_mark(text: Seq<char>, mark: char, start: int)
    requires
        0 <= start <= text.len(),
        forall|k: int| start <= k < text.len() ==> text[k] != mark,
        start > 0 ==> text[start - 1] == mark,
    ensures
        after_last_mark(text, mark) == text.subrange(start, text.len() as int),
    decreases text.len(),
{
    if text.len() == 0 {
        assert(text.subrange(start, text.len() as int) =~= Seq::<char>::empty());
    } else if start == text.len() {
        assert(text.last() == mark);
        assert(text.subrange(start, text.len() as int) =~= Seq::<char>::empty());
    } else {
        let front = text.drop_last();
        assert(text.last() != mark);
        assert forall|k: int| start <= k < front.len() implies front[k] != mark by {
            assert(front[k] == text[k]);
        }
        if start > 0 {
            assert(front[start - 1] == text[start - 1]);
        }
        lemma_after_last_mark(front, mark, start);
        assert(text.subrange(start, text.len() as int) =~= front.subrange(
            start,
            front.len() as int,
        ).push(text.last()));
    }
}

/// Cuts `text` into its lines.
pub fn lines(text: &str) -> (found: Vec<String>)
    ensures
        views(found@) == lines_of(text@),
{
    let n: usize = text.unicode_len();
    let mut found: Vec<String> = Vec::new();
    let mut start: usize = 0;
    let mut i: usize = 0;
    assert(text@.take(0) =~= Seq::<char>::empty());
    assert(views(found@) =~= Seq::<Seq<char>>::empty());
    assert(text@.subrange(0, 0) =~= Seq::<char>::empty());
    while i < n
        invariant
            n == text@.len(),
            start <= i <= n,
            scan_lines(text@.take(i as int)) == (views(found@), text@.subrange(
                start as int,
                i as int,
            )),
        decreases n - i,
    {
        let c = text.get_char(i);
        let ghost before = text@.take(i as int);
        let ghost next = text@.take(i + 1);
        assert(next.drop_last() =~= before);
        assert(next.last() == c);
        if c == '\n' {
            let line = text.substring_char(start, i).to_owned();
            let ghost old_found = found@;
            found.push(line);
            assert(views(found@) =~= views(old_found).push(text@.subrange(start as int, i as int)));
            start = i + 1;
            assert(text@.subrange(start as int, i + 1) =~= Seq::<char>::empty());
        } else {
            assert(text@.subrange(start as int, i + 1) =~= text@.subrange(
                start as int,
                i as int,
            ).push(c));
        }
        i = i + 1;
    }
    assert(text@.take(n as int) =~= text@);
    if start < n {
        let line = text.substring_char(start, n).to_owned();
        let ghost old_found = found@;
        found.push(line);
        assert(views(found@) =~= views(old_found).push(text@.subrange(start as int, n as int)));
    }
    found
}

/// The texts of `words` from place `from` on, with a blank between each two.
pub fn join_from(words: &Vec<String>, from: usize) -> (text: String)
    requires
        from <= words@.len(),
    ensures
        text@ == joined(views(words@).skip(from as int)),
{
    let ghost rest = views(words@).skip(from as int);
    let mut text = String::new();
    let mut i: usize = from;
    assert(rest.take(0) =~= Seq::<Seq<char>>::empty());
    while i < words.len()
        invariant
            from <= i <= words@.len(),
            rest == views(words@).skip(from as int),
            text@ == joined(rest.take(i - from)),
        decreases words@.len() - i,
    {
        let ghost done = rest.take(i - from);
        let ghost next = rest.take(i - from + 1);
        assert(next.drop_last() =~= done);
        assert(next.last() == words@[i as int]@);
        if i > from {
            text.append(" ");
        }
        text.append(words[i].as_str());
        proof {
            reveal_strlit(" ");
            assert(" "@ =~= seq![' ']);
            if i == from {
                assert(next.len() == 1);
                assert(next[0] == words@[i as int]@);
                assert(text@ =~= next[0]);
            } else {
                assert(text@ =~= joined(done) + seq![' '] + next.last());
            }
        }
        i = i + 1;
    }
    assert(rest.take(words@.len() - from) =~= rest);
    text
}

/// `text` without the white space that it ends in.
pub fn trim_end(text: &str) -> (trimmed: String)
    ensures
        trimmed@ == trimmed_end(text@),
{
    let mut end: usize = text.unicode_len();
    assert(text@.take(end as int) =~= text@);
    while end > 0 && is_whitespace(text.get_char(end - 1))
        invariant
            end <= text@.len(),
            trimmed_end(text@) == trimmed_end(text@.take(end as int)),
        decreases end,
    {
        let ghost part = text@.take(end as int);
        assert(part.last() == text@[end - 1]);
        assert(part.drop_last() =~= text@.take(end - 1));
        end = end - 1;
    }
    let ghost part = text@.take(end as int);
    assert(trimmed_end(part) == part) by {
        if end > 0 {
            assert(part.last() == text@[end - 1]);
        }
    }
    assert(text@.subrange(0, end as int) =~= part);
    text.substring_char(0, end).to_owned()
}

} // verus!
