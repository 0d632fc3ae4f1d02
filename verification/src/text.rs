//! Text as the library reads it: a sequence of characters, with the classes of
//! characters, the cuts and the joins that names, search hits and log files
//! are taken apart and put together with.
use vstd::prelude::*;
use vstd::string::StrSliceExecFns;
use vstd::string::StringExecFns;

verus! {

/// Whether a character has the Unicode `White_Space` property.
pub open spec fn white_space(c: char) -> bool {
    ||| '\u{9}' <= c <= '\u{d}'
    ||| c == '\u{20}'
    ||| c == '\u{85}'
    ||| c == '\u{a0}'
    ||| c == '\u{1680}'
    ||| '\u{2000}' <= c <= '\u{200a}'
    ||| c == '\u{2028}'
    ||| c == '\u{2029}'
    ||| c == '\u{202f}'
    ||| c == '\u{205f}'
    ||| c == '\u{3000}'
}

/// Whether a character is an ASCII letter or digit.
pub open spec fn ascii_alphanumeric(c: char) -> bool {
    '0' <= c <= '9' || 'A' <= c <= 'Z' || 'a' <= c <= 'z'
}

/// What `char::is_alphanumeric` answers for a character beyond ASCII.
pub uninterp spec fn wide_alphanumeric(c: char) -> bool;

/// Whether a character is a letter or a number.
pub open spec fn alphanumeric(c: char) -> bool {
    if c <= '\u{7f}' {
        ascii_alphanumeric(c)
    } else {
        wide_alphanumeric(c)
    }
}

/// A character with the ASCII capitals made small.
pub open spec fn ascii_lower(c: char) -> char {
    if 'A' <= c <= 'Z' {
        ((c as u32) + 32) as char
    } else {
        c
    }
}

/// A text with the ASCII capitals made small.
pub open spec fn ascii_lowered(s: Seq<char>) -> Seq<char> {
    s.map_values(|c: char| ascii_lower(c))
}

/// Whether two texts differ in ASCII case at most.
pub open spec fn same_ignoring_ascii_case(a: Seq<char>, b: Seq<char>) -> bool {
    &&& a.len() == b.len()
    &&& forall|i: int| 0 <= i < a.len() ==> #[trigger] ascii_lower(a[i]) == ascii_lower(b[i])
}

/// What `str::to_lowercase` makes of a text that is not all ASCII.
pub uninterp spec fn wide_lowercase(s: Seq<char>) -> Seq<char>;

/// A text in lower case: the ASCII capitals are made small, and the rest is
/// lowered where there is any.
pub open spec fn lowercase(s: Seq<char>) -> Seq<char> {
    if vstd::utf8::is_ascii_chars(s) {
        ascii_lowered(s)
    } else {
        wide_lowercase(ascii_lowered(s))
    }
}

/// What the `Debug` format of a `str` is: the text quoted and escaped.
pub uninterp spec fn debug_text(s: Seq<char>) -> Seq<char>;

/// The classes of characters that texts are trimmed and split by.
#[derive(Clone, Copy, PartialEq, Eq, Structural)]
pub enum Class {
    /// White space.
    WhiteSpace,
    /// Anything but letters and numbers.
    NotAlphanumeric,
    /// White space and the comma, which stand between the words of a name.
    NameSeparator,
    /// The slash.
    Slash,
    /// The line feed.
    LineFeed,
}

/// Whether a character belongs to a class.
pub open spec fn in_class(class: Class, c: char) -> bool {
    match class {
        Class::WhiteSpace => white_space(c),
        Class::NotAlphanumeric => !alphanumeric(c),
        Class::NameSeparator => white_space(c) || c == ',',
        Class::Slash => c == '/',
        Class::LineFeed => c == '\n',
    }
}

/// A text without the characters of a class at its front.
pub open spec fn strip_start(s: Seq<char>, class: Class) -> Seq<char>
    decreases s.len(),
{
    if s.len() > 0 && in_class(class, s[0]) {
        strip_start(s.drop_first(), class)
    } else {
        s
    }
}

/// A text without the characters of a class at its end.
pub open spec fn strip_end(s: Seq<char>, class: Class) -> Seq<char>
    decreases s.len(),
{
    if s.len() > 0 && in_class(class, s.last()) {
        strip_end(s.drop_last(), class)
    } else {
        s
    }
}

/// A text without the characters of a class at either end.
pub open spec fn strip(s: Seq<char>, class: Class) -> Seq<char> {
    strip_end(strip_start(s, class), class)
}

/// A text without white space at either end.
pub open spec fn trimmed(s: Seq<char>) -> Seq<char> {
    strip(s, Class::WhiteSpace)
}

/// What lies between the characters of a class, in order; empty where two of
/// them stand side by side.
pub open spec fn pieces(s: Seq<char>, class: Class) -> Seq<Seq<char>>
    decreases s.len(),
{
    if s.len() == 0 {
        seq![Seq::empty()]
    } else {
        let before = pieces(s.drop_last(), class);
        if in_class(class, s.last()) {
            before.push(Seq::empty())
        } else {
            before.drop_last().push(before.last().push(s.last()))
        }
    }
}

/// The texts of a list that are not empty, in order.
pub open spec fn non_empty(parts: Seq<Seq<char>>) -> Seq<Seq<char>>
    decreases parts.len(),
{
    if parts.len() == 0 {
        Seq::empty()
    } else {
        let before = non_empty(parts.drop_last());
        if parts.last().len() == 0 {
            before
        } else {
            before.push(parts.last())
        }
    }
}

/// The texts of a list, one after the other with a separator between.
pub open spec fn joined(parts: Seq<Seq<char>>, separator: Seq<char>) -> Seq<char>
    decreases parts.len(),
{
    if parts.len() == 0 {
        Seq::empty()
    } else if parts.len() == 1 {
        parts[0]
    } else {
        joined(parts.drop_last(), separator) + separator + parts.last()
    }
}

/// The words of a text: what lies between white space, without the empty ones.
pub open spec fn words(s: Seq<char>) -> Seq<Seq<char>> {
    non_empty(pieces(s, Class::WhiteSpace))
}

/// A text with single spaces between its words and none around them.
pub open spec fn spaced(s: Seq<char>) -> Seq<char> {
    joined(words(s), " "@)
}

/// Whether a part stands in a text at a position.
pub open spec fn found_at(text: Seq<char>, part: Seq<char>, at: int) -> bool {
    0 <= at && at + part.len() <= text.len() && text.subrange(at, at + part.len()) == part
}

/// Whether a text holds a part.
pub open spec fn holds(text: Seq<char>, part: Seq<char>) -> bool {
    exists|at: int| #[trigger] found_at(text, part, at)
}

/// The first position from a given one on at which a part stands in a text.
pub open spec fn first_from(text: Seq<char>, part: Seq<char>, from: int) -> Option<int>
    decreases text.len() - from + 1,
{
    if from < 0 || from + part.len() > text.len() {
        None
    } else if found_at(text, part, from) {
        Some(from)
    } else {
        first_from(text, part, from + 1)
    }
}

/// A text without a part: its first occurrence is cut out until none is left.
pub open spec fn cut_out(text: Seq<char>, part: Seq<char>) -> Seq<char>
    decreases text.len(),
{
    match first_from(text, part, 0) {
        Some(at) => {
            let rest = text.take(at) + text.skip(at + part.len());
            if rest.len() < text.len() {
                cut_out(rest, part)
            } else {
                text
            }
        },
        None => text,
    }
}

/// A text cut off after a number of characters.
pub open spec fn first_chars(s: Seq<char>, count: nat) -> Seq<char> {
    if s.len() <= count {
        s
    } else {
        s.take(count as int)
    }
}

/// The decimal digit of a number below ten.
pub open spec fn digit(d: nat) -> char {
    (48 + d) as char
}

/// A number in decimal.
pub open spec fn decimal(n: nat) -> Seq<char>
    decreases n,
{
    if n < 10 {
        seq![digit(n)]
    } else {
        decimal(n / 10).push(digit(n % 10))
    }
}

/// The byte offset at which the `i`-th character of a text starts.
pub open spec fn byte_offset(s: Seq<char>, i: int) -> nat {
    vstd::utf8::encode_utf8(s.take(i)).len()
}

/// How many bytes a character takes.
pub open spec fn byte_width(c: char) -> nat {
    if c <= '\u{7f}' {
        1
    } else if c <= '\u{7ff}' {
        2
    } else if c <= '\u{ffff}' {
        3
    } else {
        4
    }
}

proof fn lemma_encode_push(s: Seq<char>, c: char)
    ensures
        vstd::utf8::encode_utf8(s.push(c)).len() == vstd::utf8::encode_utf8(s).len() + byte_width(c),
    decreases s.len(),
{
    reveal_with_fuel(vstd::utf8::encode_utf8, 2);
    if s.len() == 0 {
        assert(s.push(c).drop_first() =~= Seq::<char>::empty());
    } else {
        assert(s.push(c).drop_first() =~= s.drop_first().push(c));
        lemma_encode_push(s.drop_first(), c);
    }
}

/// The next character starts where the width of this one ends.
pub proof fn lemma_byte_offset_step(s: Seq<char>, i: int)
    requires
        0 <= i < s.len(),
    ensures
        byte_offset(s, i + 1) == byte_offset(s, i) + byte_width(s[i]),
{
    assert(s.take(i + 1) =~= s.take(i).push(s[i]));
    lemma_encode_push(s.take(i), s[i]);
}

/// Offsets grow with the position.
pub proof fn lemma_byte_offset_monotone(s: Seq<char>, i: int, j: int)
    requires
        0 <= i <= j <= s.len(),
    ensures
        byte_offset(s, i) <= byte_offset(s, j),
        i < j ==> byte_offset(s, i) < byte_offset(s, j),
    decreases j - i,
{
    if i < j {
        lemma_byte_offset_monotone(s, i, j - 1);
        lemma_byte_offset_step(s, j - 1);
    }
}

/// The first position is one at which the part stands, and none before it is.
pub proof fn lemma_first_from(text: Seq<char>, part: Seq<char>, from: int)
    requires
        0 <= from,
    ensures
        match first_from(text, part, from) {
            Some(at) => from <= at && found_at(text, part, at) && forall|k: int|
                from <= k < at ==> !#[trigger] found_at(text, part, k),
            None => forall|k: int| from <= k ==> !#[trigger] found_at(text, part, k),
        },
    decreases text.len() - from + 1,
{
    if from + part.len() <= text.len() && !found_at(text, part, from) {
        lemma_first_from(text, part, from + 1);
    }
}

/// What is cut out of a text is no longer in it; and a text that does not hold
/// it is left as it is.
pub proof fn what_is_cut_out_is_gone(text: Seq<char>, part: Seq<char>)
    ensures
        part.len() > 0 ==> !holds(cut_out(text, part), part),
        !holds(text, part) ==> cut_out(text, part) == text,
    decreases text.len(),
{
    lemma_first_from(text, part, 0);
    match first_from(text, part, 0) {
        Some(at) => {
            let rest = text.take(at) + text.skip(at + part.len());
            if rest.len() < text.len() {
                what_is_cut_out_is_gone(rest, part);
            }
        },
        None => {
            assert forall|k: int| !#[trigger] found_at(text, part, k) by {}
        },
    }
}

/// What lies between the characters of a class, once more of other characters
/// follows: it goes to the last piece.
pub proof fn lemma_pieces_of_more(s: Seq<char>, more: Seq<char>, class: Class)
    requires
        forall|i: int| 0 <= i < more.len() ==> !in_class(class, #[trigger] more[i]),
    ensures
        pieces(s, class).len() > 0,
        pieces(s + more, class) == pieces(s, class).drop_last().push(
            pieces(s, class).last() + more,
        ),
    decreases more.len(),
{
    lemma_pieces_some(s, class);
    let before = pieces(s, class);
    if more.len() == 0 {
        assert(s + more =~= s);
        assert(before.last() + more =~= before.last());
        assert(before.drop_last().push(before.last()) =~= before);
    } else {
        let less = more.drop_last();
        assert forall|i: int| 0 <= i < less.len() implies !in_class(class, #[trigger] less[i]) by {
            assert(less[i] == more[i]);
        }
        lemma_pieces_of_more(s, less, class);
        assert((s + more).drop_last() =~= s + less);
        assert((s + more).last() == more[more.len() - 1]);
        let shorter = pieces(s + less, class);
        assert(shorter.drop_last() =~= before.drop_last());
        assert((before.last() + less).push(more.last()) =~= before.last() + more);
    }
}

/// There is always a piece.
pub proof fn lemma_pieces_some(s: Seq<char>, class: Class)
    ensures
        pieces(s, class).len() > 0,
    decreases s.len(),
{
    if s.len() > 0 {
        lemma_pieces_some(s.drop_last(), class);
    }
}

/// Whether a character is white space.
pub fn is_white_space(c: char) -> (r: bool)
    ensures
        r == white_space(c),
{
    ('\u{9}' <= c && c <= '\u{d}') || c == '\u{20}' || c == '\u{85}' || c == '\u{a0}' || c
        == '\u{1680}' || ('\u{2000}' <= c && c <= '\u{200a}') || c == '\u{2028}' || c == '\u{2029}'
        || c == '\u{202f}' || c == '\u{205f}' || c == '\u{3000}'
}

/// Calls `char::is_alphanumeric`. Trusted: for an ASCII character it answers
/// whether that is a letter or a digit, and for any other it depends on the
/// character alone.
#[verifier::external_body]
fn is_alphanumeric(c: char) -> (r: bool)
    ensures
        r == (if c <= '\u{7f}' { ascii_alphanumeric(c) } else { wide_alphanumeric(c) }),
{
    c.is_alphanumeric()
}

/// Calls `str::to_lowercase`. Trusted: an ASCII text comes back with its
/// capitals made small, and what any other text becomes depends on the text
/// alone.
#[verifier::external_body]
fn to_lowercase(s: &str) -> (r: String)
    ensures
        r@ == (if vstd::utf8::is_ascii_chars(s@) { ascii_lowered(s@) } else { wide_lowercase(s@) }),
{
    s.to_lowercase()
}

/// Calls the `Debug` format of `str`. Trusted: what comes back depends on the
/// text alone.
#[verifier::external_body]
pub(crate) fn debug_quoted(s: &str) -> (r: String)
    ensures
        r@ == debug_text(s@),
{
    format!("{:?}", s)
}

fn small_letter(c: char) -> (r: &'static str)
    requires
        'A' <= c <= 'Z',
    ensures
        r@ == seq![ascii_lower(c)],
{
    proof {
        reveal_strlit("abcdefghijklmnopqrstuvwxyz");
    }
    let letters = "abcdefghijklmnopqrstuvwxyz";
    let at: usize = (c as u32 - 65) as usize;
    let letter = letters.substring_char(at, at + 1);
    assert(letter@ =~= seq![ascii_lower(c)]);
    letter
}

/// A text with the ASCII capitals made small.
pub fn to_ascii_lowered(s: &str) -> (r: String)
    ensures
        r@ == ascii_lowered(s@),
{
    let chars = to_chars(s);
    let mut out = String::new();
    let mut i: usize = 0;
    assert(out@ =~= ascii_lowered(s@.take(0)));
    while i < chars.len()
        invariant
            i <= chars.len(),
            chars@ == s@,
            out@ == ascii_lowered(s@.take(i as int)),
        decreases chars.len() - i,
    {
        let c = chars[i];
        if 'A' <= c && c <= 'Z' {
            out.append(small_letter(c));
        } else {
            out.append(s.substring_char(i, i + 1));
        }
        assert(out@ =~= ascii_lowered(s@.take(i + 1)));
        i += 1;
    }
    assert(s@.take(i as int) =~= s@);
    out
}

/// Lowering the ASCII capitals twice is lowering them once, and keeps an ASCII
/// text one and any other none.
pub proof fn lemma_lowered_twice(s: Seq<char>)
    ensures
        ascii_lowered(ascii_lowered(s)) == ascii_lowered(s),
        vstd::utf8::is_ascii_chars(ascii_lowered(s)) == vstd::utf8::is_ascii_chars(s),
{
    let low = ascii_lowered(s);
    assert(ascii_lowered(low) =~= low);
    assert forall|i: int| 0 <= i < s.len() implies (low[i] <= '\u{7f}') == (#[trigger] s[i]
        <= '\u{7f}') by {}
    if vstd::utf8::is_ascii_chars(low) {
        assert forall|i: int| 0 <= i < s.len() implies '\0' <= #[trigger] s[i] <= '\u{7f}' by {
            assert(low[i] <= '\u{7f}');
        }
    }
}

/// A text in lower case.
pub fn lower(s: &str) -> (r: String)
    ensures
        r@ == lowercase(s@),
{
    proof {
        lemma_lowered_twice(s@);
    }
    to_lowercase(to_ascii_lowered(s).as_str())
}

/// A text with single spaces between its words and none around them.
pub fn space_out(s: &str) -> (r: String)
    ensures
        r@ == spaced(s@),
{
    let found = split_words(s);
    let mut parts: Vec<String> = Vec::new();
    let mut i: usize = 0;
    assert(parts.deep_view() =~= found.deep_view().take(0));
    while i < found.len()
        invariant
            i <= found.len(),
            parts.deep_view() == found.deep_view().take(i as int),
        decreases found.len() - i,
    {
        let ghost shown = parts.deep_view();
        parts.push(found[i].to_owned());
        assert(parts.deep_view() =~= shown.push(found@[i as int]@));
        assert(parts.deep_view() =~= found.deep_view().take(i + 1));
        i += 1;
    }
    assert(parts.deep_view() =~= found.deep_view());
    join(&parts, " ")
}

fn find_part(chars: &Vec<char>, part: &Vec<char>) -> (r: Option<usize>)
    ensures
        first_from(chars@, part@, 0) == (match r {
            Some(at) => Some(at as int),
            None => None,
        }),
        r matches Some(at) ==> found_at(chars@, part@, at as int),
{
    if part.len() > chars.len() {
        return None;
    }
    let mut at: usize = 0;
    while at <= chars.len() - part.len()
        invariant
            part.len() <= chars.len(),
            at <= chars.len() - part.len() + 1,
            first_from(chars@, part@, 0) == first_from(chars@, part@, at as int),
        decreases chars.len() - at,
    {
        let mut k: usize = 0;
        while k < part.len() && chars[at + k] == part[k]
            invariant
                part.len() <= chars.len(),
                at <= chars.len() - part.len(),
                k <= part.len(),
                forall|j: int| 0 <= j < k ==> chars@[at + j] == #[trigger] part@[j],
            decreases part.len() - k,
        {
            k += 1;
        }
        if k == part.len() {
            assert(chars@.subrange(at as int, at + part.len()) =~= part@);
            return Some(at);
        }
        assert(chars@.subrange(at as int, at + part.len())[k as int] == chars@[at + k]);
        if at == chars.len() {
            return None;
        }
        at += 1;
    }
    None
}

/// A text without a part.
pub fn without(text: String, part: &str) -> (r: String)
    ensures
        r@ == cut_out(text@, part@),
{
    let wanted = to_chars(part);
    if wanted.len() == 0 {
        proof {
            assert(text@.subrange(0, 0) =~= part@);
            assert(text@.take(0) + text@.skip(0) =~= text@);
        }
        return text;
    }
    let mut out = text;
    let mut chars = to_chars(out.as_str());
    loop
        invariant
            0 < wanted.len(),
            wanted@ == part@,
            chars@ == out@,
            cut_out(text@, part@) == cut_out(out@, part@),
        ensures
            out@ == cut_out(text@, part@),
        decreases chars.len(),
    {
        match find_part(&chars, &wanted) {
            None => {
                break;
            },
            Some(at) => {
                let end: usize = at + wanted.len();
                let mut rest = out.as_str().substring_char(0, at).to_owned();
                rest.append(out.as_str().substring_char(end, chars.len()));
                assert(rest@ =~= out@.take(at as int) + out@.skip(end as int));
                chars = to_chars(rest.as_str());
                out = rest;
            },
        }
    }
    out
}

/// Whether a character is a letter or a number.
pub fn letter_or_number(c: char) -> (r: bool)
    ensures
        r == alphanumeric(c),
{
    is_alphanumeric(c)
}

/// Whether a character belongs to a class.
pub fn belongs(class: Class, c: char) -> (r: bool)
    ensures
        r == in_class(class, c),
{
    match class {
        Class::WhiteSpace => is_white_space(c),
        Class::NotAlphanumeric => !is_alphanumeric(c),
        Class::NameSeparator => is_white_space(c) || c == ',',
        Class::Slash => c == '/',
        Class::LineFeed => c == '\n',
    }
}

/// The characters of a text, in order.
pub fn to_chars(s: &str) -> (r: Vec<char>)
    ensures
        r@ == s@,
{
    let mut out: Vec<char> = Vec::new();
    for c in it: s.chars()
        invariant
            out@ == it.seq().take(it.index() as int),
            it.seq() == s@,
    {
        out.push(c);
        assert(out@ == it.seq().take(it.index() as int + 1));
    }
    out
}

/// A character with an ASCII capital made small.
pub fn to_ascii_lower(c: char) -> (r: char)
    ensures
        r == ascii_lower(c),
{
    if 'A' <= c && c <= 'Z' {
        let code: u8 = c as u8;
        (code + 32) as char
    } else {
        c
    }
}

/// How many bytes a character takes.
pub fn width_of(c: char) -> (r: usize)
    ensures
        r == byte_width(c),
        1 <= r <= 4,
{
    if c <= '\u{7f}' {
        1
    } else if c <= '\u{7ff}' {
        2
    } else if c <= '\u{ffff}' {
        3
    } else {
        4
    }
}

/// How many bytes a text takes.
pub fn byte_length(s: &str) -> (r: usize)
    ensures
        r == vstd::utf8::encode_utf8(s@).len(),
{
    s.as_bytes().len()
}

/// Whether two texts are the same.
pub fn same_text(a: &str, b: &str) -> (r: bool)
    ensures
        r == (a@ == b@),
{
    let left = to_chars(a);
    let right = to_chars(b);
    if left.len() != right.len() {
        return false;
    }
    let mut i: usize = 0;
    while i < left.len()
        invariant
            left@ == a@,
            right@ == b@,
            left.len() == right.len(),
            i <= left.len(),
            forall|k: int| 0 <= k < i ==> left@[k] == right@[k],
        decreases left.len() - i,
    {
        if left[i] != right[i] {
            return false;
        }
        i += 1;
    }
    assert(a@ =~= b@);
    true
}

/// A text without the characters of a class at its end.
pub fn strip_end_of<'a>(s: &'a str, class: Class) -> (r: &'a str)
    ensures
        r@ == strip_end(s@, class),
{
    let chars = to_chars(s);
    let mut hi: usize = chars.len();
    assert(s@.take(hi as int) =~= s@);
    while hi > 0 && belongs(class, chars[hi - 1])
        invariant
            chars@ == s@,
            hi <= chars.len(),
            strip_end(s@, class) == strip_end(s@.take(hi as int), class),
        decreases hi,
    {
        assert(s@.take(hi as int).drop_last() =~= s@.take(hi - 1));
        hi -= 1;
    }
    assert(s@.take(hi as int) =~= s@.subrange(0, hi as int));
    s.substring_char(0, hi)
}

/// A text without the characters of a class at its front.
pub fn strip_start_of<'a>(s: &'a str, class: Class) -> (r: &'a str)
    ensures
        r@ == strip_start(s@, class),
{
    let chars = to_chars(s);
    let mut lo: usize = 0;
    assert(s@.skip(0) =~= s@);
    while lo < chars.len() && belongs(class, chars[lo])
        invariant
            chars@ == s@,
            lo <= chars.len(),
            strip_start(s@, class) == strip_start(s@.skip(lo as int), class),
        decreases chars.len() - lo,
    {
        assert(s@.skip(lo as int).drop_first() =~= s@.skip(lo + 1));
        lo += 1;
    }
    assert(s@.skip(lo as int) =~= s@.subrange(lo as int, s@.len() as int));
    s.substring_char(lo, chars.len())
}

/// A text without the characters of a class at either end.
pub fn strip_of<'a>(s: &'a str, class: Class) -> (r: &'a str)
    ensures
        r@ == strip(s@, class),
{
    strip_end_of(strip_start_of(s, class), class)
}

/// A text without white space at either end.
pub fn trim<'a>(s: &'a str) -> (r: &'a str)
    ensures
        r@ == trimmed(s@),
{
    strip_of(s, Class::WhiteSpace)
}

/// What lies between the characters of a class.
pub fn split<'a>(s: &'a str, class: Class) -> (r: Vec<&'a str>)
    ensures
        r.deep_view() == pieces(s@, class),
{
    let chars = to_chars(s);
    let mut out: Vec<&'a str> = Vec::new();
    let mut start: usize = 0;
    let mut i: usize = 0;
    assert(s@.subrange(0, 0) =~= Seq::<char>::empty());
    assert(pieces(s@.take(0), class) =~= out.deep_view().push(s@.subrange(0, 0)));
    while i < chars.len()
        invariant
            chars@ == s@,
            start <= i <= chars.len(),
            pieces(s@.take(i as int), class) == out.deep_view().push(
                s@.subrange(start as int, i as int),
            ),
        decreases chars.len() - i,
    {
        let ghost before = pieces(s@.take(i as int), class);
        assert(s@.take(i + 1).drop_last() =~= s@.take(i as int));
        if belongs(class, chars[i]) {
            let piece = s.substring_char(start, i);
            let ghost shown = out.deep_view();
            out.push(piece);
            assert(out.deep_view() =~= shown.push(piece@));
            start = i + 1;
            assert(s@.subrange(i + 1, i + 1) =~= Seq::empty());
        } else {
            assert(before.drop_last() =~= out.deep_view());
            assert(s@.subrange(start as int, i + 1) =~= s@.subrange(start as int, i as int).push(
                s@[i as int],
            ));
        }
        i += 1;
    }
    assert(s@.take(i as int) =~= s@);
    let piece = s.substring_char(start, i);
    let ghost shown = out.deep_view();
    out.push(piece);
    assert(out.deep_view() =~= shown.push(piece@));
    out
}

/// The words of a text.
pub fn split_words<'a>(s: &'a str) -> (r: Vec<&'a str>)
    ensures
        r.deep_view() == words(s@),
{
    let all = split(s, Class::WhiteSpace);
    let mut out: Vec<&'a str> = Vec::new();
    let mut i: usize = 0;
    assert(out.deep_view() =~= non_empty(all.deep_view().take(0)));
    while i < all.len()
        invariant
            i <= all.len(),
            all.deep_view() == pieces(s@, Class::WhiteSpace),
            out.deep_view() == non_empty(all.deep_view().take(i as int)),
        decreases all.len() - i,
    {
        assert(all.deep_view().take(i + 1).drop_last() =~= all.deep_view().take(i as int));
        let piece = all[i];
        if !piece.is_empty() {
            let ghost shown = out.deep_view();
            out.push(piece);
            assert(out.deep_view() =~= shown.push(piece@));
        }
        i += 1;
    }
    assert(all.deep_view().take(i as int) =~= all.deep_view());
    out
}

/// The texts of a list that are not empty, in order.
pub fn keep_non_empty(parts: Vec<String>) -> (r: Vec<String>)
    ensures
        r.deep_view() == non_empty(parts.deep_view()),
{
    let mut out: Vec<String> = Vec::new();
    let mut i: usize = 0;
    assert(out.deep_view() =~= non_empty(parts.deep_view().take(0)));
    while i < parts.len()
        invariant
            i <= parts.len(),
            out.deep_view() == non_empty(parts.deep_view().take(i as int)),
        decreases parts.len() - i,
    {
        assert(parts.deep_view().take(i + 1).drop_last() =~= parts.deep_view().take(i as int));
        if !parts[i].as_str().is_empty() {
            let ghost shown = out.deep_view();
            out.push(parts[i].clone());
            assert(out.deep_view() =~= shown.push(parts@[i as int]@));
        }
        i += 1;
    }
    assert(parts.deep_view().take(i as int) =~= parts.deep_view());
    out
}

/// The texts of a list, one after the other with a separator between.
pub fn join(parts: &Vec<String>, separator: &str) -> (r: String)
    ensures
        r@ == joined(parts.deep_view(), separator@),
{
    let mut out = String::new();
    let mut i: usize = 0;
    assert(out@ =~= joined(parts.deep_view().take(0), separator@));
    while i < parts.len()
        invariant
            i <= parts.len(),
            out@ == joined(parts.deep_view().take(i as int), separator@),
        decreases parts.len() - i,
    {
        assert(parts.deep_view().take(i + 1).drop_last() =~= parts.deep_view().take(i as int));
        if i > 0 {
            out.append(separator);
        }
        out.append(parts[i].as_str());
        assert(out@ =~= joined(parts.deep_view().take(i + 1), separator@));
        i += 1;
    }
    assert(parts.deep_view().take(i as int) =~= parts.deep_view());
    out
}

/// A text cut off after a number of characters.
pub fn take_chars(s: &str, count: usize) -> (r: String)
    ensures
        r@ == first_chars(s@, count as nat),
{
    let length = s.unicode_len();
    if length <= count {
        s.to_owned()
    } else {
        assert(s@.take(count as int) =~= s@.subrange(0, count as int));
        s.substring_char(0, count).to_owned()
    }
}

fn digit_text(d: u64) -> (r: &'static str)
    requires
        d < 10,
    ensures
        r@ == seq![digit(d as nat)],
{
    proof {
        reveal_strlit("0");
        reveal_strlit("1");
        reveal_strlit("2");
        reveal_strlit("3");
        reveal_strlit("4");
        reveal_strlit("5");
        reveal_strlit("6");
        reveal_strlit("7");
        reveal_strlit("8");
        reveal_strlit("9");
    }
    let text = if d == 0 {
        "0"
    } else if d == 1 {
        "1"
    } else if d == 2 {
        "2"
    } else if d == 3 {
        "3"
    } else if d == 4 {
        "4"
    } else if d == 5 {
        "5"
    } else if d == 6 {
        "6"
    } else if d == 7 {
        "7"
    } else if d == 8 {
        "8"
    } else {
        "9"
    };
    assert(text@ =~= seq![digit(d as nat)]);
    text
}

/// A number in decimal.
pub fn decimal_text(n: u64) -> (r: String)
    ensures
        r@ == decimal(n as nat),
    decreases n,
{
    if n < 10 {
        digit_text(n).to_owned()
    } else {
        let mut out = decimal_text(n / 10);
        out.append(digit_text(n % 10));
        assert(out@ =~= decimal((n / 10) as nat).push(digit((n % 10) as nat)));
        out
    }
}

} // verus!
