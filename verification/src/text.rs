//! Text as sequences of characters: trimming, words, lines, case, decimal and
//! UTF-16 renderings.
use vstd::prelude::*;
use vstd::string::StringExecFns;
use vstd::utf8::decode_utf8;
use vstd::utf8::is_ascii_chars;
use vstd::utf8::valid_utf8;

verus! {

/// The characters that Unicode gives the `White_Space` property.
pub open spec fn white_space(c: char) -> bool {
    let u = c as u32;
    ||| 0x9 <= u <= 0xd
    ||| u == 0x20
    ||| u == 0x85
    ||| u == 0xa0
    ||| u == 0x1680
    ||| 0x2000 <= u <= 0x200a
    ||| u == 0x2028
    ||| u == 0x2029
    ||| u == 0x202f
    ||| u == 0x205f
    ||| u == 0x3000
}

/// The ASCII letters and digits.
pub open spec fn ascii_alphanumeric(c: char) -> bool {
    ||| '0' <= c <= '9'
    ||| 'A' <= c <= 'Z'
    ||| 'a' <= c <= 'z'
}

/// The lower-case form of an ASCII letter; every other character stays.
pub open spec fn ascii_lower(c: char) -> char {
    if 'A' <= c <= 'Z' {
        ((c as u32) + 32) as char
    } else {
        c
    }
}

/// What `char::is_alphanumeric` says of a character outside ASCII.
pub uninterp spec fn unicode_alphanumeric(c: char) -> bool;

/// What `str::to_lowercase` makes of a text that is not all ASCII.
pub uninterp spec fn unicode_lowercase(s: Seq<char>) -> Seq<char>;

/// What `String::from_utf8_lossy` makes of bytes that are not UTF-8.
pub uninterp spec fn repaired_utf8(bytes: Seq<u8>) -> Seq<char>;

/// Whether a character is a letter or a digit.
pub open spec fn alphanumeric(c: char) -> bool {
    if (c as u32) < 128 {
        ascii_alphanumeric(c)
    } else {
        unicode_alphanumeric(c)
    }
}

/// A text in lower case.
pub open spec fn lowercase(s: Seq<char>) -> Seq<char> {
    if is_ascii_chars(s) {
        s.map_values(|c: char| ascii_lower(c))
    } else {
        unicode_lowercase(s)
    }
}

/// The text that bytes stand for: what they encode where they are UTF-8, and
/// otherwise what is left after repair.
pub open spec fn lossy_text(bytes: Seq<u8>) -> Seq<char> {
    if valid_utf8(bytes) {
        decode_utf8(bytes)
    } else {
        repaired_utf8(bytes)
    }
}

/// `char::is_whitespace`: whether the character has the `White_Space` property.
pub assume_specification[ char::is_whitespace ](c: char) -> (res: bool)
    ensures
        res == white_space(c),
;

/// `char::is_alphanumeric`: on ASCII exactly the letters and digits; elsewhere
/// the Unicode tables decide.
pub assume_specification[ char::is_alphanumeric ](c: char) -> (res: bool)
    ensures
        res == (if (c as u32) < 128 {
            ascii_alphanumeric(c)
        } else {
            unicode_alphanumeric(c)
        }),
;

/// `str::to_lowercase`: on ASCII text `A` to `Z` become `a` to `z`, character
/// by character; elsewhere the Unicode tables decide. That such a text is left
/// as it is by a second pass is not claimed.
pub assume_specification[ str::to_lowercase ](s: &str) -> (res: String)
    ensures
        res@ == (if is_ascii_chars(s@) {
            s@.map_values(|c: char| ascii_lower(c))
        } else {
            unicode_lowercase(s@)
        }),
;

/// `String::push`: appends one character.
pub assume_specification[ String::push ](s: &mut String, c: char)
    ensures
        final(s)@ == old(s)@.push(c),
;

/// `String::from_utf8_lossy`: UTF-8 is decoded as it is; anything else is
/// repaired with replacement characters.
#[verifier::external_body]
fn from_utf8_lossy(bytes: &[u8]) -> (res: String)
    ensures
        res@ == (if valid_utf8(bytes@) {
            decode_utf8(bytes@)
        } else {
            repaired_utf8(bytes@)
        }),
{
    String::from_utf8_lossy(bytes).into_owned()
}

/// The text that a program's output bytes stand for.
pub fn decode(bytes: &[u8]) -> (res: String)
    ensures
        res@ == lossy_text(bytes@),
{
    from_utf8_lossy(bytes)
}

/// The texts of a list of strings.
pub open spec fn texts(v: Seq<String>) -> Seq<Seq<char>> {
    v.map_values(|s: String| s@)
}

/// The characters of a string, in order.
fn chars_of(s: &str) -> (v: Vec<char>)
    ensures
        v@ == s@,
{
    let mut v: Vec<char> = Vec::new();
    for c in it: s.chars()
        invariant
            v@ == s@.take(it.index() as int),
            it.seq() == s@,
    {
        v.push(c);
    }
    v
}

/// The string of the characters from `from` up to but not including `to`.
fn string_of(v: &Vec<char>, from: usize, to: usize) -> (s: String)
    requires
        from <= to <= v.len(),
    ensures
        s@ == v@.subrange(from as int, to as int),
{
    let mut s = String::new();
    let mut i: usize = from;
    while i < to
        invariant
            from <= i <= to <= v.len(),
            s@ == v@.subrange(from as int, i as int),
        decreases to - i,
    {
        s.push(v[i]);
        i = i + 1;
    }
    s
}

/// What trimming takes off: white space, and full stops too where `dots` holds.
pub open spec fn filler(c: char, dots: bool) -> bool {
    white_space(c) || (dots && c == '.')
}

/// A text without the filler at its front.
pub open spec fn trim_front(s: Seq<char>, dots: bool) -> Seq<char>
    decreases s.len(),
{
    if s.len() > 0 && filler(s[0], dots) {
        trim_front(s.skip(1), dots)
    } else {
        s
    }
}

/// A text without the filler at its back.
pub open spec fn trim_back(s: Seq<char>, dots: bool) -> Seq<char>
    decreases s.len(),
{
    if s.len() > 0 && filler(s.last(), dots) {
        trim_back(s.drop_last(), dots)
    } else {
        s
    }
}

/// A text without the white space at its two ends.
pub open spec fn trimmed(s: Seq<char>) -> Seq<char> {
    trim_back(trim_front(s, false), false)
}

/// Where the first character that is not filler stands, from `from` on.
fn front_of(v: &Vec<char>, from: usize, dots: bool) -> (start: usize)
    requires
        from <= v.len(),
    ensures
        from <= start <= v.len(),
        v@.skip(start as int) == trim_front(v@.skip(from as int), dots),
{
    let mut start: usize = from;
    while start < v.len() && (v[start].is_whitespace() || (dots && v[start] == '.'))
        invariant
            from <= start <= v.len(),
            trim_front(v@.skip(start as int), dots) == trim_front(v@.skip(from as int), dots),
        decreases v.len() - start,
    {
        assert(v@.skip(start as int).skip(1) == v@.skip(start + 1));
        start = start + 1;
    }
    start
}

/// Where the filler at the back of the characters from `from` on starts.
fn back_of(v: &Vec<char>, from: usize, dots: bool) -> (end: usize)
    requires
        from <= v.len(),
    ensures
        from <= end <= v.len(),
        v@.subrange(from as int, end as int) == trim_back(v@.skip(from as int), dots),
{
    let mut end: usize = v.len();
    assert(v@.subrange(from as int, end as int) == v@.skip(from as int));
    while end > from && (v[end - 1].is_whitespace() || (dots && v[end - 1] == '.'))
        invariant
            from <= end <= v.len(),
            trim_back(v@.subrange(from as int, end as int), dots) == trim_back(
                v@.skip(from as int),
                dots,
            ),
        decreases end,
    {
        assert(v@.subrange(from as int, end as int).drop_last() == v@.subrange(
            from as int,
            end - 1,
        ));
        end = end - 1;
    }
    end
}

/// A text without the filler at its two ends.
pub fn trim_filler(s: &str, dots: bool) -> (res: String)
    ensures
        res@ == trim_back(trim_front(s@, dots), dots),
{
    let v = chars_of(s);
    assert(v@.skip(0) == s@);
    let start = front_of(&v, 0, dots);
    let end = back_of(&v, start, dots);
    string_of(&v, start, end)
}

/// A text without the white space at its two ends.
pub fn trim(s: &str) -> (res: String)
    ensures
        res@ == trimmed(s@),
{
    trim_filler(s, false)
}

/// A text without the white space at its front.
pub fn trim_start(s: &str) -> (res: String)
    ensures
        res@ == trim_front(s@, false),
{
    let v = chars_of(s);
    assert(v@.skip(0) == s@);
    let start = front_of(&v, 0, false);
    let len = v.len();
    assert(v@.subrange(start as int, len as int) == v@.skip(start as int));
    string_of(&v, start, len)
}

/// How far a text goes before its first white space.
pub open spec fn word_len(s: Seq<char>) -> nat
    decreases s.len(),
{
    if s.len() == 0 || white_space(s[0]) {
        0
    } else {
        1 + word_len(s.skip(1))
    }
}

/// The first word of a text: its first characters between white space, if it
/// has any.
pub open spec fn first_word_of(s: Seq<char>) -> Option<Seq<char>> {
    let t = trim_front(s, false);
    if t.len() == 0 {
        None
    } else {
        Some(t.take(word_len(t) as int))
    }
}

/// The first word of a text.
pub fn first_word(s: &str) -> (res: Option<String>)
    ensures
        match res {
            Some(w) => first_word_of(s@) == Some(w@),
            None => first_word_of(s@) is None,
        },
{
    let v = chars_of(s);
    assert(v@.skip(0) == s@);
    let start = front_of(&v, 0, false);
    let ghost t = v@.skip(start as int);
    if start == v.len() {
        return None;
    }
    let mut end: usize = start;
    while end < v.len() && !v[end].is_whitespace()
        invariant
            start <= end <= v.len(),
            t == v@.skip(start as int),
            word_len(t) == (end - start) + word_len(v@.skip(end as int)),
        decreases v.len() - end,
    {
        assert(v@.skip(end as int).skip(1) == v@.skip(end + 1));
        end = end + 1;
    }
    assert(v@.subrange(start as int, end as int) == t.take(word_len(t) as int));
    Some(string_of(&v, start, end))
}

/// Whether a text starts with another.
pub open spec fn has_prefix(s: Seq<char>, prefix: Seq<char>) -> bool {
    prefix.len() <= s.len() && s.take(prefix.len() as int) == prefix
}

/// What follows `prefix` in a text that starts with it.
pub fn strip_prefix(s: &str, prefix: &str) -> (res: Option<String>)
    ensures
        match res {
            Some(rest) => has_prefix(s@, prefix@) && rest@ == s@.skip(prefix@.len() as int),
            None => !has_prefix(s@, prefix@),
        },
{
    let v = chars_of(s);
    let p = chars_of(prefix);
    if p.len() > v.len() {
        return None;
    }
    let mut i: usize = 0;
    while i < p.len()
        invariant
            i <= p.len() <= v.len(),
            v@ == s@,
            p@ == prefix@,
            s@.take(i as int) == prefix@.take(i as int),
        decreases p.len() - i,
    {
        if v[i] != p[i] {
            assert(s@.take(p.len() as int)[i as int] != prefix@[i as int]);
            return None;
        }
        assert(s@.take(i + 1) == s@.take(i as int).push(s@[i as int]));
        assert(prefix@.take(i + 1) == prefix@.take(i as int).push(prefix@[i as int]));
        i = i + 1;
    }
    assert(prefix@.take(p.len() as int) == prefix@);
    let len = v.len();
    assert(v@.subrange(i as int, len as int) == s@.skip(i as int));
    Some(string_of(&v, i, len))
}

/// Where the first line of a text ends: at its first line feed, or with the text.
pub open spec fn line_end(s: Seq<char>) -> nat
    decreases s.len(),
{
    if s.len() == 0 || s[0] == '\n' {
        0
    } else {
        1 + line_end(s.skip(1))
    }
}

/// A line without the carriage return before its line feed.
pub open spec fn without_return(line: Seq<char>) -> Seq<char> {
    if line.len() > 0 && line.last() == '\r' {
        line.drop_last()
    } else {
        line
    }
}

/// The lines of a text. A line ends with a line feed, or a carriage return and
/// a line feed, which do not belong to it; the last line may go without.
pub open spec fn lines_of(s: Seq<char>) -> Seq<Seq<char>>
    decreases s.len(),
{
    if s.len() == 0 {
        Seq::empty()
    } else if line_end(s) >= s.len() {
        seq![s]
    } else {
        seq![without_return(s.take(line_end(s) as int))] + lines_of(
            s.skip(line_end(s) as int + 1),
        )
    }
}

/// The lines of a text.
pub fn lines(s: &str) -> (res: Vec<String>)
    ensures
        texts(res@) == lines_of(s@),
{
    let v = chars_of(s);
    let mut res: Vec<String> = Vec::new();
    let mut start: usize = 0;
    assert(v@.skip(0) == s@);
    assert(texts(res@) + lines_of(s@) == lines_of(s@));
    while start < v.len()
        invariant
            start <= v.len(),
            v@ == s@,
            texts(res@) + lines_of(v@.skip(start as int)) == lines_of(s@),
        decreases v.len() - start,
    {
        let ghost rest = v@.skip(start as int);
        let mut end: usize = start;
        while end < v.len() && v[end] != '\n'
            invariant
                start <= end <= v.len(),
                rest == v@.skip(start as int),
                line_end(rest) == (end - start) + line_end(v@.skip(end as int)),
            decreases v.len() - end,
        {
            assert(v@.skip(end as int).skip(1) == v@.skip(end + 1));
            end = end + 1;
        }
        let ghost before = texts(res@);
        if end == v.len() {
            assert(v@.subrange(start as int, end as int) == rest);
            let line = string_of(&v, start, end);
            res.push(line);
            assert(texts(res@) == before + seq![rest]);
            start = end;
            assert(v@.skip(start as int) == Seq::<char>::empty());
            assert(before + seq![rest] + Seq::<Seq<char>>::empty() == before + seq![rest]);
        } else {
            assert(v@.subrange(start as int, end as int) == rest.take(line_end(rest) as int));
            let stop = if end > start && v[end - 1] == '\r' {
                end - 1
            } else {
                end
            };
            assert(v@.subrange(start as int, stop as int) == without_return(
                rest.take(line_end(rest) as int),
            ));
            let line = string_of(&v, start, stop);
            res.push(line);
            assert(rest.skip(line_end(rest) as int + 1) == v@.skip(end + 1));
            let ghost tail = lines_of(v@.skip(end + 1));
            assert(texts(res@) == before.push(line@));
            assert(before + (seq![line@] + tail) == before.push(line@) + tail);
            start = end + 1;
        }
    }
    assert(v@.skip(start as int) == Seq::<char>::empty());
    assert(texts(res@) + Seq::<Seq<char>>::empty() == texts(res@));
    res
}

/// The character of a decimal digit.
pub open spec fn digit(d: nat) -> char {
    (('0' as u32) + d) as char
}

/// A number written in decimal.
pub open spec fn decimal_of(n: nat) -> Seq<char>
    decreases n,
{
    if n < 10 {
        seq![digit(n)]
    } else {
        decimal_of(n / 10).push(digit(n % 10))
    }
}

/// A number written in decimal, with a minus sign where it is negative.
pub open spec fn signed_decimal_of(n: int) -> Seq<char> {
    if n < 0 {
        seq!['-'] + decimal_of((-n) as nat)
    } else {
        decimal_of(n as nat)
    }
}

/// A number written in decimal.
pub fn decimal(n: u64) -> (s: String)
    ensures
        s@ == decimal_of(n as nat),
    decreases n,
{
    let d: u8 = (n % 10) as u8;
    let c = (48u8 + d) as char;
    if n < 10 {
        let mut s = String::new();
        s.push(c);
        s
    } else {
        let mut s = decimal(n / 10);
        s.push(c);
        s
    }
}

/// A number written in decimal, with a minus sign where it is negative.
pub fn signed_decimal(n: i64) -> (s: String)
    ensures
        s@ == signed_decimal_of(n as int),
{
    if n < 0 {
        let magnitude: u64 = (-(n as i128)) as u64;
        let digits = decimal(magnitude);
        proof {
            reveal_strlit("-");
            assert("-"@ =~= seq!['-']);
        }
        "-".to_owned().concat(digits.as_str())
    } else {
        decimal(n as u64)
    }
}

/// A number written in decimal consists of digits, of at least one.
pub proof fn lemma_decimal_is_digits(n: nat)
    ensures
        decimal_of(n).len() >= 1,
        forall|i: int| 0 <= i < decimal_of(n).len() ==> '0' <= #[trigger] decimal_of(n)[i] <= '9',
    decreases n,
{
    if n >= 10 {
        lemma_decimal_is_digits(n / 10);
    }
}

/// Different numbers are written differently.
pub proof fn lemma_decimal_is_injective(a: nat, b: nat)
    requires
        decimal_of(a) == decimal_of(b),
    ensures
        a == b,
    decreases a,
{
    lemma_decimal_is_digits(a / 10);
    lemma_decimal_is_digits(b / 10);
    assert(decimal_of(a).last() == digit(a % 10));
    assert(decimal_of(b).last() == digit(b % 10));
    if a >= 10 && b >= 10 {
        assert(decimal_of(a).drop_last() == decimal_of(a / 10));
        assert(decimal_of(b).drop_last() == decimal_of(b / 10));
        lemma_decimal_is_injective(a / 10, b / 10);
    }
}

/// Different numbers are written differently, negative ones too.
pub proof fn lemma_signed_decimal_is_injective(a: int, b: int)
    requires
        signed_decimal_of(a) == signed_decimal_of(b),
    ensures
        a == b,
{
    let x = if a < 0 {
        (-a) as nat
    } else {
        a as nat
    };
    let y = if b < 0 {
        (-b) as nat
    } else {
        b as nat
    };
    lemma_decimal_is_digits(x);
    lemma_decimal_is_digits(y);
    if a < 0 {
        assert(signed_decimal_of(a)[0] == '-');
        assert(signed_decimal_of(a).skip(1) == decimal_of(x));
    } else {
        assert(signed_decimal_of(a)[0] == decimal_of(x)[0]);
    }
    if b < 0 {
        assert(signed_decimal_of(b)[0] == '-');
        assert(signed_decimal_of(b).skip(1) == decimal_of(y));
    } else {
        assert(signed_decimal_of(b)[0] == decimal_of(y)[0]);
    }
    lemma_decimal_is_injective(x, y);
}

/// A number in decimal has no white space to trim.
pub proof fn lemma_signed_decimal_is_trimmed(n: int)
    ensures
        trimmed(signed_decimal_of(n)) == signed_decimal_of(n),
{
    let x = if n < 0 {
        (-n) as nat
    } else {
        n as nat
    };
    lemma_decimal_is_digits(x);
    let s = signed_decimal_of(n);
    assert(s.last() == decimal_of(x).last());
    assert(s[0] == '-' || s[0] == decimal_of(x)[0]);
    assert(decimal_of(x).last() == decimal_of(x)[decimal_of(x).len() - 1]);
}

/// The UTF-16 code units of a character.
pub open spec fn utf16_units(c: char) -> Seq<u16> {
    let u = c as u32;
    if u < 0x10000 {
        seq![u as u16]
    } else {
        seq![(0xd800 + (u - 0x10000) / 0x400) as u16, (0xdc00 + (u - 0x10000) % 0x400) as u16]
    }
}

/// A text in UTF-16.
pub open spec fn utf16_of(s: Seq<char>) -> Seq<u16>
    decreases s.len(),
{
    if s.len() == 0 {
        Seq::empty()
    } else {
        utf16_of(s.drop_last()) + utf16_units(s.last())
    }
}

/// A text in UTF-16 with a zero behind it, as the Win32 functions take it.
pub fn wide(s: &str) -> (units: Vec<u16>)
    ensures
        units@ == utf16_of(s@).push(0),
{
    let v = chars_of(s);
    let mut units: Vec<u16> = Vec::new();
    let mut i: usize = 0;
    while i < v.len()
        invariant
            i <= v.len(),
            v@ == s@,
            units@ == utf16_of(s@.take(i as int)),
        decreases v.len() - i,
    {
        let c = v[i];
        let u = c as u32;
        if u < 0x10000 {
            units.push(u as u16);
        } else {
            units.push((0xd800 + (u - 0x10000) / 0x400) as u16);
            units.push((0xdc00 + (u - 0x10000) % 0x400) as u16);
        }
        assert(s@.take(i + 1).drop_last() == s@.take(i as int));
        assert(units@ == utf16_of(s@.take(i as int)) + utf16_units(c));
        i = i + 1;
    }
    assert(s@.take(i as int) == s@);
    units.push(0);
    units
}

/// Whether a text is nothing but white space, and full stops where `dots` holds.
pub open spec fn blank(s: Seq<char>, dots: bool) -> bool {
    forall|i: int| 0 <= i < s.len() ==> white_space(#[trigger] s[i]) || (dots && s[i] == '.')
}

/// Whether a text starts with something to keep, if it holds anything.
pub open spec fn solid_front(s: Seq<char>, dots: bool) -> bool {
    s.len() > 0 ==> !white_space(s[0]) && !(dots && s[0] == '.')
}

/// Whether a text ends with something to keep, if it holds anything.
pub open spec fn solid_back(s: Seq<char>, dots: bool) -> bool {
    s.len() > 0 ==> !white_space(s.last()) && !(dots && s.last() == '.')
}

proof fn lemma_trim_front(a: Seq<char>, s: Seq<char>, dots: bool)
    requires
        blank(a, dots),
    ensures
        trim_front(a + s, dots) == trim_front(s, dots),
    decreases a.len(),
{
    if a.len() == 0 {
        assert(a + s == s);
    } else {
        assert((a + s)[0] == a[0]);
        assert((a + s).skip(1) == a.skip(1) + s);
        assert forall|i: int| 0 <= i < a.skip(1).len() implies white_space(
            #[trigger] a.skip(1)[i],
        ) || (dots && a.skip(1)[i] == '.') by {
            assert(a.skip(1)[i] == a[i + 1]);
        }
        lemma_trim_front(a.skip(1), s, dots);
    }
}

proof fn lemma_trim_back(s: Seq<char>, b: Seq<char>, dots: bool)
    requires
        blank(b, dots),
    ensures
        trim_back(s + b, dots) == trim_back(s, dots),
    decreases b.len(),
{
    if b.len() == 0 {
        assert(s + b == s);
    } else {
        assert((s + b).last() == b.last());
        assert((s + b).drop_last() == s + b.drop_last());
        lemma_trim_back(s, b.drop_last(), dots);
    }
}

/// Trimming the front takes all the filler there and nothing else.
pub proof fn law_front_is_trimmed(a: Seq<char>, s: Seq<char>, dots: bool)
    requires
        blank(a, dots),
        solid_front(s, dots),
    ensures
        trim_front(a + s, dots) == s,
{
    lemma_trim_front(a, s, dots);
}

/// Trimming takes all the filler at the two ends and nothing else: what stands
/// between them is left as it is, filler inside it too.
pub proof fn law_ends_are_trimmed(a: Seq<char>, s: Seq<char>, b: Seq<char>, dots: bool)
    requires
        blank(a, dots),
        blank(b, dots),
        solid_front(s, dots),
        solid_back(s, dots),
    ensures
        trim_back(trim_front(a + s + b, dots), dots) == s,
        !dots ==> trimmed(a + s + b) == s,
{
    assert(a + s + b == a + (s + b));
    lemma_trim_front(a, s + b, dots);
    if s.len() == 0 {
        assert(s + b == b + s);
        lemma_trim_front(b, s, dots);
    } else {
        assert((s + b)[0] == s[0]);
        lemma_trim_back(s, b, dots);
    }
}

proof fn lemma_word_len(w: Seq<char>, rest: Seq<char>)
    requires
        forall|i: int| 0 <= i < w.len() ==> !white_space(#[trigger] w[i]),
        rest.len() > 0 ==> white_space(rest[0]),
    ensures
        word_len(w + rest) == w.len(),
    decreases w.len(),
{
    if w.len() == 0 {
        assert(w + rest == rest);
    } else {
        assert((w + rest)[0] == w[0]);
        assert((w + rest).skip(1) == w.skip(1) + rest);
        assert forall|i: int| 0 <= i < w.skip(1).len() implies !white_space(
            #[trigger] w.skip(1)[i],
        ) by {
            assert(w.skip(1)[i] == w[i + 1]);
        }
        lemma_word_len(w.skip(1), rest);
    }
}

/// The first word is what stands between the white space at the front and the
/// next white space, or the end.
pub proof fn law_first_word_is_found(a: Seq<char>, w: Seq<char>, rest: Seq<char>)
    requires
        blank(a, false),
        w.len() > 0,
        forall|i: int| 0 <= i < w.len() ==> !white_space(#[trigger] w[i]),
        rest.len() > 0 ==> white_space(rest[0]),
    ensures
        first_word_of(a + w + rest) == Some(w),
{
    assert(a + w + rest == a + (w + rest));
    assert((w + rest)[0] == w[0]);
    law_front_is_trimmed(a, w + rest, false);
    lemma_word_len(w, rest);
    assert((w + rest).take(w.len() as int) == w);
}

/// A text of white space has no first word.
pub proof fn law_blank_text_has_no_word(s: Seq<char>)
    requires
        blank(s, false),
    ensures
        first_word_of(s) is None,
{
    assert(s + Seq::<char>::empty() == s);
    law_front_is_trimmed(s, Seq::empty(), false);
}

/// A text starts with a prefix where it is the prefix with something behind it,
/// which is what is left when the prefix is taken off.
pub proof fn law_prefix_and_rest_make_the_text(s: Seq<char>, prefix: Seq<char>, rest: Seq<char>)
    ensures
        has_prefix(prefix + rest, prefix),
        (prefix + rest).skip(prefix.len() as int) == rest,
        has_prefix(s, prefix) ==> prefix + s.skip(prefix.len() as int) == s,
{
    assert((prefix + rest).take(prefix.len() as int) == prefix);
    if has_prefix(s, prefix) {
        assert(s == s.take(prefix.len() as int) + s.skip(prefix.len() as int));
    }
}

proof fn lemma_line_end(l: Seq<char>, rest: Seq<char>)
    requires
        forall|i: int| 0 <= i < l.len() ==> #[trigger] l[i] != '\n',
    ensures
        line_end(l + rest) == l.len() + line_end(rest),
    decreases l.len(),
{
    if l.len() == 0 {
        assert(l + rest == rest);
    } else {
        assert((l + rest)[0] == l[0]);
        assert((l + rest).skip(1) == l.skip(1) + rest);
        assert forall|i: int| 0 <= i < l.skip(1).len() implies #[trigger] l.skip(1)[i] != '\n' by {
            assert(l.skip(1)[i] == l[i + 1]);
        }
        lemma_line_end(l.skip(1), rest);
    }
}

/// A text without a line feed is one line, or none where it is empty.
pub proof fn law_text_without_line_feed_is_one_line(l: Seq<char>)
    requires
        forall|i: int| 0 <= i < l.len() ==> #[trigger] l[i] != '\n',
    ensures
        lines_of(l) == (if l.len() == 0 {
            Seq::<Seq<char>>::empty()
        } else {
            seq![l]
        }),
{
    lemma_line_end(l, Seq::empty());
    assert(l + Seq::<char>::empty() == l);
}

/// What stands before a line feed is a line, whatever follows; a carriage
/// return before the line feed does not belong to it.
pub proof fn law_line_feed_ends_a_line(l: Seq<char>, rest: Seq<char>)
    requires
        forall|i: int| 0 <= i < l.len() ==> #[trigger] l[i] != '\n',
    ensures
        l.len() == 0 || l.last() != '\r' ==> lines_of(l + seq!['\n'] + rest) == seq![l] + lines_of(
            rest,
        ),
        lines_of(l + seq!['\r', '\n'] + rest) == seq![l] + lines_of(rest),
{
    let s = l + seq!['\n'] + rest;
    assert(s == l + (seq!['\n'] + rest));
    lemma_line_end(l, seq!['\n'] + rest);
    assert((seq!['\n'] + rest)[0] == '\n');
    assert(s.take(l.len() as int) == l);
    assert(s.skip(l.len() as int + 1) == rest);
    let r = l + seq!['\r'];
    let t = l + seq!['\r', '\n'] + rest;
    assert(t == r + (seq!['\n'] + rest));
    assert forall|i: int| 0 <= i < r.len() implies #[trigger] r[i] != '\n' by {
        if i < l.len() {
            assert(r[i] == l[i]);
        }
    }
    lemma_line_end(r, seq!['\n'] + rest);
    assert(t.take(r.len() as int) == r);
    assert(r.drop_last() == l);
    assert(t.skip(r.len() as int + 1) == rest);
}

/// The number that decimal digits stand for.
pub open spec fn value_of(digits: Seq<char>) -> int
    decreases digits.len(),
{
    if digits.len() == 0 {
        0
    } else {
        10 * value_of(digits.drop_last()) + (digits.last() as u32 - '0' as u32)
    }
}

/// A number in decimal, read again, is the number; it is written in digits, and
/// starts with a zero only where it is zero. A negative number is a minus sign
/// and its magnitude.
pub proof fn law_decimal_reads_back(n: nat)
    ensures
        value_of(decimal_of(n)) == n,
        decimal_of(n).len() >= 1,
        forall|i: int| 0 <= i < decimal_of(n).len() ==> '0' <= #[trigger] decimal_of(n)[i] <= '9',
        decimal_of(n)[0] == '0' <==> n == 0,
        signed_decimal_of(n as int) == decimal_of(n),
        n > 0 ==> signed_decimal_of(-n) == seq!['-'] + decimal_of(n),
    decreases n,
{
    lemma_decimal_is_digits(n);
    reveal_with_fuel(value_of, 2);
    if n < 10 {
        assert(decimal_of(n).drop_last() == Seq::<char>::empty());
    } else {
        law_decimal_reads_back(n / 10);
        assert(decimal_of(n).drop_last() == decimal_of(n / 10));
        assert(decimal_of(n)[0] == decimal_of(n / 10)[0]);
    }
}

/// A character in UTF-16 is itself where it fits one unit, and else a high and
/// a low surrogate that give the character back.
pub proof fn law_utf16_units_give_the_character_back(c: char)
    ensures
        (c as u32) < 0x10000 ==> utf16_units(c).len() == 1 && utf16_units(c)[0] == c as u32,
        (c as u32) >= 0x10000 ==> {
            let units = utf16_units(c);
            &&& units.len() == 2
            &&& 0xd800 <= units[0] < 0xdc00
            &&& 0xdc00 <= units[1] < 0xe000
            &&& 0x10000 + (units[0] - 0xd800) * 0x400 + (units[1] - 0xdc00) == c as u32
        },
{
}

/// A text in UTF-16 is its characters in UTF-16, one behind the other.
pub proof fn law_utf16_goes_by_characters(a: Seq<char>, b: Seq<char>, c: char)
    ensures
        utf16_of(a + b) == utf16_of(a) + utf16_of(b),
        utf16_of(seq![c]) == utf16_units(c),
        utf16_of(Seq::empty()) == Seq::<u16>::empty(),
    decreases b.len(),
{
    reveal_with_fuel(utf16_of, 2);
    assert(seq![c].drop_last() == Seq::<char>::empty());
    assert(Seq::<u16>::empty() + utf16_units(c) == utf16_units(c));
    if b.len() == 0 {
        assert(a + b == a);
        assert(utf16_of(a) + Seq::<u16>::empty() == utf16_of(a));
    } else {
        law_utf16_goes_by_characters(a, b.drop_last(), c);
        assert((a + b).drop_last() == a + b.drop_last());
        assert((a + b).last() == b.last());
        assert(utf16_of(a) + utf16_of(b.drop_last()) + utf16_units(b.last()) == utf16_of(a) + (
        utf16_of(b.drop_last()) + utf16_units(b.last())));
    }
}

/// Bytes that are UTF-8 stand for exactly what they encode.
pub proof fn law_utf8_is_decoded_as_it_is(bytes: Seq<u8>)
    ensures
        valid_utf8(bytes) ==> lossy_text(bytes) == decode_utf8(bytes),
        !valid_utf8(bytes) ==> lossy_text(bytes) == repaired_utf8(bytes),
{
}

/// The texts of a list of strings are those of its strings, in order.
pub proof fn law_texts_are_in_order(v: Seq<String>, i: int)
    ensures
        texts(v).len() == v.len(),
        0 <= i < v.len() ==> texts(v)[i] == v[i]@,
{
}

} // verus!
