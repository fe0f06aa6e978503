use vstd::prelude::*;

use crate::geometry::fits_i32;

verus! {

broadcast use vstd::string::group_string_axioms;

// ---------------------------------------------------------------------------
// Characters and strings
// ---------------------------------------------------------------------------

/// Appends one character to a string (`String::push`).
#[verifier::external_body]
fn string_push(s: &mut String, c: char)
    ensures
        final(s)@ == old(s)@.push(c),
{
    s.push(c);
}

/// The characters of a string.
pub fn collect_chars(s: &str) -> (v: Vec<char>)
    ensures
        v@ == s@,
{
    let len = s.unicode_len();
    let mut v: Vec<char> = Vec::new();
    for c in it: s.chars()
        invariant
            it.seq() == s@,
            len == s@.len(),
            v@ == it.seq().take(it.index() as int),
    {
        v.push(c);
    }
    assert(s@.take(s@.len() as int) =~= s@);
    v
}

/// The string made of the given characters.
pub fn string_from_chars(v: &[char]) -> (s: String)
    ensures
        s@ == v@,
{
    let mut s = String::new();
    let mut i: usize = 0;
    while i < v.len()
        invariant
            0 <= i <= v@.len(),
            s@ == v@.take(i as int),
        decreases v@.len() - i,
    {
        string_push(&mut s, v[i]);
        assert(v@.take(i + 1) =~= v@.take(i as int).push(v@[i as int]));
        i = i + 1;
    }
    assert(v@.take(v@.len() as int) =~= v@);
    s
}

/// Whether a character is ASCII.
pub open spec fn is_ascii_char(c: char) -> bool {
    (c as u32) < 128
}

/// The ASCII characters of `s` in order, at most `max_len` of them.
pub open spec fn ascii_prefix(s: Seq<char>, max_len: int) -> Seq<char> {
    let a = s.filter(|c: char| is_ascii_char(c));
    if a.len() <= max_len {
        a
    } else {
        a.take(max_len)
    }
}

/// The ASCII characters of `s` in order, at most `max_len` of them.
pub fn ascii_prefix_of(s: &[char], max_len: usize) -> (r: Vec<char>)
    ensures
        r@ == ascii_prefix(s@, max_len as int),
{
    let ghost pred = |c: char| is_ascii_char(c);
    let mut r: Vec<char> = Vec::new();
    let mut i: usize = 0;
    assert(s@.take(0).filter(pred) =~= Seq::<char>::empty()) by {
        reveal(Seq::filter);
    }
    while i < s.len()
        invariant
            0 <= i <= s@.len(),
            pred == (|c: char| is_ascii_char(c)),
            r@ == ascii_prefix(s@.take(i as int), max_len as int),
        decreases s@.len() - i,
    {
        let c = s[i];
        proof {
            assert(s@.take(i + 1) =~= s@.take(i as int).push(c));
            s@.take(i as int).lemma_filter_push(c, pred);
        }
        if (c as u32) < 128 && r.len() < max_len {
            r.push(c);
        }
        proof {
            let before = s@.take(i as int).filter(pred);
            let after = s@.take(i + 1).filter(pred);
            if is_ascii_char(c) {
                assert(after == before.push(c));
                if before.len() >= max_len {
                    assert(after.take(max_len as int) =~= before.take(max_len as int));
                }
            }
        }
        i = i + 1;
    }
    assert(s@.take(s@.len() as int) =~= s@);
    r
}

/// A SAUCE text field as the user typed it, reduced to ASCII characters
/// and cut to the field's length.
pub fn sanitize_sauce_field(text: &str, max_len: usize) -> (r: String)
    ensures
        r@ == ascii_prefix(text@, max_len as int),
{
    let chars = collect_chars(text);
    let kept = ascii_prefix_of(chars.as_slice(), max_len);
    string_from_chars(kept.as_slice())
}

/// The number of bytes a character takes in UTF-8.
pub open spec fn utf8_len(c: char) -> int {
    if (c as u32) < 0x80 {
        1
    } else if (c as u32) < 0x800 {
        2
    } else if (c as u32) < 0x10000 {
        3
    } else {
        4
    }
}

/// The number of bytes a character sequence takes in UTF-8.
pub open spec fn utf8_len_of(s: Seq<char>) -> int
    decreases s.len(),
{
    if s.len() == 0 {
        0
    } else {
        utf8_len_of(s.drop_last()) + utf8_len(s.last())
    }
}

/// Whether a character is white space (the Unicode White_Space property).
pub open spec fn is_white_space(c: char) -> bool {
    let u = c as u32;
    ||| 0x9 <= u <= 0xD
    ||| u == 0x20
    ||| u == 0x85
    ||| u == 0xA0
    ||| u == 0x1680
    ||| 0x2000 <= u <= 0x200A
    ||| u == 0x2028
    ||| u == 0x2029
    ||| u == 0x202F
    ||| u == 0x205F
    ||| u == 0x3000
}

/// Whether a character is white space.
pub fn char_is_white_space(c: char) -> (r: bool)
    ensures
        r == is_white_space(c),
{
    let u = c as u32;
    (0x9 <= u && u <= 0xD) || u == 0x20 || u == 0x85 || u == 0xA0 || u == 0x1680 || (0x2000 <= u && u <= 0x200A)
        || u == 0x2028 || u == 0x2029 || u == 0x202F || u == 0x205F || u == 0x3000
}

/// Whether a string is empty once white space is trimmed from both ends,
/// that is, whether it holds nothing but white space.
pub fn is_blank(s: &str) -> (r: bool)
    ensures
        r == forall|i: int| 0 <= i < s@.len() ==> is_white_space(#[trigger] s@[i]),
{
    let chars = collect_chars(s);
    let mut i: usize = 0;
    while i < chars.len()
        invariant
            chars@ == s@,
            0 <= i <= chars@.len(),
            forall|j: int| 0 <= j < i ==> is_white_space(#[trigger] s@[j]),
        decreases chars@.len() - i,
    {
        if !char_is_white_space(chars[i]) {
            return false;
        }
        i = i + 1;
    }
    true
}

/// Whether `needle` occurs in `hay` at position `at`.
pub open spec fn occurs_at(hay: Seq<char>, needle: Seq<char>, at: int) -> bool {
    0 <= at && at + needle.len() <= hay.len() && hay.subrange(at, at + needle.len()) == needle
}

/// Whether `needle` occurs somewhere in `hay`.
pub open spec fn contains_seq(hay: Seq<char>, needle: Seq<char>) -> bool {
    exists|at: int| occurs_at(hay, needle, at)
}

/// Whether `needle` occurs in `hay` as a run of consecutive characters.
pub fn contains_chars(hay: &[char], needle: &[char]) -> (r: bool)
    ensures
        r == contains_seq(hay@, needle@),
{
    if needle.len() > hay.len() {
        return false;
    }
    let hay_len = hay.len();
    let last = hay_len - needle.len();
    let mut at: usize = 0;
    while at <= last
        invariant
            hay_len == hay@.len(),
            last == hay@.len() - needle@.len(),
            0 <= at <= last,
            forall|k: int| 0 <= k < at ==> !occurs_at(hay@, needle@, k),
        decreases last + 1 - at,
    {
        let mut j: usize = 0;
        let mut same = true;
        while j < needle.len()
            invariant
                hay_len == hay@.len(),
                last == hay@.len() - needle@.len(),
                0 <= at <= last,
                0 <= j <= needle@.len(),
                same == forall|m: int| 0 <= m < j ==> hay@[at + m] == needle@[m],
            decreases needle@.len() - j,
        {
            if hay[at + j] != needle[j] {
                same = false;
            }
            j = j + 1;
        }
        if same {
            assert(hay@.subrange(at as int, at + needle@.len()) =~= needle@);
            assert(occurs_at(hay@, needle@, at as int));
            return true;
        }
        proof {
            assert forall|k: int| 0 <= k < at + 1 implies !occurs_at(hay@, needle@, k) by {
                if k == at {
                    let m = choose|m: int| 0 <= m < needle@.len() && hay@[at + m] != needle@[m];
                    if occurs_at(hay@, needle@, k) {
                        assert(hay@.subrange(at as int, at + needle@.len())[m] == hay@[at + m]);
                    }
                }
            }
        }
        if at == last {
            return false;
        }
        at = at + 1;
    }
    false
}

// ---------------------------------------------------------------------------
// Decimal numbers
// ---------------------------------------------------------------------------

/// Whether a character is a decimal digit.
pub open spec fn is_digit(c: char) -> bool {
    '0' <= c <= '9'
}

/// The value of a decimal digit.
pub open spec fn digit_value(c: char) -> int {
    c as int - '0' as int
}

/// Whether every character is a decimal digit.
pub open spec fn all_digits(d: Seq<char>) -> bool {
    forall|i: int| 0 <= i < d.len() ==> is_digit(#[trigger] d[i])
}

/// The value of a run of decimal digits (most significant first).
pub open spec fn digits_value(d: Seq<char>) -> int
    decreases d.len(),
{
    if d.len() == 0 {
        0
    } else {
        digits_value(d.drop_last()) * 10 + digit_value(d.last())
    }
}

/// The `i32` a decimal text denotes, as Rust reads one: an optional `+` or
/// `-`, then one or more digits, the value in range; `None` for anything else.
pub open spec fn spec_parse_i32(s: Seq<char>) -> Option<i32> {
    if s.len() == 0 {
        None
    } else {
        let signed = s[0] == '-' || s[0] == '+';
        let digits = if signed {
            s.drop_first()
        } else {
            s
        };
        let v = if s[0] == '-' {
            -digits_value(digits)
        } else {
            digits_value(digits)
        };
        if digits.len() == 0 || !all_digits(digits) || !fits_i32(v) {
            None
        } else {
            Some(v as i32)
        }
    }
}

proof fn lemma_digits_value_nonneg(d: Seq<char>)
    requires
        all_digits(d),
    ensures
        digits_value(d) >= 0,
    decreases d.len(),
{
    if d.len() > 0 {
        assert(all_digits(d.drop_last())) by {
            assert forall|i: int| 0 <= i < d.drop_last().len() implies is_digit(#[trigger] d.drop_last()[i]) by {
                assert(d.drop_last()[i] == d[i]);
            }
        }
        lemma_digits_value_nonneg(d.drop_last());
        assert(is_digit(d[d.len() - 1]));
    }
}

/// Parse a decimal `i32` the way Rust's `str::parse::<i32>` does.
pub fn parse_i32(text: &str) -> (r: Option<i32>)
    ensures
        r == spec_parse_i32(text@),
{
    let s = collect_chars(text);
    if s.len() == 0 {
        return None;
    }
    let neg = s[0] == '-';
    let start: usize = if s[0] == '-' || s[0] == '+' {
        1
    } else {
        0
    };
    if start == s.len() {
        return None;
    }
    let ghost digits = s@.subrange(start as int, s@.len() as int);
    assert(digits =~= (if start == 1 {
        s@.drop_first()
    } else {
        s@
    }));
    let mut acc: i64 = 0;
    let mut big = false;
    let mut i = start;
    assert(s@.subrange(start as int, i as int) =~= Seq::<char>::empty());
    while i < s.len()
        invariant
            s@ == text@,
            start <= i <= s@.len(),
            start == 0 || start == 1,
            s@.len() > 0,
            (start == 1) == (s@[0] == '-' || s@[0] == '+'),
            digits == s@.subrange(start as int, s@.len() as int),
            all_digits(s@.subrange(start as int, i as int)),
            !big ==> acc == digits_value(s@.subrange(start as int, i as int)) && 0 <= acc <= 2147483648,
            big ==> digits_value(s@.subrange(start as int, i as int)) > 2147483648,
        decreases s@.len() - i,
    {
        let c = s[i];
        if !('0' <= c && c <= '9') {
            proof {
                assert(digits[i - start] == c);
                assert(!all_digits(digits));
            }
            return None;
        }
        let ghost prev = s@.subrange(start as int, i as int);
        let ghost next = s@.subrange(start as int, i + 1);
        assert(next.drop_last() =~= prev);
        assert(all_digits(next)) by {
            assert forall|j: int| 0 <= j < next.len() implies is_digit(#[trigger] next[j]) by {
                if j < prev.len() {
                    assert(next[j] == prev[j]);
                }
            }
        }
        proof {
            lemma_digits_value_nonneg(prev);
        }
        if !big {
            let d = (c as u32 - '0' as u32) as i64;
            acc = acc * 10 + d;
            if acc > 2147483648 {
                big = true;
            }
        }
        i = i + 1;
    }
    proof {
        assert(s@.subrange(start as int, s@.len() as int) == digits);
    }
    if big {
        return None;
    }
    let v: i64 = if neg {
        -acc
    } else {
        acc
    };
    if v < -2147483648 || v > 2147483647 {
        return None;
    }
    Some(v as i32)
}

/// The decimal digits of a natural number, without leading zeros.
pub open spec fn digits_of(v: nat) -> Seq<char>
    decreases v,
{
    if v < 10 {
        seq![digit_char(v)]
    } else {
        digits_of(v / 10).push(digit_char(v % 10))
    }
}

/// The digit character for a value below ten.
pub open spec fn digit_char(v: nat) -> char {
    if v == 0 {
        '0'
    } else if v == 1 {
        '1'
    } else if v == 2 {
        '2'
    } else if v == 3 {
        '3'
    } else if v == 4 {
        '4'
    } else if v == 5 {
        '5'
    } else if v == 6 {
        '6'
    } else if v == 7 {
        '7'
    } else if v == 8 {
        '8'
    } else {
        '9'
    }
}

/// The decimal text of an `i32`: a `-` for negative numbers, then the digits.
pub open spec fn spec_format_i32(n: i32) -> Seq<char> {
    if n < 0 {
        seq!['-'] + digits_of((-n) as nat)
    } else {
        digits_of(n as nat)
    }
}

fn digit_to_char(d: u32) -> (c: char)
    requires
        d < 10,
    ensures
        c == digit_char(d as nat),
{
    if d == 0 {
        '0'
    } else if d == 1 {
        '1'
    } else if d == 2 {
        '2'
    } else if d == 3 {
        '3'
    } else if d == 4 {
        '4'
    } else if d == 5 {
        '5'
    } else if d == 6 {
        '6'
    } else if d == 7 {
        '7'
    } else if d == 8 {
        '8'
    } else {
        '9'
    }
}

fn push_digits(s: &mut String, v: u32)
    ensures
        final(s)@ == old(s)@ + digits_of(v as nat),
    decreases v,
{
    if v >= 10 {
        push_digits(s, v / 10);
    }
    string_push(s, digit_to_char(v % 10));
    proof {
        if v >= 10 {
            assert(final(s)@ =~= old(s)@ + digits_of(v as nat));
        } else {
            assert(final(s)@ =~= old(s)@ + digits_of(v as nat));
        }
    }
}

/// Format an `i32` in decimal, as `to_string` does.
pub fn format_i32(n: i32) -> (r: String)
    ensures
        r@ == spec_format_i32(n),
{
    let mut s = String::new();
    if n < 0 {
        string_push(&mut s, '-');
        let mag: u32 = (0i64 - n as i64) as u32;
        push_digits(&mut s, mag);
        assert(s@ =~= seq!['-'] + digits_of((-n) as nat));
    } else {
        push_digits(&mut s, n as u32);
        assert(s@ =~= digits_of(n as nat));
    }
    s
}

proof fn lemma_digit_char(v: nat)
    requires
        v < 10,
    ensures
        is_digit(digit_char(v)),
        digit_value(digit_char(v)) == v,
        digit_char(v) != '-' && digit_char(v) != '+',
{
}

proof fn lemma_digits_of(v: nat)
    ensures
        digits_of(v).len() >= 1,
        all_digits(digits_of(v)),
        digits_value(digits_of(v)) == v,
        digits_of(v)[0] != '-' && digits_of(v)[0] != '+',
    decreases v,
{
    lemma_digit_char(v % 10);
    if v >= 10 {
        lemma_digits_of(v / 10);
        let d = digits_of(v);
        assert(d.drop_last() =~= digits_of(v / 10));
        assert(d.last() == digit_char(v % 10));
        assert(v == (v / 10) * 10 + v % 10);
        assert(digits_value(d) == digits_value(digits_of(v / 10)) * 10 + (v % 10));
        assert(all_digits(d)) by {
            assert forall|i: int| 0 <= i < d.len() implies is_digit(#[trigger] d[i]) by {
                if i < d.len() - 1 {
                    assert(d[i] == digits_of(v / 10)[i]);
                }
            }
        }
        assert(d[0] == digits_of(v / 10)[0]);
    } else {
        lemma_digit_char(v);
        assert(digits_of(v) =~= seq![digit_char(v)]);
        assert(digits_of(v).drop_last() =~= Seq::<char>::empty());
        assert(digits_value(Seq::<char>::empty()) == 0);
        assert(digits_of(v).last() == digit_char(v));
        assert(digits_value(digits_of(v)) == digits_value(digits_of(v).drop_last()) * 10 + digit_value(digits_of(v).last()));
    }
}

/// Reading back what `format_i32` writes gives the number again.
pub proof fn lemma_parse_format_i32(n: i32)
    ensures
        spec_parse_i32(spec_format_i32(n)) == Some(n),
{
    let s = spec_format_i32(n);
    if n < 0 {
        let m = (-n) as nat;
        lemma_digits_of(m);
        assert(s.drop_first() =~= digits_of(m));
    } else {
        lemma_digits_of(n as nat);
    }
}

// ---------------------------------------------------------------------------
// Lines
// ---------------------------------------------------------------------------

/// A line without the carriage return that ended it, if one did.
pub open spec fn strip_cr(line: Seq<char>) -> Seq<char> {
    if line.len() > 0 && line.last() == '\r' {
        line.drop_last()
    } else {
        line
    }
}

/// Reading `s` from the front: the lines finished by a newline so far, and
/// the characters of the line not yet finished.
pub open spec fn line_state(s: Seq<char>) -> (Seq<Seq<char>>, Seq<char>)
    decreases s.len(),
{
    if s.len() == 0 {
        (Seq::empty(), Seq::empty())
    } else {
        let (done, cur) = line_state(s.drop_last());
        if s.last() == '\n' {
            (done.push(strip_cr(cur)), Seq::empty())
        } else {
            (done, cur.push(s.last()))
        }
    }
}

/// The lines of a text as `str::lines` yields them: split at `\n` or
/// `\r\n`, the terminators dropped; a final line terminator is optional,
/// and a text without characters has no lines.
pub open spec fn spec_lines(s: Seq<char>) -> Seq<Seq<char>> {
    let (done, cur) = line_state(s);
    if cur.len() > 0 {
        done.push(cur)
    } else {
        done
    }
}

/// The lines of a text, as `str::lines` yields them.
pub fn text_lines(s: &[char]) -> (lines: Vec<Vec<char>>)
    ensures
        lines@.len() == spec_lines(s@).len(),
        forall|i: int| 0 <= i < lines@.len() ==> #[trigger] lines@[i]@ == spec_lines(s@)[i],
{
    let mut done: Vec<Vec<char>> = Vec::new();
    let mut cur: Vec<char> = Vec::new();
    let mut i: usize = 0;
    assert(s@.take(0) =~= Seq::<char>::empty());
    while i < s.len()
        invariant
            0 <= i <= s@.len(),
            done@.len() == line_state(s@.take(i as int)).0.len(),
            forall|k: int| 0 <= k < done@.len() ==> #[trigger] done@[k]@ == line_state(s@.take(i as int)).0[k],
            cur@ == line_state(s@.take(i as int)).1,
        decreases s@.len() - i,
    {
        let c = s[i];
        assert(s@.take(i + 1).drop_last() =~= s@.take(i as int));
        if c == '\n' {
            if cur.len() > 0 && cur[cur.len() - 1] == '\r' {
                cur.pop();
            }
            let line = cur;
            done.push(line);
            cur = Vec::new();
        } else {
            cur.push(c);
        }
        i = i + 1;
    }
    assert(s@.take(s@.len() as int) =~= s@);
    if cur.len() > 0 {
        done.push(cur);
    }
    done
}

/// The text made of `lines`, joined by `\n`.
pub open spec fn join_lines(lines: Seq<Seq<char>>) -> Seq<char>
    decreases lines.len(),
{
    if lines.len() == 0 {
        Seq::empty()
    } else if lines.len() == 1 {
        lines[0]
    } else {
        join_lines(lines.drop_last()) + seq!['\n'] + lines.last()
    }
}

/// Whether a text holds no newline.
pub open spec fn no_newline(s: Seq<char>) -> bool {
    forall|i: int| 0 <= i < s.len() ==> s[i] != '\n'
}

/// Reading on through text without a newline only extends the unfinished line.
pub(crate) proof fn lemma_line_state_plain_suffix(a: Seq<char>, b: Seq<char>)
    requires
        no_newline(b),
    ensures
        line_state(a + b) == (line_state(a).0, line_state(a).1 + b),
    decreases b.len(),
{
    if b.len() == 0 {
        assert(a + b =~= a);
        assert(line_state(a).1 + b =~= line_state(a).1);
    } else {
        let b0 = b.drop_last();
        assert((a + b).drop_last() =~= a + b0);
        assert((a + b).last() == b.last());
        lemma_line_state_plain_suffix(a, b0);
        assert(line_state(a).1 + b0.push(b.last()) =~= line_state(a).1 + b);
        assert(b0.push(b.last()) =~= b);
    }
}

/// Lines without newlines, joined by newlines, read back: all but the last
/// are finished (a carriage return at their end dropped), the last is not.
pub(crate) proof fn lemma_line_state_join(lines: Seq<Seq<char>>)
    requires
        lines.len() >= 1,
        forall|i: int| 0 <= i < lines.len() ==> no_newline(#[trigger] lines[i]),
    ensures
        line_state(join_lines(lines)) == (lines.drop_last().map_values(|l: Seq<char>| strip_cr(l)), lines.last()),
    decreases lines.len(),
{
    if lines.len() == 1 {
        assert(Seq::<char>::empty() + lines[0] =~= lines[0]);
        lemma_line_state_plain_suffix(Seq::<char>::empty(), lines[0]);
        assert(lines.drop_last().map_values(|l: Seq<char>| strip_cr(l)) =~= Seq::<Seq<char>>::empty());
    } else {
        let p = lines.drop_last();
        assert forall|i: int| 0 <= i < p.len() implies no_newline(#[trigger] p[i]) by {
            assert(p[i] == lines[i]);
        }
        lemma_line_state_join(p);
        let a = join_lines(p).push('\n');
        assert(a.drop_last() =~= join_lines(p));
        assert(join_lines(p) + seq!['\n'] =~= a);
        assert(no_newline(lines[lines.len() - 1]));
        lemma_line_state_plain_suffix(a, lines.last());
        assert(Seq::<char>::empty() + lines.last() =~= lines.last());
        assert(p.drop_last().map_values(|l: Seq<char>| strip_cr(l)).push(strip_cr(p.last())) =~= p.map_values(
            |l: Seq<char>| strip_cr(l),
        ));
    }
}

/// No line of a text holds a newline.
pub(crate) proof fn lemma_lines_have_no_newline(s: Seq<char>)
    ensures
        forall|i: int| 0 <= i < spec_lines(s).len() ==> no_newline(#[trigger] spec_lines(s)[i]),
{
    lemma_line_state_no_newline(s);
}

proof fn lemma_line_state_no_newline(s: Seq<char>)
    ensures
        forall|i: int| 0 <= i < line_state(s).0.len() ==> no_newline(#[trigger] line_state(s).0[i]),
        no_newline(line_state(s).1),
    decreases s.len(),
{
    if s.len() > 0 {
        lemma_line_state_no_newline(s.drop_last());
        let (done, cur) = line_state(s.drop_last());
        if s.last() == '\n' {
            assert(no_newline(strip_cr(cur)));
            assert forall|i: int| 0 <= i < done.push(strip_cr(cur)).len() implies no_newline(
                #[trigger] done.push(strip_cr(cur))[i],
            ) by {
                if i < done.len() {
                    assert(done.push(strip_cr(cur))[i] == done[i]);
                }
            }
        } else {
            assert(no_newline(cur.push(s.last())));
        }
    }
}

/// A text of ASCII characters takes one byte per character.
pub(crate) proof fn lemma_utf8_len_ascii(s: Seq<char>)
    requires
        forall|i: int| 0 <= i < s.len() ==> is_ascii_char(#[trigger] s[i]),
    ensures
        utf8_len_of(s) == s.len(),
    decreases s.len(),
{
    if s.len() > 0 {
        assert(is_ascii_char(s[s.len() - 1]));
        lemma_utf8_len_ascii(s.drop_last());
    }
}

/// The ASCII prefix of a text holds only ASCII characters, no newline the
/// text does not hold, and at most `max_len` characters.
pub(crate) proof fn lemma_ascii_prefix_facts(s: Seq<char>, max_len: int)
    requires
        max_len >= 0,
    ensures
        ascii_prefix(s, max_len).len() <= max_len,
        forall|i: int| 0 <= i < ascii_prefix(s, max_len).len() ==> is_ascii_char(#[trigger] ascii_prefix(s, max_len)[i]),
        no_newline(s) ==> no_newline(ascii_prefix(s, max_len)),
{
    let pred = |c: char| is_ascii_char(c);
    let a = s.filter(pred);
    let r = ascii_prefix(s, max_len);
    assert forall|i: int| 0 <= i < r.len() implies is_ascii_char(#[trigger] r[i]) && (no_newline(s) ==> r[i] != '\n') by {
        assert(r[i] == a[i]);
        s.lemma_filter_pred(pred, i);
        assert(a.contains(a[i]));
        s.lemma_filter_contains_rev(pred, a[i]);
    }
}

proof fn lemma_filter_keeps_all(s: Seq<char>, pred: spec_fn(char) -> bool)
    requires
        forall|i: int| 0 <= i < s.len() ==> pred(#[trigger] s[i]),
    ensures
        s.filter(pred) == s,
    decreases s.len(),
{
    reveal(Seq::filter);
    if s.len() > 0 {
        lemma_filter_keeps_all(s.drop_last(), pred);
        assert(s.drop_last().push(s.last()) =~= s);
    }
}

/// A SAUCE field once reduced stays as it is when reduced again: typing
/// into a field that was already cut to its length changes nothing else.
pub proof fn lemma_sanitize_idempotent(s: Seq<char>, max_len: int)
    requires
        max_len >= 0,
    ensures
        ascii_prefix(ascii_prefix(s, max_len), max_len) == ascii_prefix(s, max_len),
{
    let r = ascii_prefix(s, max_len);
    lemma_ascii_prefix_facts(s, max_len);
    lemma_filter_keeps_all(r, |c: char| is_ascii_char(c));
}

} // verus!
