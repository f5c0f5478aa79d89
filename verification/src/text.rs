//! Text utilities shared by the runner and the facades: whitespace trimming,
//! decimal rendering of exit codes, and escaping of failure text so that it
//! can stand inside a JSON string literal.

use vstd::prelude::*;
use vstd::string::StrSliceExecFns;
use vstd::string::StringExecFns;

verus! {

/// Whitespace as the trimming rules understand it: the Unicode white-space
/// characters — the ASCII blanks and newlines, next line, no-break space,
/// the Ogham space mark, the typographic spaces, the line and paragraph
/// separators, and the ideographic space.
pub open spec fn is_space(c: char) -> bool {
    let v = c as u32;
    v == 0x09 || v == 0x0A || v == 0x0B || v == 0x0C || v == 0x0D || v == 0x20 || v == 0x85
        || v == 0xA0 || v == 0x1680 || (0x2000 <= v && v <= 0x200A) || v == 0x2028 || v == 0x2029
        || v == 0x202F || v == 0x205F || v == 0x3000
}

/// How many whitespace characters stand at the front of `s`.
pub open spec fn lead_spaces(s: Seq<char>) -> nat
    decreases s.len(),
{
    if s.len() == 0 {
        0
    } else if is_space(s[0]) {
        (1 + lead_spaces(s.drop_first())) as nat
    } else {
        0
    }
}

/// How many whitespace characters stand at the back of `s`.
pub open spec fn trail_spaces(s: Seq<char>) -> nat
    decreases s.len(),
{
    if s.len() == 0 {
        0
    } else if is_space(s.last()) {
        (1 + trail_spaces(s.drop_last())) as nat
    } else {
        0
    }
}

/// `s` with exactly its leading and trailing whitespace removed.
pub open spec fn trimmed(s: Seq<char>) -> Seq<char> {
    if lead_spaces(s) + trail_spaces(s) <= s.len() {
        s.subrange(lead_spaces(s) as int, s.len() - trail_spaces(s))
    } else {
        Seq::empty()
    }
}

proof fn lemma_lead_spaces_props(s: Seq<char>)
    ensures
        lead_spaces(s) <= s.len(),
        forall|j: int| 0 <= j < lead_spaces(s) ==> is_space(s[j]),
        lead_spaces(s) < s.len() ==> !is_space(s[lead_spaces(s) as int]),
    decreases s.len(),
{
    if s.len() > 0 && is_space(s[0]) {
        lemma_lead_spaces_props(s.drop_first());
        assert forall|j: int| 0 <= j < lead_spaces(s) implies is_space(s[j]) by {
            if j > 0 {
                assert(s.drop_first()[j - 1] == s[j]);
            }
        }
    }
}

proof fn lemma_trail_spaces_props(s: Seq<char>)
    ensures
        trail_spaces(s) <= s.len(),
        forall|j: int| s.len() - trail_spaces(s) <= j < s.len() ==> is_space(s[j]),
        trail_spaces(s) < s.len() ==> !is_space(s[s.len() - trail_spaces(s) - 1]),
    decreases s.len(),
{
    if s.len() > 0 && is_space(s.last()) {
        lemma_trail_spaces_props(s.drop_last());
        assert forall|j: int| s.len() - trail_spaces(s) <= j < s.len() implies is_space(s[j]) by {
            if j < s.len() - 1 {
                assert(s.drop_last()[j] == s[j]);
            }
        }
    }
}

proof fn lemma_lead_spaces_at(s: Seq<char>, a: int)
    requires
        0 <= a <= s.len(),
        forall|j: int| 0 <= j < a ==> is_space(s[j]),
        a < s.len() ==> !is_space(s[a]),
    ensures
        lead_spaces(s) == a,
    decreases a,
{
    if a == 0 {
    } else {
        assert(is_space(s[0]));
        assert forall|j: int| 0 <= j < a - 1 implies is_space(s.drop_first()[j]) by {
            assert(s.drop_first()[j] == s[j + 1]);
        }
        if a - 1 < s.drop_first().len() {
            assert(s.drop_first()[a - 1] == s[a]);
        }
        lemma_lead_spaces_at(s.drop_first(), a - 1);
    }
}

proof fn lemma_trail_spaces_at(s: Seq<char>, b: int)
    requires
        0 <= b <= s.len(),
        forall|j: int| b <= j < s.len() ==> is_space(s[j]),
        b > 0 ==> !is_space(s[b - 1]),
    ensures
        trail_spaces(s) == s.len() - b,
    decreases s.len() - b,
{
    if b == s.len() {
        if s.len() > 0 {
            assert(!is_space(s.last()));
        }
    } else {
        assert(is_space(s.last()));
        assert forall|j: int| b <= j < s.drop_last().len() implies is_space(s.drop_last()[j]) by {
            assert(s.drop_last()[j] == s[j]);
        }
        if b > 0 {
            assert(s.drop_last()[b - 1] == s[b - 1]);
        }
        lemma_trail_spaces_at(s.drop_last(), b);
    }
}

/// Trimming removes exactly the leading and the trailing run of whitespace:
/// everything removed is whitespace, what remains is a contiguous slice of
/// the input with its interior untouched, and the remainder neither starts
/// nor ends with whitespace.
pub proof fn lemma_trimmed_exact(s: Seq<char>)
    ensures
        forall|j: int| 0 <= j < lead_spaces(s) ==> is_space(s[j]),
        forall|j: int| s.len() - trail_spaces(s) <= j < s.len() ==> is_space(s[j]),
        lead_spaces(s) + trail_spaces(s) <= s.len() ==> trimmed(s) == s.subrange(
            lead_spaces(s) as int,
            s.len() - trail_spaces(s),
        ),
        lead_spaces(s) + trail_spaces(s) > s.len() ==> trimmed(s).len() == 0 && forall|j: int|
            0 <= j < s.len() ==> is_space(s[j]),
        trimmed(s).len() > 0 ==> !is_space(trimmed(s)[0]) && !is_space(
            trimmed(s)[trimmed(s).len() - 1],
        ),
{
    lemma_lead_spaces_props(s);
    lemma_trail_spaces_props(s);
    if lead_spaces(s) + trail_spaces(s) > s.len() {
        if lead_spaces(s) < s.len() {
            assert(s.len() - trail_spaces(s) <= lead_spaces(s) < s.len());
            assert(is_space(s[lead_spaces(s) as int]));
            assert(false);
        }
    }
}

/// Does `c` count as whitespace for trimming?
pub fn is_space_char(c: char) -> (r: bool)
    ensures
        r == is_space(c),
{
    let v: u32 = c as u32;
    v == 0x09 || v == 0x0A || v == 0x0B || v == 0x0C || v == 0x0D || v == 0x20 || v == 0x85
        || v == 0xA0 || v == 0x1680 || (0x2000 <= v && v <= 0x200A) || v == 0x2028 || v == 0x2029
        || v == 0x202F || v == 0x205F || v == 0x3000
}

/// Returns `s` without its leading and trailing whitespace.
pub fn trim_str(s: &str) -> (r: String)
    ensures
        r@ == trimmed(s@),
{
    let n = s.unicode_len();
    let mut a: usize = 0;
    while a < n && is_space_char(s.get_char(a))
        invariant
            0 <= a <= n,
            n == s@.len(),
            forall|j: int| 0 <= j < a ==> is_space(s@[j]),
        decreases n - a,
    {
        a = a + 1;
    }
    proof {
        lemma_lead_spaces_at(s@, a as int);
    }
    if a == n {
        proof {
            if n > 0 {
                assert(s@.last() == s@[n - 1]);
                assert(is_space(s@.last()));
                assert(trail_spaces(s@) >= 1);
            }
            assert(trimmed(s@) =~= Seq::<char>::empty());
        }
        return String::new();
    }
    let mut b: usize = n;
    while b > a + 1 && is_space_char(s.get_char(b - 1))
        invariant
            a < b <= n,
            n == s@.len(),
            forall|j: int| b <= j < n ==> is_space(s@[j]),
        decreases b,
    {
        b = b - 1;
    }
    proof {
        assert(!is_space(s@[b - 1]));
        lemma_trail_spaces_at(s@, b as int);
    }
    s.substring_char(a, b).to_owned()
}

/// Relies on `String::push`: appends the one character to the string.
#[verifier::external_body]
pub(crate) fn push_char(s: &mut String, c: char)
    ensures
        final(s)@ == old(s)@.push(c),
{
    s.push(c);
}

/// The decimal digit character for `d`.
pub open spec fn digit_char(d: int) -> char {
    ((48 + d) as u8) as char
}

/// The decimal digits of `n`, most significant first.
pub open spec fn dec_digits(n: nat) -> Seq<char>
    decreases n,
{
    if n < 10 {
        seq![digit_char(n as int)]
    } else {
        dec_digits(n / 10).push(digit_char((n % 10) as int))
    }
}

/// The decimal rendering of `i`, with a leading minus sign when negative.
pub open spec fn dec_int(i: int) -> Seq<char> {
    if i < 0 {
        seq!['-'] + dec_digits((-i) as nat)
    } else {
        dec_digits(i as nat)
    }
}

/// Appends the decimal digits of `n` to `out`.
pub fn push_digits(out: &mut String, n: u64)
    ensures
        final(out)@ == old(out)@ + dec_digits(n as nat),
    decreases n,
{
    if n >= 10 {
        push_digits(out, n / 10);
    }
    let d: u8 = 48 + (n % 10) as u8;
    push_char(out, d as char);
    proof {
        if n < 10 {
            assert(out@ =~= old(out)@ + dec_digits(n as nat));
        } else {
            assert((n / 10) as nat == n as nat / 10);
            assert((n % 10) as nat == n as nat % 10);
            assert(out@ =~= old(out)@ + dec_digits(n as nat));
        }
    }
}

/// Appends the decimal rendering of `i` to `out`.
pub fn push_decimal(out: &mut String, i: i32)
    ensures
        final(out)@ == old(out)@ + dec_int(i as int),
{
    if i < 0 {
        push_char(out, '-');
        let mag: u64 = (-(i as i64)) as u64;
        push_digits(out, mag);
        proof {
            assert(mag as nat == (-(i as int)) as nat);
            assert(out@ =~= old(out)@ + dec_int(i as int));
        }
    } else {
        push_digits(out, i as u64);
    }
}

/// The lower-case hexadecimal digit character for `d`.
pub open spec fn hex_digit(d: int) -> char {
    if d < 10 {
        ((48 + d) as u8) as char
    } else {
        ((87 + d) as u8) as char
    }
}

/// How one character reads once escaped for a JSON string literal: double
/// quotes and backslashes gain a backslash, newlines become blanks, the
/// remaining control characters — which JSON forbids raw inside a string —
/// are written as universal escapes, and everything else is kept.
pub open spec fn sanitize_char(c: char) -> Seq<char> {
    if c == '"' {
        seq!['\\', '"']
    } else if c == '\\' {
        seq!['\\', '\\']
    } else if c == '\n' {
        seq![' ']
    } else if (c as u32) < 0x20 {
        seq![
            '\\',
            'u',
            '0',
            '0',
            hex_digit((c as u32) as int / 16),
            hex_digit((c as u32) as int % 16),
        ]
    } else {
        seq![c]
    }
}

/// Failure text as it may stand inside a JSON string literal.
pub open spec fn sanitized(s: Seq<char>) -> Seq<char>
    decreases s.len(),
{
    if s.len() == 0 {
        Seq::empty()
    } else {
        sanitize_char(s[0]) + sanitized(s.drop_first())
    }
}

proof fn lemma_sanitized_push(t: Seq<char>, c: char)
    ensures
        sanitized(t.push(c)) == sanitized(t) + sanitize_char(c),
    decreases t.len(),
{
    if t.len() == 0 {
        assert(t.push(c)[0] == c);
        assert(t.push(c).drop_first() =~= Seq::<char>::empty());
        assert(sanitized(Seq::<char>::empty()) =~= Seq::<char>::empty());
        assert(sanitized(t.push(c)) == sanitize_char(c) + sanitized(Seq::<char>::empty()));
        assert(sanitized(t) =~= Seq::<char>::empty());
        assert(sanitized(t.push(c)) =~= sanitized(t) + sanitize_char(c));
    } else {
        assert(t.push(c)[0] == t[0]);
        assert(t.push(c).drop_first() =~= t.drop_first().push(c));
        assert(sanitized(t.push(c)) == sanitize_char(t[0]) + sanitized(t.drop_first().push(c)));
        lemma_sanitized_push(t.drop_first(), c);
        assert(sanitized(t.push(c)) =~= sanitized(t) + sanitize_char(c));
    }
}

/// The lower-case hexadecimal digit character for `d`.
fn hex_digit_char(d: u8) -> (r: char)
    requires
        d < 16,
    ensures
        r == hex_digit(d as int),
{
    if d < 10 {
        (48 + d) as char
    } else {
        (87 + d) as char
    }
}

/// Returns `s` escaped for use inside a JSON string literal.
pub fn sanitized_text(s: &str) -> (r: String)
    ensures
        r@ == sanitized(s@),
{
    let n = s.unicode_len();
    let mut r = String::new();
    let mut i: usize = 0;
    while i < n
        invariant
            0 <= i <= n,
            n == s@.len(),
            r@ == sanitized(s@.subrange(0, i as int)),
        decreases n - i,
    {
        let c = s.get_char(i);
        if c == '"' {
            push_char(&mut r, '\\');
            push_char(&mut r, '"');
        } else if c == '\\' {
            push_char(&mut r, '\\');
            push_char(&mut r, '\\');
        } else if c == '\n' {
            push_char(&mut r, ' ');
        } else if (c as u32) < 0x20 {
            push_char(&mut r, '\\');
            push_char(&mut r, 'u');
            push_char(&mut r, '0');
            push_char(&mut r, '0');
            push_char(&mut r, hex_digit_char(((c as u32) / 16) as u8));
            push_char(&mut r, hex_digit_char(((c as u32) % 16) as u8));
        } else {
            push_char(&mut r, c);
        }
        proof {
            let pre = s@.subrange(0, i as int);
            assert(s@.subrange(0, i + 1) =~= pre.push(s@[i as int]));
            lemma_sanitized_push(pre, s@[i as int]);
            assert(r@ =~= sanitized(pre) + sanitize_char(s@[i as int]));
        }
        i = i + 1;
    }
    proof {
        assert(s@.subrange(0, n as int) =~= s@);
    }
    r
}

} // verus!
