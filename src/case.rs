//! Identifier case conversions: snake_case to PascalCase, camelCase and
//! SCREAMING_SNAKE_CASE.

use vstd::prelude::*;
use vstd::string::*;

use crate::text::push_char;

verus! {

/// The ASCII upper case of `c`; any other character stays as it is.
pub open spec fn ascii_upper(c: char) -> char {
    if 'a' <= c && c <= 'z' {
        ((c as u32) - 32) as char
    } else {
        c
    }
}

/// The ASCII lower case of `c`; any other character stays as it is.
pub open spec fn ascii_lower(c: char) -> char {
    if 'A' <= c && c <= 'Z' {
        ((c as u32) + 32) as char
    } else {
        c
    }
}

/// Whether `c` has the Unicode `Uppercase` property.
pub uninterp spec fn unicode_uppercase(c: char) -> bool;

/// Whether `c` is upper case: `A` to `Z` for ASCII, the Unicode `Uppercase`
/// property beyond it.
pub open spec fn upper(c: char) -> bool {
    if (c as u32) < 128 {
        'A' <= c && c <= 'Z'
    } else {
        unicode_uppercase(c)
    }
}

/// Relies on `char::is_uppercase`, which for ASCII holds of `A` to `Z` alone.
#[verifier::external_body]
fn is_uppercase(c: char) -> (r: bool)
    ensures
        r == unicode_uppercase(c),
        (c as u32) < 128 ==> (r <==> ('A' <= c && c <= 'Z')),
{
    c.is_uppercase()
}

fn to_ascii_uppercase(c: char) -> (r: char)
    ensures
        r == ascii_upper(c),
{
    if 'a' <= c && c <= 'z' {
        ((c as u8) - 32) as char
    } else {
        c
    }
}

fn to_ascii_lowercase(c: char) -> (r: char)
    ensures
        r == ascii_lower(c),
{
    if 'A' <= c && c <= 'Z' {
        ((c as u8) + 32) as char
    } else {
        c
    }
}


/// What PascalCase makes of the character at `i`: underscores go, a character
/// that begins a word is upper case and the rest lower case.
pub open spec fn pascal_piece(s: Seq<char>, i: int) -> Seq<char> {
    if s[i] == '_' {
        Seq::empty()
    } else if i == 0 || s[i - 1] == '_' {
        seq![ascii_upper(s[i])]
    } else {
        seq![ascii_lower(s[i])]
    }
}

/// What camelCase makes of the character at `i`: underscores go, a character
/// after an underscore is upper case, an upper case character after the first
/// stays, and the rest is lower case.
pub open spec fn camel_piece(s: Seq<char>, i: int) -> Seq<char> {
    if s[i] == '_' {
        Seq::empty()
    } else if i > 0 && s[i - 1] == '_' {
        seq![ascii_upper(s[i])]
    } else if upper(s[i]) && i > 0 {
        seq![s[i]]
    } else {
        seq![ascii_lower(s[i])]
    }
}

/// What SCREAMING_SNAKE_CASE makes of the character at `i`: an upper case
/// character after the first starts a new word behind an underscore, and
/// the rest is upper case.
pub open spec fn screaming_piece(s: Seq<char>, i: int) -> Seq<char> {
    if upper(s[i]) {
        if i > 0 {
            seq!['_', s[i]]
        } else {
            seq![s[i]]
        }
    } else {
        seq![ascii_upper(s[i])]
    }
}

/// The PascalCase of the first `n` characters of `s`.
pub open spec fn pascal_prefix(s: Seq<char>, n: int) -> Seq<char>
    decreases n,
{
    if n <= 0 {
        Seq::empty()
    } else {
        pascal_prefix(s, n - 1) + pascal_piece(s, n - 1)
    }
}

/// The camelCase of the first `n` characters of `s`.
pub open spec fn camel_prefix(s: Seq<char>, n: int) -> Seq<char>
    decreases n,
{
    if n <= 0 {
        Seq::empty()
    } else {
        camel_prefix(s, n - 1) + camel_piece(s, n - 1)
    }
}

/// The SCREAMING_SNAKE_CASE of the first `n` characters of `s`.
pub open spec fn screaming_prefix(s: Seq<char>, n: int) -> Seq<char>
    decreases n,
{
    if n <= 0 {
        Seq::empty()
    } else {
        screaming_prefix(s, n - 1) + screaming_piece(s, n - 1)
    }
}

/// `s` in PascalCase.
pub open spec fn pascal_case(s: Seq<char>) -> Seq<char> {
    pascal_prefix(s, s.len() as int)
}

/// `s` in camelCase.
pub open spec fn camel_case(s: Seq<char>) -> Seq<char> {
    camel_prefix(s, s.len() as int)
}

/// `s` in SCREAMING_SNAKE_CASE.
pub open spec fn screaming_snake_case(s: Seq<char>) -> Seq<char> {
    screaming_prefix(s, s.len() as int)
}

/// Converts a snake_case identifier to PascalCase.
pub fn to_pascal_case(s: &str) -> (r: String)
    ensures
        r@ == pascal_case(s@),
{
    let n = s.unicode_len();
    let mut buf = String::new();
    let mut prev_is_underscore = true;
    let mut i: usize = 0;
    while i < n
        invariant
            n == s@.len(),
            i <= n,
            prev_is_underscore == (i == 0 || s@[i - 1] == '_'),
            buf@ == pascal_prefix(s@, i as int),
        decreases n - i,
    {
        let c = s.get_char(i);
        if c == '_' {
            prev_is_underscore = true;
            assert(buf@ =~= pascal_prefix(s@, i as int + 1));
        } else if prev_is_underscore {
            push_char(&mut buf, to_ascii_uppercase(c));
            prev_is_underscore = false;
            assert(buf@ =~= pascal_prefix(s@, i as int + 1));
        } else {
            push_char(&mut buf, to_ascii_lowercase(c));
            assert(buf@ =~= pascal_prefix(s@, i as int + 1));
        }
        i = i + 1;
    }
    buf
}

/// Converts a snake_case identifier to camelCase.
pub fn to_camel_case(s: &str) -> (r: String)
    ensures
        r@ == camel_case(s@),
{
    let n = s.unicode_len();
    let mut buf = String::new();
    let mut prev_is_underscore = false;
    let mut first = true;
    let mut i: usize = 0;
    while i < n
        invariant
            n == s@.len(),
            i <= n,
            prev_is_underscore == (i > 0 && s@[i - 1] == '_'),
            first == (i == 0),
            buf@ == camel_prefix(s@, i as int),
        decreases n - i,
    {
        let c = s.get_char(i);
        if c == '_' {
            prev_is_underscore = true;
        } else if prev_is_underscore {
            push_char(&mut buf, to_ascii_uppercase(c));
            prev_is_underscore = false;
        } else if is_uppercase(c) && !first {
            push_char(&mut buf, c);
        } else {
            push_char(&mut buf, to_ascii_lowercase(c));
        }
        assert(buf@ =~= camel_prefix(s@, i as int + 1));
        first = false;
        i = i + 1;
    }
    buf
}

/// Converts a PascalCase or snake_case identifier to SCREAMING_SNAKE_CASE.
pub fn to_screaming_snake_case(s: &str) -> (r: String)
    ensures
        r@ == screaming_snake_case(s@),
{
    let n = s.unicode_len();
    let mut buf = String::new();
    let mut first = true;
    let mut i: usize = 0;
    while i < n
        invariant
            n == s@.len(),
            i <= n,
            first == (i == 0),
            buf@ == screaming_prefix(s@, i as int),
        decreases n - i,
    {
        let c = s.get_char(i);
        if is_uppercase(c) {
            if !first {
                push_char(&mut buf, '_');
            }
            push_char(&mut buf, c);
        } else {
            push_char(&mut buf, to_ascii_uppercase(c));
        }
        assert(buf@ =~= screaming_prefix(s@, i as int + 1));
        first = false;
        i = i + 1;
    }
    buf
}

} // verus!
