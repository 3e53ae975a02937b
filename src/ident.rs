use vstd::prelude::*;

verus! {

/// Whether `c` has the Unicode `Uppercase` property.
pub uninterp spec fn uppercase_property(c: char) -> bool;

/// Relies on `char::is_uppercase`: it reports the Unicode `Uppercase`
/// property, which holds of 'A'..='Z' and of no other ASCII character.
pub assume_specification[ char::is_uppercase ](c: char) -> (r: bool)
    ensures
        r == uppercase_property(c),
        ('A' <= c && c <= 'Z') ==> r,
        ((c as u32) < 128 && !('A' <= c && c <= 'Z')) ==> !r,
;

/// The ASCII lower-case form of `c`: letters 'A'..='Z' become 'a'..='z',
/// every other character is kept.
pub open spec fn ascii_lower(c: char) -> char {
    if 'A' <= c && c <= 'Z' {
        ((c as u32) + 32) as char
    } else {
        c
    }
}

/// Relies on `char::to_ascii_lowercase`, documented to map 'A'..='Z' to
/// 'a'..='z' and to keep every other character.
pub assume_specification[ char::to_ascii_lowercase ](c: &char) -> (r: char)
    ensures
        r == ascii_lower(*c),
;

/// Relies on `String::push`, which appends one character.
pub assume_specification[ String::push ](s: &mut String, ch: char)
    ensures
        final(s)@ == old(s)@.push(ch),
;

/// The snake-case form of `s`: each character lower-cased, with an
/// underscore after every character that is followed by an upper-case one.
pub open spec fn snake(s: Seq<char>) -> Seq<char> {
    snake_prefix(s, s.len() as int)
}

/// Whether `c` is upper case: for ASCII, one of 'A'..='Z'; beyond, by the
/// Unicode `Uppercase` property.
pub open spec fn is_upper(c: char) -> bool {
    if (c as u32) < 128 {
        'A' <= c && c <= 'Z'
    } else {
        uppercase_property(c)
    }
}

/// What the character at `i` of `s` contributes to `snake(s)`.
pub open spec fn snake_step(s: Seq<char>, i: int) -> Seq<char> {
    if i + 1 < s.len() && is_upper(s[i + 1]) {
        seq![ascii_lower(s[i]), '_']
    } else {
        seq![ascii_lower(s[i])]
    }
}

/// Derives a module name from an upper-camel-case name: `"ABCServiceX"`
/// gives `"a_b_c_service_x"`.
pub fn naive_snake_case(name: &str) -> (r: String)
    ensures
        r@ == snake(name@),
{
    let n = name.unicode_len();
    let mut s = String::new();
    let mut i: usize = 0;
    while i < n
        invariant
            n == name@.len(),
            i <= n,
            s@ == snake_prefix(name@, i as int),
        decreases n - i,
    {
        let x = name.get_char(i);
        s.push(x.to_ascii_lowercase());
        if i + 1 < n {
            let y = name.get_char(i + 1);
            if y.is_uppercase() {
                s.push('_');
            }
        }
        proof {
            lemma_snake_prefix_step(name@, i as int);
        }
        i = i + 1;
    }
    s
}

/// The contributions of the first `k` characters of `s`.
pub open spec fn snake_prefix(s: Seq<char>, k: int) -> Seq<char>
    decreases k,
{
    if k <= 0 {
        Seq::empty()
    } else {
        snake_prefix(s, k - 1) + snake_step(s, k - 1)
    }
}

proof fn lemma_snake_prefix_step(s: Seq<char>, i: int)
    requires
        0 <= i < s.len(),
    ensures
        snake_prefix(s, i + 1) == snake_prefix(s, i) + snake_step(s, i),
{
}

/// A character allowed in an identifier of the generated code.
pub open spec fn ident_char(c: char) -> bool {
    ('a' <= c && c <= 'z') || ('A' <= c && c <= 'Z') || ('0' <= c && c <= '9') || c == '_'
}

/// A non-empty run of ASCII letters, digits and underscores that does not
/// start with a digit.
pub open spec fn is_plain_ident(s: Seq<char>) -> bool {
    &&& s.len() > 0
    &&& !('0' <= s[0] && s[0] <= '9')
    &&& forall|i: int| 0 <= i < s.len() ==> ident_char(#[trigger] s[i])
}

/// Whether `s` is a plain identifier.
pub fn is_plain_ident_str(s: &str) -> (r: bool)
    ensures
        r == is_plain_ident(s@),
{
    let n = s.unicode_len();
    if n == 0 {
        return false;
    }
    let first = s.get_char(0);
    if '0' <= first && first <= '9' {
        return false;
    }
    let mut i: usize = 0;
    while i < n
        invariant
            n == s@.len(),
            i <= n,
            forall|j: int| 0 <= j < i ==> ident_char(#[trigger] s@[j]),
        decreases n - i,
    {
        let c = s.get_char(i);
        if !(('a' <= c && c <= 'z') || ('A' <= c && c <= 'Z') || ('0' <= c && c <= '9') || c == '_') {
            return false;
        }
        i = i + 1;
    }
    true
}

/// A plain identifier, or a raw one: `r#` followed by a plain identifier.
pub open spec fn is_ident(s: Seq<char>) -> bool {
    is_plain_ident(s) || (s.len() >= 2 && s[0] == 'r' && s[1] == '#' && is_plain_ident(
        s.subrange(2, s.len() as int),
    ))
}

/// Whether `s` can stand as an identifier, possibly raw, in generated code.
pub fn is_ident_str(s: &str) -> (r: bool)
    ensures
        r == is_ident(s@),
{
    if is_plain_ident_str(s) {
        return true;
    }
    let n = s.unicode_len();
    if n < 2 || s.get_char(0) != 'r' || s.get_char(1) != '#' {
        return false;
    }
    is_plain_ident_str(s.substring_char(2, n))
}

} // verus!
