//! Identifiers and comments derived from the names and descriptions of the
//! hardware description.
use vstd::prelude::*;

verus! {

/// The snake_case form of a name.
pub uninterp spec fn snake_of(s: Seq<char>) -> Seq<char>;

/// The PascalCase form of a name.
pub uninterp spec fn pascal_of(s: Seq<char>) -> Seq<char>;

/// Relies on inflections::case::to_snake_case; its result depends on the
/// characters of the input alone.
#[verifier::external_body]
fn snake_case(s: &str) -> (r: String)
    ensures
        r@ == snake_of(s@),
{
    inflections::case::to_snake_case(s)
}

/// Relies on inflections::case::to_pascal_case; its result depends on the
/// characters of the input alone.
#[verifier::external_body]
fn pascal_case(s: &str) -> (r: String)
    ensures
        r@ == pascal_of(s@),
{
    inflections::case::to_pascal_case(s)
}

/// The characters with the Unicode White_Space property.
pub open spec fn is_white_space(c: char) -> bool {
    let u = c as u32;
    (0x09 <= u <= 0x0d) || u == 0x20 || u == 0x85 || u == 0xa0 || u == 0x1680 || (0x2000 <= u
        <= 0x200a) || u == 0x2028 || u == 0x2029 || u == 0x202f || u == 0x205f || u == 0x3000
}

/// Relies on char::is_whitespace: true for the characters with the Unicode
/// White_Space property.
#[verifier::external_body]
fn is_whitespace(c: char) -> (r: bool)
    ensures
        r == is_white_space(c),
{
    c.is_whitespace()
}

/// Relies on str::chars: the characters of the string, in order.
#[verifier::external_body]
fn chars_of(s: &str) -> (r: Vec<char>)
    ensures
        r@ == s@,
{
    s.chars().collect()
}

/// Relies on String's FromIterator<&char>: the string of these characters.
#[verifier::external_body]
fn string_of(v: &[char]) -> (r: String)
    ensures
        r@ == v@,
{
    v.iter().collect()
}

/// `s` with its runs of whitespace collapsed to single spaces and with no
/// whitespace at either end: each non-whitespace character is kept, and a
/// single space goes before one that follows whitespace after some earlier
/// kept character.
pub open spec fn respaced(s: Seq<char>) -> Seq<char>
    decreases s.len(),
{
    if s.len() == 0 {
        s
    } else {
        let prev = respaced(s.drop_last());
        let c = s.last();
        if is_white_space(c) {
            prev
        } else if s.len() >= 2 && is_white_space(s[s.len() - 2]) && prev.len() > 0 {
            prev.push(' ').push(c)
        } else {
            prev.push(c)
        }
    }
}

/// The word `match`, which cannot name an accessor.
pub open spec fn keyword_match() -> Seq<char> {
    seq!['m', 'a', 't', 'c', 'h']
}

/// The name of the getter of a field called `s`: its snake_case form, with
/// `_` appended where that form is a keyword.
pub open spec fn getter_name_of(s: Seq<char>) -> Seq<char> {
    if snake_of(s) == keyword_match() {
        snake_of(s).push('_')
    } else {
        snake_of(s)
    }
}

/// The name of the setter of a field called `s`: `set_` and its snake_case form.
pub open spec fn setter_name_of(s: Seq<char>) -> Seq<char> {
    seq!['s', 'e', 't', '_'] + snake_of(s)
}

/// Collapses the whitespace of a description to single spaces.
pub fn respace(s: &str) -> (r: String)
    ensures
        r@ == respaced(s@),
{
    let cs = chars_of(s);
    let mut out: Vec<char> = Vec::new();
    let mut i: usize = 0;
    while i < cs.len()
        invariant
            0 <= i <= cs.len(),
            out@ == respaced(cs@.take(i as int)),
        decreases cs.len() - i,
    {
        let c = cs[i];
        proof {
            assert(cs@.take(i + 1).drop_last() =~= cs@.take(i as int));
        }
        if is_whitespace(c) {
        } else if i >= 1 && is_whitespace(cs[i - 1]) && out.len() > 0 {
            out.push(' ');
            out.push(c);
        } else {
            out.push(c);
        }
        i += 1;
    }
    proof {
        assert(cs@.take(cs@.len() as int) =~= cs@);
    }
    string_of(out.as_slice())
}

/// The snake_case form of a name, as a field or a module is named.
pub fn snake_name(s: &str) -> (r: String)
    ensures
        r@ == snake_of(s@),
{
    snake_case(s)
}

/// The PascalCase form of a name, as a type is named.
pub fn pascal_name(s: &str) -> (r: String)
    ensures
        r@ == pascal_of(s@),
{
    pascal_case(s)
}

/// The name of the getter of a field called `name`.
pub fn getter_name(name: &str) -> (r: String)
    ensures
        r@ == getter_name_of(name@),
{
    let snake = snake_case(name);
    let mut cs = chars_of(snake.as_str());
    if cs.len() == 5 && cs[0] == 'm' && cs[1] == 'a' && cs[2] == 't' && cs[3] == 'c' && cs[4]
        == 'h' {
        proof {
            assert(cs@ =~= keyword_match());
        }
        cs.push('_');
    } else {
        proof {
            if cs@ == keyword_match() {
                assert(cs@[0] == 'm' && cs@[1] == 'a' && cs@[2] == 't' && cs@[3] == 'c'
                    && cs@[4] == 'h');
            }
        }
    }
    string_of(cs.as_slice())
}

/// The name of the setter of a field called `name`.
pub fn setter_name(name: &str) -> (r: String)
    ensures
        r@ == setter_name_of(name@),
{
    let snake = snake_case(name);
    let mut cs: Vec<char> = vec!['s', 'e', 't', '_'];
    let mut tail = chars_of(snake.as_str());
    cs.append(&mut tail);
    proof {
        assert(cs@ =~= setter_name_of(name@));
    }
    string_of(cs.as_slice())
}

} // verus!
