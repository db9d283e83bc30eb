//! Rename rules for the field names of a structured record.

use vstd::prelude::*;
use crate::specs::strings::{char_to_lower, char_to_upper};
use crate::text::{
    char_is_upper, char_lower, char_upper, from_chars, lowercase_of, replace_char,
    replaced_char, to_chars, uppercase_of,
};

verus! {

/// Case conversion rules for the field names of a record.
#[derive(Debug, Clone, Copy, PartialEq, Eq, Structural)]
pub enum RenameRule {
    /// `lowercase`
    LowerCase,
    /// `UPPERCASE`
    UpperCase,
    /// `camelCase`
    CamelCase,
    /// `PascalCase`
    PascalCase,
    /// `snake_case`
    SnakeCase,
    /// `SCREAMING_SNAKE_CASE`
    ScreamingSnakeCase,
    /// `kebab-case`
    KebabCase,
    /// `SCREAMING-KEBAB-CASE`
    ScreamingKebabCase,
}

/// The first character of a case mapping, or the character itself where the
/// mapping is empty.
pub open spec fn first_or(mapping: Seq<char>, c: char) -> char {
    if mapping.len() > 0 {
        mapping[0]
    } else {
        c
    }
}

/// The snake-case form of the first `n` characters: an upper-case character is
/// mapped to lower case and, unless it is the first, gets a `_` in front.
pub open spec fn snake_upto(s: Seq<char>, n: int) -> Seq<char>
    decreases n,
{
    if n <= 0 {
        Seq::empty()
    } else {
        let c = s[n - 1];
        let head = snake_upto(s, n - 1);
        if char_is_upper(c) {
            let low = first_or(char_lower(c), c);
            if n - 1 > 0 {
                head.push('_').push(low)
            } else {
                head.push(low)
            }
        } else {
            head.push(c)
        }
    }
}

/// The snake-case form of a text.
pub open spec fn snake_of(s: Seq<char>) -> Seq<char> {
    snake_upto(s, s.len() as int)
}

/// The camel-case form of the first `n` characters, and whether the next
/// character is to be capitalised: a `_` is dropped and capitalises what follows.
pub open spec fn camel_upto(s: Seq<char>, n: int) -> (Seq<char>, bool)
    decreases n,
{
    if n <= 0 {
        (Seq::empty(), false)
    } else {
        let c = s[n - 1];
        let (head, capitalize) = camel_upto(s, n - 1);
        if c == '_' {
            (head, true)
        } else if capitalize {
            (head.push(first_or(char_upper(c), c)), false)
        } else {
            (head.push(c), false)
        }
    }
}

/// The camel-case form of a text.
pub open spec fn camel_of(s: Seq<char>) -> Seq<char> {
    camel_upto(s, s.len() as int).0
}

/// The Pascal-case form of a text: its camel-case form with the whole
/// upper-case mapping of the first character in that character's place.
pub open spec fn pascal_of(s: Seq<char>) -> Seq<char> {
    let camel = camel_of(s);
    if camel.len() == 0 {
        Seq::empty()
    } else {
        char_upper(camel[0]) + camel.skip(1)
    }
}

/// Convert a string to `snake_case`.
pub fn to_snake_case(s: &str) -> (r: String)
    ensures
        r@ == snake_of(s@),
{
    let v = to_chars(s);
    let mut out: Vec<char> = Vec::new();
    let mut i: usize = 0;
    while i < v.len()
        invariant
            i <= v.len(),
            v@ == s@,
            out@ == snake_upto(s@, i as int),
        decreases v.len() - i,
    {
        let c = v[i];
        if c.is_uppercase() {
            if i > 0 {
                out.push('_');
            }
            let low = char_to_lower(c);
            out.push(if low.len() > 0 { low[0] } else { c });
        } else {
            out.push(c);
        }
        i += 1;
    }
    from_chars(&out)
}

/// Convert a string to `camelCase`.
pub fn to_camel_case(s: &str) -> (r: String)
    ensures
        r@ == camel_of(s@),
{
    let v = to_chars(s);
    let mut out: Vec<char> = Vec::new();
    let mut capitalize_next = false;
    let mut i: usize = 0;
    while i < v.len()
        invariant
            i <= v.len(),
            v@ == s@,
            (out@, capitalize_next) == camel_upto(s@, i as int),
        decreases v.len() - i,
    {
        let c = v[i];
        if c == '_' {
            capitalize_next = true;
        } else if capitalize_next {
            let up = char_to_upper(c);
            out.push(if up.len() > 0 { up[0] } else { c });
            capitalize_next = false;
        } else {
            out.push(c);
        }
        i += 1;
    }
    from_chars(&out)
}

/// Convert a string to `PascalCase`.
pub fn to_pascal_case(s: &str) -> (r: String)
    ensures
        r@ == pascal_of(s@),
{
    let camel = to_camel_case(s);
    let v = to_chars(camel.as_str());
    if v.len() == 0 {
        return String::new();
    }
    let mut out = char_to_upper(v[0]);
    let mut i: usize = 1;
    while i < v.len()
        invariant
            1 <= i <= v.len(),
            out@ == char_upper(v@[0]) + v@.subrange(1, i as int),
        decreases v.len() - i,
    {
        out.push(v[i]);
        i += 1;
    }
    proof {
        assert(v@.subrange(1, v.len() as int) == v@.skip(1));
    }
    from_chars(&out)
}

impl RenameRule {
    /// The rule that a name denotes.
    pub open spec fn named(s: Seq<char>) -> Option<RenameRule> {
        if s == "lowercase"@ {
            Some(RenameRule::LowerCase)
        } else if s == "UPPERCASE"@ {
            Some(RenameRule::UpperCase)
        } else if s == "camelCase"@ {
            Some(RenameRule::CamelCase)
        } else if s == "PascalCase"@ {
            Some(RenameRule::PascalCase)
        } else if s == "snake_case"@ {
            Some(RenameRule::SnakeCase)
        } else if s == "SCREAMING_SNAKE_CASE"@ {
            Some(RenameRule::ScreamingSnakeCase)
        } else if s == "kebab-case"@ {
            Some(RenameRule::KebabCase)
        } else if s == "SCREAMING-KEBAB-CASE"@ {
            Some(RenameRule::ScreamingKebabCase)
        } else {
            None
        }
    }

    /// The name that the rule gives to a field.
    pub open spec fn applied(self, name: Seq<char>) -> Seq<char> {
        match self {
            RenameRule::LowerCase => lowercase_of(name),
            RenameRule::UpperCase => uppercase_of(name),
            RenameRule::CamelCase => camel_of(name),
            RenameRule::PascalCase => pascal_of(name),
            RenameRule::SnakeCase => snake_of(name),
            RenameRule::ScreamingSnakeCase => uppercase_of(snake_of(name)),
            RenameRule::KebabCase => replaced_char(snake_of(name), '_', '-'),
            RenameRule::ScreamingKebabCase => replaced_char(
                uppercase_of(snake_of(name)),
                '_',
                '-',
            ),
        }
    }

    /// Parse a rename rule from its name. The names are case-sensitive.
    pub fn parse(s: &str) -> (r: Option<Self>)
        ensures
            r == Self::named(s@),
    {
        if s.eq("lowercase") {
            Some(RenameRule::LowerCase)
        } else if s.eq("UPPERCASE") {
            Some(RenameRule::UpperCase)
        } else if s.eq("camelCase") {
            Some(RenameRule::CamelCase)
        } else if s.eq("PascalCase") {
            Some(RenameRule::PascalCase)
        } else if s.eq("snake_case") {
            Some(RenameRule::SnakeCase)
        } else if s.eq("SCREAMING_SNAKE_CASE") {
            Some(RenameRule::ScreamingSnakeCase)
        } else if s.eq("kebab-case") {
            Some(RenameRule::KebabCase)
        } else if s.eq("SCREAMING-KEBAB-CASE") {
            Some(RenameRule::ScreamingKebabCase)
        } else {
            None
        }
    }

    /// Apply the rename rule to a field name.
    pub fn apply(self, name: &str) -> (r: String)
        ensures
            r@ == self.applied(name@),
    {
        match self {
            RenameRule::LowerCase => name.to_lowercase(),
            RenameRule::UpperCase => name.to_uppercase(),
            RenameRule::CamelCase => to_camel_case(name),
            RenameRule::PascalCase => to_pascal_case(name),
            RenameRule::SnakeCase => to_snake_case(name),
            RenameRule::ScreamingSnakeCase => to_snake_case(name).as_str().to_uppercase(),
            RenameRule::KebabCase => replace_char(to_snake_case(name).as_str(), '_', '-'),
            RenameRule::ScreamingKebabCase => replace_char(
                to_snake_case(name).as_str().to_uppercase().as_str(),
                '_',
                '-',
            ),
        }
    }
}

} // verus!
