//! The four supported temperature scales, with fuzzy-prefix parsing from text
//! and rendering to the canonical lower-case scale name.

use vstd::prelude::*;

verus! {

/// One of the four supported temperature scales.
#[derive(Clone, Copy, Debug, PartialEq, Eq, Structural)]
pub enum Temperature {
    Celsius,
    Fahrenheit,
    Kelvin,
    Rankine,
}

/// The error a failed scale parse reports; it carries no further detail.
#[derive(Clone, Copy, Debug, PartialEq, Eq, Structural)]
pub struct InvalidScale;

/// The canonical lower-case name of a scale.
pub open spec fn spec_name(t: Temperature) -> Seq<char> {
    match t {
        Temperature::Celsius => "celsius"@,
        Temperature::Fahrenheit => "fahrenheit"@,
        Temperature::Kelvin => "kelvin"@,
        Temperature::Rankine => "rankine"@,
    }
}

/// ASCII lower-casing of a single character; other characters are unchanged.
pub open spec fn lower_char(c: char) -> char {
    if 'A' <= c && c <= 'Z' {
        (((c as u8) + 32) as u8) as char
    } else {
        c
    }
}

/// ASCII upper-casing of a single character; other characters are unchanged.
pub open spec fn upper_char(c: char) -> char {
    if 'a' <= c && c <= 'z' {
        (((c as u8) - 32) as u8) as char
    } else {
        c
    }
}

/// Character-wise ASCII lower-casing of a string.
pub open spec fn lower_seq(s: Seq<char>) -> Seq<char> {
    Seq::new(s.len(), |i: int| lower_char(s[i]))
}

/// Character-wise ASCII upper-casing of a string.
pub open spec fn upper_seq(s: Seq<char>) -> Seq<char> {
    Seq::new(s.len(), |i: int| upper_char(s[i]))
}

/// `p` is a (possibly empty, possibly full) prefix of `s`.
pub open spec fn is_prefix_of(p: Seq<char>, s: Seq<char>) -> bool {
    p.len() <= s.len() && p == s.subrange(0, p.len() as int)
}

/// The parsing rule: the lower-cased input must be a prefix of a canonical
/// name; the names are tried in the fixed order Celsius, Fahrenheit, Kelvin,
/// Rankine and the first hit wins.  The empty input is a prefix of every name
/// and therefore resolves to Celsius.
pub open spec fn spec_parse(s: Seq<char>) -> Option<Temperature> {
    let low = lower_seq(s);
    if is_prefix_of(low, "celsius"@) {
        Some(Temperature::Celsius)
    } else if is_prefix_of(low, "fahrenheit"@) {
        Some(Temperature::Fahrenheit)
    } else if is_prefix_of(low, "kelvin"@) {
        Some(Temperature::Kelvin)
    } else if is_prefix_of(low, "rankine"@) {
        Some(Temperature::Rankine)
    } else {
        None
    }
}

/// `spec_parse`, with a failed parse reported as `InvalidScale`.
pub open spec fn spec_parse_result(s: Seq<char>) -> Result<Temperature, InvalidScale> {
    match spec_parse(s) {
        Some(t) => Ok(t),
        None => Err(InvalidScale),
    }
}

/// ASCII lower-casing of a single character.
fn lower_char_exec(c: char) -> (r: char)
    ensures
        r == lower_char(c),
{
    if 'A' <= c && c <= 'Z' {
        ((c as u8) + 32) as char
    } else {
        c
    }
}

/// Whether the lower-cased `s` is a prefix of `name`.
fn lowered_is_prefix(s: &str, name: &str) -> (r: bool)
    ensures
        r == is_prefix_of(lower_seq(s@), name@),
{
    let n = s.unicode_len();
    let m = name.unicode_len();
    if n > m {
        assert(!is_prefix_of(lower_seq(s@), name@));
        return false;
    }
    let mut i: usize = 0;
    while i < n
        invariant
            i <= n,
            n <= m,
            n == s@.len(),
            m == name@.len(),
            forall|j: int| 0 <= j < i ==> lower_char(s@[j]) == name@[j],
        decreases n - i,
    {
        let c = lower_char_exec(s.get_char(i));
        let d = name.get_char(i);
        if c != d {
            assert(!is_prefix_of(lower_seq(s@), name@)) by {
                if is_prefix_of(lower_seq(s@), name@) {
                    assert(lower_seq(s@)[i as int] == name@.subrange(0, s@.len() as int)[i as int]);
                }
            }
            return false;
        }
        i += 1;
    }
    assert(lower_seq(s@) =~= name@.subrange(0, s@.len() as int));
    true
}

/// A lower-case ASCII letter is unchanged by lower-casing, and upper-casing
/// followed by lower-casing gives it back.
proof fn lemma_case_char(c: char)
    requires
        'a' <= c && c <= 'z',
    ensures
        lower_char(c) == c,
        lower_char(upper_char(c)) == c,
{
}

/// Every character of a canonical scale name is a lower-case ASCII letter.
proof fn lemma_name_chars(t: Temperature)
    ensures
        forall|j: int|
            0 <= j < spec_name(t).len() ==> 'a' <= #[trigger] spec_name(t)[j] && spec_name(t)[j]
                <= 'z',
{
    reveal_strlit("celsius");
    reveal_strlit("fahrenheit");
    reveal_strlit("kelvin");
    reveal_strlit("rankine");
}

/// Prefix-parsing totality: every non-empty prefix of a canonical scale name
/// parses to that scale, whether it is given in lower case or in upper case.
pub proof fn lemma_parse_prefix(t: Temperature, p: Seq<char>)
    requires
        0 < p.len(),
        is_prefix_of(p, spec_name(t)),
    ensures
        spec_parse(p) == Some(t),
        spec_parse(upper_seq(p)) == Some(t),
{
    reveal_strlit("celsius");
    reveal_strlit("fahrenheit");
    reveal_strlit("kelvin");
    reveal_strlit("rankine");
    let name = spec_name(t);
    assert(forall|j: int| 0 <= j < p.len() ==> p[j] == name[j]) by {
        assert(forall|j: int|
            0 <= j < p.len() ==> p[j] == #[trigger] name.subrange(0, p.len() as int)[j]);
    }
    lemma_name_chars(t);
    assert(lower_seq(p) =~= p) by {
        assert forall|j: int| 0 <= j < p.len() implies lower_seq(p)[j] == p[j] by {
            lemma_case_char(p[j]);
        }
    }
    assert(lower_seq(upper_seq(p)) =~= p) by {
        assert forall|j: int| 0 <= j < p.len() implies lower_seq(upper_seq(p))[j] == p[j] by {
            lemma_case_char(p[j]);
        }
    }
    match t {
        Temperature::Celsius => {
            assert(is_prefix_of(p, "celsius"@));
        },
        Temperature::Fahrenheit => {
            assert(p[0] == 'f');
            assert(!is_prefix_of(p, "celsius"@)) by {
                if is_prefix_of(p, "celsius"@) {
                    assert(p[0] == "celsius"@.subrange(0, p.len() as int)[0]);
                }
            }
        },
        Temperature::Kelvin => {
            assert(p[0] == 'k');
            assert(!is_prefix_of(p, "celsius"@)) by {
                if is_prefix_of(p, "celsius"@) {
                    assert(p[0] == "celsius"@.subrange(0, p.len() as int)[0]);
                }
            }
            assert(!is_prefix_of(p, "fahrenheit"@)) by {
                if is_prefix_of(p, "fahrenheit"@) {
                    assert(p[0] == "fahrenheit"@.subrange(0, p.len() as int)[0]);
                }
            }
        },
        Temperature::Rankine => {
            assert(p[0] == 'r');
            assert(!is_prefix_of(p, "celsius"@)) by {
                if is_prefix_of(p, "celsius"@) {
                    assert(p[0] == "celsius"@.subrange(0, p.len() as int)[0]);
                }
            }
            assert(!is_prefix_of(p, "fahrenheit"@)) by {
                if is_prefix_of(p, "fahrenheit"@) {
                    assert(p[0] == "fahrenheit"@.subrange(0, p.len() as int)[0]);
                }
            }
            assert(!is_prefix_of(p, "kelvin"@)) by {
                if is_prefix_of(p, "kelvin"@) {
                    assert(p[0] == "kelvin"@.subrange(0, p.len() as int)[0]);
                }
            }
        },
    }
}

impl Temperature {
    /// Parses a scale from text: the input, lower-cased, must be a prefix of
    /// exactly one canonical name; the names are tried in a fixed order.
    pub fn from_text(s: &str) -> (r: Result<Temperature, InvalidScale>)
        ensures
            r == spec_parse_result(s@),
    {
        if lowered_is_prefix(s, "celsius") {
            Ok(Temperature::Celsius)
        } else if lowered_is_prefix(s, "fahrenheit") {
            Ok(Temperature::Fahrenheit)
        } else if lowered_is_prefix(s, "kelvin") {
            Ok(Temperature::Kelvin)
        } else if lowered_is_prefix(s, "rankine") {
            Ok(Temperature::Rankine)
        } else {
            Err(InvalidScale)
        }
    }

    /// The canonical lower-case name of the scale.
    pub fn name(&self) -> (r: &'static str)
        ensures
            r@ == spec_name(*self),
    {
        match self {
            Temperature::Celsius => "celsius",
            Temperature::Fahrenheit => "fahrenheit",
            Temperature::Kelvin => "kelvin",
            Temperature::Rankine => "rankine",
        }
    }
}

} // verus!
