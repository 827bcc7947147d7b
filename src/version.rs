use vstd::prelude::*;

verus! {

#[verifier::external_type_specification]
#[verifier::external_body]
pub struct ExParseIntError(std::num::ParseIntError);

/// Relies on `ParseIntError`'s derived `Clone`; nothing is claimed of the copy.
pub assume_specification[ <std::num::ParseIntError as Clone>::clone ](e: &std::num::ParseIntError) -> std::num::ParseIntError;

/// Relies on `ParseIntError`'s derived `PartialEq`; nothing is claimed of the answer.
pub assume_specification[ <std::num::ParseIntError as PartialEq>::eq ](
    a: &std::num::ParseIntError,
    b: &std::num::ParseIntError,
) -> bool;

/// The decimal digit characters, by value.
pub open spec fn digit_chars() -> Seq<char> {
    seq!['0', '1', '2', '3', '4', '5', '6', '7', '8', '9']
}

pub open spec fn is_digit(c: char) -> bool {
    '0' <= c && c <= '9'
}

pub open spec fn digit_value(c: char) -> nat {
    (c as u32 - '0' as u32) as nat
}

pub open spec fn all_digits(s: Seq<char>) -> bool {
    forall|i: int| 0 <= i < s.len() ==> is_digit(#[trigger] s[i])
}

/// The number that a string of decimal digits denotes.
pub open spec fn digits_value(s: Seq<char>) -> nat
    decreases s.len(),
{
    if s.len() == 0 {
        0
    } else {
        digits_value(s.drop_last()) * 10 + digit_value(s.last())
    }
}

/// The digits of an unsigned number text, with its optional leading `+` removed.
pub open spec fn unsigned_digits(s: Seq<char>) -> Seq<char> {
    if s.len() > 0 && s[0] == '+' {
        s.drop_first()
    } else {
        s
    }
}

/// Whether `s` is the text of a `usize`: an optional `+`, then one or more
/// decimal digits, denoting a number that fits.
pub open spec fn parses_as_usize(s: Seq<char>) -> bool {
    let d = unsigned_digits(s);
    d.len() > 0 && all_digits(d) && digits_value(d) <= usize::MAX
}

/// The value of a text for which `parses_as_usize` holds.
pub open spec fn usize_value(s: Seq<char>) -> nat {
    digits_value(unsigned_digits(s))
}

/// The canonical decimal text of `n`: no sign, no leading zeros.
pub open spec fn decimal(n: nat) -> Seq<char>
    decreases n,
{
    if n < 10 {
        seq![digit_chars()[n as int]]
    } else {
        decimal(n / 10).push(digit_chars()[(n % 10) as int])
    }
}

/// Splits `s` at every `.`: one more piece than there are dots.
pub open spec fn split_dots(s: Seq<char>) -> Seq<Seq<char>>
    decreases s.len(),
{
    if s.len() == 0 {
        seq![Seq::<char>::empty()]
    } else {
        let prev = split_dots(s.drop_last());
        if s.last() == '.' {
            prev.push(Seq::<char>::empty())
        } else {
            prev.update(prev.len() - 1, prev.last().push(s.last()))
        }
    }
}

/// Relies on `usize`'s `FromStr`: it accepts an optional `+` followed by
/// decimal digits whose value fits, and returns that value.
#[verifier::external_body]
fn parse_usize(s: &str) -> (r: Result<usize, std::num::ParseIntError>)
    ensures
        r is Ok <==> parses_as_usize(s@),
        r is Ok ==> r->Ok_0 as nat == usize_value(s@),
{
    s.parse::<usize>()
}

/// The one-character text of the digit `d`.
fn digit_str(d: usize) -> (r: &'static str)
    requires
        d < 10,
    ensures
        r@ == seq![digit_chars()[d as int]],
{
    if d == 0 {
        proof {
            reveal_strlit("0");
            assert("0"@ =~= seq![digit_chars()[0]]);
        }
        "0"
    } else if d == 1 {
        proof {
            reveal_strlit("1");
            assert("1"@ =~= seq![digit_chars()[1]]);
        }
        "1"
    } else if d == 2 {
        proof {
            reveal_strlit("2");
            assert("2"@ =~= seq![digit_chars()[2]]);
        }
        "2"
    } else if d == 3 {
        proof {
            reveal_strlit("3");
            assert("3"@ =~= seq![digit_chars()[3]]);
        }
        "3"
    } else if d == 4 {
        proof {
            reveal_strlit("4");
            assert("4"@ =~= seq![digit_chars()[4]]);
        }
        "4"
    } else if d == 5 {
        proof {
            reveal_strlit("5");
            assert("5"@ =~= seq![digit_chars()[5]]);
        }
        "5"
    } else if d == 6 {
        proof {
            reveal_strlit("6");
            assert("6"@ =~= seq![digit_chars()[6]]);
        }
        "6"
    } else if d == 7 {
        proof {
            reveal_strlit("7");
            assert("7"@ =~= seq![digit_chars()[7]]);
        }
        "7"
    } else if d == 8 {
        proof {
            reveal_strlit("8");
            assert("8"@ =~= seq![digit_chars()[8]]);
        }
        "8"
    } else {
        proof {
            reveal_strlit("9");
            assert("9"@ =~= seq![digit_chars()[9]]);
        }
        "9"
    }
}

/// The canonical decimal text of `n`.
pub fn decimal_string(n: usize) -> (r: String)
    ensures
        r@ == decimal(n as nat),
    decreases n,
{
    if n < 10 {
        String::from_str(digit_str(n))
    } else {
        let mut s = decimal_string(n / 10);
        s.append(digit_str(n % 10));
        s
    }
}

/// The canonical text `major.minor.patch`.
pub open spec fn version_text(major: nat, minor: nat, patch: nat) -> Seq<char> {
    decimal(major) + seq!['.'] + decimal(minor) + seq!['.'] + decimal(patch)
}

#[derive(Debug, PartialEq, Eq, Clone)]
pub enum VersionParsingError {
    WrongNumberOfComponents { found: usize },
    ParseIntError(std::num::ParseIntError),
    UnexpectedVersion { expected: Version, found: Version },
}

impl From<std::num::ParseIntError> for VersionParsingError {
    fn from(value: std::num::ParseIntError) -> (r: Self) {
        VersionParsingError::ParseIntError(value)
    }
}

impl vstd::std_specs::convert::FromSpecImpl<std::num::ParseIntError> for VersionParsingError {
    open spec fn obeys_from_spec() -> bool {
        true
    }

    open spec fn from_spec(value: std::num::ParseIntError) -> VersionParsingError {
        VersionParsingError::ParseIntError(value)
    }
}

/// A three-component version `major.minor.patch`.
#[derive(Debug, PartialEq, Eq, Clone, Copy, Structural)]
pub struct Version {
    pub major: usize,
    pub minor: usize,
    pub patch: usize,
}

/// Whether every piece of `pieces` is the text of a `usize`.
pub open spec fn all_parse(pieces: Seq<Seq<char>>) -> bool {
    forall|i: int| 0 <= i < pieces.len() ==> parses_as_usize(#[trigger] pieces[i])
}

/// The version that `s` denotes, where it denotes one.
pub open spec fn spec_parse_version(s: Seq<char>) -> Option<Version> {
    let p = split_dots(s);
    if all_parse(p) && p.len() == 3 {
        Some(
            Version {
                major: usize_value(p[0]) as usize,
                minor: usize_value(p[1]) as usize,
                patch: usize_value(p[2]) as usize,
            },
        )
    } else {
        None
    }
}

proof fn lemma_split_nonempty(s: Seq<char>)
    ensures
        split_dots(s).len() >= 1,
    decreases s.len(),
{
    if s.len() > 0 {
        lemma_split_nonempty(s.drop_last());
    }
}

/// How the pieces of a prefix change when one more character is taken.
proof fn lemma_split_step(s: Seq<char>, i: int)
    requires
        0 <= i < s.len(),
    ensures
        split_dots(s.subrange(0, i)).len() >= 1,
        s[i] == '.' ==> split_dots(s.subrange(0, i + 1)) == split_dots(s.subrange(0, i)).push(
            Seq::<char>::empty(),
        ),
        s[i] != '.' ==> split_dots(s.subrange(0, i + 1)) == split_dots(s.subrange(0, i)).update(
            split_dots(s.subrange(0, i)).len() - 1,
            split_dots(s.subrange(0, i)).last().push(s[i]),
        ),
{
    lemma_split_nonempty(s.subrange(0, i));
    let t = s.subrange(0, i + 1);
    assert(t.drop_last() =~= s.subrange(0, i));
}

/// Every piece of a prefix but its last is a piece of any longer prefix.
proof fn lemma_split_prefix(s: Seq<char>, k: int, m: int)
    requires
        0 <= k <= m <= s.len(),
    ensures
        split_dots(s.subrange(0, k)).len() <= split_dots(s.subrange(0, m)).len(),
        forall|j: int|
            0 <= j < split_dots(s.subrange(0, k)).len() - 1 ==> #[trigger] split_dots(
                s.subrange(0, m),
            )[j] == split_dots(s.subrange(0, k))[j],
    decreases m - k,
{
    if k < m {
        lemma_split_prefix(s, k, m - 1);
        lemma_split_step(s, m - 1);
    }
}

impl Version {
    /// Parses `major.minor.patch`. Every piece between dots is parsed first;
    /// a piece that is no `usize` gives `ParseIntError`, and otherwise a count
    /// of pieces other than three gives `WrongNumberOfComponents`.
    pub fn try_from(value: &str) -> (r: Result<Version, VersionParsingError>)
        ensures
            r is Ok <==> spec_parse_version(value@) is Some,
            r is Ok ==> r->Ok_0 == spec_parse_version(value@)->Some_0,
            !all_parse(split_dots(value@)) <==> (r is Err && r->Err_0 is ParseIntError),
            (all_parse(split_dots(value@)) && split_dots(value@).len() != 3) ==> r == Err::<
                Version,
                VersionParsingError,
            >(VersionParsingError::WrongNumberOfComponents { found: split_dots(value@).len() as usize }),
    {
        let n = value.unicode_len();
        let ghost s = value@;
        let mut parts: Vec<usize> = Vec::new();
        let mut start: usize = 0;
        let mut i: usize = 0;
        proof {
            assert(s.subrange(0, 0) =~= Seq::<char>::empty());
        }
        while i < n
            invariant
                n == s.len(),
                value@ == s,
                start <= i <= n,
                split_dots(s.subrange(0, i as int)).len() == parts@.len() + 1,
                split_dots(s.subrange(0, i as int)).last() == s.subrange(start as int, i as int),
                forall|j: int|
                    0 <= j < parts@.len() ==> parses_as_usize(
                        #[trigger] split_dots(s.subrange(0, i as int))[j],
                    ) && parts@[j] as nat == usize_value(split_dots(s.subrange(0, i as int))[j]),
            decreases n - i,
        {
            proof {
                lemma_split_step(s, i as int);
            }
            if value.get_char(i) == '.' {
                let piece = value.substring_char(start, i);
                match parse_usize(piece) {
                    Ok(v) => {
                        parts.push(v);
                    },
                    Err(e) => {
                        proof {
                            lemma_split_prefix(s, i + 1, n as int);
                            assert(s.subrange(0, n as int) =~= s);
                            assert(!parses_as_usize(split_dots(s)[parts@.len() as int]));
                        }
                        return Err(VersionParsingError::ParseIntError(e));
                    },
                }
                start = i + 1;
                proof {
                    assert(s.subrange(start as int, start as int) =~= Seq::<char>::empty());
                }
            } else {
                proof {
                    assert(s.subrange(start as int, i + 1) =~= s.subrange(start as int, i as int).push(s[i as int]));
                }
            }
            i = i + 1;
        }
        proof {
            assert(s.subrange(0, n as int) =~= s);
        }
        let piece = value.substring_char(start, n);
        match parse_usize(piece) {
            Ok(v) => {
                parts.push(v);
            },
            Err(e) => {
                proof {
                    assert(!parses_as_usize(split_dots(s)[parts@.len() as int]));
                }
                return Err(VersionParsingError::ParseIntError(e));
            },
        }
        proof {
            assert(all_parse(split_dots(s))) by {
                assert forall|j: int| 0 <= j < split_dots(s).len() implies parses_as_usize(
                    #[trigger] split_dots(s)[j],
                ) by {
                    if j < parts@.len() - 1 {
                        assert(parses_as_usize(split_dots(s.subrange(0, n as int))[j]));
                    }
                }
            }
        }
        if parts.len() != 3 {
            return Err(VersionParsingError::WrongNumberOfComponents { found: parts.len() });
        }
        Ok(Version { major: parts[0], minor: parts[1], patch: parts[2] })
    }

    /// Parses an owned string, as `try_from` does.
    pub fn try_from_string(value: String) -> (r: Result<Version, VersionParsingError>)
        ensures
            r is Ok <==> spec_parse_version(value@) is Some,
            r is Ok ==> r->Ok_0 == spec_parse_version(value@)->Some_0,
            !all_parse(split_dots(value@)) <==> (r is Err && r->Err_0 is ParseIntError),
            (all_parse(split_dots(value@)) && split_dots(value@).len() != 3) ==> r == Err::<
                Version,
                VersionParsingError,
            >(VersionParsingError::WrongNumberOfComponents { found: split_dots(value@).len() as usize }),
    {
        Version::try_from(value.as_str())
    }

    /// The canonical text `major.minor.patch`.
    pub fn to_string(&self) -> (r: String)
        ensures
            r@ == version_text(self.major as nat, self.minor as nat, self.patch as nat),
    {
        let mut s = decimal_string(self.major);
        proof {
            reveal_strlit(".");
            assert("."@ =~= seq!['.']);
        }
        s.append(".");
        let minor = decimal_string(self.minor);
        s.append(minor.as_str());
        s.append(".");
        let patch = decimal_string(self.patch);
        s.append(patch.as_str());
        s
    }
}

proof fn lemma_digit_chars(n: nat)
    requires
        n < 10,
    ensures
        is_digit(digit_chars()[n as int]),
        digit_value(digit_chars()[n as int]) == n,
{
    reveal_with_fuel(digit_chars, 1);
}

proof fn lemma_decimal(n: nat)
    ensures
        decimal(n).len() > 0,
        all_digits(decimal(n)),
        digits_value(decimal(n)) == n,
    decreases n,
{
    if n < 10 {
        lemma_digit_chars(n);
        assert(decimal(n).drop_last() =~= Seq::<char>::empty());
        assert(digits_value(Seq::<char>::empty()) == 0);
    } else {
        lemma_decimal(n / 10);
        lemma_digit_chars(n % 10);
        assert(decimal(n).drop_last() =~= decimal(n / 10));
        assert((n / 10) * 10 + n % 10 == n) by (nonlinear_arith);
    }
}

/// Appending text with no dot extends the last piece.
proof fn lemma_split_append(p: Seq<char>, t: Seq<char>)
    requires
        forall|i: int| 0 <= i < t.len() ==> t[i] != '.',
    ensures
        split_dots(p + t) == split_dots(p).update(
            split_dots(p).len() - 1,
            split_dots(p).last() + t,
        ),
        split_dots(p + t).len() == split_dots(p).len(),
    decreases t.len(),
{
    lemma_split_nonempty(p);
    if t.len() == 0 {
        assert(p + t =~= p);
        assert(split_dots(p).last() + t =~= split_dots(p).last());
        assert(split_dots(p).update(split_dots(p).len() - 1, split_dots(p).last())
            =~= split_dots(p));
    } else {
        let t1 = t.drop_last();
        lemma_split_append(p, t1);
        assert((p + t).drop_last() =~= p + t1);
        assert((split_dots(p).last() + t1).push(t.last()) =~= split_dots(p).last() + t);
        assert(split_dots(p + t) =~= split_dots(p).update(
            split_dots(p).len() - 1,
            split_dots(p).last() + t,
        ));
    }
}

/// Appending a dot opens a new, empty piece.
proof fn lemma_split_dot(p: Seq<char>)
    ensures
        split_dots(p + seq!['.']) == split_dots(p).push(Seq::<char>::empty()),
{
    assert((p + seq!['.']).drop_last() =~= p);
}

proof fn lemma_decimal_piece(n: nat)
    requires
        n <= usize::MAX,
    ensures
        parses_as_usize(decimal(n)),
        usize_value(decimal(n)) == n,
        forall|i: int| 0 <= i < decimal(n).len() ==> decimal(n)[i] != '.',
{
    lemma_decimal(n);
    assert(is_digit(decimal(n)[0]));
}

/// Parsing the canonical text of a version gives that version back.
pub proof fn lemma_version_round_trip(v: Version)
    ensures
        spec_parse_version(version_text(v.major as nat, v.minor as nat, v.patch as nat))
            == Some(v),
{
    let a = decimal(v.major as nat);
    let b = decimal(v.minor as nat);
    let c = decimal(v.patch as nat);
    lemma_decimal_piece(v.major as nat);
    lemma_decimal_piece(v.minor as nat);
    lemma_decimal_piece(v.patch as nat);
    let e = Seq::<char>::empty();
    lemma_split_append(e, a);
    assert(e + a =~= a);
    assert(split_dots(e) =~= seq![e]);
    assert(split_dots(a) =~= seq![a]);
    lemma_split_dot(a);
    let p1 = a + seq!['.'];
    lemma_split_append(p1, b);
    assert(split_dots(p1 + b) =~= seq![a, b]);
    lemma_split_dot(p1 + b);
    let p2 = p1 + b + seq!['.'];
    lemma_split_append(p2, c);
    assert(split_dots(p2 + c) =~= seq![a, b, c]);
    assert(all_parse(split_dots(p2 + c)));
}

/// A version that accepts only the one version `MAJOR.MINOR.PATCH`.
#[derive(Debug, PartialEq, Eq, Clone, Copy)]
pub struct LiteralVersion<const MAJOR: usize, const MINOR: usize, const PATCH: usize>;

impl<const MAJOR: usize, const MINOR: usize, const PATCH: usize> LiteralVersion<MAJOR, MINOR, PATCH> {
    pub open spec fn spec_version() -> Version {
        Version { major: MAJOR, minor: MINOR, patch: PATCH }
    }

    /// The version this type stands for.
    pub fn into_version(self) -> (r: Version)
        ensures
            r == Self::spec_version(),
    {
        Version { major: MAJOR, minor: MINOR, patch: PATCH }
    }

    /// Accepts `value` exactly when it is `MAJOR.MINOR.PATCH`; otherwise
    /// reports both versions.
    pub fn try_from(value: Version) -> (r: Result<Self, VersionParsingError>)
        ensures
            r is Ok <==> value == Self::spec_version(),
            r is Err ==> r == Err::<Self, VersionParsingError>(
                VersionParsingError::UnexpectedVersion {
                    expected: Self::spec_version(),
                    found: value,
                },
            ),
    {
        if value.major == MAJOR && value.minor == MINOR && value.patch == PATCH {
            Ok(LiteralVersion)
        } else {
            Err(
                VersionParsingError::UnexpectedVersion {
                    expected: LiteralVersion::<MAJOR, MINOR, PATCH>.into_version(),
                    found: value,
                },
            )
        }
    }
}

} // verus!
