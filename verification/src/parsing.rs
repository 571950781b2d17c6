use crate::layout::common::SizingUnit;
use crate::layout::constraints::ConstraintUnit;
use vstd::prelude::*;

verus! {

/// Why a sizing token failed to parse: an unknown kind word, a malformed
/// numeral or constraint, or too few arguments after the kind word. Each
/// variant carries the slice of the input it refused.
#[derive(Clone, Copy, Debug, PartialEq, Eq)]
pub enum ParsingError<'a> {
    NotASizingUnit(&'a str),
    InvalidConstraintSyntax(&'a str),
    NotEnoughArgumentsToSizing(&'a str),
}

/// What parsing a constraint token yields.
pub enum ConstraintParse {
    Value(ConstraintUnit),
    Invalid(Seq<char>),
}

/// What parsing a sizing token yields.
pub enum SizingParse {
    Value(SizingUnit),
    NotASizing(Seq<char>),
    Invalid(Seq<char>),
    NotEnough(Seq<char>),
}

pub open spec fn spec_is_digit(c: char) -> bool {
    '0' <= c && c <= '9'
}

pub open spec fn digit_value(c: char) -> int {
    c as int - '0' as int
}

pub open spec fn all_digits(s: Seq<char>) -> bool {
    forall|j: int| 0 <= j < s.len() ==> spec_is_digit(#[trigger] s[j])
}

/// The value of the first `i` characters of a digit run, read in decimal.
pub open spec fn digits_value(s: Seq<char>, i: int) -> int
    decreases i,
{
    if i <= 0 || i > s.len() {
        0
    } else {
        digits_value(s, i - 1) * 10 + digit_value(s[i - 1])
    }
}

pub open spec fn pow10(k: int) -> int
    decreases k,
{
    if k <= 0 {
        1
    } else {
        10 * pow10(k - 1)
    }
}

/// The position of the first occurrence of `c` at or after `i`, or the
/// length of the text when there is none.
pub open spec fn first_index_from(s: Seq<char>, c: char, i: int) -> int
    decreases s.len() - i,
{
    if i < 0 || i >= s.len() {
        s.len() as int
    } else if s[i] == c {
        i
    } else {
        first_index_from(s, c, i + 1)
    }
}

pub open spec fn first_index(s: Seq<char>, c: char) -> int {
    first_index_from(s, c, 0)
}

pub proof fn lemma_first_index(s: Seq<char>, c: char)
    ensures
        0 <= first_index(s, c) <= s.len(),
        first_index(s, c) < s.len() ==> s[first_index(s, c)] == c,
        forall|j: int| 0 <= j < first_index(s, c) ==> s[j] != c,
{
    lemma_first_index_from(s, c, 0);
}

pub proof fn lemma_first_index_from(s: Seq<char>, c: char, i: int)
    requires
        0 <= i <= s.len(),
    ensures
        i <= first_index_from(s, c, i) <= s.len(),
        first_index_from(s, c, i) < s.len() ==> s[first_index_from(s, c, i)] == c,
        forall|j: int| i <= j < first_index_from(s, c, i) ==> s[j] != c,
    decreases s.len() - i,
{
    if i < s.len() && s[i] != c {
        lemma_first_index_from(s, c, i + 1);
    }
}

/// The numeral `s`, scaled by `10^max_frac`: a run of up to thirteen digits,
/// optionally followed by a point and up to `max_frac` fraction digits.
/// Anything else — an empty part, a second point, a sign, more precision
/// than the scale can hold — is refused.
pub open spec fn spec_parse_scaled(s: Seq<char>, max_frac: int) -> Option<int> {
    let dot = first_index(s, '.');
    if dot == s.len() {
        if 1 <= s.len() <= 13 && all_digits(s) {
            Option::Some(digits_value(s, s.len() as int) * pow10(max_frac))
        } else {
            Option::None
        }
    } else {
        let ip = s.take(dot);
        let fp = s.skip(dot + 1);
        if 1 <= ip.len() <= 13 && all_digits(ip) && 1 <= fp.len() <= max_frac && all_digits(fp) {
            Option::Some(
                digits_value(ip, ip.len() as int) * pow10(max_frac) + digits_value(
                    fp,
                    fp.len() as int,
                ) * pow10(max_frac - fp.len()),
            )
        } else {
            Option::None
        }
    }
}

pub proof fn lemma_digits_value_bound(s: Seq<char>, i: int)
    requires
        all_digits(s),
        0 <= i <= s.len(),
    ensures
        0 <= digits_value(s, i) < pow10(i),
    decreases i,
{
    if i > 0 {
        lemma_digits_value_bound(s, i - 1);
        assert(pow10(i) == 10 * pow10(i - 1));
    }
}

fn exec_pow10(k: usize) -> (r: i64)
    requires
        k <= 3,
    ensures
        r as int == pow10(k as int),
        r >= 1,
{
    proof {
        reveal_with_fuel(pow10, 5);
    }
    if k == 0 {
        1
    } else if k == 1 {
        10
    } else if k == 2 {
        100
    } else {
        1000
    }
}

/// Reads the decimal value of `s` between `from` and `to`, all digits, as
/// checked by the caller.
fn parse_digits(s: &str, from: usize, to: usize) -> (r: Option<i64>)
    requires
        from <= to <= s@.len(),
    ensures
        match r {
            Some(v) => all_digits(s@.subrange(from as int, to as int)) && v as int == digits_value(
                s@.subrange(from as int, to as int),
                to - from,
            ) && to - from <= 13 && to > from,
            None => !(1 <= to - from <= 13) || !all_digits(
                s@.subrange(from as int, to as int),
            ),
        },
{
    let ghost part = s@.subrange(from as int, to as int);
    if to == from || to - from > 13 {
        return None;
    }
    let mut v: i64 = 0;
    let mut i: usize = from;
    while i < to
        invariant
            from <= i <= to <= s@.len(),
            to - from <= 13,
            part == s@.subrange(from as int, to as int),
            all_digits(part.take(i - from)),
            v as int == digits_value(part, i - from),
            0 <= v as int && (v as int) < pow10(i - from),
        decreases to - i,
    {
        let c = s.get_char(i);
        if c < '0' || c > '9' {
            proof {
                assert(part[i - from] == s@[i as int]);
            }
            return None;
        }
        proof {
            lemma_digits_value_bound(part.take(i - from), i - from);
            assert(pow10(13int) == 10000000000000 && pow10(12int) == 1000000000000) by {
                reveal_with_fuel(pow10, 15);
            }
            assert(pow10(i - from) <= pow10(12int)) by {
                lemma_pow10_monotonic(i - from, 12);
            }
            assert(part.take(i + 1 - from).drop_last() =~= part.take(i - from));
            assert(part.take(i + 1 - from).last() == s@[i as int]);
            assert(all_digits(part.take(i + 1 - from)));
            assert(digits_value(part, i + 1 - from) == digits_value(part, i - from) * 10
                + digit_value(part[i - from]));
        }
        v = v * 10 + (c as i64 - 48);
        i = i + 1;
    }
    proof {
        assert(part.take(to - from) =~= part);
    }
    Some(v)
}

pub proof fn lemma_pow10_pos(k: int)
    ensures
        pow10(k) >= 1,
    decreases k,
{
    if k > 0 {
        lemma_pow10_pos(k - 1);
    }
}

pub proof fn lemma_pow10_monotonic(a: int, b: int)
    requires
        a <= b,
    ensures
        pow10(a) <= pow10(b),
    decreases b,
{
    if a < b && b > 0 {
        lemma_pow10_monotonic(a, b - 1);
        lemma_pow10_pos(b - 1);
    }
}

/// Finds the first occurrence of `c` in `s`, or the length of `s`.
fn find_char(s: &str, c: char) -> (r: usize)
    ensures
        r as int == first_index(s@, c),
        r <= s@.len(),
        r < s@.len() ==> s@[r as int] == c,
{
    let len = s.unicode_len();
    let mut i: usize = 0;
    while i < len
        invariant
            i <= len,
            len == s@.len(),
            forall|j: int| 0 <= j < i ==> s@[j] != c,
        decreases len - i,
    {
        if s.get_char(i) == c {
            proof {
                lemma_first_index(s@, c);
            }
            return i;
        }
        i = i + 1;
    }
    proof {
        lemma_first_index(s@, c);
    }
    len
}

/// The numeral parser behind every sizing token, at the given scale.
fn parse_scaled(s: &str, max_frac: usize) -> (r: Option<i64>)
    requires
        max_frac <= 3,
    ensures
        match r {
            Some(v) => spec_parse_scaled(s@, max_frac as int) == Option::Some(v as int),
            None => spec_parse_scaled(s@, max_frac as int) is None,
        },
{
    let len = s.unicode_len();
    let dot = find_char(s, '.');
    proof {
        lemma_first_index(s@, '.');
    }
    if dot == len {
        match parse_digits(s, 0, len) {
            Some(v) => {
                proof {
                    assert(s@.subrange(0, len as int) =~= s@);
                    lemma_digits_value_bound(s@, len as int);
                    lemma_pow10_monotonic(len as int, 13);
                    assert(pow10(13int) == 10000000000000 && pow10(3int) == 1000) by {
                        reveal_with_fuel(pow10, 15);
                    }
                    lemma_pow10_monotonic(max_frac as int, 3);
                    assert(pow10(max_frac as int) >= 1) by {
                        lemma_pow10_monotonic(0, max_frac as int);
                    }
                }
                let scale = exec_pow10(max_frac);
                proof {
                    assert((v as int) * (scale as int) <= 10000000000000 * 1000)
                        by (nonlinear_arith)
                        requires
                            0 <= v as int <= 10000000000000,
                            1 <= scale as int <= 1000,
                    ;
                    assert((v as int) * (scale as int) >= 0) by (nonlinear_arith)
                        requires
                            0 <= v as int,
                            1 <= scale as int,
                    ;
                }
                Some(v * scale)
            },
            None => {
                proof {
                    assert(s@.subrange(0, len as int) =~= s@);
                }
                None
            },
        }
    } else {
        let ghost ip = s@.take(dot as int);
        let ghost fp = s@.skip(dot as int + 1);
        if len - (dot + 1) < 1 || len - (dot + 1) > max_frac {
            return None;
        }
        let iv = match parse_digits(s, 0, dot) {
            Some(v) => v,
            None => {
                proof {
                    assert(s@.subrange(0, dot as int) =~= ip);
                }
                return None;
            },
        };
        let fv = match parse_digits(s, dot + 1, len) {
            Some(v) => v,
            None => {
                proof {
                    assert(s@.subrange(dot as int + 1, len as int) =~= fp);
                }
                return None;
            },
        };
        proof {
            assert(s@.subrange(0, dot as int) =~= ip);
            assert(s@.subrange(dot as int + 1, len as int) =~= fp);
            lemma_digits_value_bound(ip, ip.len() as int);
            lemma_digits_value_bound(fp, fp.len() as int);
            lemma_pow10_monotonic(ip.len() as int, 13);
            lemma_pow10_monotonic(fp.len() as int, 3);
            assert(pow10(13int) == 10000000000000 && pow10(3int) == 1000) by {
                reveal_with_fuel(pow10, 15);
            }
            lemma_pow10_monotonic(max_frac as int, 3);
            lemma_pow10_monotonic(0, max_frac as int);
            lemma_pow10_monotonic(0, max_frac - fp.len() as int);
            lemma_pow10_monotonic(max_frac - fp.len() as int, 3);
        }
        let scale = exec_pow10(max_frac);
        let frac_scale = exec_pow10(max_frac - (len - (dot + 1)));
        proof {
            assert((iv as int) * (scale as int) <= 10000000000000 * 1000 && (iv as int) * (
            scale as int) >= 0) by (nonlinear_arith)
                requires
                    0 <= iv as int <= 10000000000000,
                    1 <= scale as int <= 1000,
            ;
            assert((fv as int) * (frac_scale as int) <= 1000 * 1000 && (fv as int) * (
            frac_scale as int) >= 0) by (nonlinear_arith)
                requires
                    0 <= fv as int <= 1000,
                    1 <= frac_scale as int <= 1000,
            ;
        }
        Some(iv * scale + fv * frac_scale)
    }
}


/// The constraint grammar: `_` is no constraint at all; a numeral with a
/// trailing percent sign is a fraction, read in per-mille; a bare numeral
/// is a literal number of units.
pub open spec fn spec_parse_constraint(s: Seq<char>) -> ConstraintParse {
    if s =~= "_"@ {
        ConstraintParse::Value(ConstraintUnit::Unconstrained)
    } else {
        let b = first_index(s, '%');
        if b < s.len() {
            if b + 1 != s.len() {
                ConstraintParse::Invalid(s)
            } else {
                let body = s.take(b);
                match spec_parse_scaled(body, 1) {
                    Option::Some(v) => ConstraintParse::Value(ConstraintUnit::Percent(v as i64)),
                    Option::None => ConstraintParse::Invalid(body),
                }
            }
        } else {
            match spec_parse_scaled(s, 0) {
                Option::Some(v) => ConstraintParse::Value(ConstraintUnit::Fixed(v as i64)),
                Option::None => ConstraintParse::Invalid(s),
            }
        }
    }
}

/// The sizing grammar: a kind word, optionally followed by a colon and its
/// arguments. `Fixed` takes a numeral of units; `Collapse` and `Stretch`
/// take an optional constraint; `Percent` takes a fraction (read in
/// per-mille) and two constraints, comma-separated.
pub open spec fn spec_parse_sizing_unit(s: Seq<char>) -> SizingParse {
    let delim = first_index(s, ':');
    let kind = s.take(delim);
    if kind =~= "Percent"@ {
        if delim == s.len() {
            SizingParse::NotEnough(s)
        } else {
            let rest = s.skip(delim + 1);
            let c1 = first_index(rest, ',');
            if c1 == rest.len() {
                SizingParse::NotEnough(s)
            } else {
                let frac = rest.take(c1);
                match spec_parse_scaled(frac, 3) {
                    Option::None => SizingParse::Invalid(frac),
                    Option::Some(f) => {
                        let rest2 = rest.skip(c1 + 1);
                        let c2 = first_index(rest2, ',');
                        if c2 == rest2.len() {
                            SizingParse::NotEnough(s)
                        } else {
                            match spec_parse_constraint(rest2.take(c2)) {
                                ConstraintParse::Invalid(t) => SizingParse::Invalid(t),
                                ConstraintParse::Value(min_c) => {
                                    match spec_parse_constraint(rest2.skip(c2 + 1)) {
                                        ConstraintParse::Invalid(t) => SizingParse::Invalid(t),
                                        ConstraintParse::Value(max_c) => SizingParse::Value(
                                            SizingUnit::Percent(f as i64, min_c, max_c),
                                        ),
                                    }
                                },
                            }
                        }
                    },
                }
            }
        }
    } else if kind =~= "Stretch"@ {
        if delim == s.len() {
            SizingParse::Value(SizingUnit::Stretch(ConstraintUnit::Unconstrained))
        } else {
            match spec_parse_constraint(s.skip(delim + 1)) {
                ConstraintParse::Invalid(t) => SizingParse::Invalid(t),
                ConstraintParse::Value(c) => SizingParse::Value(SizingUnit::Stretch(c)),
            }
        }
    } else if kind =~= "Collapse"@ {
        if delim == s.len() {
            SizingParse::Value(SizingUnit::Collapse(ConstraintUnit::Unconstrained))
        } else {
            match spec_parse_constraint(s.skip(delim + 1)) {
                ConstraintParse::Invalid(t) => SizingParse::Invalid(t),
                ConstraintParse::Value(c) => SizingParse::Value(SizingUnit::Collapse(c)),
            }
        }
    } else if kind =~= "Fixed"@ {
        if delim == s.len() {
            SizingParse::NotEnough(s)
        } else {
            match spec_parse_scaled(s.skip(delim + 1), 0) {
                Option::Some(v) => SizingParse::Value(SizingUnit::Fixed(v as i64)),
                Option::None => SizingParse::Invalid(s.skip(delim + 1)),
            }
        }
    } else {
        SizingParse::NotASizing(kind)
    }
}

/// Character-for-character string comparison.
fn str_eq(a: &str, b: &str) -> (r: bool)
    ensures
        r == (a@ == b@),
{
    let la = a.unicode_len();
    let lb = b.unicode_len();
    if la != lb {
        return false;
    }
    let mut i: usize = 0;
    while i < la
        invariant
            i <= la,
            la == a@.len(),
            la == b@.len(),
            forall|j: int| 0 <= j < i ==> a@[j] == b@[j],
        decreases la - i,
    {
        if a.get_char(i) != b.get_char(i) {
            return false;
        }
        i = i + 1;
    }
    proof {
        assert(a@ =~= b@);
    }
    true
}

/// Parses one constraint token; on failure the error names the slice that
/// was malformed.
pub fn parse_constraint_unit<'a>(input: &'a str) -> (r: Result<ConstraintUnit, ParsingError<'a>>)
    ensures
        match r {
            Ok(u) => spec_parse_constraint(input@) == ConstraintParse::Value(u),
            Err(ParsingError::InvalidConstraintSyntax(t)) => spec_parse_constraint(input@)
                == ConstraintParse::Invalid(t@),
            Err(_) => false,
        },
{
    if str_eq(input, "_") {
        proof {
            assert(input@ =~= "_"@);
        }
        return Ok(ConstraintUnit::Unconstrained);
    }

    let len = input.unicode_len();
    let b = find_char(input, '%');
    if b < len {
        if b + 1 != len {
            return Err(ParsingError::InvalidConstraintSyntax(input));
        }
        let body = input.substring_char(0, b);
        proof {
            assert(body@ =~= input@.take(b as int));
        }
        match parse_scaled(body, 1) {
            Some(v) => Ok(ConstraintUnit::Percent(v)),
            None => Err(ParsingError::InvalidConstraintSyntax(body)),
        }
    } else {
        match parse_scaled(input, 0) {
            Some(v) => Ok(ConstraintUnit::Fixed(v)),
            None => Err(ParsingError::InvalidConstraintSyntax(input)),
        }
    }
}

/// Parses one sizing token; the error says which part was refused and why.
pub fn parse_sizing_unit<'a>(input: &'a str) -> (r: Result<SizingUnit, ParsingError<'a>>)
    ensures
        match r {
            Ok(u) => spec_parse_sizing_unit(input@) == SizingParse::Value(u),
            Err(ParsingError::NotASizingUnit(t)) => spec_parse_sizing_unit(input@)
                == SizingParse::NotASizing(t@),
            Err(ParsingError::InvalidConstraintSyntax(t)) => spec_parse_sizing_unit(input@)
                == SizingParse::Invalid(t@),
            Err(ParsingError::NotEnoughArgumentsToSizing(t)) => spec_parse_sizing_unit(input@)
                == SizingParse::NotEnough(t@),
        },
{
    let len = input.unicode_len();
    let delim = find_char(input, ':');
    let sizing = input.substring_char(0, delim);
    proof {
        assert(sizing@ =~= input@.take(delim as int));
    }

    if str_eq(sizing, "Percent") {
        if delim == len {
            return Err(ParsingError::NotEnoughArgumentsToSizing(input));
        }
        let constraint_string = input.substring_char(delim + 1, len);
        proof {
            assert(constraint_string@ =~= input@.skip(delim as int + 1));
        }
        let rlen = constraint_string.unicode_len();
        let c1 = find_char(constraint_string, ',');
        if c1 == rlen {
            return Err(ParsingError::NotEnoughArgumentsToSizing(input));
        }
        let frac_str = constraint_string.substring_char(0, c1);
        proof {
            assert(frac_str@ =~= constraint_string@.take(c1 as int));
        }
        let size = match parse_scaled(frac_str, 3) {
            Some(f) => f,
            None => {
                return Err(ParsingError::InvalidConstraintSyntax(frac_str));
            },
        };
        let rest2 = constraint_string.substring_char(c1 + 1, rlen);
        proof {
            assert(rest2@ =~= constraint_string@.skip(c1 as int + 1));
        }
        let r2len = rest2.unicode_len();
        let c2 = find_char(rest2, ',');
        if c2 == r2len {
            return Err(ParsingError::NotEnoughArgumentsToSizing(input));
        }
        let min_str = rest2.substring_char(0, c2);
        proof {
            assert(min_str@ =~= rest2@.take(c2 as int));
        }
        let min_constraint = match parse_constraint_unit(min_str) {
            Ok(c) => c,
            Err(e) => {
                return Err(e);
            },
        };
        let max_str = rest2.substring_char(c2 + 1, r2len);
        proof {
            assert(max_str@ =~= rest2@.skip(c2 as int + 1));
        }
        let max_constraint = match parse_constraint_unit(max_str) {
            Ok(c) => c,
            Err(e) => {
                return Err(e);
            },
        };
        Ok(SizingUnit::Percent(size, min_constraint, max_constraint))
    } else if str_eq(sizing, "Stretch") {
        if delim == len {
            return Ok(SizingUnit::Stretch(ConstraintUnit::Unconstrained));
        }
        let rest = input.substring_char(delim + 1, len);
        proof {
            assert(rest@ =~= input@.skip(delim as int + 1));
        }
        match parse_constraint_unit(rest) {
            Ok(c) => Ok(SizingUnit::Stretch(c)),
            Err(e) => Err(e),
        }
    } else if str_eq(sizing, "Collapse") {
        if delim == len {
            return Ok(SizingUnit::Collapse(ConstraintUnit::Unconstrained));
        }
        let rest = input.substring_char(delim + 1, len);
        proof {
            assert(rest@ =~= input@.skip(delim as int + 1));
        }
        match parse_constraint_unit(rest) {
            Ok(c) => Ok(SizingUnit::Collapse(c)),
            Err(e) => Err(e),
        }
    } else if str_eq(sizing, "Fixed") {
        if delim == len {
            return Err(ParsingError::NotEnoughArgumentsToSizing(input));
        }
        let rest = input.substring_char(delim + 1, len);
        proof {
            assert(rest@ =~= input@.skip(delim as int + 1));
        }
        match parse_scaled(rest, 0) {
            Some(v) => Ok(SizingUnit::Fixed(v)),
            None => Err(ParsingError::InvalidConstraintSyntax(rest)),
        }
    } else {
        Err(ParsingError::NotASizingUnit(sizing))
    }
}

} // verus!
