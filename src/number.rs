use vstd::prelude::*;

verus! {

/// Why a text is not an integer of the requested type; the kinds of Rust's
/// integer `FromStr` failures.
#[derive(Clone, Copy, Debug, PartialEq, Eq, Structural)]
pub enum IntError {
    /// The text is empty.
    Empty,
    /// A character that is not a decimal digit, or a sign with no digits.
    InvalidDigit,
    /// The value is above the type's maximum.
    PosOverflow,
    /// The value is below the type's minimum.
    NegOverflow,
}

impl IntError {
    /// The description Rust gives for this kind of failure.
    pub open spec fn text(&self) -> Seq<char> {
        match self {
            IntError::Empty => "cannot parse integer from empty string"@,
            IntError::InvalidDigit => "invalid digit found in string"@,
            IntError::PosOverflow => "number too large to fit in target type"@,
            IntError::NegOverflow => "number too small to fit in target type"@,
        }
    }

    /// A human-readable description of the failure.
    pub fn message(&self) -> (r: String)
        ensures
            r@ == self.text(),
    {
        match self {
            IntError::Empty => String::from_str("cannot parse integer from empty string"),
            IntError::InvalidDigit => String::from_str("invalid digit found in string"),
            IntError::PosOverflow => String::from_str("number too large to fit in target type"),
            IntError::NegOverflow => String::from_str("number too small to fit in target type"),
        }
    }
}

/// The ASCII decimal digits.
pub open spec fn is_digit(c: char) -> bool {
    48 <= (c as u32) && (c as u32) <= 57
}

/// The value of a run of decimal digits.
pub open spec fn digits_value(s: Seq<char>) -> nat
    decreases s.len(),
{
    if s.len() == 0 {
        0
    } else {
        digits_value(s.drop_last()) * 10 + ((s.last() as u32) - 48) as nat
    }
}

/// The length of the sign that starts `s`: 1 for `+` or `-`, else 0.
pub open spec fn sign_len(s: Seq<char>) -> int {
    if s.len() > 0 && (s[0] == '-' || s[0] == '+') {
        1
    } else {
        0
    }
}

/// The first failure met when the first `k` digits of `b` are read, left to
/// right, towards a magnitude of at most `bound`.
pub open spec fn scan_error(b: Seq<char>, k: int, bound: nat, negative: bool) -> Option<IntError>
    decreases k,
{
    if k <= 0 {
        None
    } else {
        match scan_error(b, k - 1, bound, negative) {
            Some(e) => Some(e),
            None => if !is_digit(b[k - 1]) {
                Some(IntError::InvalidDigit)
            } else if digits_value(b.subrange(0, k)) > bound {
                Some(
                    if negative {
                        IntError::NegOverflow
                    } else {
                        IntError::PosOverflow
                    },
                )
            } else {
                None
            },
        }
    }
}

/// The integer in `[lo, hi]` that a text denotes, as Rust's integer
/// `FromStr` reads it: an optional `+` or `-`, then one or more ASCII
/// digits; the first bad character or overflow, left to right, decides the
/// failure.
pub open spec fn int_parse(s: Seq<char>, lo: int, hi: int) -> Result<int, IntError> {
    let negative = s.len() > 0 && s[0] == '-';
    let b = s.subrange(sign_len(s), s.len() as int);
    let bound = if negative {
        -lo
    } else {
        hi
    };
    if s.len() == 0 {
        Err(IntError::Empty)
    } else if b.len() == 0 {
        Err(IntError::InvalidDigit)
    } else {
        match scan_error(b, b.len() as int, bound as nat, negative) {
            Some(e) => Err(e),
            None => Ok(
                if negative {
                    -(digits_value(b) as int)
                } else {
                    digits_value(b) as int
                },
            ),
        }
    }
}

proof fn lemma_scan_error_sticky(b: Seq<char>, k: int, m: int, bound: nat, negative: bool)
    requires
        0 <= k <= m,
        scan_error(b, k, bound, negative) is Some,
    ensures
        scan_error(b, m, bound, negative) == scan_error(b, k, bound, negative),
    decreases m - k,
{
    if k < m {
        lemma_scan_error_sticky(b, k, m - 1, bound, negative);
    }
}

fn parse_decimal(s: &str, neg_bound: u128, pos_bound: u128) -> (r: Result<i128, IntError>)
    requires
        neg_bound <= 9223372036854775808,
        pos_bound <= 9223372036854775808,
    ensures
        match (r, int_parse(s@, -(neg_bound as int), pos_bound as int)) {
            (Ok(a), Ok(b)) => a == b,
            (Err(a), Err(b)) => a == b,
            _ => false,
        },
        r matches Ok(v) ==> -(neg_bound as int) <= v <= pos_bound,
{
    let n = s.unicode_len();
    if n == 0 {
        return Err(IntError::Empty);
    }
    let first = s.get_char(0);
    let negative = first == '-';
    let start: usize = if first == '-' || first == '+' {
        1
    } else {
        0
    };
    let ghost body = s@.subrange(start as int, n as int);
    assert(start == sign_len(s@));
    if start == n {
        assert(body.len() == 0);
        return Err(IntError::InvalidDigit);
    }
    let bound: u128 = if negative {
        neg_bound
    } else {
        pos_bound
    };
    let mut m: u128 = 0;
    let mut i: usize = start;
    assert(body.subrange(0, 0) =~= Seq::<char>::empty());
    while i < n
        invariant
            n == s@.len(),
            start <= i <= n,
            start == sign_len(s@),
            body == s@.subrange(start as int, n as int),
            negative == (s@.len() > 0 && s@[0] == '-'),
            bound == (if negative {
                neg_bound
            } else {
                pos_bound
            }),
            bound <= 9223372036854775808,
            scan_error(body, i - start, bound as nat, negative) is None,
            m == digits_value(body.subrange(0, i - start)),
            m <= bound,
        decreases n - i,
    {
        let c = s.get_char(i);
        let ghost k: int = i - start;
        assert(body[k] == c);
        assert(body.subrange(0, k + 1).drop_last() =~= body.subrange(0, k));
        if !(48 <= (c as u32) && (c as u32) <= 57) {
            proof {
                lemma_scan_error_sticky(body, k + 1, body.len() as int, bound as nat, negative);
            }
            return Err(IntError::InvalidDigit);
        }
        let d: u128 = ((c as u32) - 48) as u128;
        assert(m * 10 <= 9223372036854775808 * 10) by (nonlinear_arith)
            requires
                m <= 9223372036854775808,
        ;
        m = m * 10 + d;
        if m > bound {
            proof {
                lemma_scan_error_sticky(body, k + 1, body.len() as int, bound as nat, negative);
            }
            return if negative {
                Err(IntError::NegOverflow)
            } else {
                Err(IntError::PosOverflow)
            };
        }
        i = i + 1;
    }
    assert(body.subrange(0, body.len() as int) =~= body);
    if negative {
        Ok(-(m as i128))
    } else {
        Ok(m as i128)
    }
}

/// Parses a decimal integer in the range of `i64`, as `str::parse::<i64>` does.
pub fn parse_i64(s: &str) -> (r: Result<i64, IntError>)
    ensures
        match (r, int_parse(s@, i64::MIN as int, i64::MAX as int)) {
            (Ok(a), Ok(b)) => a as int == b,
            (Err(a), Err(b)) => a == b,
            _ => false,
        },
{
    match parse_decimal(s, 9223372036854775808, 9223372036854775807) {
        Ok(v) => Ok(v as i64),
        Err(e) => Err(e),
    }
}

/// Parses a decimal integer in the range of `i32`, as `str::parse::<i32>` does.
pub fn parse_i32(s: &str) -> (r: Result<i32, IntError>)
    ensures
        match (r, int_parse(s@, i32::MIN as int, i32::MAX as int)) {
            (Ok(a), Ok(b)) => a as int == b,
            (Err(a), Err(b)) => a == b,
            _ => false,
        },
{
    match parse_decimal(s, 2147483648, 2147483647) {
        Ok(v) => Ok(v as i32),
        Err(e) => Err(e),
    }
}

} // verus!
