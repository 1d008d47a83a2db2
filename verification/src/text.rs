//! Verified text helpers: decimal digits, number formatting and the
//! C-string decoding used when reading strings out of the engine.

use vstd::prelude::*;

verus! {

/// A decimal digit character.
pub open spec fn is_digit_char(c: char) -> bool {
    '0' as int <= c as int && c as int <= '9' as int
}

/// Numeric value of a decimal digit character.
pub open spec fn digit_value(c: char) -> int
    recommends
        is_digit_char(c),
{
    c as int - '0' as int
}

/// Whether every character of `s` is a decimal digit.
pub open spec fn all_digits(s: Seq<char>) -> bool {
    forall|i: int| 0 <= i < s.len() ==> is_digit_char(#[trigger] s[i])
}

/// The number denoted by a sequence of decimal digit characters
/// (most significant first).
pub open spec fn digits_val(s: Seq<char>) -> int
    recommends
        all_digits(s),
    decreases s.len(),
{
    if s.len() == 0 {
        0
    } else {
        digits_val(s.drop_last()) * 10 + digit_value(s.last())
    }
}

/// The digit character for a value below ten.
pub open spec fn digit_char(d: int) -> char
    recommends
        0 <= d < 10,
{
    if d == 0 {
        '0'
    } else if d == 1 {
        '1'
    } else if d == 2 {
        '2'
    } else if d == 3 {
        '3'
    } else if d == 4 {
        '4'
    } else if d == 5 {
        '5'
    } else if d == 6 {
        '6'
    } else if d == 7 {
        '7'
    } else if d == 8 {
        '8'
    } else {
        '9'
    }
}

/// The canonical decimal rendering of a non-negative number: no leading
/// zeros, except that zero itself is rendered as a single `'0'`.
pub open spec fn spec_decimal(n: int) -> Seq<char>
    recommends
        n >= 0,
    decreases n,
{
    if n < 10 {
        seq![digit_char(n)]
    } else {
        spec_decimal(n / 10).push(digit_char(n % 10))
    }
}

/// Appending digits on the right only grows the denoted value.
pub proof fn lemma_digits_val_prefix_le(s: Seq<char>, i: int)
    requires
        all_digits(s),
        0 <= i <= s.len(),
    ensures
        digits_val(s.subrange(0, i)) <= digits_val(s),
        digits_val(s) >= 0,
    decreases s.len() - i,
{
    if i == s.len() {
        assert(s.subrange(0, i) =~= s);
        lemma_digits_val_nonneg(s);
    } else {
        lemma_digits_val_prefix_le(s, i + 1);
        let pre = s.subrange(0, i);
        let ext = s.subrange(0, i + 1);
        assert(ext.drop_last() =~= pre);
        assert(ext.last() == s[i]);
        lemma_digits_val_nonneg(pre);
    }
}

/// A digit string denotes a non-negative value.
pub proof fn lemma_digits_val_nonneg(s: Seq<char>)
    requires
        all_digits(s),
    ensures
        digits_val(s) >= 0,
    decreases s.len(),
{
    if s.len() > 0 {
        lemma_digits_val_nonneg(s.drop_last());
    }
}

/// The exec counterpart of [`digit_char`].
fn digit_str(d: u64) -> (r: &'static str)
    requires
        d < 10,
    ensures
        r@ =~= seq![digit_char(d as int)],
{
    proof {
        reveal_strlit("0");
        reveal_strlit("1");
        reveal_strlit("2");
        reveal_strlit("3");
        reveal_strlit("4");
        reveal_strlit("5");
        reveal_strlit("6");
        reveal_strlit("7");
        reveal_strlit("8");
        reveal_strlit("9");
    }
    if d == 0 {
        "0"
    } else if d == 1 {
        "1"
    } else if d == 2 {
        "2"
    } else if d == 3 {
        "3"
    } else if d == 4 {
        "4"
    } else if d == 5 {
        "5"
    } else if d == 6 {
        "6"
    } else if d == 7 {
        "7"
    } else if d == 8 {
        "8"
    } else {
        "9"
    }
}

/// The characters denoted by a stack of digits collected least-significant
/// first, read back most-significant first.
spec fn rendered(ds: Seq<u64>) -> Seq<char> {
    ds.reverse().map_values(|d: u64| digit_char(d as int))
}

proof fn lemma_rendered_push(ds: Seq<u64>, d: u64)
    ensures
        rendered(ds.push(d)) =~= seq![digit_char(d as int)] + rendered(ds),
{
    assert(ds.push(d).reverse() =~= seq![d] + ds.reverse());
}

proof fn lemma_rendered_index(ds: Seq<u64>, k: int)
    requires
        0 <= k < ds.len(),
    ensures
        rendered(ds)[k] == digit_char(ds[ds.len() - 1 - k] as int),
{
}

/// Renders `n` in decimal.
pub fn u64_to_string(n: u64) -> (s: String)
    ensures
        s@ =~= spec_decimal(n as int),
{
    let mut digits: Vec<u64> = Vec::new();
    let mut m: u64 = n;
    loop
        invariant_except_break
            digits@.len() == 0 ==> m == n,
            digits@.len() > 0 ==> m > 0 && spec_decimal(n as int) =~= spec_decimal(m as int)
                + rendered(digits@),
        invariant
            forall|i: int| 0 <= i < digits@.len() ==> #[trigger] digits@[i] < 10,
        ensures
            forall|i: int| 0 <= i < digits@.len() ==> #[trigger] digits@[i] < 10,
            spec_decimal(n as int) =~= rendered(digits@),
        decreases m,
    {
        let ghost old_digits = digits@;
        let ghost old_m = m as int;
        let d = m % 10;
        digits.push(d);
        m = m / 10;
        proof {
            lemma_rendered_push(old_digits, d);
            if old_m >= 10 {
                assert(spec_decimal(old_m) =~= spec_decimal(old_m / 10).push(
                    digit_char(old_m % 10),
                ));
                assert(spec_decimal(old_m) =~= spec_decimal(m as int) + seq![
                    digit_char(d as int),
                ]);
                if old_digits.len() > 0 {
                    assert(spec_decimal(n as int) =~= spec_decimal(m as int) + rendered(
                        digits@,
                    ));
                } else {
                    assert(spec_decimal(n as int) =~= spec_decimal(m as int) + rendered(
                        digits@,
                    ));
                }
            } else {
                assert(spec_decimal(old_m) =~= seq![digit_char(d as int)]);
                if old_digits.len() == 0 {
                    assert(rendered(old_digits) =~= Seq::<char>::empty());
                    assert(rendered(digits@) =~= seq![digit_char(d as int)]);
                    assert(spec_decimal(n as int) =~= rendered(digits@));
                } else {
                    assert(spec_decimal(n as int) =~= spec_decimal(old_m) + rendered(
                        old_digits,
                    ));
                    assert(spec_decimal(n as int) =~= rendered(digits@));
                }
            }
        }
        if m == 0 {
            break;
        }
    }
    let mut s = String::new();
    let mut i: usize = digits.len();
    while i > 0
        invariant
            i <= digits@.len(),
            forall|k: int| 0 <= k < digits@.len() ==> #[trigger] digits@[k] < 10,
            spec_decimal(n as int) =~= rendered(digits@),
            s@ =~= spec_decimal(n as int).subrange(0, digits@.len() - i),
        decreases i,
    {
        let ghost pre = s@;
        i = i - 1;
        let d = digits[i];
        s.append(digit_str(d));
        proof {
            let len = digits@.len() as int;
            lemma_rendered_index(digits@, len - 1 - i);
            assert(s@ =~= pre.push(digit_char(d as int)));
            assert(s@ =~= spec_decimal(n as int).subrange(0, len - i));
        }
    }
    proof {
        assert(s@ =~= spec_decimal(n as int).subrange(0, spec_decimal(n as int).len() as int));
        assert(s@ =~= spec_decimal(n as int));
    }
    s
}

/// The decimal rendering of a signed number: a minus sign for negative
/// values, then the digits.
pub open spec fn spec_signed_decimal(n: int) -> Seq<char> {
    if n < 0 {
        seq!['-'] + spec_decimal(-n)
    } else {
        spec_decimal(n)
    }
}

/// Renders `n` in decimal, with a minus sign when negative.
pub fn i64_to_string(n: i64) -> (s: String)
    ensures
        s@ =~= spec_signed_decimal(n as int),
{
    if n < 0 {
        let mut s = String::new();
        s.append("-");
        let magnitude: u64 = if n == i64::MIN {
            9223372036854775808u64
        } else {
            (-n) as u64
        };
        proof {
            assert(magnitude as int == -(n as int)) by (bit_vector)
                requires
                    n < 0,
                    magnitude == (if n == i64::MIN {
                        9223372036854775808u64
                    } else {
                        (-n) as u64
                    }),
            ;
            reveal_strlit("-");
        }
        let digits = u64_to_string(magnitude);
        s.append(digits.as_str());
        s
    } else {
        u64_to_string(n as u64)
    }
}

/// Whether a string contains an interior nul character — the one thing the
/// engine's null-terminated string representation cannot carry.
pub fn contains_nul(s: &str) -> (r: bool)
    ensures
        r == s@.contains('\0'),
{
    let n = s.unicode_len();
    let mut i: usize = 0;
    while i < n
        invariant
            i <= n,
            n == s@.len(),
            forall|k: int| 0 <= k < i ==> s@[k] != '\0',
        decreases n - i,
    {
        if s.get_char(i) == '\0' {
            proof {
                assert(s@[i as int] == '\0');
            }
            return true;
        }
        i = i + 1;
    }
    proof {
        assert(forall|k: int| 0 <= k < s@.len() ==> s@[k] != '\0');
    }
    false
}

/// What `String::from_utf8_lossy` returns for the given bytes; a function
/// of the bytes alone.
pub uninterp spec fn lossy_of(bytes: Seq<u8>) -> Seq<char>;

/// Relies on `String::from_utf8_lossy`: decodes the bytes as UTF-8,
/// replacing invalid sequences with the replacement character.  The result
/// depends on the bytes alone, and no bytes decode to no characters.
#[verifier::external_body]
fn from_utf8_lossy(bytes: &[u8]) -> (r: String)
    ensures
        r@ =~= lossy_of(bytes@),
        bytes@.len() == 0 ==> r@.len() == 0,
{
    String::from_utf8_lossy(bytes).into_owned()
}

/// The index of the first zero byte at or after `from`, or `bytes.len()`
/// if there is none.
pub open spec fn find_nul_byte(bytes: Seq<u8>, from: int) -> int
    recommends
        0 <= from <= bytes.len(),
    decreases bytes.len() - from,
{
    if from < 0 || from >= bytes.len() {
        bytes.len() as int
    } else if bytes[from] == 0 {
        from
    } else {
        find_nul_byte(bytes, from + 1)
    }
}

proof fn lemma_find_nul_byte_is(bytes: Seq<u8>, from: int, idx: int)
    requires
        0 <= from <= idx <= bytes.len(),
        forall|k: int| from <= k < idx ==> bytes[k] != 0,
        idx < bytes.len() ==> bytes[idx] == 0,
    ensures
        find_nul_byte(bytes, from) == idx,
    decreases idx - from,
{
    if from < idx {
        lemma_find_nul_byte_is(bytes, from + 1, idx);
    }
}

/// Reads a C string handed over by the engine: absent (in the foreign
/// convention: null) pointers read as the empty string, otherwise the
/// bytes up to the first nul terminator are decoded as UTF-8, with invalid
/// sequences replaced.  Always succeeds; the `Result` shape mirrors the
/// uniform convention of the callers.
pub fn char_p_to_string(raw: Option<&[u8]>) -> (r: Result<String, crate::error::Error>)
    ensures
        r is Ok,
        match r {
            Result::Ok(s) => match raw {
                Option::Some(bytes) => s@ =~= lossy_of(
                    bytes@.take(find_nul_byte(bytes@, 0)),
                ),
                Option::None => s@.len() == 0,
            },
            Result::Err(_) => false,
        },
{
    match raw {
        Option::Some(bytes) => {
            let n = bytes.len();
            let mut prefix: Vec<u8> = Vec::new();
            let mut i: usize = 0;
            while i < n && bytes[i] != 0
                invariant
                    i <= n,
                    n == bytes@.len(),
                    forall|k: int| 0 <= k < i ==> bytes@[k] != 0,
                    prefix@ =~= bytes@.take(i as int),
                decreases n - i,
            {
                prefix.push(bytes[i]);
                i = i + 1;
            }
            proof {
                lemma_find_nul_byte_is(bytes@, 0, i as int);
            }
            Ok(from_utf8_lossy(prefix.as_slice()))
        },
        Option::None => Ok(String::new()),
    }
}

} // verus!
