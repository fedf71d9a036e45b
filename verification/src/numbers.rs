use vstd::prelude::*;

verus! {

/// Why a line of compositor event text was rejected.
#[derive(Clone, Copy, Debug, PartialEq, Eq, Structural)]
pub enum ParseError {
    /// The line has no `>>` separator between event name and parameters.
    MissingSeparator,
    /// A known event name came with fewer comma-separated fields than it needs.
    NotEnoughParams,
    /// A numeric field is not a number of the expected base, or does not fit its type.
    InvalidInt,
}

pub open spec fn is_dec_digit(c: char) -> bool {
    '0' as u32 <= c as u32 && c as u32 <= '9' as u32
}

pub open spec fn dec_digit_val(c: char) -> nat
    recommends
        is_dec_digit(c),
{
    (c as u32 - '0' as u32) as nat
}

/// Value of a non-empty, all-decimal-digit string; `None` otherwise.
pub open spec fn dec_val(s: Seq<char>) -> Option<nat>
    decreases s.len(),
{
    if s.len() == 0 {
        None
    } else if s.len() == 1 {
        if is_dec_digit(s[0]) {
            Some(dec_digit_val(s[0]))
        } else {
            None
        }
    } else {
        match dec_val(s.drop_last()) {
            None => None,
            Some(v) => if is_dec_digit(s.last()) {
                Some(v * 10 + dec_digit_val(s.last()))
            } else {
                None
            },
        }
    }
}

/// A decimal string read as `i32`, with the sign conventions of Rust's `str::parse`:
/// one optional leading `+` or `-`, then at least one digit, and the value must fit.
pub open spec fn dec_i32(s: Seq<char>) -> Option<i32> {
    if s.len() > 0 && s[0] == '-' {
        match dec_val(s.skip(1)) {
            None => None,
            Some(v) => if v <= 0x8000_0000 {
                Some((-(v as int)) as i32)
            } else {
                None
            },
        }
    } else {
        let t = if s.len() > 0 && s[0] == '+' {
            s.skip(1)
        } else {
            s
        };
        match dec_val(t) {
            None => None,
            Some(v) => if v <= 0x7fff_ffff {
                Some(v as i32)
            } else {
                None
            },
        }
    }
}

pub open spec fn is_hex_digit(c: char) -> bool {
    ||| '0' as u32 <= c as u32 && c as u32 <= '9' as u32
    ||| 'a' as u32 <= c as u32 && c as u32 <= 'f' as u32
    ||| 'A' as u32 <= c as u32 && c as u32 <= 'F' as u32
}

pub open spec fn hex_digit_val(c: char) -> nat
    recommends
        is_hex_digit(c),
{
    if '0' as u32 <= c as u32 && c as u32 <= '9' as u32 {
        (c as u32 - '0' as u32) as nat
    } else if 'a' as u32 <= c as u32 && c as u32 <= 'f' as u32 {
        (c as u32 - 'a' as u32 + 10) as nat
    } else {
        (c as u32 - 'A' as u32 + 10) as nat
    }
}

/// Value of a non-empty, all-hex-digit string; `None` otherwise.
pub open spec fn hex_val(s: Seq<char>) -> Option<nat>
    decreases s.len(),
{
    if s.len() == 0 {
        None
    } else if s.len() == 1 {
        if is_hex_digit(s[0]) {
            Some(hex_digit_val(s[0]))
        } else {
            None
        }
    } else {
        match hex_val(s.drop_last()) {
            None => None,
            Some(v) => if is_hex_digit(s.last()) {
                Some(v * 16 + hex_digit_val(s.last()))
            } else {
                None
            },
        }
    }
}

/// A hexadecimal string read as `u64`, with the conventions of `u64::from_str_radix`:
/// one optional leading `+`, then at least one hex digit, and the value must fit.
pub open spec fn hex_u64(s: Seq<char>) -> Option<u64> {
    let t = if s.len() > 0 && s[0] == '+' {
        s.skip(1)
    } else {
        s
    };
    match hex_val(t) {
        None => None,
        Some(v) => if v <= u64::MAX {
            Some(v as u64)
        } else {
            None
        },
    }
}

/// Reading one more digit never shrinks the value of an all-digit prefix.
proof fn lemma_dec_val_prefix_le(s: Seq<char>, i: int)
    requires
        1 <= i <= s.len(),
        dec_val(s) is Some,
    ensures
        dec_val(s.take(i)) is Some,
        dec_val(s.take(i))->Some_0 <= dec_val(s)->Some_0,
    decreases s.len() - i,
{
    if i == s.len() {
        assert(s.take(i) =~= s);
    } else {
        lemma_dec_val_prefix_le(s, i + 1);
        let t = s.take(i + 1);
        assert(t.drop_last() =~= s.take(i));
        assert(t.last() == s[i]);
        assert(dec_val(t) is Some ==> dec_val(t.drop_last()) is Some);
    }
}

proof fn lemma_hex_val_prefix_le(s: Seq<char>, i: int)
    requires
        1 <= i <= s.len(),
        hex_val(s) is Some,
    ensures
        hex_val(s.take(i)) is Some,
        hex_val(s.take(i))->Some_0 <= hex_val(s)->Some_0,
    decreases s.len() - i,
{
    if i == s.len() {
        assert(s.take(i) =~= s);
    } else {
        lemma_hex_val_prefix_le(s, i + 1);
        let t = s.take(i + 1);
        assert(t.drop_last() =~= s.take(i));
        assert(t.last() == s[i]);
        assert(hex_val(t) is Some ==> hex_val(t.drop_last()) is Some);
    }
}

/// Reads the digit run of `s` starting at `from`, accumulating its decimal value,
/// or reports that `s.skip(from)` is not a well-formed bounded number.
fn dec_run_val(s: &str, from: usize, bound: u64) -> (r: Option<u64>)
    requires
        from <= s@.len(),
        bound <= 0x8000_0000,
    ensures
        match r {
            Some(v) => dec_val(s@.skip(from as int)) == Some(v as nat) && v <= bound,
            None => ({
                ||| dec_val(s@.skip(from as int)) is None
                ||| dec_val(s@.skip(from as int))->Some_0 > bound
            }),
        },
{
    let n = s.unicode_len();
    if from == n {
        return None;
    }
    let ghost t = s@.skip(from as int);
    let mut acc: u64 = 0;
    let mut i: usize = from;
    while i < n
        invariant
            from < n <= s@.len(),
            n == s@.len(),
            from <= i <= n,
            t == s@.skip(from as int),
            bound <= 0x8000_0000,
            i > from ==> dec_val(t.take(i - from)) == Some(acc as nat),
            i == from ==> acc == 0,
            acc <= bound,
        decreases n - i,
    {
        let c = s.get_char(i);
        let cv = c as u32;
        if !(48 <= cv && cv <= 57) {
            proof {
                assert(t[i - from] == s@[i as int]);
                assert(!is_dec_digit(t[i - from]));
                lemma_dec_val_not_digit(t, i - from);
            }
            return None;
        }
        let d: u64 = (cv - 48) as u64;
        proof {
            assert(is_dec_digit(s@[i as int]));
            assert(t[i - from] == s@[i as int]);
            assert(t.take(i - from + 1).drop_last() =~= t.take(i - from));
            assert(t.take(i - from + 1).last() == t[i - from]);
            if i == from {
                assert(t.take(1) =~= seq![t[0]]);
            }
        }
        let next: u64 = acc * 10 + d;
        if next > bound {
            proof {
                assert(dec_val(t.take(i - from + 1)) == Some(next as nat));
                if dec_val(t) is Some {
                    lemma_dec_val_prefix_le(t, i - from + 1);
                }
            }
            return None;
        }
        acc = next;
        i += 1;
    }
    proof {
        assert(t.take(n - from) =~= t);
    }
    Some(acc)
}

/// A string that stops being digits somewhere has no decimal value.
proof fn lemma_dec_val_not_digit(s: Seq<char>, i: int)
    requires
        0 <= i < s.len(),
        !is_dec_digit(s[i]),
    ensures
        dec_val(s) is None,
    decreases s.len(),
{
    if s.len() > 1 {
        if i < s.len() - 1 {
            lemma_dec_val_not_digit(s.drop_last(), i);
        }
    }
}

proof fn lemma_hex_val_not_digit(s: Seq<char>, i: int)
    requires
        0 <= i < s.len(),
        !is_hex_digit(s[i]),
    ensures
        hex_val(s) is None,
    decreases s.len(),
{
    if s.len() > 1 {
        if i < s.len() - 1 {
            lemma_hex_val_not_digit(s.drop_last(), i);
        }
    }
}

/// Decimal `i32` parsing with the same accepted shapes as `str::parse::<i32>`.
pub fn parse_i32(s: &str) -> (r: Result<i32, ParseError>)
    ensures
        match r {
            Ok(v) => dec_i32(s@) == Some(v),
            Err(e) => dec_i32(s@) is None && e == ParseError::InvalidInt,
        },
{
    let n = s.unicode_len();
    if n == 0 {
        return Err(ParseError::InvalidInt);
    }
    let first = s.get_char(0);
    if first == '-' {
        match dec_run_val(s, 1, 0x8000_0000) {
            None => Err(ParseError::InvalidInt),
            Some(v) => {
                let r: i32 = if v == 0x8000_0000 {
                    i32::MIN
                } else {
                    -((v as i32))
                };
                proof {
                    assert(dec_i32(s@) == Some(r));
                }
                Ok(r)
            },
        }
    } else if first == '+' {
        match dec_run_val(s, 1, 0x7fff_ffff) {
            None => Err(ParseError::InvalidInt),
            Some(v) => Ok(v as i32),
        }
    } else {
        proof {
            assert(s@.skip(0) =~= s@);
        }
        match dec_run_val(s, 0, 0x7fff_ffff) {
            None => Err(ParseError::InvalidInt),
            Some(v) => Ok(v as i32),
        }
    }
}

/// Reads the hex digit run of `s` starting at `from`, accumulating its value in a
/// wide accumulator so that exceeding `u64` is detected exactly.
fn hex_run_val(s: &str, from: usize) -> (r: Option<u64>)
    requires
        from <= s@.len(),
    ensures
        match r {
            Some(v) => hex_val(s@.skip(from as int)) == Some(v as nat),
            None => ({
                ||| hex_val(s@.skip(from as int)) is None
                ||| hex_val(s@.skip(from as int))->Some_0 > u64::MAX
            }),
        },
{
    let n = s.unicode_len();
    if from == n {
        return None;
    }
    let ghost t = s@.skip(from as int);
    let mut acc: u128 = 0;
    let mut i: usize = from;
    while i < n
        invariant
            from < n <= s@.len(),
            n == s@.len(),
            from <= i <= n,
            t == s@.skip(from as int),
            i > from ==> hex_val(t.take(i - from)) == Some(acc as nat),
            i == from ==> acc == 0,
            acc <= u64::MAX,
        decreases n - i,
    {
        let c = s.get_char(i);
        let cv = c as u32;
        let d: u128 = if 48 <= cv && cv <= 57 {
            (cv - 48) as u128
        } else if 97 <= cv && cv <= 102 {
            (cv - 97 + 10) as u128
        } else if 65 <= cv && cv <= 70 {
            (cv - 65 + 10) as u128
        } else {
            proof {
                assert(t[i - from] == s@[i as int]);
                assert(!is_hex_digit(t[i - from]));
                lemma_hex_val_not_digit(t, i - from);
            }
            return None;
        };
        proof {
            assert(is_hex_digit(s@[i as int]));
            assert(t[i - from] == s@[i as int]);
            assert(d == hex_digit_val(t[i - from]));
            assert(t.take(i - from + 1).drop_last() =~= t.take(i - from));
            assert(t.take(i - from + 1).last() == t[i - from]);
            if i == from {
                assert(t.take(1) =~= seq![t[0]]);
            }
        }
        let next: u128 = acc * 16 + d;
        if next > u64::MAX as u128 {
            proof {
                assert(hex_val(t.take(i - from + 1)) == Some(next as nat));
                if hex_val(t) is Some {
                    lemma_hex_val_prefix_le(t, i - from + 1);
                }
            }
            return None;
        }
        acc = next;
        i += 1;
    }
    proof {
        assert(t.take(n - from) =~= t);
    }
    Some(acc as u64)
}

/// Hexadecimal `u64` parsing with the same accepted shapes as
/// `u64::from_str_radix(s, 16)`.
pub fn parse_hex_u64(s: &str) -> (r: Result<u64, ParseError>)
    ensures
        match r {
            Ok(v) => hex_u64(s@) == Some(v),
            Err(e) => hex_u64(s@) is None && e == ParseError::InvalidInt,
        },
{
    let n = s.unicode_len();
    if n > 0 && s.get_char(0) == '+' {
        match hex_run_val(s, 1) {
            None => Err(ParseError::InvalidInt),
            Some(v) => Ok(v),
        }
    } else {
        proof {
            assert(s@.skip(0) =~= s@);
        }
        match hex_run_val(s, 0) {
            None => Err(ParseError::InvalidInt),
            Some(v) => Ok(v),
        }
    }
}

/// The decimal digits of `n`, most significant first.
pub open spec fn dec_str(n: nat) -> Seq<char>
    decreases n,
{
    if n < 10 {
        seq![dec_digit_char(n)]
    } else {
        dec_str(n / 10) + seq![dec_digit_char(n % 10)]
    }
}

pub open spec fn dec_digit_char(d: nat) -> char
    recommends
        d < 10,
{
    ((48 + d) as u8) as char
}

/// The decimal digits of `n` with a leading `-` when `n` is negative.
pub open spec fn dec_str_signed(n: int) -> Seq<char> {
    if n < 0 {
        seq!['-'] + dec_str((-n) as nat)
    } else {
        dec_str(n as nat)
    }
}

fn dec_digit_str(d: u64) -> (r: &'static str)
    requires
        d < 10,
    ensures
        r@ == seq![dec_digit_char(d as nat)],
{
    proof {
        reveal_strlit("0");
        reveal_strlit("1");
        reveal_strlit("2");
        reveal_strlit("3");
        reveal_strlit("4");
        reveal_strlit("5");
        reveal_strlit("6");
        reveal_strlit("7");
        reveal_strlit("8");
        reveal_strlit("9");
    }
    match d {
        0 => "0",
        1 => "1",
        2 => "2",
        3 => "3",
        4 => "4",
        5 => "5",
        6 => "6",
        7 => "7",
        8 => "8",
        _ => "9",
    }
}

/// Formats `n` in decimal, exactly as the compositor's text protocol writes numbers.
pub fn u64_to_string(n: u64) -> (r: String)
    ensures
        r@ == dec_str(n as nat),
    decreases n,
{
    if n < 10 {
        String::from_str(dec_digit_str(n))
    } else {
        let high = u64_to_string(n / 10);
        let r = high.concat(dec_digit_str(n % 10));
        r
    }
}

/// Formats `n` in decimal with its sign.
pub fn i64_to_string(n: i64) -> (r: String)
    ensures
        r@ == dec_str_signed(n as int),
{
    if n < 0 {
        let mag: u64 = if n == i64::MIN {
            0x8000_0000_0000_0000
        } else {
            (-n) as u64
        };
        proof {
            reveal_strlit("-");
        }
        let mut r = String::from_str("-");
        let digits = u64_to_string(mag);
        r.append(digits.as_str());
        r
    } else {
        u64_to_string(n as u64)
    }
}

/// Formats a workspace or monitor id with its sign.
pub fn i32_to_string(n: i32) -> (r: String)
    ensures
        r@ == dec_str_signed(n as int),
{
    i64_to_string(n as i64)
}

} // verus!
