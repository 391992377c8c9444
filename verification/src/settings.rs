//! How environment variables are read: switches and numbers.

use vstd::prelude::*;
use vstd::string::StrSliceExecFns;

use crate::policy::DecommissionPolicy;

verus! {

/// A character with an ASCII letter in lower case.
pub open spec fn ascii_lower(c: char) -> char {
    if 'A' <= c <= 'Z' {
        (c as u32 + 32) as char
    } else {
        c
    }
}

/// Whether two texts differ at most in the case of ASCII letters.
pub open spec fn same_ignoring_case(one: Seq<char>, other: Seq<char>) -> bool {
    &&& one.len() == other.len()
    &&& forall|i: int|
        0 <= i < one.len() ==> ascii_lower(#[trigger] one[i]) == ascii_lower(other[i])
}

/// Whether the value of a variable switches something on: "1", or "true" in any
/// case. A variable that is not set does not.
pub open spec fn switched_on(value: Option<Seq<char>>) -> bool {
    match value {
        Some(value) => value == "1"@ || same_ignoring_case(value, "true"@),
        None => false,
    }
}

/// The code of a character, with an ASCII letter in lower case.
fn lower_code(c: char) -> (code: u32)
    ensures
        code == ascii_lower(c) as u32,
{
    let code: u32 = c as u32;
    if code >= 65 && code <= 90 {
        code + 32
    } else {
        code
    }
}

/// Whether two texts differ at most in the case of ASCII letters.
pub fn eq_ignoring_ascii_case(one: &str, other: &str) -> (same: bool)
    ensures
        same == same_ignoring_case(one@, other@),
{
    let len: usize = one.unicode_len();
    if len != other.unicode_len() {
        return false;
    }
    let mut i: usize = 0;
    while i < len
        invariant
            i <= len,
            len == one@.len(),
            len == other@.len(),
            forall|j: int|
                0 <= j < i ==> ascii_lower(#[trigger] one@[j]) == ascii_lower(other@[j]),
        decreases len - i,
    {
        if lower_code(one.get_char(i)) != lower_code(other.get_char(i)) {
            assert(ascii_lower(one@[i as int]) != ascii_lower(other@[i as int]));
            return false;
        }
        i += 1;
    }
    true
}

/// Whether the value of a variable switches something on.
pub fn flag_enabled(value: &Option<String>) -> (enabled: bool)
    ensures
        enabled == switched_on(crate::pod::optional_text(*value)),
{
    match value {
        Some(value) => {
            crate::pod::same_text(value, "1") || eq_ignoring_ascii_case(value.as_str(), "true")
        },
        None => false,
    }
}

/// The policy that the controller runs under: the baseline, with early readiness
/// removal and drain verification switched on as the two variables say.
pub fn policy_from_env(
    early_readiness_removal: &Option<String>,
    drain_verification: &Option<String>,
) -> (policy: DecommissionPolicy)
    ensures
        policy == (DecommissionPolicy {
            graceful_shutdown_ordering: crate::policy::GracefulShutdownOrdering::NoOrdering,
            traffic_drain: crate::policy::TrafficDrainPolicy::NoDrain,
            verify_readiness_loss: false,
            early_readiness_removal: switched_on(
                crate::pod::optional_text(*early_readiness_removal),
            ),
            drain_verification: switched_on(crate::pod::optional_text(*drain_verification)),
            state_handover: None,
        }),
{
    let mut policy: DecommissionPolicy = DecommissionPolicy::default();
    policy.early_readiness_removal = flag_enabled(early_readiness_removal);
    policy.drain_verification = flag_enabled(drain_verification);
    policy
}

pub open spec fn is_digit(c: char) -> bool {
    '0' <= c <= '9'
}

/// The number that a row of decimal digits writes.
pub open spec fn digits_value(digits: Seq<char>) -> nat
    decreases digits.len(),
{
    if digits.len() == 0 {
        0
    } else {
        digits_value(digits.drop_last()) * 10 + (digits.last() as u32 - '0' as u32) as nat
    }
}

/// A text without the plus sign that it may start with.
pub open spec fn unsigned(text: Seq<char>) -> Seq<char> {
    if text.len() > 0 && text[0] == '+' {
        text.skip(1)
    } else {
        text
    }
}

/// The number that a text writes: decimal digits, at least one, and nothing else
/// but a plus sign in front.
pub open spec fn written_number(text: Seq<char>) -> Option<nat> {
    if unsigned(text).len() > 0 && forall|i: int|
        0 <= i < unsigned(text).len() ==> is_digit(#[trigger] unsigned(text)[i]) {
        Some(digits_value(unsigned(text)))
    } else {
        None
    }
}

/// The number that a variable gives, if it writes one that is not above `limit`,
/// else the default.
pub open spec fn number_or(value: Option<Seq<char>>, limit: nat, default: nat) -> nat {
    match value {
        Some(value) => match written_number(value) {
            Some(number) => if number <= limit {
                number
            } else {
                default
            },
            None => default,
        },
        None => default,
    }
}

/// More digits never make a number smaller.
proof fn digits_value_grows(digits: Seq<char>, count: int)
    requires
        0 <= count <= digits.len(),
        forall|i: int| 0 <= i < digits.len() ==> is_digit(#[trigger] digits[i]),
    ensures
        digits_value(digits.take(count)) <= digits_value(digits),
    decreases digits.len(),
{
    if count == digits.len() {
        assert(digits.take(count) =~= digits);
    } else {
        let shorter = digits.drop_last();
        digits_value_grows(shorter, count);
        assert(shorter.take(count) =~= digits.take(count));
    }
}

/// Reads an unsigned number.
pub fn parse_u64(text: &str) -> (number: Option<u64>)
    ensures
        number is Some <==> (written_number(text@) matches Some(value) && value <= u64::MAX),
        number matches Some(number) ==> written_number(text@) == Some(number as nat),
{
    let len: usize = text.unicode_len();
    let mut start: usize = 0;
    if len > 0 && text.get_char(0) == '+' {
        start = 1;
    }
    let ghost digits = unsigned(text@);
    if start == len {
        return None;
    }
    let mut value: u64 = 0;
    let mut i: usize = start;
    assert(digits.take(0) =~= Seq::empty());
    while i < len
        invariant
            start <= i <= len,
            start <= 1,
            len == text@.len(),
            digits == unsigned(text@),
            digits.len() == len - start,
            forall|j: int| 0 <= j < digits.len() ==> #[trigger] digits[j] == text@[j + start],
            forall|j: int| 0 <= j < i - start ==> is_digit(#[trigger] digits[j]),
            value == digits_value(digits.take(i - start)),
        decreases len - i,
    {
        let c: char = text.get_char(i);
        assert(digits[i - start] == c);
        let code: u32 = c as u32;
        if code < 48 || code > 57 {
            assert(!is_digit(digits[i - start]));
            return None;
        }
        let digit: u64 = (code - 48) as u64;
        proof {
            assert(digits.take(i - start + 1).drop_last() =~= digits.take(i - start));
            assert(digits_value(digits.take(i - start + 1)) == value * 10 + digit);
        }
        if value > (u64::MAX - digit) / 10 {
            proof {
                if forall|j: int| 0 <= j < digits.len() ==> is_digit(#[trigger] digits[j]) {
                    digits_value_grows(digits, i - start + 1);
                }
            }
            return None;
        }
        value = value * 10 + digit;
        i += 1;
    }
    assert(digits.take(len - start) =~= digits);
    Some(value)
}

/// Reads a 64-bit number from the value of a variable, with a default for one
/// that is not set or does not write such a number.
pub fn u64_or(value: &Option<String>, default: u64) -> (number: u64)
    ensures
        number == number_or(crate::pod::optional_text(*value), u64::MAX as nat, default as nat),
{
    match value {
        Some(value) => match parse_u64(value.as_str()) {
            Some(number) => number,
            None => default,
        },
        None => default,
    }
}

/// Reads a 32-bit number from the value of a variable, with a default for one
/// that is not set or does not write such a number.
pub fn u32_or(value: &Option<String>, default: u32) -> (number: u32)
    ensures
        number == number_or(crate::pod::optional_text(*value), u32::MAX as nat, default as nat),
{
    match value {
        Some(value) => match parse_u64(value.as_str()) {
            Some(number) => {
                if number <= u32::MAX as u64 {
                    number as u32
                } else {
                    default
                }
            },
            None => default,
        },
        None => default,
    }
}

/// The case of the letters of "true" does not matter to a switch.
pub proof fn switches_ignore_case(one: Seq<char>, other: Seq<char>)
    requires
        same_ignoring_case(one, other),
    ensures
        switched_on(Some(one)) == switched_on(Some(other)),
{
    reveal_strlit("1");
    assert(forall|c: char| #[trigger] ascii_lower(c) == '1' ==> c == '1');
    if one == "1"@ {
        assert(ascii_lower(one[0]) == ascii_lower(other[0]));
        assert(other =~= "1"@);
    }
    if other == "1"@ {
        assert(ascii_lower(one[0]) == ascii_lower(other[0]));
        assert(one =~= "1"@);
    }
    if same_ignoring_case(one, "true"@) {
        assert forall|i: int| 0 <= i < other.len() implies ascii_lower(#[trigger] other[i])
            == ascii_lower("true"@[i]) by {
            assert(ascii_lower(one[i]) == ascii_lower(other[i]));
        }
    }
    if same_ignoring_case(other, "true"@) {
        assert forall|i: int| 0 <= i < one.len() implies ascii_lower(#[trigger] one[i])
            == ascii_lower("true"@[i]) by {
            assert(ascii_lower(one[i]) == ascii_lower(other[i]));
        }
    }
}

/// Which values switch something on: "1", and the four letters of "true", each in
/// either case; no other value, and not a variable that is not set.
pub proof fn switch_values(value: Seq<char>)
    ensures
        switched_on(Some(value)) <==> {
            ||| value.len() == 1 && value[0] == '1'
            ||| {
                &&& value.len() == 4
                &&& value[0] == 't' || value[0] == 'T'
                &&& value[1] == 'r' || value[1] == 'R'
                &&& value[2] == 'u' || value[2] == 'U'
                &&& value[3] == 'e' || value[3] == 'E'
            }
        },
        !switched_on(None),
{
    reveal_strlit("1");
    reveal_strlit("true");
    if value.len() == 1 && value[0] == '1' {
        assert(value =~= "1"@);
    }
    if same_ignoring_case(value, "true"@) {
        assert(ascii_lower(value[0]) == ascii_lower("true"@[0]));
        assert(ascii_lower(value[1]) == ascii_lower("true"@[1]));
        assert(ascii_lower(value[2]) == ascii_lower("true"@[2]));
        assert(ascii_lower(value[3]) == ascii_lower("true"@[3]));
    }
}

/// Two texts are the same but for case exactly when they are equally long and differ
/// only where one has an ASCII capital and the other its small letter.
pub proof fn only_ascii_case_is_ignored(one: Seq<char>, other: Seq<char>)
    ensures
        same_ignoring_case(one, other) <==> one.len() == other.len() && forall|i: int|
            0 <= i < one.len() ==> {
                ||| #[trigger] one[i] == other[i]
                ||| 'A' <= one[i] <= 'Z' && other[i] as u32 == one[i] as u32 + 32
                ||| 'A' <= other[i] <= 'Z' && one[i] as u32 == other[i] as u32 + 32
            },
{
    if same_ignoring_case(one, other) {
        assert forall|i: int| 0 <= i < one.len() implies {
            ||| #[trigger] one[i] == other[i]
            ||| 'A' <= one[i] <= 'Z' && other[i] as u32 == one[i] as u32 + 32
            ||| 'A' <= other[i] <= 'Z' && one[i] as u32 == other[i] as u32 + 32
        } by {
            assert(ascii_lower(one[i]) == ascii_lower(other[i]));
        }
    }
}

/// A number below ten as a digit.
pub open spec fn digit(n: nat) -> char {
    ('0' as u32 + n) as char
}

/// A number written in decimal digits, without leading zeros.
pub open spec fn decimal(n: nat) -> Seq<char>
    decreases n,
{
    if n < 10 {
        seq![digit(n)]
    } else {
        decimal(n / 10).push(digit(n % 10))
    }
}

/// A number that is written out in decimal reads back as itself, with a plus sign in
/// front as well as without; one above the limit gives the default.
pub proof fn numbers_read_back(n: nat, limit: nat, default: nat)
    ensures
        written_number(decimal(n)) == Some(n),
        number_or(Some(decimal(n)), limit, default) == if n <= limit {
            n
        } else {
            default
        },
        number_or(Some(seq!['+'] + decimal(n)), limit, default) == if n <= limit {
            n
        } else {
            default
        },
{
    decimal_digits(n);
    assert((seq!['+'] + decimal(n)).skip(1) =~= decimal(n));
    assert(is_digit(decimal(n)[0]));
}

proof fn decimal_digits(n: nat)
    ensures
        decimal(n).len() > 0,
        forall|i: int| 0 <= i < decimal(n).len() ==> is_digit(#[trigger] decimal(n)[i]),
        digits_value(decimal(n)) == n,
    decreases n,
{
    if n < 10 {
        assert(decimal(n).drop_last() =~= Seq::empty());
        assert(digits_value(decimal(n).drop_last()) == 0);
    } else {
        decimal_digits(n / 10);
        assert(decimal(n).drop_last() =~= decimal(n / 10));
    }
}

/// A zero in front of a number does not change it.
pub proof fn leading_zeros_do_not_count(text: Seq<char>)
    requires
        text.len() > 0,
        text[0] != '+',
    ensures
        written_number(seq!['0'] + text) == written_number(text),
{
    let longer = seq!['0'] + text;
    if forall|i: int| 0 <= i < text.len() ==> is_digit(#[trigger] text[i]) {
        assert forall|i: int| 0 <= i < longer.len() implies is_digit(#[trigger] longer[i]) by {
            if i > 0 {
                assert(longer[i] == text[i - 1]);
            }
        }
        zero_in_front(text);
    } else {
        let i = choose|i: int| 0 <= i < text.len() && !is_digit(#[trigger] text[i]);
        assert(longer[i + 1] == text[i]);
    }
}

/// A plus sign in front of a number does not change it, and a second one spoils it.
pub proof fn plus_sign_does_not_count(text: Seq<char>)
    ensures
        text.len() > 0 && text[0] != '+' ==> written_number(seq!['+'] + text) == written_number(
            text,
        ),
        text.len() == 0 || text[0] == '+' ==> written_number(seq!['+'] + text) is None,
{
    assert((seq!['+'] + text).skip(1) =~= text);
    assert(!is_digit('+'));
}

proof fn zero_in_front(digits: Seq<char>)
    ensures
        digits_value(seq!['0'] + digits) == digits_value(digits),
    decreases digits.len(),
{
    if digits.len() == 0 {
        assert((seq!['0'] + digits).drop_last() =~= Seq::empty());
        assert(digits_value((seq!['0'] + digits).drop_last()) == 0);
    } else {
        zero_in_front(digits.drop_last());
        assert((seq!['0'] + digits).drop_last() =~= seq!['0'] + digits.drop_last());
    }
}

/// A text writes a number exactly when it has a digit and nothing but digits, apart from
/// one plus sign in front; otherwise the default holds, as it does for a variable that
/// is not set.
pub proof fn only_digits_write_numbers(text: Seq<char>, limit: nat, default: nat)
    ensures
        written_number(text) is Some <==> {
            &&& forall|i: int|
                0 <= i < text.len() ==> '0' <= #[trigger] text[i] <= '9' || i == 0 && text[i] == '+'
            &&& exists|i: int| 0 <= i < text.len() && '0' <= #[trigger] text[i] <= '9'
        },
        written_number(text) is None ==> number_or(Some(text), limit, default) == default,
        written_number(text) matches Some(n) ==> number_or(Some(text), limit, default) == if n
            <= limit {
            n
        } else {
            default
        },
        number_or(None, limit, default) == default,
{
    let digits = unsigned(text);
    let start: int = text.len() - digits.len();
    assert(forall|i: int| 0 <= i < digits.len() ==> #[trigger] digits[i] == text[i + start]);
    if written_number(text) is Some {
        assert forall|i: int| 0 <= i < text.len() implies '0' <= #[trigger] text[i] <= '9' || i == 0
            && text[i] == '+' by {
            if i >= start {
                assert(digits[i - start] == text[i]);
            }
        }
        assert(is_digit(digits[0]));
        assert('0' <= text[start] <= '9');
    }
    if (forall|i: int|
        0 <= i < text.len() ==> '0' <= #[trigger] text[i] <= '9' || i == 0 && text[i] == '+') && (
    exists|i: int| 0 <= i < text.len() && '0' <= #[trigger] text[i] <= '9') {
        assert forall|i: int| 0 <= i < digits.len() implies is_digit(#[trigger] digits[i]) by {
            assert('0' <= text[i + start] <= '9' || i + start == 0 && text[i + start] == '+');
        }
    }
}

} // verus!
