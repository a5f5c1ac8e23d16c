//! What a helper finds in its environment, and how its parent puts it there.

use vstd::prelude::*;
use crate::bytes;
use crate::bytes::{contains_byte, copy_bytes, copy_strings, put_bytes, same_bytes};
use crate::bootstrap::error::BootstrapError;

verus! {

/// `NATIVE_IPC_MACH_NONCE`
pub const ENV_NONCE: [u8; 21] = [
    0x4e, 0x41, 0x54, 0x49, 0x56, 0x45, 0x5f, 0x49, 0x50, 0x43, 0x5f, 0x4d, 0x41, 0x43, 0x48,
    0x5f, 0x4e, 0x4f, 0x4e, 0x43, 0x45,
];

/// `NATIVE_IPC_PARENT_PID`
pub const ENV_PARENT_PID: [u8; 21] = [
    0x4e, 0x41, 0x54, 0x49, 0x56, 0x45, 0x5f, 0x49, 0x50, 0x43, 0x5f, 0x50, 0x41, 0x52, 0x45,
    0x4e, 0x54, 0x5f, 0x50, 0x49, 0x44,
];

/// `=`
pub const EQUALS: u8 = 0x3d;

/// `+`
pub const PLUS: u8 = 0x2b;

/// The hexadecimal digit of a value below 16.
pub open spec fn hex_digit(value: int) -> u8 {
    if value < 10 {
        (0x30 + value) as u8
    } else {
        (0x57 + value) as u8
    }
}

/// The value of a hexadecimal digit in either case; 16 for any other byte.
pub open spec fn hex_value(digit: u8) -> int {
    if 0x30 <= digit <= 0x39 {
        digit - 0x30
    } else if 0x61 <= digit <= 0x66 {
        digit - 0x57
    } else if 0x41 <= digit <= 0x46 {
        digit - 0x37
    } else {
        16
    }
}

/// The lower-case hexadecimal form of a string.
pub open spec fn hex_of(bytes: Seq<u8>) -> Seq<u8> {
    Seq::new(
        2 * bytes.len(),
        |i: int|
            if i % 2 == 0 {
                hex_digit(bytes[i / 2] as int / 16)
            } else {
                hex_digit(bytes[i / 2] as int % 16)
            },
    )
}

/// The byte that two characters stand for; 256 where they stand for none. A plus sign may stand
/// before one digit.
pub open spec fn pair_value(first: u8, second: u8) -> int {
    if first == PLUS && hex_value(second) < 16 {
        hex_value(second)
    } else if hex_value(first) < 16 && hex_value(second) < 16 {
        16 * hex_value(first) + hex_value(second)
    } else {
        256
    }
}

/// Whether 64 characters stand for 32 bytes.
pub open spec fn is_nonce(encoded: Seq<u8>) -> bool {
    &&& encoded.len() == 64
    &&& forall|i: int|
        0 <= i < 32 ==> #[trigger] pair_value(encoded[2 * i], encoded[2 * i + 1]) < 256
}

/// The 32 bytes that 64 characters stand for.
pub open spec fn nonce_in(encoded: Seq<u8>) -> Seq<u8> {
    Seq::new(32, |i: int| pair_value(encoded[2 * i], encoded[2 * i + 1]) as u8)
}

fn digit_of(value: u8) -> (r: u8)
    requires
        value < 16,
    ensures
        r == hex_digit(value as int),
{
    if value < 10 {
        0x30 + value
    } else {
        0x57 + value
    }
}

fn value_of(digit: u8) -> (r: u8)
    ensures
        r == hex_value(digit),
{
    if 0x30 <= digit && digit <= 0x39 {
        digit - 0x30
    } else if 0x61 <= digit && digit <= 0x66 {
        digit - 0x57
    } else if 0x41 <= digit && digit <= 0x46 {
        digit - 0x37
    } else {
        16
    }
}

/// Writes a string in hexadecimal.
pub fn hex(bytes: &[u8]) -> (r: Vec<u8>)
    ensures
        r@ == hex_of(bytes@),
{
    let mut out: Vec<u8> = Vec::new();
    let mut i: usize = 0;
    while i < bytes.len()
        invariant
            i <= bytes@.len(),
            out@.len() == 2 * i,
            forall|k: int| 0 <= k < 2 * i ==> out@[k] == hex_of(bytes@)[k],
        decreases bytes@.len() - i,
    {
        out.push(digit_of(bytes[i] / 16));
        out.push(digit_of(bytes[i] % 16));
        i += 1;
    }
    assert(out@ =~= hex_of(bytes@));
    out
}

/// Reads a nonce.
pub fn parse_nonce(encoded: &[u8]) -> (r: Result<[u8; 32], BootstrapError>)
    ensures
        match r {
            Ok(nonce) => is_nonce(encoded@) && nonce@ == nonce_in(encoded@),
            Err(error) => !is_nonce(encoded@) && error == BootstrapError::InvalidEnvironment,
        },
{
    if encoded.len() != 64 {
        return Err(BootstrapError::InvalidEnvironment);
    }
    let mut nonce: [u8; 32] = [0u8;32];
    let mut i: usize = 0;
    while i < 32
        invariant
            i <= 32,
            encoded@.len() == 64,
            forall|k: int|
                0 <= k < i ==> #[trigger] pair_value(encoded@[2 * k], encoded@[2 * k + 1]) < 256,
            forall|k: int| 0 <= k < i ==> nonce@[k] == nonce_in(encoded@)[k],
        decreases 32 - i,
    {
        let first: u8 = encoded[2 * i];
        let second: u8 = encoded[2 * i + 1];
        let low: u8 = value_of(second);
        let high: u8 = value_of(first);
        assert(hex_value(PLUS) == 16);
        if low >= 16 || (first != PLUS && high >= 16) {
            assert(!(pair_value(encoded@[2 * i as int], encoded@[2 * i as int + 1]) < 256));
            return Err(BootstrapError::InvalidEnvironment);
        }
        assert(pair_value(encoded@[2 * i as int], encoded@[2 * i as int + 1]) < 256);
        nonce[i] = if first == PLUS {
            low
        } else {
            16 * high + low
        };
        i += 1;
    }
    assert(nonce@ =~= nonce_in(encoded@));
    Ok(nonce)
}

/// A nonce reads back from what is written for it.
pub proof fn law_nonce_round_trip(nonce: Seq<u8>)
    requires
        nonce.len() == 32,
    ensures
        is_nonce(hex_of(nonce)),
        nonce_in(hex_of(nonce)) == nonce,
{
    let encoded = hex_of(nonce);
    assert forall|i: int| 0 <= i < 32 implies #[trigger] pair_value(
        encoded[2 * i],
        encoded[2 * i + 1],
    ) == nonce[i] by {
        assert(encoded[2 * i] == hex_digit(nonce[i] as int / 16));
        assert(encoded[2 * i + 1] == hex_digit(nonce[i] as int % 16));
        assert(0 <= nonce[i] / 16 < 16);
        assert(0 <= nonce[i] % 16 < 16);
    }
    assert forall|i: int| 0 <= i < 32 implies nonce_in(encoded)[i] == nonce[i] by {
        assert(pair_value(encoded[2 * i], encoded[2 * i + 1]) == nonce[i]);
    }
    assert(nonce_in(encoded) =~= nonce);
}

/// Whether every byte is a decimal digit.
pub open spec fn all_digits(text: Seq<u8>) -> bool {
    forall|i: int| 0 <= i < text.len() ==> 0x30 <= #[trigger] text[i] <= 0x39
}

/// The number that decimal digits stand for.
pub open spec fn decimal_value(text: Seq<u8>) -> nat
    decreases text.len(),
{
    if text.len() == 0 {
        0
    } else {
        (10 * decimal_value(text.drop_last()) + (text.last() - 0x30)) as nat
    }
}

/// The digits of a number, without leading zeros.
pub open spec fn decimal_of(value: nat) -> Seq<u8>
    decreases value,
{
    if value < 10 {
        seq![(0x30 + value) as u8]
    } else {
        decimal_of(value / 10).push((0x30 + value % 10) as u8)
    }
}

/// What follows an optional plus sign.
pub open spec fn unsigned_part(text: Seq<u8>) -> Seq<u8> {
    if text.len() > 0 && text[0] == PLUS {
        text.subrange(1, text.len() as int)
    } else {
        text
    }
}

/// The process number that a text stands for.
pub open spec fn pid_in(text: Seq<u8>) -> Option<u32> {
    let digits = unsigned_part(text);
    if digits.len() > 0 && all_digits(digits) && decimal_value(digits) <= u32::MAX {
        Some(decimal_value(digits) as u32)
    } else {
        None
    }
}

/// A number only grows with further digits.
proof fn lemma_decimal_grows(text: Seq<u8>, count: int)
    requires
        all_digits(text),
        0 <= count <= text.len(),
    ensures
        decimal_value(text.take(count)) <= decimal_value(text),
    decreases text.len() - count,
{
    if count < text.len() {
        lemma_decimal_grows(text, count + 1);
        let next = text.take(count + 1);
        assert(next.drop_last() =~= text.take(count));
        assert(next.last() == text[count]);
    } else {
        assert(text.take(count) =~= text);
    }
}

/// Reads a process number.
pub fn parse_pid(text: &[u8]) -> (r: Option<u32>)
    ensures
        r == pid_in(text@),
{
    let length: usize = text.len();
    let start: usize = if length > 0 && text[0] == PLUS {
        1
    } else {
        0
    };
    let ghost digits = unsigned_part(text@);
    assert(digits =~= text@.subrange(start as int, text@.len() as int));
    if start == length {
        return None;
    }
    let mut value: u32 = 0;
    let mut i: usize = start;
    assert(digits.take(0) =~= seq![]);
    while i < length
        invariant
            start <= i <= length == text@.len(),
            start < length,
            digits == text@.subrange(start as int, text@.len() as int),
            digits == unsigned_part(text@),
            value == decimal_value(digits.take(i - start)),
            forall|k: int| 0 <= k < i - start ==> 0x30 <= #[trigger] digits[k] <= 0x39,
        decreases length - i,
    {
        let digit: u8 = text[i];
        let ghost at = i - start;
        assert(digits[at] == digit);
        if digit < 0x30 || digit > 0x39 {
            return None;
        }
        proof {
            let next = digits.take(at + 1);
            assert(next.drop_last() =~= digits.take(at));
            assert(next.last() == digit);
            if all_digits(digits) {
                lemma_decimal_grows(digits, at + 1);
            }
        }
        match value.checked_mul(10) {
            None => {
                return None;
            },
            Some(shifted) => match shifted.checked_add((digit - 0x30) as u32) {
                None => {
                    return None;
                },
                Some(next) => {
                    value = next;
                },
            },
        }
        i += 1;
    }
    assert(digits.take(length - start) =~= digits);
    Some(value)
}

/// Writes a number in decimal.
pub fn decimal(value: u32) -> (r: Vec<u8>)
    ensures
        r@ == decimal_of(value as nat),
    decreases value,
{
    if value < 10 {
        let mut out: Vec<u8> = Vec::new();
        out.push(0x30 + value as u8);
        assert(out@ =~= decimal_of(value as nat));
        out
    } else {
        let mut out = decimal(value / 10);
        out.push(0x30 + (value % 10) as u8);
        out
    }
}

/// The digits of a number stand for it, and the first of them is no sign.
proof fn lemma_decimal_round_trip(value: nat)
    ensures
        decimal_of(value).len() > 0,
        all_digits(decimal_of(value)),
        decimal_value(decimal_of(value)) == value,
    decreases value,
{
    let text = decimal_of(value);
    if value < 10 {
        assert(text.drop_last() =~= seq![]);
        assert(decimal_value(text.drop_last()) == 0);
    } else {
        lemma_decimal_round_trip(value / 10);
        let before = decimal_of(value / 10);
        assert(text.drop_last() =~= before);
        assert(text.last() == 0x30 + value % 10);
        assert(decimal_value(text) == 10 * (value / 10) + value % 10);
        assert forall|i: int| 0 <= i < text.len() implies 0x30 <= #[trigger] text[i] <= 0x39 by {
            if i < before.len() {
                assert(text[i] == before[i]);
            }
        }
    }
}

/// A process number reads back from what is written for it.
pub proof fn law_pid_round_trip(pid: u32)
    ensures
        pid_in(decimal_of(pid as nat)) == Some(pid),
{
    let text = decimal_of(pid as nat);
    lemma_decimal_round_trip(pid as nat);
    assert(0x30 <= text[0] <= 0x39);
    assert(unsigned_part(text) == text);
}

/// The values of the two variables that a helper looks for.
pub struct ChildEnvironment {
    pub nonce: Option<Vec<u8>>,
    pub parent_pid: Option<Vec<u8>>,
}

/// What the two variables say.
pub open spec fn environment_says(nonce: Option<Seq<u8>>, parent_pid: Option<Seq<u8>>) -> Option<
    (Seq<u8>, u32),
> {
    match (nonce, parent_pid) {
        (Some(nonce), Some(pid)) => if is_nonce(nonce) && pid_in(pid) is Some {
            Some((nonce_in(nonce), pid_in(pid)->0))
        } else {
            None
        },
        _ => None,
    }
}

impl ChildEnvironment {
    /// What the variables say.
    pub open spec fn says(self) -> Option<(Seq<u8>, u32)> {
        environment_says(
            match self.nonce {
                Some(value) => Some(value@),
                None => None,
            },
            match self.parent_pid {
                Some(value) => Some(value@),
                None => None,
            },
        )
    }

    /// Reads the nonce and the process number of the parent.
    pub fn parse(&self) -> (r: Result<([u8; 32], u32), BootstrapError>)
        ensures
            match (r, self.says()) {
                (Ok((nonce, pid)), Some(expected)) => nonce@ == expected.0 && pid == expected.1,
                (Err(error), None) => error == BootstrapError::InvalidEnvironment,
                _ => false,
            },
    {
        let nonce = match &self.nonce {
            None => {
                return Err(BootstrapError::InvalidEnvironment);
            },
            Some(encoded) => match parse_nonce(encoded) {
                Ok(nonce) => nonce,
                Err(error) => {
                    return Err(error);
                },
            },
        };
        match &self.parent_pid {
            None => Err(BootstrapError::InvalidEnvironment),
            Some(text) => match parse_pid(text) {
                None => Err(BootstrapError::InvalidEnvironment),
                Some(pid) => Ok((nonce, pid)),
            },
        }
    }
}

/// `key=value`
pub open spec fn variable(key: Seq<u8>, value: Seq<u8>) -> Seq<u8> {
    key + seq![EQUALS] + value
}

fn make_variable(key: &[u8], value: &[u8]) -> (r: Vec<u8>)
    ensures
        r@ == variable(key@, value@),
{
    let mut out: Vec<u8> = Vec::new();
    put_bytes(&mut out, key);
    out.push(EQUALS);
    put_bytes(&mut out, value);
    assert(out@ =~= variable(key@, value@));
    out
}

/// What a helper inherits: every variable but the two that the parent sets, unless it holds a NUL.
pub open spec fn inherited(parent: Seq<(Seq<u8>, Seq<u8>)>) -> Seq<Seq<u8>>
    decreases parent.len(),
{
    if parent.len() == 0 {
        seq![]
    } else {
        let (key, value) = parent.last();
        let before = inherited(parent.drop_last());
        if key == ENV_NONCE@ || key == ENV_PARENT_PID@ || variable(key, value).contains(0) {
            before
        } else {
            before.push(variable(key, value))
        }
    }
}

/// Keys and values as sequences.
pub open spec fn pairs(list: Seq<(Vec<u8>, Vec<u8>)>) -> Seq<(Seq<u8>, Seq<u8>)> {
    list.map_values(|pair: (Vec<u8>, Vec<u8>)| (pair.0@, pair.1@))
}

/// What a helper inherits from the environment of its parent.
pub fn inherited_environment(parent: &Vec<(Vec<u8>, Vec<u8>)>) -> (r: Vec<Vec<u8>>)
    ensures
        bytes::strings(r@) == inherited(pairs(parent@)),
{
    let ghost all = pairs(parent@);
    let mut out: Vec<Vec<u8>> = Vec::new();
    assert(all.take(0) =~= seq![]);
    assert(bytes::strings(out@) =~= seq![]);
    let mut i: usize = 0;
    while i < parent.len()
        invariant
            i <= parent@.len(),
            all == pairs(parent@),
            bytes::strings(out@) == inherited(all.take(i as int)),
        decreases parent@.len() - i,
    {
        let ghost before = bytes::strings(out@);
        let key = &parent[i].0;
        let value = &parent[i].1;
        proof {
            let next = all.take(i + 1);
            assert(next.drop_last() =~= all.take(i as int));
            assert(next.last() == (key@, value@));
        }
        let entry = make_variable(key, value);
        if !same_bytes(key, &ENV_NONCE) && !same_bytes(key, &ENV_PARENT_PID) && !contains_byte(
            &entry,
            0,
        ) {
            out.push(entry);
            assert(bytes::strings(out@) =~= before.push(entry@));
        }
        i += 1;
    }
    assert(all.take(i as int) =~= all);
    out
}

/// The environment of a helper: what it is given, the nonce, and the process of its parent.
pub fn helper_environment(environment: Vec<Vec<u8>>, nonce: &[u8; 32], parent_pid: u32) -> (r: Vec<
    Vec<u8>,
>)
    ensures
        bytes::strings(r@)
            == bytes::strings(environment@).push(variable(ENV_NONCE@, hex_of(nonce@))).push(
            variable(ENV_PARENT_PID@, decimal_of(parent_pid as nat)),
        ),
{
    let ghost given = bytes::strings(environment@);
    let mut out = environment;
    let first = make_variable(&ENV_NONCE, &hex(nonce));
    let second = make_variable(&ENV_PARENT_PID, &decimal(parent_pid));
    out.push(first);
    out.push(second);
    assert(bytes::strings(out@) =~= given.push(first@).push(second@));
    out
}

/// The arguments of a helper.
pub open spec fn helper_argv(
    path: Seq<u8>,
    arguments: Seq<Seq<u8>>,
    arguments_include_arg0: bool,
) -> Seq<Seq<u8>> {
    if arguments_include_arg0 {
        arguments
    } else {
        seq![path] + arguments
    }
}

/// Argv of a helper: the path stands first, unless the arguments already start with a name.
pub fn helper_arguments(path: &[u8], arguments: &Vec<Vec<u8>>, arguments_include_arg0: bool) -> (r:
    Vec<Vec<u8>>)
    ensures
        bytes::strings(r@) == helper_argv(
            path@,
            bytes::strings(arguments@),
            arguments_include_arg0,
        ),
{
    let mut rest = copy_strings(arguments);
    if arguments_include_arg0 {
        return rest;
    }
    let mut out: Vec<Vec<u8>> = Vec::new();
    out.push(copy_bytes(path));
    out.append(&mut rest);
    assert(bytes::strings(out@) =~= seq![path@] + bytes::strings(arguments@));
    out
}

/// A helper finds what its parent puts there: the two variables that the parent writes say its
/// nonce and its process.
pub proof fn law_helper_finds_its_parent(nonce: Seq<u8>, parent_pid: u32)
    requires
        nonce.len() == 32,
    ensures
        environment_says(
            Some(hex_of(nonce)),
            Some(decimal_of(parent_pid as nat)),
        ) == Some((nonce, parent_pid)),
{
    law_nonce_round_trip(nonce);
    law_pid_round_trip(parent_pid);
}

/// Whether a variable of the parent is passed on: it is neither of the two that name the parent,
/// and holds no NUL.
pub open spec fn ordinary(pair: (Seq<u8>, Seq<u8>)) -> bool {
    &&& pair.0 != ENV_NONCE@
    &&& pair.0 != ENV_PARENT_PID@
    &&& !pair.0.contains(0)
    &&& !pair.1.contains(0)
}

/// A helper inherits every ordinary variable of its parent as `key=value`, in the parent's order
/// and as often as it is there, and nothing else.
pub proof fn law_helper_inherits_every_ordinary_variable(parent: Seq<(Seq<u8>, Seq<u8>)>)
    ensures
        inherited(parent) == parent.filter(|pair: (Seq<u8>, Seq<u8>)| ordinary(pair)).map_values(
            |pair: (Seq<u8>, Seq<u8>)| pair.0 + seq![0x3du8] + pair.1,
        ),
    decreases parent.len(),
{
    reveal(Seq::filter);
    let keep = |pair: (Seq<u8>, Seq<u8>)| ordinary(pair);
    let text = |pair: (Seq<u8>, Seq<u8>)| pair.0 + seq![0x3du8] + pair.1;
    if parent.len() > 0 {
        let rest = parent.drop_last();
        let (key, value) = parent.last();
        law_helper_inherits_every_ordinary_variable(rest);
        lemma_variable_holds_nul(key, value);
        assert(parent.filter(keep).map_values(text) =~= if ordinary((key, value)) {
            rest.filter(keep).map_values(text).push(text((key, value)))
        } else {
            rest.filter(keep).map_values(text)
        });
    } else {
        assert(parent.filter(keep).map_values(text) =~= seq![]);
    }
}

/// A variable holds a NUL where its key or its value does.
proof fn lemma_variable_holds_nul(key: Seq<u8>, value: Seq<u8>)
    ensures
        variable(key, value).contains(0) <==> key.contains(0) || value.contains(0),
{
    let whole = variable(key, value);
    if key.contains(0) {
        let i = key.index_of(0);
        assert(whole[i] == 0);
    }
    if value.contains(0) {
        let i = value.index_of(0);
        assert(whole[key.len() + 1 + i] == 0);
    }
    if whole.contains(0) {
        let i = whole.index_of(0);
        if i < key.len() {
            assert(key[i] == 0);
        } else {
            assert(value[i - key.len() - 1] == 0);
        }
    }
}

/// What is passed on from two environments in a row is what is passed on from each.
pub proof fn law_inheritance_is_piecewise(
    first: Seq<(Seq<u8>, Seq<u8>)>,
    second: Seq<(Seq<u8>, Seq<u8>)>,
)
    ensures
        inherited(first + second) == inherited(first) + inherited(second),
    decreases second.len(),
{
    if second.len() == 0 {
        assert(first + second =~= first);
    } else {
        assert((first + second).drop_last() =~= first + second.drop_last());
        law_inheritance_is_piecewise(first, second.drop_last());
    }
}

/// A nonce may be written in capital letters as well, and a process number after a plus sign; a
/// text of another length, or with anything but digits, is neither.
pub proof fn law_readings_are_tolerant(text: Seq<u8>, nonce: Seq<u8>, pid: u32)
    requires
        nonce.len() == 32,
    ensures
        text.len() == 64 && (forall|i: int|
            0 <= i < 64 ==> #[trigger] text[i] == hex_of(nonce)[i] || (0x61 <= hex_of(nonce)[i]
                && text[i] == hex_of(nonce)[i] - 0x20)) ==> is_nonce(text) && nonce_in(text)
            == nonce,
        text.len() != 64 ==> !is_nonce(text),
        pid_in(seq![PLUS] + decimal_of(pid as nat)) == Some(pid),
        pid_in(Seq::empty()) is None,
        pid_in(seq![PLUS]) is None,
        (exists|i: int| 1 <= i < text.len() && !(0x30 <= #[trigger] text[i] <= 0x39)) ==> pid_in(
            text,
        ) is None,
{
    let wanted = hex_of(nonce);
    if text.len() == 64 && (forall|i: int|
        0 <= i < 64 ==> #[trigger] text[i] == wanted[i] || (0x61 <= wanted[i] && text[i]
            == wanted[i] - 0x20)) {
        assert forall|i: int| 0 <= i < 32 implies #[trigger] pair_value(
            text[2 * i],
            text[2 * i + 1],
        ) == nonce[i] by {
            let high = nonce[i] as int / 16;
            let low = nonce[i] as int % 16;
            assert(wanted[2 * i] == hex_digit(high));
            assert(wanted[2 * i + 1] == hex_digit(low));
            assert(text[2 * i] == wanted[2 * i] || text[2 * i] == wanted[2 * i] - 0x20);
            assert(text[2 * i + 1] == wanted[2 * i + 1] || text[2 * i + 1] == wanted[2 * i + 1]
                - 0x20);
            assert(hex_value(text[2 * i]) == high && hex_value(text[2 * i + 1]) == low);
        }
        assert(nonce_in(text) =~= nonce);
    }
    law_pid_round_trip(pid);
    lemma_decimal_round_trip(pid as nat);
    let digits = decimal_of(pid as nat);
    assert(0x30 <= digits[0] <= 0x39);
    assert(unsigned_part(digits) == digits);
    assert((seq![PLUS] + digits).subrange(1, digits.len() as int + 1) =~= digits);
    assert(unsigned_part(seq![PLUS]).len() == 0);
    if exists|i: int| 1 <= i < text.len() && !(0x30 <= #[trigger] text[i] <= 0x39) {
        let i = choose|i: int| 1 <= i < text.len() && !(0x30 <= #[trigger] text[i] <= 0x39);
        let part = unsigned_part(text);
        if text[0] == PLUS {
            assert(part[i - 1] == text[i]);
        } else {
            assert(part[i] == text[i]);
        }
    }
}

/// The texts are those that everybody reads: two hexadecimal digits in small letters for each byte,
/// the high one first, and decimal digits that count in tens.
pub proof fn law_texts_are_common_notation(bytes: Seq<u8>, at: int, text: Seq<u8>, digit: u8)
    requires
        0 <= at < bytes.len(),
        0x30 <= digit <= 0x39,
    ensures
        hex_of(bytes).len() == 2 * bytes.len(),
        ({
            let high = bytes[at] as int / 16;
            let low = bytes[at] as int % 16;
            &&& hex_of(bytes)[2 * at] == (if high < 10 {
                0x30 + high
            } else {
                0x61 + high - 10
            })
            &&& hex_of(bytes)[2 * at + 1] == (if low < 10 {
                0x30 + low
            } else {
                0x61 + low - 10
            })
        }),
        decimal_value(Seq::empty()) == 0,
        decimal_value(text.push(digit)) == 10 * decimal_value(text) + (digit - 0x30),
{
    assert(text.push(digit).drop_last() =~= text);
    assert((2 * at) % 2 == 0 && (2 * at) / 2 == at && (2 * at + 1) % 2 == 1 && (2 * at + 1) / 2
        == at);
}

/// A helper gets every argument that is given to it, in its order, and in front of them its path
/// exactly where they do not start with a name.
pub proof fn law_helper_gets_every_argument(path: Seq<u8>, arguments: Seq<Seq<u8>>)
    ensures
        helper_argv(path, arguments, true) == arguments,
        helper_argv(path, arguments, false).len() == arguments.len() + 1,
        helper_argv(path, arguments, false)[0] == path,
        helper_argv(path, arguments, false).skip(1) == arguments,
{
    assert(helper_argv(path, arguments, false).skip(1) =~= arguments);
}

} // verus!
