use vstd::prelude::*;
use vstd::string::*;
use vstd::arithmetic::div_mod::{lemma_fundamental_div_mod, lemma_mod_division_less_than_divisor};
use crate::error::AudioError;

verus! {

/// One entry of a device enumeration pass. Its `id` is the decimal
/// rendering of the entry's ordinal in that pass; ordinals are not
/// stable across passes, so recording re-resolves the id against a
/// fresh enumeration.
#[derive(Debug)]
pub struct AudioDevice {
    pub is_default: bool,
    pub is_input: bool,
    pub id: String,
    pub name: String,
}

/// The decimal digit character for `d` (meaningful for `d < 10`).
pub open spec fn spec_digit_char(d: nat) -> char {
    if d == 0 {
        '0'
    } else if d == 1 {
        '1'
    } else if d == 2 {
        '2'
    } else if d == 3 {
        '3'
    } else if d == 4 {
        '4'
    } else if d == 5 {
        '5'
    } else if d == 6 {
        '6'
    } else if d == 7 {
        '7'
    } else if d == 8 {
        '8'
    } else {
        '9'
    }
}

/// The decimal rendering of `n`, most significant digit first, no
/// sign and no leading zeros (a single `'0'` for zero).
pub open spec fn spec_dec_digits(n: nat) -> Seq<char>
    decreases n,
{
    if n < 10 {
        seq![spec_digit_char(n)]
    } else {
        spec_dec_digits(n / 10).push(spec_digit_char(n % 10))
    }
}

/// `c` is a decimal digit character.
pub open spec fn spec_is_digit(c: char) -> bool {
    '0' <= c && c <= '9'
}

/// The numeric value of a digit character.
pub open spec fn spec_digit_val(c: char) -> nat {
    (c as int - '0' as int) as nat
}

/// Every character of `s` is a decimal digit.
pub open spec fn spec_all_digits(s: Seq<char>) -> bool {
    forall|i: int| 0 <= i < s.len() ==> spec_is_digit(s[i])
}

/// The numeric value of a digit string, most significant digit
/// first.
pub open spec fn spec_dec_val(s: Seq<char>) -> nat
    decreases s.len(),
{
    if s.len() == 0 {
        0
    } else {
        spec_dec_val(s.drop_last()) * 10 + spec_digit_val(s.last())
    }
}

/// `id` resolves against an enumeration of `available` devices: it
/// is a non-empty digit string whose value fits the machine and
/// names an existing ordinal.
pub open spec fn spec_resolves(id: Seq<char>, available: nat) -> bool {
    id.len() > 0 && spec_all_digits(id) && spec_dec_val(id) <= usize::MAX && spec_dec_val(id)
        < available
}

/// The one-character string for digit `d`.
fn digit_str(d: usize) -> (s: &'static str)
    requires
        d < 10,
    ensures
        s@ == seq![spec_digit_char(d as nat)],
{
    let s: &'static str = match d {
        0 => "0",
        1 => "1",
        2 => "2",
        3 => "3",
        4 => "4",
        5 => "5",
        6 => "6",
        7 => "7",
        8 => "8",
        _ => "9",
    };
    proof {
        reveal_strlit("0");
        reveal_strlit("1");
        reveal_strlit("2");
        reveal_strlit("3");
        reveal_strlit("4");
        reveal_strlit("5");
        reveal_strlit("6");
        reveal_strlit("7");
        reveal_strlit("8");
        reveal_strlit("9");
        assert(s@ =~= seq![spec_digit_char(d as nat)]);
    }
    s
}

/// The decimal id string of ordinal `n`.
pub fn format_index(n: usize) -> (s: String)
    ensures
        s@ == spec_dec_digits(n as nat),
    decreases n,
{
    if n < 10 {
        String::from_str(digit_str(n))
    } else {
        let mut s = format_index(n / 10);
        let d: usize = n % 10;
        s.append(digit_str(d));
        proof {
            assert(s@ =~= spec_dec_digits((n / 10) as nat).push(spec_digit_char((n % 10) as nat)));
        }
        s
    }
}

/// The value of a digit string never shrinks when the string grows
/// to the right.
proof fn lemma_dec_val_prefix_le(s: Seq<char>, j: int)
    requires
        0 <= j <= s.len(),
    ensures
        spec_dec_val(s.subrange(0, j)) <= spec_dec_val(s),
    decreases s.len() - j,
{
    if j == s.len() {
        assert(s.subrange(0, j) =~= s);
    } else {
        lemma_dec_val_prefix_le(s, j + 1);
        assert(s.subrange(0, j + 1).drop_last() =~= s.subrange(0, j));
        assert(spec_dec_val(s.subrange(0, j + 1)) == spec_dec_val(s.subrange(0, j)) * 10
            + spec_digit_val(s.subrange(0, j + 1).last()));
    }
}

/// Formatting an ordinal and reading the digits back is the
/// identity: a listed device's id always re-resolves to the same
/// ordinal within the same enumeration pass.
pub proof fn lemma_dec_round_trip(n: nat)
    ensures
        spec_all_digits(spec_dec_digits(n)),
        spec_dec_val(spec_dec_digits(n)) == n,
    decreases n,
{
    if n < 10 {
        assert(spec_dec_digits(n).drop_last() =~= Seq::<char>::empty());
        assert(spec_dec_digits(n).last() == spec_digit_char(n));
        assert(spec_digit_val(spec_digit_char(n)) == n);
        assert(spec_dec_val(Seq::<char>::empty()) == 0);
        assert(spec_dec_val(spec_dec_digits(n)) == spec_dec_val(Seq::<char>::empty()) * 10
            + spec_digit_val(spec_dec_digits(n).last()));
    } else {
        lemma_dec_round_trip(n / 10);
        assert(spec_dec_digits(n).drop_last() =~= spec_dec_digits(n / 10));
        assert(spec_dec_digits(n).last() == spec_digit_char(n % 10));
        assert(spec_digit_val(spec_digit_char(n % 10)) == n % 10);
        assert(spec_dec_val(spec_dec_digits(n)) == spec_dec_val(spec_dec_digits(n / 10)) * 10
            + spec_digit_val(spec_digit_char(n % 10)));
        lemma_fundamental_div_mod(n as int, 10);
        assert forall|i: int| 0 <= i < spec_dec_digits(n).len() implies spec_is_digit(
            spec_dec_digits(n)[i],
        ) by {
            if i < spec_dec_digits(n / 10).len() {
                assert(spec_dec_digits(n)[i] == spec_dec_digits(n / 10)[i]);
            }
        }
    }
}

/// Parse a device id: the decimal value of `s`. Succeeds exactly on
/// non-empty digit strings whose value fits the machine; everything
/// else is a device-resolution failure.
pub fn parse_index(s: &str) -> (r: Result<usize, AudioError>)
    ensures
        r is Ok <==> (s@.len() > 0 && spec_all_digits(s@) && spec_dec_val(s@) <= usize::MAX),
        r is Ok ==> r->Ok_0 as nat == spec_dec_val(s@),
        r is Err ==> r->Err_0 == AudioError::DeviceResolution,
{
    let len = s.unicode_len();
    if len == 0 {
        return Err(AudioError::DeviceResolution);
    }
    let mut val: usize = 0;
    let mut i: usize = 0;
    while i < len
        invariant
            i <= len,
            len == s@.len(),
            spec_all_digits(s@.subrange(0, i as int)),
            val as nat == spec_dec_val(s@.subrange(0, i as int)),
        decreases len - i,
    {
        let c = s.get_char(i);
        let cv = c as u32;
        if cv < 48 || cv > 57 {
            assert(!spec_is_digit(s@[i as int]));
            return Err(AudioError::DeviceResolution);
        }
        let d: usize = (cv - 48) as usize;
        assert(d as nat == spec_digit_val(s@[i as int]));
        if val > (usize::MAX - d) / 10 {
            proof {
                let m = usize::MAX as int;
                let v = val as int;
                let dv = d as int;
                lemma_fundamental_div_mod(m - dv, 10);
                lemma_mod_division_less_than_divisor(m - dv, 10);
                assert(v * 10 + dv > m);
                assert(s@.subrange(0, i + 1).drop_last() =~= s@.subrange(0, i as int));
                assert(spec_dec_val(s@.subrange(0, i + 1)) == v * 10 + dv);
                lemma_dec_val_prefix_le(s@, i + 1);
            }
            return Err(AudioError::DeviceResolution);
        }
        val = val * 10 + d;
        proof {
            assert(s@.subrange(0, i + 1).drop_last() =~= s@.subrange(0, i as int));
        }
        i = i + 1;
    }
    proof {
        assert(s@.subrange(0, len as int) =~= s@);
    }
    Ok(val)
}

/// Resolve a device id against a fresh enumeration of `available`
/// devices: the parsed ordinal if it still exists, a
/// device-resolution failure otherwise — never a wrong device.
pub fn resolve_index(id: &str, available: usize) -> (r: Result<usize, AudioError>)
    ensures
        r is Ok <==> spec_resolves(id@, available as nat),
        r is Ok ==> r->Ok_0 as nat == spec_dec_val(id@),
        r is Err ==> r->Err_0 == AudioError::DeviceResolution,
{
    let n = parse_index(id)?;
    if n < available {
        Ok(n)
    } else {
        Err(AudioError::DeviceResolution)
    }
}

/// Resolve every selected device's id against a fresh enumeration,
/// in request order. Any failure aborts the whole start command with
/// a device-resolution error, leaving no partial result.
pub fn validate_selection(devices: &Vec<AudioDevice>, available: usize) -> (r: Result<
    Vec<usize>,
    AudioError,
>)
    ensures
        r is Ok <==> (forall|i: int|
            0 <= i < devices@.len() ==> spec_resolves(devices@[i].id@, available as nat)),
        r is Ok ==> r->Ok_0@.len() == devices@.len() && (forall|i: int|
            0 <= i < devices@.len() ==> r->Ok_0@[i] as nat == spec_dec_val(devices@[i].id@)),
        r is Err ==> r->Err_0 == AudioError::DeviceResolution,
{
    let mut out: Vec<usize> = Vec::new();
    let mut i: usize = 0;
    while i < devices.len()
        invariant
            i <= devices@.len(),
            out@.len() == i,
            forall|j: int| 0 <= j < i ==> spec_resolves(devices@[j].id@, available as nat),
            forall|j: int| 0 <= j < i ==> out@[j] as nat == spec_dec_val(devices@[j].id@),
        decreases devices@.len() - i,
    {
        let idx = resolve_index(devices[i].id.as_str(), available)?;
        out.push(idx);
        i = i + 1;
    }
    Ok(out)
}

/// A name equals the default device's name, when there is one.
pub open spec fn spec_is_default_name(name: Seq<char>, default_name: Option<String>) -> bool {
    match default_name {
        Some(d) => d@ == name,
        None => false,
    }
}

/// `name` matches the (optional) default device name.
fn name_matches(name: &String, default_name: &Option<String>) -> (b: bool)
    ensures
        b == spec_is_default_name(name@, *default_name),
{
    match default_name {
        Some(d) => *d == *name,
        None => false,
    }
}

/// Build one enumeration pass's device list. Entry `i` carries the
/// `i`-th enumerated name, whether that device supports input, the
/// decimal id `i`, and a default flag that is set exactly when the
/// name matches the default input or the default output device.
pub fn build_devices(
    names: Vec<String>,
    supports_input: &Vec<bool>,
    default_in: &Option<String>,
    default_out: &Option<String>,
) -> (r: Vec<AudioDevice>)
    requires
        names@.len() == supports_input@.len(),
    ensures
        r@.len() == names@.len(),
        forall|i: int| 0 <= i < r@.len() ==> (#[trigger] r@[i]).name@ == names@[i]@,
        forall|i: int| 0 <= i < r@.len() ==> (#[trigger] r@[i]).is_input == supports_input@[i],
        forall|i: int| 0 <= i < r@.len() ==> (#[trigger] r@[i]).id@ == spec_dec_digits(i as nat),
        forall|i: int|
            0 <= i < r@.len() ==> (#[trigger] r@[i]).is_default == (spec_is_default_name(
                names@[i]@,
                *default_in,
            ) || spec_is_default_name(names@[i]@, *default_out)),
{
    let mut out: Vec<AudioDevice> = Vec::new();
    let mut i: usize = 0;
    let n = names.len();
    while i < n
        invariant
            i <= n,
            n == names@.len(),
            names@.len() == supports_input@.len(),
            out@.len() == i,
            forall|j: int| 0 <= j < i ==> (#[trigger] out@[j]).name@ == names@[j]@,
            forall|j: int| 0 <= j < i ==> (#[trigger] out@[j]).is_input == supports_input@[j],
            forall|j: int| 0 <= j < i ==> (#[trigger] out@[j]).id@ == spec_dec_digits(j as nat),
            forall|j: int|
                0 <= j < i ==> (#[trigger] out@[j]).is_default == (spec_is_default_name(
                    names@[j]@,
                    *default_in,
                ) || spec_is_default_name(names@[j]@, *default_out)),
        decreases n - i,
    {
        let name = names[i].clone();
        let is_default_in = name_matches(&name, default_in);
        let is_default_out = name_matches(&name, default_out);
        let dev = AudioDevice {
            is_default: is_default_in || is_default_out,
            is_input: supports_input[i],
            id: format_index(i),
            name,
        };
        out.push(dev);
        i = i + 1;
    }
    out
}

} // verus!
