//! Text helpers: UTF-16 decoding for managed strings and decimal rendering
//! for timer variables and debug output.

use vstd::prelude::*;

verus! {

/// Relies on `char::from_u32` of std: it returns `Some` exactly for Unicode
/// scalar values (everything up to U+10FFFF except the surrogate range), and
/// the returned `char` has the given value.
pub assume_specification[ char::from_u32 ](u: u32) -> (r: Option<char>)
    ensures
        r is Some <==> (u < 0xD800 || (0xE000 <= u && u <= 0x10FFFF)),
        r is Some ==> r->0 as u32 == u,
;

/// Relies on `String::push` of std: it appends the character to the string.
pub assume_specification[ String::push ](s: &mut String, c: char)
    ensures
        final(s)@ == old(s)@.push(c),
;

/// A UTF-16 code unit that opens a surrogate pair.
pub open spec fn is_high_surrogate(u: u16) -> bool {
    0xD800 <= u < 0xDC00
}

/// A UTF-16 code unit that closes a surrogate pair.
pub open spec fn is_low_surrogate(u: u16) -> bool {
    0xDC00 <= u < 0xE000
}

/// The Unicode scalar values that the UTF-16 code units `units` decode to,
/// with unpaired surrogates replaced by U+FFFD.
pub open spec fn spec_utf16_scalars(units: Seq<u16>) -> Seq<u32>
    decreases units.len(),
{
    if units.len() == 0 {
        Seq::empty()
    } else {
        let u = units[0];
        if is_high_surrogate(u) {
            if units.len() >= 2 && is_low_surrogate(units[1]) {
                seq![((0x10000 + (u - 0xD800) * 0x400 + (units[1] - 0xDC00)) as u32)]
                    + spec_utf16_scalars(units.skip(2))
            } else {
                seq![0xFFFDu32] + spec_utf16_scalars(units.skip(1))
            }
        } else if is_low_surrogate(u) {
            seq![0xFFFDu32] + spec_utf16_scalars(units.skip(1))
        } else {
            seq![u as u32] + spec_utf16_scalars(units.skip(1))
        }
    }
}

/// The characters that the UTF-16 code units `units` decode to.
pub open spec fn spec_utf16_chars(units: Seq<u16>) -> Seq<char> {
    Seq::new(spec_utf16_scalars(units).len(), |i: int| spec_utf16_scalars(units)[i] as char)
}

/// The scalar values of a character sequence.
pub open spec fn scalars_of_chars(cs: Seq<char>) -> Seq<u32> {
    Seq::new(cs.len(), |i: int| cs[i] as u32)
}

/// The UTF-16 code units held by consecutive little-endian byte pairs.
pub open spec fn spec_utf16_units(bytes: Seq<u8>) -> Seq<u16> {
    Seq::new(
        (bytes.len() / 2) as nat,
        |i: int| vstd::bytes::spec_u16_from_le_bytes(seq![bytes[2 * i], bytes[2 * i + 1]]),
    )
}

/// The character with the given scalar value.
fn scalar_char(u: u32) -> (c: char)
    requires
        u < 0xD800 || (0xE000 <= u && u <= 0x10FFFF),
    ensures
        c as u32 == u,
{
    match char::from_u32(u) {
        Some(c) => c,
        None => {
            proof {
                assert(false);
            }
            ' '
        },
    }
}

/// Gather consecutive little-endian byte pairs into UTF-16 code units.
pub fn utf16_units(bytes: &Vec<u8>) -> (r: Vec<u16>)
    ensures
        r@ == spec_utf16_units(bytes@),
{
    let n = bytes.len() / 2;
    let mut r: Vec<u16> = Vec::new();
    let mut i: usize = 0;
    while i < n
        invariant
            n == bytes@.len() / 2,
            bytes@.len() <= usize::MAX,
            i <= n,
            r@.len() == i,
            forall|j: int| 0 <= j < i ==> r@[j] == spec_utf16_units(bytes@)[j],
        decreases n - i,
    {
        let pair = vstd::slice::slice_subrange(bytes.as_slice(), 2 * i, 2 * i + 2);
        let u = vstd::bytes::u16_from_le_bytes(pair);
        proof {
            assert(pair@ =~= seq![bytes@[2 * i as int], bytes@[2 * i as int + 1]]);
        }
        r.push(u);
        i += 1;
    }
    proof {
        assert(r@ =~= spec_utf16_units(bytes@));
    }
    r
}

/// Decode UTF-16 code units into a string, replacing unpaired surrogates
/// with U+FFFD.
pub fn utf16_to_string(units: &Vec<u16>) -> (r: String)
    ensures
        r@ == spec_utf16_chars(units@),
{
    let n = units.len();
    let mut s = String::new();
    let mut i: usize = 0;
    proof {
        assert(units@.skip(0) =~= units@);
    }
    while i < n
        invariant
            n == units@.len(),
            i <= n,
            spec_utf16_scalars(units@) =~= scalars_of_chars(s@) + spec_utf16_scalars(
                units@.skip(i as int),
            ),
        decreases n - i,
    {
        let ghost s0 = s@;
        let u = units[i];
        let ghost tail = units@.skip(i as int);
        proof {
            assert(tail[0] == units@[i as int]);
        }
        if 0xD800 <= u && u < 0xDC00 {
            if i + 1 < n && 0xDC00 <= units[i + 1] && units[i + 1] < 0xE000 {
                let u2 = units[i + 1];
                proof {
                    assert(tail[1] == units@[i as int + 1]);
                    assert(tail.skip(2) =~= units@.skip(i as int + 2));
                }
                let scalar: u32 = 0x10000 + ((u as u32) - 0xD800) * 0x400 + ((u2 as u32) - 0xDC00);
                let c = scalar_char(scalar);
                s.push(c);
                proof {
                    assert(scalars_of_chars(s@) =~= scalars_of_chars(s0) + seq![scalar]);
                }
                i += 2;
            } else {
                proof {
                    assert(tail.skip(1) =~= units@.skip(i as int + 1));
                    if tail.len() >= 2 {
                        assert(tail[1] == units@[i as int + 1]);
                    }
                }
                let c = scalar_char(0xFFFD);
                s.push(c);
                proof {
                    assert(scalars_of_chars(s@) =~= scalars_of_chars(s0) + seq![0xFFFDu32]);
                }
                i += 1;
            }
        } else if 0xDC00 <= u && u < 0xE000 {
            proof {
                assert(tail.skip(1) =~= units@.skip(i as int + 1));
            }
            let c = scalar_char(0xFFFD);
            s.push(c);
            proof {
                assert(scalars_of_chars(s@) =~= scalars_of_chars(s0) + seq![0xFFFDu32]);
            }
            i += 1;
        } else {
            proof {
                assert(tail.skip(1) =~= units@.skip(i as int + 1));
            }
            let c = scalar_char(u as u32);
            s.push(c);
            proof {
                assert(scalars_of_chars(s@) =~= scalars_of_chars(s0) + seq![u as u32]);
            }
            i += 1;
        }
    }
    proof {
        assert(units@.skip(n as int) =~= Seq::<u16>::empty());
        assert(spec_utf16_scalars(units@) =~= scalars_of_chars(s@));
        assert forall|j: int| 0 <= j < s@.len() implies s@[j] == spec_utf16_chars(units@)[j] by {
            vstd::utf8::char_u32_cast(s@[j], spec_utf16_scalars(units@)[j]);
        }
        assert(s@ =~= spec_utf16_chars(units@));
    }
    s
}

/// The decimal digits of `n`, most significant first.
pub open spec fn spec_dec_digits(n: nat) -> Seq<char>
    decreases n,
{
    if n < 10 {
        seq![(((48 + n) as u8) as char)]
    } else {
        spec_dec_digits(n / 10).push((((48 + n % 10) as u8) as char))
    }
}

/// Render `n` in decimal.
pub fn u32_to_dec(n: u32) -> (r: String)
    ensures
        r@ == spec_dec_digits(n as nat),
    decreases n,
{
    if n < 10 {
        let mut s = String::new();
        let c = ((n as u8) + 48) as char;
        s.push(c);
        proof {
            assert(s@ =~= spec_dec_digits(n as nat));
        }
        s
    } else {
        let mut s = u32_to_dec(n / 10);
        let c = (((n % 10) as u8) + 48) as char;
        s.push(c);
        s
    }
}

/// Render `n` in decimal.
pub fn u64_to_dec(n: u64) -> (r: String)
    ensures
        r@ == spec_dec_digits(n as nat),
    decreases n,
{
    if n < 10 {
        let mut s = String::new();
        let c = ((n as u8) + 48) as char;
        s.push(c);
        proof {
            assert(s@ =~= spec_dec_digits(n as nat));
        }
        s
    } else {
        let mut s = u64_to_dec(n / 10);
        let c = (((n % 10) as u8) + 48) as char;
        s.push(c);
        s
    }
}

/// The decimal digits of `n`, with a leading minus sign when negative.
pub open spec fn spec_i32_dec(n: i32) -> Seq<char> {
    if n < 0 {
        seq!['-'] + spec_dec_digits((-(n as int)) as nat)
    } else {
        spec_dec_digits(n as nat)
    }
}

/// Render `n` in decimal, with a leading minus sign when negative.
pub fn i32_to_dec(n: i32) -> (r: String)
    ensures
        r@ == spec_i32_dec(n),
{
    if n < 0 {
        let m: u32 = (-(n as i64)) as u32;
        let mut s = String::new();
        s.push('-');
        let d = u32_to_dec(m);
        s.append(d.as_str());
        proof {
            assert(s@ =~= spec_i32_dec(n));
        }
        s
    } else {
        u32_to_dec(n as u32)
    }
}

/// `n` in decimal, left-padded with zeros to at least `w` characters.
pub open spec fn spec_dec_pad(n: nat, w: nat) -> Seq<char> {
    let d = spec_dec_digits(n);
    if d.len() >= w {
        d
    } else {
        Seq::new((w - d.len()) as nat, |i: int| '0') + d
    }
}

/// Render `n` in decimal, left-padded with zeros to at least `w` characters.
pub fn u64_to_dec_pad(n: u64, w: usize) -> (r: String)
    ensures
        r@ == spec_dec_pad(n as nat, w as nat),
{
    let d = u64_to_dec(n);
    let dl = d.as_str().unicode_len();
    if dl >= w {
        proof {
            assert(d@ =~= spec_dec_pad(n as nat, w as nat));
        }
        d
    } else {
        let mut s = String::new();
        let mut i: usize = 0;
        while i < w - dl
            invariant
                i <= w - dl,
                dl == spec_dec_digits(n as nat).len(),
                dl < w,
                s@ =~= Seq::new(i as nat, |j: int| '0'),
            decreases w - dl - i,
        {
            s.push('0');
            proof {
                assert(s@ =~= Seq::new((i + 1) as nat, |j: int| '0'));
            }
            i += 1;
        }
        s.append(d.as_str());
        proof {
            assert(s@ =~= spec_dec_pad(n as nat, w as nat));
        }
        s
    }
}

/// Compare two byte strings.
pub fn bytes_eq(a: &[u8], b: &[u8]) -> (r: bool)
    ensures
        r == (a@ == b@),
{
    if a.len() != b.len() {
        return false;
    }
    let n = a.len();
    let mut i: usize = 0;
    while i < n
        invariant
            n == a@.len(),
            n == b@.len(),
            i <= n,
            forall|j: int| 0 <= j < i ==> a@[j] == b@[j],
        decreases n - i,
    {
        if a[i] != b[i] {
            return false;
        }
        i += 1;
    }
    proof {
        assert(a@ =~= b@);
    }
    true
}

} // verus!
