//! Wide text: the UTF-16-like encoding adapter names arrive in.
//!
//! The platform hands descriptor names as a buffer of 16-bit units.  A
//! unit outside the surrogate range is its own code point; a high
//! surrogate followed by a low surrogate combines into one supplementary
//! code point; anything else — an unpaired or reversed surrogate, or a
//! buffer cut inside a pair — makes the whole buffer undecodable.  A
//! platform binding runs this decode before it fills a descriptor's name.

use vstd::prelude::*;

verus! {

/// The first unit of a surrogate pair.
pub open spec fn is_high_surrogate(u: u16) -> bool {
    0xD800 <= u < 0xDC00
}

/// The second unit of a surrogate pair.
pub open spec fn is_low_surrogate(u: u16) -> bool {
    0xDC00 <= u < 0xE000
}

/// The supplementary code point a surrogate pair encodes.
pub open spec fn combine_surrogates(hi: u16, lo: u16) -> u32 {
    (0x10000 + (((hi - 0xD800) as u32) * 0x400) + ((lo - 0xDC00) as u32)) as u32
}

/// The decoded text of a buffer of 16-bit units, or nothing when the
/// buffer is not well-formed.
pub open spec fn spec_decode_wide(units: Seq<u16>) -> Option<Seq<char>>
    decreases units.len(),
{
    if units.len() == 0 {
        Some(Seq::<char>::empty())
    } else {
        let u = units[0];
        if !is_high_surrogate(u) && !is_low_surrogate(u) {
            match spec_decode_wide(units.subrange(1, units.len() as int)) {
                Some(rest) => Some(seq![(u as u32) as char] + rest),
                None => None,
            }
        } else if is_high_surrogate(u) && units.len() >= 2 && is_low_surrogate(units[1]) {
            match spec_decode_wide(units.subrange(2, units.len() as int)) {
                Some(rest) => Some(seq![combine_surrogates(u, units[1]) as char] + rest),
                None => None,
            }
        } else {
            None
        }
    }
}

/// Relies on char::from_u32 of std: the code points it accepts are
/// exactly the scalar values — everything below the surrogate range or
/// between its end and the last code point — and on those it is the
/// identity.
pub assume_specification[ char::from_u32 ](v: u32) -> (r: Option<char>)
    ensures
        (v < 0xD800 || (0xE000 <= v && v < 0x110000)) ==> r == Some(v as char),
        !(v < 0xD800 || (0xE000 <= v && v < 0x110000)) ==> r is None,
;

/// Relies on String::push of std: appends exactly one character.
#[verifier::external_body]
fn push_char(s: &mut String, c: char)
    ensures
        final(s)@ == old(s)@ + seq![c],
{
    s.push(c);
}

/// Decodes a wide-unit buffer into text, exactly as `spec_decode_wide`
/// states it: `None` on any unpaired surrogate.
pub fn decode_wide(units: &[u16]) -> (r: Option<String>)
    ensures
        (r matches Some(s) ==> spec_decode_wide(units@) == Some(s@)),
        (r is None ==> spec_decode_wide(units@) is None),
{
    let mut out = String::new();
    let mut i: usize = 0;
    proof {
        assert(units@.skip(0) =~= units@);
    }
    while i < units.len()
        invariant
            i <= units@.len(),
            ({
                let full = spec_decode_wide(units@);
                let rem = spec_decode_wide(units@.skip(i as int));
                &&& (rem matches Some(tail) ==> full == Some(out@ + tail))
                &&& (rem is None ==> full is None)
            }),
        decreases units@.len() - i,
    {
        let u = units[i];
        proof {
            assert(units@.skip(i as int)[0] == units@[i as int]);
        }
        if u < 0xD800 || u >= 0xE000 {
            let c = char::from_u32(u as u32).unwrap();
            push_char(&mut out, c);
            proof {
                assert(units@.skip(i as int).subrange(1, units@.skip(i as int).len() as int)
                    =~= units@.skip(i + 1));
                let rem = spec_decode_wide(units@.skip(i + 1));
                if rem is Some {
                    assert(out@ + rem.unwrap() =~= spec_decode_wide(units@).unwrap());
                }
            }
            i = i + 1;
        } else if u < 0xDC00 {
            if i + 1 >= units.len() {
                return None;
            }
            let lo = units[i + 1];
            proof {
                assert(units@.skip(i as int)[1] == units@[i + 1]);
            }
            if !(0xDC00 <= lo && lo < 0xE000) {
                return None;
            }
            let cp: u32 = 0x10000 + (((u - 0xD800) as u32) * 0x400) + ((lo - 0xDC00) as u32);
            let c = char::from_u32(cp).unwrap();
            push_char(&mut out, c);
            proof {
                assert(units@.skip(i as int).subrange(2, units@.skip(i as int).len() as int)
                    =~= units@.skip(i + 2));
                let rem = spec_decode_wide(units@.skip(i + 2));
                if rem is Some {
                    assert(out@ + rem.unwrap() =~= spec_decode_wide(units@).unwrap());
                }
            }
            i = i + 2;
        } else {
            return None;
        }
    }
    proof {
        assert(units@.skip(i as int) =~= Seq::<u16>::empty());
        assert(out@ + Seq::<char>::empty() =~= out@);
    }
    Some(out)
}

} // verus!
