//! Feature levels: the ordered capability tiers a device can be requested
//! at.
//!
//! Negotiation is not "best available": the caller names exactly one tier
//! and the platform either satisfies it or fails the device-create call.
//! The tiers are ordered; an adapter that reports a tier also satisfies
//! every lower one.

use vstd::prelude::*;

verus! {

/// A capability tier, lowest to highest.
#[derive(Clone, Copy, PartialEq, Eq, Structural, Debug)]
pub enum FeatureLevel {
    L9_1,
    L9_2,
    L9_3,
    L10_0,
    L10_1,
    L11_0,
    L11_1,
    L12_0,
    L12_1,
}

/// The position of a tier in the low-to-high order.
pub open spec fn spec_rank(l: FeatureLevel) -> int {
    match l {
        FeatureLevel::L9_1 => 0,
        FeatureLevel::L9_2 => 1,
        FeatureLevel::L9_3 => 2,
        FeatureLevel::L10_0 => 3,
        FeatureLevel::L10_1 => 4,
        FeatureLevel::L11_0 => 5,
        FeatureLevel::L11_1 => 6,
        FeatureLevel::L12_0 => 7,
        FeatureLevel::L12_1 => 8,
    }
}

/// `a` is at or below `b` in the tier order.
pub open spec fn level_le(a: FeatureLevel, b: FeatureLevel) -> bool {
    spec_rank(a) <= spec_rank(b)
}

/// Runtime form of a tier's position in the order.
pub fn level_rank(l: FeatureLevel) -> (r: u32)
    ensures
        r == spec_rank(l),
{
    match l {
        FeatureLevel::L9_1 => 0,
        FeatureLevel::L9_2 => 1,
        FeatureLevel::L9_3 => 2,
        FeatureLevel::L10_0 => 3,
        FeatureLevel::L10_1 => 4,
        FeatureLevel::L11_0 => 5,
        FeatureLevel::L11_1 => 6,
        FeatureLevel::L12_0 => 7,
        FeatureLevel::L12_1 => 8,
    }
}

/// An adapter whose highest tier is `available` satisfies a request for
/// `requested` exactly when the request does not exceed it.
pub fn level_supported(available: FeatureLevel, requested: FeatureLevel) -> (r: bool)
    ensures
        r == level_le(requested, available),
{
    level_rank(requested) <= level_rank(available)
}

/// Whitespace as the tier-label parser strips it.
pub open spec fn is_space(c: char) -> bool {
    c == ' ' || c == '\t' || c == '\n' || c == '\r'
}

/// `s` with trailing whitespace removed.
pub open spec fn spec_trim_trailing_ws(s: Seq<char>) -> Seq<char>
    decreases s.len(),
{
    if s.len() > 0 && is_space(s[s.len() - 1]) {
        spec_trim_trailing_ws(s.drop_last())
    } else {
        s
    }
}

/// `s` with leading whitespace removed.
pub open spec fn spec_trim_leading_ws(s: Seq<char>) -> Seq<char>
    decreases s.len(),
{
    if s.len() > 0 && is_space(s[0]) {
        spec_trim_leading_ws(s.subrange(1, s.len() as int))
    } else {
        s
    }
}

/// `s` with whitespace removed from both ends.
pub open spec fn spec_trim_ws(s: Seq<char>) -> Seq<char> {
    spec_trim_leading_ws(spec_trim_trailing_ws(s))
}

/// The tier a label names, after trimming: `None` for anything that is not
/// one of the nine fixed labels.
pub open spec fn spec_parse_feature_level(s: Seq<char>) -> Option<FeatureLevel> {
    let t = spec_trim_ws(s);
    if t == "9_1"@ {
        Some(FeatureLevel::L9_1)
    } else if t == "9_2"@ {
        Some(FeatureLevel::L9_2)
    } else if t == "9_3"@ {
        Some(FeatureLevel::L9_3)
    } else if t == "10_0"@ {
        Some(FeatureLevel::L10_0)
    } else if t == "10_1"@ {
        Some(FeatureLevel::L10_1)
    } else if t == "11_0"@ {
        Some(FeatureLevel::L11_0)
    } else if t == "11_1"@ {
        Some(FeatureLevel::L11_1)
    } else if t == "12_0"@ {
        Some(FeatureLevel::L12_0)
    } else if t == "12_1"@ {
        Some(FeatureLevel::L12_1)
    } else {
        None
    }
}

/// The message a rejected label comes back with.
pub open spec fn level_parse_error() -> Seq<char> {
    "expected one of: 9_1 9_2 9_3 10_0 10_1 11_0 11_1 12_0 12_1"@
}

fn is_space_char(c: char) -> (r: bool)
    ensures
        r == is_space(c),
{
    c == ' ' || c == '\t' || c == '\n' || c == '\r'
}

/// `text` with whitespace removed from both ends, as `spec_trim_ws` states
/// it.
pub fn trim_ws(text: &str) -> (r: String)
    ensures
        r@ == spec_trim_ws(text@),
{
    let len = text.unicode_len();
    proof {
        assert(text@.take(len as int) =~= text@);
    }
    let mut end: usize = len;
    while end > 0 && is_space_char(text.get_char(end - 1))
        invariant
            end <= len == text@.len(),
            spec_trim_trailing_ws(text@) == spec_trim_trailing_ws(text@.take(end as int)),
        decreases end,
    {
        proof {
            assert(text@.take(end as int).drop_last() =~= text@.take(end - 1));
        }
        end -= 1;
    }
    proof {
        assert(text@.take(len as int) =~= text@);
        if end > 0 {
            assert(spec_trim_trailing_ws(text@.take(end as int)) == text@.take(end as int));
        } else {
            assert(text@.take(0) =~= Seq::<char>::empty());
        }
    }
    let mut start: usize = 0;
    while start < end && is_space_char(text.get_char(start))
        invariant
            start <= end <= text@.len(),
            spec_trim_trailing_ws(text@) == text@.take(end as int),
            spec_trim_leading_ws(text@.take(end as int)) == spec_trim_leading_ws(
                text@.subrange(start as int, end as int),
            ),
        decreases end - start,
    {
        proof {
            let cur = text@.subrange(start as int, end as int);
            assert(cur.subrange(1, cur.len() as int) =~= text@.subrange(
                start + 1,
                end as int,
            ));
        }
        start += 1;
    }
    let r = text.substring_char(start, end);
    proof {
        assert(text@.take(end as int).subrange(start as int, end as int) =~= text@.subrange(
            start as int,
            end as int,
        ));
        let cur = text@.subrange(start as int, end as int);
        if start < end {
            assert(spec_trim_leading_ws(cur) == cur);
        } else {
            assert(cur =~= Seq::<char>::empty());
        }
        assert(r@ =~= spec_trim_ws(text@));
    }
    String::from_str(r)
}

/// Parses a feature-level label, tolerating surrounding whitespace.
/// Exactly the nine fixed labels are accepted; anything else is rejected
/// with a message listing them.
pub fn parse_feature_level(text: &str) -> (r: Result<FeatureLevel, String>)
    ensures
        (spec_parse_feature_level(text@) matches Some(l) ==> r == Ok::<FeatureLevel, String>(l)),
        (spec_parse_feature_level(text@) is None ==> (r matches Err(e) && e@
            == level_parse_error())),
{
    let t = trim_ws(text);
    if t == String::from_str("9_1") {
        Ok(FeatureLevel::L9_1)
    } else if t == String::from_str("9_2") {
        Ok(FeatureLevel::L9_2)
    } else if t == String::from_str("9_3") {
        Ok(FeatureLevel::L9_3)
    } else if t == String::from_str("10_0") {
        Ok(FeatureLevel::L10_0)
    } else if t == String::from_str("10_1") {
        Ok(FeatureLevel::L10_1)
    } else if t == String::from_str("11_0") {
        Ok(FeatureLevel::L11_0)
    } else if t == String::from_str("11_1") {
        Ok(FeatureLevel::L11_1)
    } else if t == String::from_str("12_0") {
        Ok(FeatureLevel::L12_0)
    } else if t == String::from_str("12_1") {
        Ok(FeatureLevel::L12_1)
    } else {
        Err(String::from_str("expected one of: 9_1 9_2 9_3 10_0 10_1 11_0 11_1 12_0 12_1"))
    }
}

} // verus!
