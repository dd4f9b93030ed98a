use vstd::prelude::*;

verus! {

/// The class of an input source.
#[derive(Debug, Clone, Copy, PartialEq, Eq, Structural)]
pub enum DeviceType {
    Mouse,
    Keyboard,
}

/// A device with both relative X and Y axes is a mouse; otherwise one with
/// the A and S keys is a keyboard; anything else is not a source.
pub open spec fn spec_classify(has_rel_x: bool, has_rel_y: bool, has_key_a: bool, has_key_s: bool) -> Option<DeviceType> {
    if has_rel_x && has_rel_y {
        Some(DeviceType::Mouse)
    } else if has_key_a && has_key_s {
        Some(DeviceType::Keyboard)
    } else {
        None
    }
}

/// Classifies a device from its capabilities.
pub fn classify_device(has_rel_x: bool, has_rel_y: bool, has_key_a: bool, has_key_s: bool) -> (r: Option<DeviceType>)
    ensures
        r == spec_classify(has_rel_x, has_rel_y, has_key_a, has_key_s),
{
    if has_rel_x && has_rel_y {
        Some(DeviceType::Mouse)
    } else if has_key_a && has_key_s {
        Some(DeviceType::Keyboard)
    } else {
        None
    }
}

/// How many entries of `s` are of class `t`.
pub open spec fn count_of(s: Seq<DeviceType>, t: DeviceType) -> nat
    decreases s.len(),
{
    if s.len() == 0 {
        0
    } else {
        count_of(s.drop_last(), t) + if s.last() == t {
            1nat
        } else {
            0nat
        }
    }
}

proof fn lemma_count_bound(s: Seq<DeviceType>, t: DeviceType)
    ensures
        count_of(s, t) <= s.len(),
    decreases s.len(),
{
    if s.len() > 0 {
        lemma_count_bound(s.drop_last(), t);
    }
}

/// The counts announced when the loop starts: the mice (the aggregated
/// legacy mouse stream counting as one more when it is open) and the
/// keyboards.
pub fn source_counts(types: &Vec<DeviceType>, legacy_mouse_stream: bool) -> (r: (usize, usize))
    requires
        types@.len() < usize::MAX,
    ensures
        r.0 == count_of(types@, DeviceType::Mouse) + if legacy_mouse_stream {
            1nat
        } else {
            0nat
        },
        r.1 == count_of(types@, DeviceType::Keyboard),
{
    let mut mice: usize = 0;
    let mut keyboards: usize = 0;
    let mut i: usize = 0;
    while i < types.len()
        invariant
            i <= types@.len() < usize::MAX,
            mice == count_of(types@.subrange(0, i as int), DeviceType::Mouse),
            keyboards == count_of(types@.subrange(0, i as int), DeviceType::Keyboard),
        decreases types@.len() - i,
    {
        proof {
            assert(types@.subrange(0, i + 1).drop_last() =~= types@.subrange(0, i as int));
            lemma_count_bound(types@.subrange(0, i as int), DeviceType::Mouse);
            lemma_count_bound(types@.subrange(0, i as int), DeviceType::Keyboard);
        }
        match types[i] {
            DeviceType::Mouse => mice = mice + 1,
            DeviceType::Keyboard => keyboards = keyboards + 1,
        }
        i = i + 1;
    }
    assert(types@.subrange(0, types@.len() as int) =~= types@);
    proof {
        lemma_count_bound(types@, DeviceType::Mouse);
    }
    if legacy_mouse_stream {
        mice = mice + 1;
    }
    (mice, keyboards)
}

} // verus!
