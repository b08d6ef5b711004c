use vstd::prelude::*;

use crate::value::{JsonModel, JsonValue, lemma_arr_model, lemma_obj_model};

verus! {

/// Whether a character is a decimal digit.
pub open spec fn is_digit(c: char) -> bool {
    48 <= c as int <= 57
}

/// The numeric value of a decimal digit character.
pub open spec fn digit_val(c: char) -> int {
    c as int - 48
}

/// Whether a segment is a well-formed array index: non-empty, all decimal
/// digits, and without a leading zero unless it is exactly `0`.
pub open spec fn is_index_seq(s: Seq<char>) -> bool {
    &&& s.len() > 0
    &&& (forall|i: int| 0 <= i < s.len() ==> is_digit(#[trigger] s[i]))
    &&& (s.len() > 1 ==> s[0] != '0')
}

/// The base-10 value of the first `i` characters of a segment.
pub open spec fn index_prefix_val(s: Seq<char>, i: int) -> int
    decreases i,
{
    if i <= 0 {
        0
    } else {
        index_prefix_val(s, i - 1) * 10 + digit_val(s[i - 1])
    }
}

/// The base-10 value of a whole index segment.
pub open spec fn index_val(s: Seq<char>) -> int {
    index_prefix_val(s, s.len() as int)
}

/// A prefix value of a digit string is never negative.
proof fn lemma_index_prefix_nonneg(s: Seq<char>, i: int)
    requires
        i <= s.len(),
        forall|k: int| 0 <= k < s.len() ==> is_digit(#[trigger] s[k]),
    ensures
        index_prefix_val(s, i) >= 0,
    decreases i,
{
    if i > 0 {
        lemma_index_prefix_nonneg(s, i - 1);
    }
}

/// The value of a digit string never falls as the prefix grows.
proof fn lemma_index_prefix_monotone(s: Seq<char>, i: int, j: int)
    requires
        0 <= i <= j <= s.len(),
        forall|k: int| 0 <= k < s.len() ==> is_digit(#[trigger] s[k]),
    ensures
        index_prefix_val(s, i) <= index_prefix_val(s, j),
    decreases j - i,
{
    if i < j {
        lemma_index_prefix_monotone(s, i, j - 1);
        lemma_index_prefix_nonneg(s, j - 1);
    }
}

/// Read a path segment as a base-10 array index. `None` means the segment is
/// not a well-formed index, or its value does not fit in `usize` (and so can
/// never address an element of an array held in memory).
pub fn parse_index(seg: &str) -> (r: Option<usize>)
    ensures
        match r {
            Some(n) => is_index_seq(seg@) && n as int == index_val(seg@),
            None => !is_index_seq(seg@) || index_val(seg@) > usize::MAX,
        },
{
    let n = seg.unicode_len();
    if n == 0 {
        return None;
    }
    if n > 1 && seg.get_char(0) == '0' {
        return None;
    }
    let mut acc: usize = 0;
    let mut i: usize = 0;
    while i < n
        invariant
            n == seg@.len(),
            i <= n,
            n > 0,
            n > 1 ==> seg@[0] != '0',
            forall|k: int| 0 <= k < i ==> is_digit(#[trigger] seg@[k]),
            acc as int == index_prefix_val(seg@, i as int),
        decreases n - i,
    {
        let c = seg.get_char(i);
        let cu = c as u32;
        if cu < 48 || cu > 57 {
            return None;
        }
        let d = (cu - 48) as usize;
        if acc > usize::MAX / 10 {
            proof {
                lemma_overflow_case(seg@, i as int, acc as int, d as int);
            }
            return None;
        }
        let shifted = acc * 10;
        if d > usize::MAX - shifted {
            proof {
                lemma_overflow_case(seg@, i as int, acc as int, d as int);
            }
            return None;
        }
        acc = shifted + d;
        i = i + 1;
    }
    Some(acc)
}

/// If the running value already exceeds what one more digit can keep inside
/// `usize`, then either some later character is not a digit, or the whole
/// segment's value exceeds `usize`.
proof fn lemma_overflow_case(s: Seq<char>, i: int, acc: int, d: int)
    requires
        0 <= i < s.len(),
        forall|k: int| 0 <= k < i ==> is_digit(#[trigger] s[k]),
        is_digit(s[i]),
        d == digit_val(s[i]),
        acc == index_prefix_val(s, i),
        acc * 10 + d > usize::MAX,
    ensures
        !is_index_seq(s) || index_val(s) > usize::MAX,
{
    if forall|k: int| 0 <= k < s.len() ==> is_digit(#[trigger] s[k]) {
        assert(index_prefix_val(s, i + 1) == acc * 10 + d);
        lemma_index_prefix_monotone(s, i + 1, s.len() as int);
    } else {
        let k = choose|k: int| 0 <= k < s.len() && !is_digit(s[k]);
        assert(!is_index_seq(s));
    }
}

/// The first member of an object, from position `j` on, whose key is `key`.
pub open spec fn lookup_from(
    members: Seq<(Seq<char>, JsonModel)>,
    key: Seq<char>,
    j: int,
) -> Option<JsonModel>
    decreases members.len() - j,
{
    if j < 0 || j >= members.len() {
        None
    } else if members[j].0 == key {
        Some(members[j].1)
    } else {
        lookup_from(members, key, j + 1)
    }
}

/// Object key lookup: the value of the first member whose key matches.
pub open spec fn lookup_model(
    members: Seq<(Seq<char>, JsonModel)>,
    key: Seq<char>,
) -> Option<JsonModel> {
    lookup_from(members, key, 0)
}

/// One navigation step into a model: an object is entered by key, an array by
/// a well-formed in-range index; every other combination is a miss.
pub open spec fn step_model(m: JsonModel, seg: Seq<char>) -> Option<JsonModel> {
    match m {
        JsonModel::Obj(members) => lookup_model(members, seg),
        JsonModel::Arr(items) => if is_index_seq(seg) && 0 <= index_val(seg) < items.len() {
            Some(items[index_val(seg)])
        } else {
            None
        },
        _ => None,
    }
}

/// Navigation from segment `i` on: descend one segment at a time; when the
/// segments are exhausted the current value is the result, and a miss at any
/// step fails the whole navigation.
pub open spec fn nav_from(m: JsonModel, segs: Seq<Seq<char>>, i: int) -> Option<JsonModel>
    decreases segs.len() - i,
{
    if i < 0 || i >= segs.len() {
        Some(m)
    } else {
        match step_model(m, segs[i]) {
            Some(child) => nav_from(child, segs, i + 1),
            None => None,
        }
    }
}

/// Navigation of a whole segment list, starting at the root.
pub open spec fn nav_model(m: JsonModel, segs: Seq<Seq<char>>) -> Option<JsonModel> {
    nav_from(m, segs, 0)
}

/// Key listing: an object is replaced by the array of its keys, in the order
/// the object keeps them; any other value has no key listing.
pub open spec fn keys_model(m: JsonModel) -> Option<JsonModel> {
    match m {
        JsonModel::Obj(members) => Some(
            JsonModel::Arr(
                Seq::new(
                    members.len(),
                    |i: int|
                        if 0 <= i < members.len() {
                            JsonModel::Str(members[i].0)
                        } else {
                            JsonModel::Null
                        },
                ),
            ),
        ),
        _ => None,
    }
}

/// Build the array of an object's keys, in order; nothing for any other value.
pub fn object_keys(v: &JsonValue) -> (r: Option<JsonValue>)
    ensures
        match r {
            Some(k) => keys_model(v@) == Some(k@),
            None => keys_model(v@) is None,
        },
{
    match v {
        JsonValue::Obj(members) => {
            let mut out: Vec<JsonValue> = Vec::new();
            let mut j: usize = 0;
            while j < members.len()
                invariant
                    j <= members@.len(),
                    out@.len() == j,
                    forall|k: int|
                        0 <= k < j ==> (#[trigger] out@[k]).model() == JsonModel::Str(
                            members@[k].0@,
                        ),
                decreases members@.len() - j,
            {
                let key_copy = members[j].0.clone();
                out.push(JsonValue::Str(key_copy));
                j = j + 1;
            }
            proof {
                lemma_obj_model(*members);
                lemma_arr_model(out);
                match keys_model(v@) {
                    Some(km) => {
                        match km {
                            JsonModel::Arr(target) => {
                                assert(out.deep_view() =~= target);
                            },
                            _ => {
                                assert(false);
                            },
                        }
                    },
                    None => {
                        assert(false);
                    },
                }
            }
            Some(JsonValue::Arr(out))
        },
        _ => None,
    }
}

/// Find the first member of an object whose key equals `key`.
fn lookup_member<'a>(members: &'a Vec<(String, JsonValue)>, key: &String) -> (r: Option<
    &'a JsonValue,
>)
    ensures
        match r {
            Some(v) => lookup_model(members.deep_view(), key@) == Some(v@),
            None => lookup_model(members.deep_view(), key@) is None,
        },
{
    let ghost mm = members.deep_view();
    let mut j: usize = 0;
    while j < members.len()
        invariant
            mm == members.deep_view(),
            mm.len() == members@.len(),
            j <= members@.len(),
            lookup_from(mm, key@, 0) == lookup_from(mm, key@, j as int),
        decreases members@.len() - j,
    {
        let entry = &members[j];
        if entry.0.eq(key) {
            proof {
                assert(mm[j as int].0 == key@);
            }
            return Some(&entry.1);
        }
        proof {
            assert(mm[j as int].0 != key@);
        }
        j = j + 1;
    }
    None
}

/// Navigate a document along a list of path segments, returning the value at
/// the addressed position, or nothing when some step misses.
pub fn navigate<'a>(doc: &'a JsonValue, segs: &Vec<String>) -> (r: Option<&'a JsonValue>)
    ensures
        match r {
            Some(found) => nav_model(doc@, segs.deep_view()) == Some(found@),
            None => nav_model(doc@, segs.deep_view()) is None,
        },
{
    let ghost sv = segs.deep_view();
    let mut cur: &JsonValue = doc;
    let mut i: usize = 0;
    while i < segs.len()
        invariant
            sv == segs.deep_view(),
            sv.len() == segs@.len(),
            i <= segs@.len(),
            nav_from(doc@, sv, 0) == nav_from(cur@, sv, i as int),
        decreases segs@.len() - i,
    {
        let seg: &String = &segs[i];
        proof {
            assert(sv[i as int] == seg@);
        }
        match cur {
            JsonValue::Obj(members) => {
                proof {
                    lemma_obj_model(*members);
                }
                match lookup_member(members, seg) {
                    Some(child) => {
                        proof {
                            assert(step_model(cur@, sv[i as int]) == Some(child@));
                        }
                        cur = child;
                    },
                    None => {
                        proof {
                            assert(step_model(cur@, sv[i as int]) is None);
                        }
                        return None;
                    },
                }
            },
            JsonValue::Arr(items) => {
                proof {
                    lemma_arr_model(*items);
                }
                let len = items.len();
                match parse_index(seg.as_str()) {
                    Some(n) => {
                        if n < len {
                            proof {
                                assert(step_model(cur@, sv[i as int]) == Some(
                                    items.deep_view()[n as int],
                                ));
                            }
                            cur = &items[n];
                        } else {
                            proof {
                                assert(step_model(cur@, sv[i as int]) is None);
                            }
                            return None;
                        }
                    },
                    None => {
                        proof {
                            assert(items@.len() == len as int);
                            assert(step_model(cur@, sv[i as int]) is None);
                        }
                        return None;
                    },
                }
            },
            _ => {
                proof {
                    assert(step_model(cur@, sv[i as int]) is None);
                }
                return None;
            },
        }
        i = i + 1;
    }
    Some(cur)
}

} // verus!
