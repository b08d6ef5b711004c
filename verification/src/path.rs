use vstd::prelude::*;

verus! {

/// The character mapping of normalization: a query dot becomes a pointer slash.
pub open spec fn to_pointer_char(c: char) -> char {
    if c == '.' {
        '/'
    } else {
        c
    }
}

/// The character mapping of reconstruction: a pointer slash becomes a query dot.
pub open spec fn to_dotted_char(c: char) -> char {
    if c == '/' {
        '.'
    } else {
        c
    }
}

/// Normalization of a dotted pattern into a structural pointer: prefix a
/// slash, then turn every dot into a slash. The empty pattern becomes `/`,
/// the pointer that addresses the whole document.
pub open spec fn normalize_spec(pattern: Seq<char>) -> Seq<char> {
    seq!['/'] + pattern.map_values(|c: char| to_pointer_char(c))
}

/// Reconstruction of the dotted form from a structural pointer: strip the
/// leading slash and turn every remaining slash back into a dot. This is the
/// form the user typed, carried in the query error.
pub open spec fn reconstruct_spec(pointer: Seq<char>) -> Seq<char> {
    if pointer.len() == 0 {
        Seq::empty()
    } else {
        pointer.skip(1).map_values(|c: char| to_dotted_char(c))
    }
}

/// The dotted form that reports a failed query for a given pattern.
pub open spec fn dotted_spec(pattern: Seq<char>) -> Seq<char> {
    reconstruct_spec(normalize_spec(pattern))
}

/// One scan step of splitting: characters up to `i` are already divided into
/// the finished segments `acc` and the currently growing segment `cur`;
/// separators close the current segment, and empty segments are dropped.
pub open spec fn split_rest(
    s: Seq<char>,
    sep: char,
    i: int,
    cur: Seq<char>,
    acc: Seq<Seq<char>>,
) -> Seq<Seq<char>>
    decreases s.len() - i,
{
    if i < 0 || i >= s.len() {
        if cur.len() == 0 {
            acc
        } else {
            acc.push(cur)
        }
    } else if s[i] == sep {
        split_rest(
            s,
            sep,
            i + 1,
            Seq::empty(),
            if cur.len() == 0 {
                acc
            } else {
                acc.push(cur)
            },
        )
    } else {
        split_rest(s, sep, i + 1, cur.push(s[i]), acc)
    }
}

/// The non-empty segments of `s`, in order, divided at `sep`.
pub open spec fn split_nonempty(s: Seq<char>, sep: char) -> Seq<Seq<char>> {
    split_rest(s, sep, 0, Seq::empty(), Seq::empty())
}

/// The navigation segments of a structural pointer: its non-empty parts
/// between slashes. The root pointer `/` has no segments.
pub open spec fn segments_spec(pointer: Seq<char>) -> Seq<Seq<char>> {
    split_nonempty(pointer, '/')
}

/// Relies on String's FromIterator<char>: collecting characters yields the
/// string of exactly those characters in order.
#[verifier::external_body]
fn string_from_chars(chars: &Vec<char>) -> (r: String)
    ensures
        r@ == chars@,
{
    chars.iter().collect()
}

/// Copy the characters of a string slice into a vector.
fn to_char_vec(s: &str) -> (r: Vec<char>)
    ensures
        r@ == s@,
{
    let n = s.unicode_len();
    let mut out: Vec<char> = Vec::new();
    let mut i: usize = 0;
    while i < n
        invariant
            n == s@.len(),
            i <= n,
            out@ == s@.subrange(0, i as int),
        decreases n - i,
    {
        out.push(s.get_char(i));
        proof {
            assert(out@ =~= s@.subrange(0, i + 1 as int));
        }
        i = i + 1;
    }
    proof {
        assert(out@ =~= s@);
    }
    out
}

/// Turn a dotted pattern into its structural pointer.
pub fn normalize(pattern: &str) -> (r: String)
    ensures
        r@ == normalize_spec(pattern@),
{
    let chars = to_char_vec(pattern);
    let mut out: Vec<char> = Vec::new();
    out.push('/');
    let n = chars.len();
    let ghost mapped = pattern@.map_values(|c: char| to_pointer_char(c));
    let mut i: usize = 0;
    while i < n
        invariant
            n == chars@.len(),
            chars@ == pattern@,
            i <= n,
            mapped == pattern@.map_values(|c: char| to_pointer_char(c)),
            out@ == seq!['/'] + mapped.subrange(0, i as int),
        decreases n - i,
    {
        let c = chars[i];
        if c == '.' {
            out.push('/');
        } else {
            out.push(c);
        }
        proof {
            assert(out@ =~= seq!['/'] + mapped.subrange(0, i + 1 as int));
        }
        i = i + 1;
    }
    proof {
        assert(out@ =~= normalize_spec(pattern@));
    }
    string_from_chars(&out)
}

/// Turn a structural pointer back into the dotted form the user typed.
pub fn reconstruct(pointer: &str) -> (r: String)
    ensures
        r@ == reconstruct_spec(pointer@),
{
    let chars = to_char_vec(pointer);
    let mut out: Vec<char> = Vec::new();
    let n = chars.len();
    if n == 0 {
        proof {
            assert(out@ =~= reconstruct_spec(pointer@));
        }
        return string_from_chars(&out);
    }
    let ghost mapped = pointer@.skip(1).map_values(|c: char| to_dotted_char(c));
    let mut i: usize = 1;
    while i < n
        invariant
            n == chars@.len(),
            n >= 1,
            chars@ == pointer@,
            1 <= i <= n,
            mapped == pointer@.skip(1).map_values(|c: char| to_dotted_char(c)),
            out@ == mapped.subrange(0, i - 1),
        decreases n - i,
    {
        let c = chars[i];
        if c == '/' {
            out.push('.');
        } else {
            out.push(c);
        }
        proof {
            assert(out@ =~= mapped.subrange(0, i as int));
        }
        i = i + 1;
    }
    proof {
        assert(out@ =~= reconstruct_spec(pointer@));
    }
    string_from_chars(&out)
}

/// Divide a structural pointer into its navigation segments.
pub fn split_segments(pointer: &str) -> (r: Vec<String>)
    ensures
        r.deep_view() == segments_spec(pointer@),
{
    let chars = to_char_vec(pointer);
    let n = chars.len();
    let mut acc: Vec<String> = Vec::new();
    let mut cur: Vec<char> = Vec::new();
    proof {
        assert(acc.deep_view() =~= Seq::<Seq<char>>::empty());
        assert(cur@ =~= Seq::<char>::empty());
    }
    let mut i: usize = 0;
    while i < n
        invariant
            n == chars@.len(),
            chars@ == pointer@,
            i <= n,
            segments_spec(pointer@) == split_rest(pointer@, '/', i as int, cur@, acc.deep_view()),
        decreases n - i,
    {
        let ghost prev_cur = cur@;
        let ghost prev_acc = acc.deep_view();
        let c = chars[i];
        if c == '/' {
            if cur.len() > 0 {
                let seg = string_from_chars(&cur);
                acc.push(seg);
                cur = Vec::new();
                proof {
                    assert(acc.deep_view() =~= prev_acc.push(prev_cur));
                    assert(cur@ =~= Seq::<char>::empty());
                    assert(split_rest(pointer@, '/', i as int, prev_cur, prev_acc)
                        == split_rest(
                        pointer@,
                        '/',
                        i as int + 1,
                        Seq::empty(),
                        prev_acc.push(prev_cur),
                    ));
                    assert(split_rest(pointer@, '/', i as int, prev_cur, prev_acc)
                        == split_rest(pointer@, '/', i as int + 1, cur@, acc.deep_view()));
                }
            } else {
                proof {
                    assert(cur@ =~= Seq::<char>::empty());
                    assert(split_rest(pointer@, '/', i as int, prev_cur, prev_acc)
                        == split_rest(pointer@, '/', i as int + 1, cur@, acc.deep_view()));
                }
            }
        } else {
            cur.push(c);
            proof {
                assert(cur@ == prev_cur.push(pointer@[i as int]));
                assert(split_rest(pointer@, '/', i as int, prev_cur, prev_acc)
                    == split_rest(pointer@, '/', i as int + 1, cur@, acc.deep_view()));
            }
        }
        i = i + 1;
    }
    if cur.len() > 0 {
        let seg = string_from_chars(&cur);
        let ghost prev_acc = acc.deep_view();
        acc.push(seg);
        proof {
            assert(acc.deep_view() =~= prev_acc.push(seg@));
        }
    }
    acc
}

/// The dotted form carried in a query error is exactly the pattern the user
/// typed, whenever the pattern contains no slash of its own.
pub proof fn lemma_dotted_form_is_pattern(pattern: Seq<char>)
    requires
        forall|i: int| 0 <= i < pattern.len() ==> pattern[i] != '/',
    ensures
        dotted_spec(pattern) == pattern,
{
    let m = pattern.map_values(|c: char| to_pointer_char(c));
    let p = normalize_spec(pattern);
    assert(p.skip(1) =~= m);
    let d = m.map_values(|c: char| to_dotted_char(c));
    assert(reconstruct_spec(p) == d);
    assert forall|i: int| 0 <= i < d.len() implies d[i] == pattern[i] by {
        assert(m[i] == to_pointer_char(pattern[i]));
    }
    assert(d =~= pattern);
}

/// Normalizing the reconstructed dotted form of an internally produced
/// pointer gives that pointer back: reconstruction is the inverse of
/// normalization on every pointer the pipeline makes.
pub proof fn lemma_normalize_reconstruct_roundtrip(pattern: Seq<char>)
    ensures
        normalize_spec(reconstruct_spec(normalize_spec(pattern))) == normalize_spec(pattern),
{
    let m = pattern.map_values(|c: char| to_pointer_char(c));
    let p = normalize_spec(pattern);
    assert(p.skip(1) =~= m);
    let d = m.map_values(|c: char| to_dotted_char(c));
    assert(reconstruct_spec(p) == d);
    let back = d.map_values(|c: char| to_pointer_char(c));
    assert forall|i: int| 0 <= i < back.len() implies back[i] == m[i] by {
        assert(m[i] == to_pointer_char(pattern[i]));
        assert(m[i] != '.');
    }
    assert(back =~= m);
    assert(normalize_spec(d) =~= p);
}

} // verus!
