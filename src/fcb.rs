use vstd::prelude::*;

verus! {

/// Index of the first `b` in `p`, or `p.len()` when there is none.
pub open spec fn first_of(p: Seq<u8>, b: u8) -> int
    decreases p.len(),
{
    if p.len() == 0 {
        0
    } else if p[0] == b {
        0
    } else {
        1 + first_of(p.drop_first(), b)
    }
}

/// A lower-case ASCII letter in upper case; every other byte unchanged.
pub open spec fn upper(b: u8) -> u8 {
    if 0x61 <= b <= 0x7A {
        (b - 0x20) as u8
    } else {
        b
    }
}

/// One field of an 8.3 name, `width` bytes: the part's bytes in upper case
/// up to the first `*`, then `?` to the end if there was a `*`, else blanks.
/// Bytes past the width are dropped.
pub open spec fn field(p: Seq<u8>, width: int) -> Seq<u8> {
    let k = first_of(p, 0x2A);
    Seq::new(
        width as nat,
        |j: int|
            if j < k {
                upper(p[j])
            } else if k < p.len() {
                0x3Fu8
            } else {
                0x20u8
            },
    )
}

/// The eleven bytes of an 8.3 name for a file name: name before the first
/// `.`, type after it.
pub open spec fn fcb_name(t: Seq<u8>) -> Seq<u8> {
    let d = first_of(t, 0x2E);
    let name = t.subrange(0, d);
    let ext = if d < t.len() { t.subrange(d + 1, t.len() as int) } else { Seq::<u8>::empty() };
    field(name, 8) + field(ext, 3)
}

proof fn lemma_first_of(p: Seq<u8>, b: u8, k: int)
    requires
        0 <= k <= p.len(),
        forall|i: int| 0 <= i < k ==> p[i] != b,
        k == p.len() || p[k] == b,
    ensures
        first_of(p, b) == k,
    decreases p.len(),
{
    if p.len() > 0 && p[0] != b {
        lemma_first_of(p.drop_first(), b, k - 1);
    }
}

proof fn lemma_first_of_bounds(p: Seq<u8>, b: u8)
    ensures
        0 <= first_of(p, b) <= p.len(),
        first_of(p, b) < p.len() ==> p[first_of(p, b)] == b,
        forall|i: int| 0 <= i < first_of(p, b) ==> p[i] != b,
    decreases p.len(),
{
    if p.len() > 0 && p[0] != b {
        lemma_first_of_bounds(p.drop_first(), b);
        assert forall|i: int| 0 <= i < first_of(p, b) implies p[i] != b by {
            if i > 0 {
                assert(p[i] == p.drop_first()[i - 1]);
            }
        }
    }
}

fn find(p: &Vec<u8>, start: usize, end: usize, b: u8) -> (k: usize)
    requires
        start <= end <= p@.len(),
    ensures
        k as int == start + first_of(p@.subrange(start as int, end as int), b),
        start <= k <= end,
{
    let mut k: usize = start;
    while k < end && p[k] != b
        invariant
            start <= k <= end <= p@.len(),
            forall|i: int| start <= i < k ==> p@[i] != b,
        decreases end - k,
    {
        k = k + 1;
    }
    proof {
        let q = p@.subrange(start as int, end as int);
        lemma_first_of(q, b, k - start);
    }
    k
}

fn upper_byte(b: u8) -> (r: u8)
    ensures
        r == upper(b),
{
    if 0x61 <= b && b <= 0x7A {
        b - 0x20
    } else {
        b
    }
}

/// Appends the `width` bytes of the field for `p[start..end]` to `out`.
fn push_field(out: &mut Vec<u8>, p: &Vec<u8>, start: usize, end: usize, width: usize)
    requires
        start <= end <= p@.len(),
        width <= 8,
    ensures
        final(out)@ == old(out)@ + field(p@.subrange(start as int, end as int), width as int),
{
    let ghost q = p@.subrange(start as int, end as int);
    let star = find(p, start, end, 0x2A);
    proof {
        lemma_first_of_bounds(q, 0x2A);
    }
    let mut j: usize = 0;
    while j < width
        invariant
            start <= star <= end <= p@.len(),
            star - start == first_of(q, 0x2A),
            q == p@.subrange(start as int, end as int),
            j <= width,
            out@ == old(out)@ + field(q, width as int).subrange(0, j as int),
        decreases width - j,
    {
        let c: u8 = if j < star - start {
            upper_byte(p[start + j])
        } else if star < end {
            0x3F
        } else {
            0x20
        };
        out.push(c);
        j = j + 1;
        assert(out@ =~= old(out)@ + field(q, width as int).subrange(0, j as int));
    }
    assert(field(q, width as int).subrange(0, width as int) =~= field(q, width as int));
}

/// Converts a file name such as `abc*.txt` into the eleven bytes of an 8.3
/// name as a file control block holds it (`ABC?????TXT`). Gives none for a
/// name with nothing before its `.`.
pub fn name_to_8_3(t: &Vec<u8>) -> (r: Option<Vec<u8>>)
    ensures
        r.is_some() == (first_of(t@, 0x2E) > 0),
        r.is_some() ==> r.unwrap()@ == fcb_name(t@) && r.unwrap()@.len() == 11,
{
    let len = t.len();
    let dot = find(t, 0, len, 0x2E);
    proof {
        assert(t@.subrange(0, len as int) =~= t@);
        lemma_first_of_bounds(t@, 0x2E);
    }
    if dot == 0 {
        return None;
    }
    let mut out: Vec<u8> = Vec::new();
    push_field(&mut out, t, 0, dot, 8);
    let ext_start: usize = if dot < len { dot + 1 } else { len };
    push_field(&mut out, t, ext_start, len, 3);
    proof {
        let e = t@.subrange(ext_start as int, len as int);
        if dot == len {
            assert(e =~= Seq::<u8>::empty());
        }
        assert(out@ =~= fcb_name(t@));
    }
    Some(out)
}

} // verus!
