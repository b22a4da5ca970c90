use vstd::prelude::*;

verus! {

/// The kind of one field of a uniform block.
#[derive(Clone, Copy, Debug, PartialEq, Eq, Structural)]
pub enum FieldKind {
    /// A 32-bit scalar (`u32`, `i32` or `f32`).
    Scalar,
    /// A three-component vector of 32-bit scalars.
    Vector,
    /// An explicit 32-bit padding word.
    Padding,
}

/// Bytes taken by one field.
pub open spec fn kind_size(k: FieldKind) -> nat {
    match k {
        FieldKind::Vector => 12,
        _ => 4,
    }
}

/// Alignment the uniform address space asks of a field: vectors start on a
/// 16-byte boundary, scalars on a 4-byte one.
pub open spec fn kind_align(k: FieldKind) -> nat {
    match k {
        FieldKind::Vector => 16,
        _ => 4,
    }
}

/// The smallest multiple of `a` that is at least `n`.
pub open spec fn align_up(n: nat, a: nat) -> nat
    recommends
        a > 0,
{
    if n % a == 0 {
        n
    } else {
        (n + (a - n % a)) as nat
    }
}

/// The byte just past the last field when `ks` is laid out in order, each
/// field at the first offset past its predecessor that meets its alignment.
pub open spec fn end_of(ks: Seq<FieldKind>) -> nat
    decreases ks.len(),
{
    if ks.len() == 0 {
        0
    } else {
        align_up(end_of(ks.drop_last()), kind_align(ks.last())) + kind_size(ks.last())
    }
}

/// Byte offset of field `i` of `ks`.
pub open spec fn offset_of(ks: Seq<FieldKind>, i: int) -> nat
    recommends
        0 <= i < ks.len(),
{
    align_up(end_of(ks.take(i)), kind_align(ks[i]))
}

/// Size of the whole block: the end of its fields rounded up to 16 bytes,
/// the alignment of the block itself.
pub open spec fn block_size_of(ks: Seq<FieldKind>) -> nat {
    align_up(end_of(ks), 16)
}

/// Largest number of fields whose offsets are computed: the offsets of that
/// many fields fit in a `u32`.
pub const MAX_FIELDS: usize = 100_000_000;

proof fn lemma_align_up_bounds(n: nat, a: nat)
    requires
        a > 0,
    ensures
        n <= align_up(n, a) < n + a,
        align_up(n, a) % a == 0,
{
    if n % a != 0 {
        assert((n + (a - n % a)) % (a as int) == 0) by (nonlinear_arith)
            requires a > 0, n % a != 0;
    }
}

pub(crate) proof fn lemma_end_push(ks: Seq<FieldKind>, k: FieldKind)
    ensures
        end_of(ks.push(k)) == align_up(end_of(ks), kind_align(k)) + kind_size(k),
{
    assert(ks.push(k).drop_last() =~= ks);
}


fn size_of_kind(k: FieldKind) -> (r: u32)
    ensures
        r == kind_size(k),
{
    match k {
        FieldKind::Vector => 12,
        _ => 4,
    }
}

fn align_of_kind(k: FieldKind) -> (r: u32)
    ensures
        r == kind_align(k),
{
    match k {
        FieldKind::Vector => 16,
        _ => 4,
    }
}

fn align_to(n: u32, a: u32) -> (r: u32)
    requires
        a > 0,
        n + a <= u32::MAX,
    ensures
        r == align_up(n as nat, a as nat),
{
    proof {
        lemma_align_up_bounds(n as nat, a as nat);
    }
    let rem: u32 = n % a;
    if rem == 0 {
        n
    } else {
        n + (a - rem)
    }
}

/// Byte offset of every field of `kinds`, laid out in order under the
/// alignment rule.
pub fn field_offsets(kinds: &Vec<FieldKind>) -> (r: Vec<u32>)
    requires
        kinds.len() <= MAX_FIELDS,
    ensures
        r.len() == kinds.len(),
        forall|i: int| 0 <= i < kinds.len() ==> r[i] == offset_of(kinds@, i),
{
    let mut r: Vec<u32> = Vec::new();
    let mut end: u32 = 0;
    let mut i: usize = 0;
    while i < kinds.len()
        invariant
            i <= kinds.len() <= MAX_FIELDS,
            r.len() == i,
            end == end_of(kinds@.take(i as int)),
            end <= 28 * i,
            forall|j: int| 0 <= j < i ==> r[j] == offset_of(kinds@, j),
        decreases kinds.len() - i,
    {
        let k = kinds[i];
        let off = align_to(end, align_of_kind(k));
        r.push(off);
        proof {
            lemma_align_up_bounds(end as nat, kind_align(k));
            assert(kinds@.take(i + 1) =~= kinds@.take(i as int).push(k));
            lemma_end_push(kinds@.take(i as int), k);
        }
        end = off + size_of_kind(k);
        i = i + 1;
    }
    r
}

/// Byte size of a uniform block with the fields `kinds`.
pub fn block_size(kinds: &Vec<FieldKind>) -> (r: u32)
    requires
        kinds.len() <= MAX_FIELDS,
    ensures
        r == block_size_of(kinds@),
{
    let mut end: u32 = 0;
    let mut i: usize = 0;
    while i < kinds.len()
        invariant
            i <= kinds.len() <= MAX_FIELDS,
            end == end_of(kinds@.take(i as int)),
            end <= 28 * i,
        decreases kinds.len() - i,
    {
        let k = kinds[i];
        proof {
            lemma_align_up_bounds(end as nat, kind_align(k));
            assert(kinds@.take(i + 1) =~= kinds@.take(i as int).push(k));
            lemma_end_push(kinds@.take(i as int), k);
        }
        end = align_to(end, align_of_kind(k)) + size_of_kind(k);
        i = i + 1;
    }
    assert(kinds@.take(kinds.len() as int) =~= kinds@);
    align_to(end, 16)
}

} // verus!
