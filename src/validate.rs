//! Overlap validation of a register block's field list.
use vstd::prelude::*;
use std::collections::HashMap;
use crate::mode::{AccessMode, may_share};

verus! {

broadcast use vstd::std_specs::hash::group_hash_axioms;

/// Errors that abort the compilation of a register block.
#[derive(Clone, Debug, PartialEq, Eq)]
pub enum RegisterMapError {
    /// A field names an access mode outside the recognised set.
    UnrecognizedAccessMode { field: String, access: String },
    /// A field lacks its offset or its access mode.
    MissingFieldMetadata { field: String },
    /// A field claims its offset with a mode that the mode recorded there
    /// does not admit.
    OverlapConflict { field: String, offset: u32 },
    /// The block declaration already has type parameters; that slot is
    /// reserved for the base-address capability.
    GenericParameterConflict,
}

/// One declared register of a block.
#[derive(Clone, Debug)]
pub struct FieldDescriptor {
    /// The field's identifier, unique within its block.
    pub name: String,
    /// The register value's type, as declared (`u32`, ...).
    pub value_type: String,
    /// Byte offset from the block's base address.
    pub offset: u32,
    pub mode: AccessMode,
}

/// The offset registry after recording the claims `claims` in order: each
/// offset maps to the mode most recently claimed there.
pub open spec fn registry_of(claims: Seq<(u32, AccessMode)>) -> Map<u32, AccessMode>
    decreases claims.len(),
{
    if claims.len() == 0 {
        Map::empty()
    } else {
        registry_of(claims.drop_last()).insert(claims.last().0, claims.last().1)
    }
}

/// Whether the registry `reg` admits a new claim of `offset` with `mode`.
pub open spec fn admits(reg: Map<u32, AccessMode>, offset: u32, mode: AccessMode) -> bool {
    reg.contains_key(offset) ==> may_share(reg[offset], mode)
}

/// The (offset, mode) claim of each field, in order.
pub open spec fn claims_of(fields: Seq<FieldDescriptor>) -> Seq<(u32, AccessMode)> {
    fields.map_values(|f: FieldDescriptor| (f.offset, f.mode))
}

/// The error reported for a field whose claim is not admitted.
pub open spec fn conflict_of(f: FieldDescriptor) -> RegisterMapError {
    RegisterMapError::OverlapConflict { field: f.name, offset: f.offset }
}

/// The outcome of validating `fields`: the first field, in declaration
/// order, whose claim the registry built from the fields before it does not
/// admit is reported; if there is none, validation succeeds.
pub open spec fn overlap_check(fields: Seq<FieldDescriptor>) -> Result<(), RegisterMapError>
    decreases fields.len(),
{
    if fields.len() == 0 {
        Ok(())
    } else {
        match overlap_check(fields.drop_last()) {
            Err(e) => Err(e),
            Ok(_) => {
                let f = fields.last();
                if admits(registry_of(claims_of(fields.drop_last())), f.offset, f.mode) {
                    Ok(())
                } else {
                    Err(conflict_of(f))
                }
            },
        }
    }
}

pub proof fn lemma_claims_of_push(fields: Seq<FieldDescriptor>, f: FieldDescriptor)
    ensures
        claims_of(fields.push(f)) == claims_of(fields).push((f.offset, f.mode)),
        claims_of(fields.push(f)).drop_last() == claims_of(fields),
{
    assert(claims_of(fields.push(f)) =~= claims_of(fields).push((f.offset, f.mode)));
    assert(claims_of(fields.push(f)).drop_last() =~= claims_of(fields));
}

/// Once a prefix of a field list fails validation, every longer prefix fails
/// with the same error.
pub proof fn lemma_check_failure_persists(fields: Seq<FieldDescriptor>, k: int, j: int)
    requires
        0 <= k <= j <= fields.len(),
        overlap_check(fields.take(k)) is Err,
    ensures
        overlap_check(fields.take(j)) == overlap_check(fields.take(k)),
    decreases j - k,
{
    if j > k {
        lemma_check_failure_persists(fields, k, j - 1);
        assert(fields.take(j).drop_last() == fields.take(j - 1));
    }
}

/// Checks a block's fields for illegal offset overlaps, in declaration
/// order.
///
/// The registry remembers only the most recently accepted mode at each
/// offset, so with three or more fields at one offset a field is checked
/// against its latest predecessor there, not against all of them.
pub fn validate(fields: &Vec<FieldDescriptor>) -> (r: Result<(), RegisterMapError>)
    ensures
        r == overlap_check(fields@),
{
    let mut registry: HashMap<u32, AccessMode> = HashMap::new();
    let mut i: usize = 0;
    while i < fields.len()
        invariant
            0 <= i <= fields@.len(),
            registry@ == registry_of(claims_of(fields@.take(i as int))),
            overlap_check(fields@.take(i as int)) == Ok::<(), RegisterMapError>(()),
        decreases fields@.len() - i,
    {
        let f = &fields[i];
        let ghost prefix = fields@.take(i as int);
        assert(fields@.take(i as int + 1) == prefix.push(fields@[i as int]));
        proof {
            lemma_claims_of_push(prefix, fields@[i as int]);
        }
        assert(fields@.take(i as int + 1).drop_last() == prefix);
        match registry.get(&f.offset) {
            Some(prior) => {
                if !prior.admits(f.mode) {
                    proof {
                        lemma_check_failure_persists(fields@, i as int + 1, fields@.len() as int);
                        assert(fields@.take(fields@.len() as int) == fields@);
                    }
                    return Err(RegisterMapError::OverlapConflict { field: f.name.clone(), offset: f.offset });
                }
            },
            None => {},
        }
        registry.insert(f.offset, f.mode);
        i = i + 1;
    }
    assert(fields@.take(fields@.len() as int) == fields@);
    Ok(())
}

} // verus!

verus! {

/// The offsets claimed in `claims` are exactly those that its registry maps.
pub proof fn lemma_registry_domain(claims: Seq<(u32, AccessMode)>, offset: u32)
    ensures
        registry_of(claims).contains_key(offset) <==> exists|i: int|
            0 <= i < claims.len() && #[trigger] claims[i].0 == offset,
    decreases claims.len(),
{
    if claims.len() > 0 {
        let init = claims.drop_last();
        lemma_registry_domain(init, offset);
        if registry_of(init).contains_key(offset) {
            let i = choose|i: int| 0 <= i < init.len() && #[trigger] init[i].0 == offset;
            assert(claims[i].0 == offset);
        }
        if exists|i: int| 0 <= i < claims.len() && #[trigger] claims[i].0 == offset {
            let i = choose|i: int| 0 <= i < claims.len() && #[trigger] claims[i].0 == offset;
            if i < claims.len() - 1 {
                assert(init[i].0 == offset);
            }
        }
    }
}

/// Whether no two fields of `fields` share an offset.
pub open spec fn offsets_distinct(fields: Seq<FieldDescriptor>) -> bool {
    forall|i: int, j: int|
        0 <= i < j < fields.len() ==> #[trigger] fields[i].offset != #[trigger] fields[j].offset
}

/// A field list whose offsets are all distinct passes validation, whatever
/// its access modes.
pub proof fn lemma_distinct_offsets_validate(fields: Seq<FieldDescriptor>)
    requires
        offsets_distinct(fields),
    ensures
        overlap_check(fields) == Ok::<(), RegisterMapError>(()),
    decreases fields.len(),
{
    if fields.len() > 0 {
        let init = fields.drop_last();
        let f = fields.last();
        assert(offsets_distinct(init)) by {
            assert forall|i: int, j: int| 0 <= i < j < init.len() implies
                #[trigger] init[i].offset != #[trigger] init[j].offset by {
                assert(init[i] == fields[i] && init[j] == fields[j]);
            }
        }
        lemma_distinct_offsets_validate(init);
        let claims = claims_of(init);
        lemma_registry_domain(claims, f.offset);
        if registry_of(claims).contains_key(f.offset) {
            let i = choose|i: int| 0 <= i < claims.len() && #[trigger] claims[i].0 == f.offset;
            assert(fields[i].offset == fields[fields.len() - 1].offset);
        }
    }
}

proof fn lemma_pair_check(first: FieldDescriptor, second: FieldDescriptor)
    requires
        first.offset == second.offset,
    ensures
        overlap_check(seq![first, second]) == if may_share(first.mode, second.mode) {
            Ok::<(), RegisterMapError>(())
        } else {
            Err(conflict_of(second))
        },
{
    let fields = seq![first, second];
    let claims = seq![(first.offset, first.mode)];
    assert(fields.drop_last() == seq![first]);
    assert(seq![first].drop_last() == Seq::<FieldDescriptor>::empty());
    assert(overlap_check(Seq::<FieldDescriptor>::empty()) == Ok::<(), RegisterMapError>(()));
    assert(overlap_check(seq![first]) == Ok::<(), RegisterMapError>(()));
    assert(claims_of(seq![first]) == claims);
    assert(claims.drop_last() == Seq::<(u32, AccessMode)>::empty());
    assert(registry_of(Seq::<(u32, AccessMode)>::empty()) == Map::<u32, AccessMode>::empty());
    assert(registry_of(claims) == Map::<u32, AccessMode>::empty().insert(first.offset, first.mode));
}

/// Whether two modes form a split read/write view of one register: a
/// read-only field together with a write-only, write-to-clear or
/// read-to-clear field, in either order.
pub open spec fn split_view_pair(a: AccessMode, b: AccessMode) -> bool {
    let writer = |m: AccessMode|
        m == AccessMode::WriteOnly || m == AccessMode::WriteClear || m == AccessMode::ReadClear;
    (a == AccessMode::ReadOnly && writer(b)) || (b == AccessMode::ReadOnly && writer(a))
}

/// Two fields at one offset pass validation exactly when they form a split
/// read/write view. A read-only field followed by a read-write field at the
/// same offset is left out: the overlap rule admits that order.
pub proof fn lemma_same_offset_pair(first: FieldDescriptor, second: FieldDescriptor)
    requires
        first.offset == second.offset,
        !(first.mode == AccessMode::ReadOnly && second.mode == AccessMode::ReadWrite),
    ensures
        overlap_check(seq![first, second]) is Ok <==> split_view_pair(first.mode, second.mode),
{
    lemma_pair_check(first, second);
}

/// Two read-write fields, a read-write field followed by a write-only one,
/// two read-only fields, or a read-write field followed by a read-only one,
/// at one offset, fail validation with a conflict naming the second field.
pub proof fn lemma_same_offset_conflicts(first: FieldDescriptor, second: FieldDescriptor)
    requires
        first.offset == second.offset,
        (first.mode == AccessMode::ReadWrite && second.mode == AccessMode::ReadWrite) || (first.mode
            == AccessMode::ReadWrite && second.mode == AccessMode::WriteOnly) || (first.mode
            == AccessMode::ReadOnly && second.mode == AccessMode::ReadOnly) || (first.mode
            == AccessMode::ReadWrite && second.mode == AccessMode::ReadOnly),
    ensures
        overlap_check(seq![first, second]) == Err::<(), RegisterMapError>(conflict_of(second)),
{
    lemma_pair_check(first, second);
}

} // verus!
