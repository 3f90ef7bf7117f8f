//! Compilation of a register block declaration into accessor bindings.
use vstd::prelude::*;
use crate::mode::{AccessMode, mode_named, parse_access_mode};
use crate::validate::{
    FieldDescriptor,
    RegisterMapError,
    admits,
    claims_of,
    conflict_of,
    overlap_check,
    registry_of,
    validate,
};

verus! {

/// A field as declared, before its metadata is checked: the offset and the
/// access mode name may be missing.
#[derive(Clone, Debug)]
pub struct FieldSpec {
    pub name: String,
    pub value_type: String,
    pub offset: Option<u32>,
    pub access: Option<String>,
}

/// A register block declaration: its name, whether it already has type
/// parameters, and its fields in declaration order.
#[derive(Clone, Debug)]
pub struct BlockSpec {
    pub name: String,
    pub has_generics: bool,
    pub fields: Vec<FieldSpec>,
}

/// An operation that an accessor offers.
#[derive(Clone, Copy, Debug, PartialEq, Eq, Structural)]
pub enum Operation {
    Read,
    Write,
    Modify,
    Clear,
}

/// The operations of an accessor of mode `m`.
pub open spec fn operations_of(m: AccessMode) -> Seq<Operation> {
    match m {
        AccessMode::ReadWrite => seq![Operation::Read, Operation::Write, Operation::Modify],
        AccessMode::ReadOnly => seq![Operation::Read],
        AccessMode::WriteOnly => seq![Operation::Write],
        AccessMode::WriteClear => seq![Operation::Clear],
        AccessMode::ReadClear => seq![Operation::Read],
    }
}

/// The operations of an accessor of mode `m`, in the order `read`, `write`,
/// `modify`, `clear`.
pub fn operations(m: AccessMode) -> (r: Vec<Operation>)
    ensures
        r@ == operations_of(m),
{
    match m {
        AccessMode::ReadWrite => vec![Operation::Read, Operation::Write, Operation::Modify],
        AccessMode::ReadOnly => vec![Operation::Read],
        AccessMode::WriteOnly => vec![Operation::Write],
        AccessMode::WriteClear => vec![Operation::Clear],
        AccessMode::ReadClear => vec![Operation::Read],
    }
}

/// One generated accessor: the field it stands for, its access kind, its
/// offset from the block's base address, and the operations it offers.
#[derive(Clone, Debug)]
pub struct AccessorBinding {
    pub name: String,
    pub value_type: String,
    pub mode: AccessMode,
    pub offset: u32,
    pub operations: Vec<Operation>,
}

/// Whether `b` is the binding generated for the validated field `d`.
pub open spec fn binds(b: AccessorBinding, d: FieldDescriptor) -> bool {
    &&& b.name == d.name
    &&& b.value_type == d.value_type
    &&& b.mode == d.mode
    &&& b.offset == d.offset
    &&& b.operations@ == operations_of(d.mode)
}

/// The descriptor that a declared field resolves to, or the error that its
/// metadata gives: an unrecognised mode name is reported first, then a
/// missing offset or mode.
pub open spec fn resolution(f: FieldSpec) -> Result<FieldDescriptor, RegisterMapError> {
    if f.access is Some && mode_named(f.access->Some_0@) is None {
        Err(RegisterMapError::UnrecognizedAccessMode { field: f.name, access: f.access->Some_0 })
    } else if f.offset is None || f.access is None {
        Err(RegisterMapError::MissingFieldMetadata { field: f.name })
    } else {
        Ok(
            FieldDescriptor {
                name: f.name,
                value_type: f.value_type,
                offset: f.offset->Some_0,
                mode: mode_named(f.access->Some_0@)->Some_0,
            },
        )
    }
}

/// Resolves one declared field's metadata.
pub fn resolve_field(f: &FieldSpec) -> (r: Result<FieldDescriptor, RegisterMapError>)
    ensures
        r == resolution(*f),
{
    let mode = match &f.access {
        Some(a) => match parse_access_mode(a.as_str()) {
            Some(m) => Some(m),
            None => {
                return Err(
                    RegisterMapError::UnrecognizedAccessMode {
                        field: f.name.clone(),
                        access: a.clone(),
                    },
                );
            },
        },
        None => None,
    };
    match (f.offset, mode) {
        (Some(offset), Some(mode)) => Ok(
            FieldDescriptor {
                name: f.name.clone(),
                value_type: f.value_type.clone(),
                offset,
                mode,
            },
        ),
        _ => Err(RegisterMapError::MissingFieldMetadata { field: f.name.clone() }),
    }
}

/// The outcome of compiling the fields `fs` in order: each field is
/// resolved, then checked against the offset registry of the fields before
/// it; the first error stops compilation.
pub open spec fn compile_fields(fs: Seq<FieldSpec>) -> Result<
    Seq<FieldDescriptor>,
    RegisterMapError,
>
    decreases fs.len(),
{
    if fs.len() == 0 {
        Ok(Seq::empty())
    } else {
        match compile_fields(fs.drop_last()) {
            Err(e) => Err(e),
            Ok(ds) => match resolution(fs.last()) {
                Err(e) => Err(e),
                Ok(d) => if admits(registry_of(claims_of(ds)), d.offset, d.mode) {
                    Ok(ds.push(d))
                } else {
                    Err(conflict_of(d))
                },
            },
        }
    }
}

/// The outcome of compiling a block declaration: a block with type
/// parameters is refused; otherwise its fields are compiled.
pub open spec fn compiled(b: BlockSpec) -> Result<Seq<FieldDescriptor>, RegisterMapError> {
    if b.has_generics {
        Err(RegisterMapError::GenericParameterConflict)
    } else {
        compile_fields(b.fields@)
    }
}

} // verus!

verus! {

/// Once a prefix of a declaration's fields fails to compile, every longer
/// prefix fails with the same error.
proof fn lemma_compile_failure_persists(fs: Seq<FieldSpec>, k: int, j: int)
    requires
        0 <= k <= j <= fs.len(),
        compile_fields(fs.take(k)) is Err,
    ensures
        compile_fields(fs.take(j)) == compile_fields(fs.take(k)),
    decreases j - k,
{
    if j > k {
        lemma_compile_failure_persists(fs, k, j - 1);
        assert(fs.take(j).drop_last() == fs.take(j - 1));
    }
}

/// Where every field resolves, compiling the fields is validating what they
/// resolve to.
proof fn lemma_compile_resolved(fs: Seq<FieldSpec>, ds: Seq<FieldDescriptor>)
    requires
        ds.len() == fs.len(),
        forall|i: int| 0 <= i < fs.len() ==> resolution(#[trigger] fs[i]) == Ok::<
            FieldDescriptor,
            RegisterMapError,
        >(ds[i]),
    ensures
        compile_fields(fs) == match overlap_check(ds) {
            Ok(_) => Ok::<Seq<FieldDescriptor>, RegisterMapError>(ds),
            Err(e) => Err(e),
        },
    decreases fs.len(),
{
    if fs.len() > 0 {
        let fi = fs.drop_last();
        let di = ds.drop_last();
        assert forall|i: int| 0 <= i < fi.len() implies resolution(#[trigger] fi[i]) == Ok::<
            FieldDescriptor,
            RegisterMapError,
        >(di[i]) by {
            assert(fi[i] == fs[i]);
        }
        lemma_compile_resolved(fi, di);
        assert(resolution(fs[fs.len() - 1]) == Ok::<FieldDescriptor, RegisterMapError>(
            ds[ds.len() - 1],
        ));
        assert(di.push(ds.last()) == ds);
    } else {
        assert(ds == Seq::<FieldDescriptor>::empty());
    }
}

/// Resolves fields in order until one fails: returns the descriptors of the
/// fields before it, and its error if there is one.
fn resolve_fields(fields: &Vec<FieldSpec>) -> (r: (Vec<FieldDescriptor>, Option<RegisterMapError>))
    ensures
        r.0@.len() <= fields@.len(),
        forall|i: int| 0 <= i < r.0@.len() ==> resolution(#[trigger] fields@[i]) == Ok::<
            FieldDescriptor,
            RegisterMapError,
        >(r.0@[i]),
        match r.1 {
            None => r.0@.len() == fields@.len(),
            Some(e) => r.0@.len() < fields@.len() && resolution(fields@[r.0@.len() as int]) == Err::<
                FieldDescriptor,
                RegisterMapError,
            >(e),
        },
{
    let mut ds: Vec<FieldDescriptor> = Vec::new();
    let mut i: usize = 0;
    while i < fields.len()
        invariant
            0 <= i <= fields@.len(),
            ds@.len() == i,
            forall|j: int| 0 <= j < i ==> resolution(#[trigger] fields@[j]) == Ok::<
                FieldDescriptor,
                RegisterMapError,
            >(ds@[j]),
        decreases fields@.len() - i,
    {
        match resolve_field(&fields[i]) {
            Ok(d) => ds.push(d),
            Err(e) => {
                return (ds, Some(e));
            },
        }
        i = i + 1;
    }
    (ds, None)
}

/// Compiles a register block declaration: refuses a block with type
/// parameters, resolves each field's metadata, checks offset overlaps in
/// declaration order, and on success yields one accessor binding per field,
/// in the same order.
pub fn compile_block(block: &BlockSpec) -> (r: Result<Vec<AccessorBinding>, RegisterMapError>)
    ensures
        match compiled(*block) {
            Ok(ds) => r is Ok && r->Ok_0@.len() == ds.len() && forall|i: int|
                0 <= i < ds.len() ==> binds(#[trigger] r->Ok_0@[i], ds[i]),
            Err(e) => r == Err::<Vec<AccessorBinding>, RegisterMapError>(e),
        },
{
    if block.has_generics {
        return Err(RegisterMapError::GenericParameterConflict);
    }
    let ghost fs = block.fields@;
    let (ds, failure) = resolve_fields(&block.fields);
    let ghost k = ds@.len() as int;
    proof {
        lemma_compile_resolved(fs.take(k), ds@);
    }
    match validate(&ds) {
        Err(e) => {
            proof {
                lemma_compile_failure_persists(fs, k, fs.len() as int);
                assert(fs.take(fs.len() as int) == fs);
            }
            return Err(e);
        },
        Ok(_) => {},
    }
    match failure {
        Some(e) => {
            proof {
                assert(fs.take(k + 1).drop_last() == fs.take(k));
                assert(fs.take(k + 1).last() == fs[k]);
                lemma_compile_failure_persists(fs, k + 1, fs.len() as int);
                assert(fs.take(fs.len() as int) == fs);
            }
            return Err(e);
        },
        None => {},
    }
    assert(fs.take(k) == fs);
    let mut bindings: Vec<AccessorBinding> = Vec::new();
    let mut i: usize = 0;
    while i < ds.len()
        invariant
            0 <= i <= ds@.len(),
            bindings@.len() == i,
            forall|j: int| 0 <= j < i ==> binds(#[trigger] bindings@[j], ds@[j]),
        decreases ds@.len() - i,
    {
        let d = &ds[i];
        bindings.push(
            AccessorBinding {
                name: d.name.clone(),
                value_type: d.value_type.clone(),
                mode: d.mode,
                offset: d.offset,
                operations: operations(d.mode),
            },
        );
        i = i + 1;
    }
    Ok(bindings)
}

} // verus!

verus! {

/// A declaration whose fields compile yields one descriptor per field, and
/// those descriptors pass overlap validation.
pub proof fn lemma_compiled_fields_validate(fs: Seq<FieldSpec>)
    requires
        compile_fields(fs) is Ok,
    ensures
        compile_fields(fs)->Ok_0.len() == fs.len(),
        overlap_check(compile_fields(fs)->Ok_0) == Ok::<(), RegisterMapError>(()),
    decreases fs.len(),
{
    if fs.len() > 0 {
        let init = fs.drop_last();
        lemma_compiled_fields_validate(init);
        let ds = compile_fields(init)->Ok_0;
        let d = resolution(fs.last())->Ok_0;
        assert(ds.push(d).drop_last() == ds);
    }
}

} // verus!
