//! Generation of the fragments of a register: its wrapper type and the
//! read and write accessors of its fields.
use vstd::prelude::*;
use crate::bits::{field_mask, mask_of};
use crate::error::{GenError, GenErrorV};
use crate::fragment::{Accessor, AccessorV, Fragment, FragmentV, accessors_view, fragments_view};
use crate::model::{Access, Field, Register, Defaults, size_of, reset_of, register_size, register_reset};
use crate::naming::{getter_name, setter_name, pascal_name, respace, respaced, pascal_of, getter_name_of, setter_name_of};
use crate::width::{IntTy, int_ty_of, to_ty};

verus! {

/// The integer type of register `r`'s raw bits.
pub open spec fn register_bits(r: Register, d: Defaults) -> Result<IntTy, GenErrorV> {
    match size_of(r, d) {
        None => Err(GenErrorV::UnresolvableSize { register: r.name@ }),
        Some(s) => match int_ty_of(s as int) {
            None => Err(GenErrorV::UnsupportedWidth { name: r.name@, width: s }),
            Some(t) => Ok(t),
        },
    }
}

/// The doc item that goes before the accessors of field `f`, if it has a description.
pub open spec fn doc_items(f: Field) -> Seq<AccessorV> {
    match f.description {
        Some(ds) => seq![
            AccessorV::Doc {
                offset: f.bit_range.offset,
                width: f.bit_range.width,
                text: respaced(ds@),
            },
        ],
        None => seq![],
    }
}

/// The getter of field `f`: a bool for a single bit, else the smallest type
/// that holds the field's width.
pub open spec fn getter_of(f: Field) -> Result<AccessorV, GenErrorV> {
    let w = f.bit_range.width;
    if w == 1 {
        Ok(AccessorV::BitGetter { name: getter_name_of(f.name@), offset: f.bit_range.offset })
    } else {
        match int_ty_of(w as int) {
            None => Err(GenErrorV::UnsupportedWidth { name: f.name@, width: w }),
            Some(t) => Ok(
                AccessorV::FieldGetter {
                    name: getter_name_of(f.name@),
                    offset: f.bit_range.offset,
                    width: w,
                    mask: field_mask(w),
                    ty: t,
                },
            ),
        }
    }
}

/// The setter of field `f`: taking a bool for a single bit, else the smallest
/// type that holds the field's width.
pub open spec fn setter_of(f: Field) -> Result<AccessorV, GenErrorV> {
    let w = f.bit_range.width;
    if w == 1 {
        Ok(AccessorV::BitSetter { name: setter_name_of(f.name@), offset: f.bit_range.offset })
    } else {
        match int_ty_of(w as int) {
            None => Err(GenErrorV::UnsupportedWidth { name: f.name@, width: w }),
            Some(t) => Ok(
                AccessorV::FieldSetter {
                    name: setter_name_of(f.name@),
                    offset: f.bit_range.offset,
                    width: w,
                    mask: field_mask(w),
                    ty: t,
                },
            ),
        }
    }
}

/// The read accessors of fields `fs`: for each field that is not write-only,
/// its doc item and its getter.
pub open spec fn read_items(fs: Seq<Field>) -> Result<Seq<AccessorV>, GenErrorV>
    decreases fs.len(),
{
    if fs.len() == 0 {
        Ok(seq![])
    } else {
        match read_items(fs.drop_last()) {
            Err(e) => Err(e),
            Ok(prev) => {
                let f = fs.last();
                if f.access == Some(Access::WriteOnly) {
                    Ok(prev)
                } else {
                    match getter_of(f) {
                        Err(e) => Err(e),
                        Ok(g) => Ok(prev + doc_items(f) + seq![g]),
                    }
                }
            },
        }
    }
}

/// The write accessors of fields `fs`: for each field that is not read-only,
/// its doc item and its setter.
pub open spec fn write_items(fs: Seq<Field>) -> Result<Seq<AccessorV>, GenErrorV>
    decreases fs.len(),
{
    if fs.len() == 0 {
        Ok(seq![])
    } else {
        match write_items(fs.drop_last()) {
            Err(e) => Err(e),
            Ok(prev) => {
                let f = fs.last();
                if f.access == Some(Access::ReadOnly) {
                    Ok(prev)
                } else {
                    match setter_of(f) {
                        Err(e) => Err(e),
                        Ok(s) => Ok(prev + doc_items(f) + seq![s]),
                    }
                }
            },
        }
    }
}

/// The wrapper type of register `r`.
pub open spec fn register_type(r: Register, d: Defaults) -> Result<Seq<FragmentV>, GenErrorV> {
    match register_bits(r, d) {
        Err(e) => Err(e),
        Ok(t) => Ok(seq![FragmentV::RegisterType { name: pascal_of(r.name@), bits: t }]),
    }
}

/// The `impl` block of register `r` with its read accessors.
pub open spec fn read_methods(r: Register, d: Defaults) -> Result<Seq<FragmentV>, GenErrorV> {
    match register_bits(r, d) {
        Err(e) => Err(e),
        Ok(_) => match r.fields {
            None => Ok(seq![FragmentV::Impl { name: pascal_of(r.name@), items: seq![] }]),
            Some(fs) => match read_items(fs@) {
                Err(e) => Err(e),
                Ok(items) => Ok(seq![FragmentV::Impl { name: pascal_of(r.name@), items }]),
            },
        },
    }
}

/// The reset-value constructor of register `r`, where a reset value is known.
pub open spec fn reset_items(r: Register, d: Defaults) -> Seq<AccessorV> {
    match reset_of(r, d) {
        Some(v) => seq![AccessorV::ResetValue { value: v }],
        None => seq![],
    }
}

/// The `impl` block of register `r` with its constructor and write accessors.
pub open spec fn write_methods(r: Register, d: Defaults) -> Result<Seq<FragmentV>, GenErrorV> {
    match register_bits(r, d) {
        Err(e) => Err(e),
        Ok(_) => match r.fields {
            None => Ok(seq![FragmentV::Impl { name: pascal_of(r.name@), items: reset_items(r, d) }]),
            Some(fs) => match write_items(fs@) {
                Err(e) => Err(e),
                Ok(items) => Ok(
                    seq![FragmentV::Impl { name: pascal_of(r.name@), items: reset_items(r, d) + items }],
                ),
            },
        },
    }
}

/// A result of fragments seen through the views.
pub open spec fn fragments_result(res: Result<Vec<Fragment>, GenError>) -> Result<Seq<FragmentV>, GenErrorV> {
    match res {
        Ok(v) => Ok(fragments_view(v@)),
        Err(e) => Err(e@),
    }
}

/// A result of accessors seen through the views.
pub open spec fn accessors_result(res: Result<Vec<Accessor>, GenError>) -> Result<Seq<AccessorV>, GenErrorV> {
    match res {
        Ok(v) => Ok(accessors_view(v@)),
        Err(e) => Err(e@),
    }
}

/// Once the read accessors of a prefix of `fs` fail, so do those of `fs`, with the same error.
proof fn lemma_read_items_err(fs: Seq<Field>, n: int)
    requires
        0 <= n <= fs.len(),
        read_items(fs.take(n)) is Err,
    ensures
        read_items(fs) == read_items(fs.take(n)),
    decreases fs.len(),
{
    if n == fs.len() {
        assert(fs.take(n) =~= fs);
    } else {
        assert(fs.drop_last().take(n) =~= fs.take(n));
        lemma_read_items_err(fs.drop_last(), n);
    }
}

/// Once the write accessors of a prefix of `fs` fail, so do those of `fs`, with the same error.
proof fn lemma_write_items_err(fs: Seq<Field>, n: int)
    requires
        0 <= n <= fs.len(),
        write_items(fs.take(n)) is Err,
    ensures
        write_items(fs) == write_items(fs.take(n)),
    decreases fs.len(),
{
    if n == fs.len() {
        assert(fs.take(n) =~= fs);
    } else {
        assert(fs.drop_last().take(n) =~= fs.take(n));
        lemma_write_items_err(fs.drop_last(), n);
    }
}

/// The integer type of register `r`'s raw bits.
fn bits_ty(r: &Register, d: &Defaults) -> (res: Result<IntTy, GenError>)
    ensures
        crate::error::err_view(res) == register_bits(*r, *d),
{
    match register_size(r, d) {
        None => Err(GenError::UnresolvableSize { register: r.name.clone() }),
        Some(s) => match to_ty(s) {
            None => Err(GenError::UnsupportedWidth { name: r.name.clone(), width: s }),
            Some(t) => Ok(t),
        },
    }
}

/// Appends the doc item of field `f`, if it has a description.
fn push_doc(items: &mut Vec<Accessor>, f: &Field)
    ensures
        accessors_view(final(items)@) == accessors_view(old(items)@) + doc_items(*f),
{
    let ghost before = items@;
    match &f.description {
        Some(ds) => {
            let text = respace(ds.as_str());
            let a = Accessor::Doc { offset: f.bit_range.offset, width: f.bit_range.width, text };
            items.push(a);
            proof {
                assert(accessors_view(items@) =~= accessors_view(before) + doc_items(*f));
            }
        },
        None => {
            assert(accessors_view(items@) =~= accessors_view(before) + doc_items(*f));
        },
    }
}

/// The getter of field `f`.
fn getter(f: &Field) -> (res: Result<Accessor, GenError>)
    ensures
        match res {
            Ok(a) => getter_of(*f) == Ok::<AccessorV, GenErrorV>(a@),
            Err(e) => getter_of(*f) == Err::<AccessorV, GenErrorV>(e@),
        },
{
    let w = f.bit_range.width;
    if w == 1 {
        Ok(Accessor::BitGetter { name: getter_name(f.name.as_str()), offset: f.bit_range.offset })
    } else {
        match to_ty(w) {
            None => Err(GenError::UnsupportedWidth { name: f.name.clone(), width: w }),
            Some(t) => Ok(
                Accessor::FieldGetter {
                    name: getter_name(f.name.as_str()),
                    offset: f.bit_range.offset,
                    width: w,
                    mask: mask_of(w),
                    ty: t,
                },
            ),
        }
    }
}

/// The setter of field `f`.
fn setter(f: &Field) -> (res: Result<Accessor, GenError>)
    ensures
        match res {
            Ok(a) => setter_of(*f) == Ok::<AccessorV, GenErrorV>(a@),
            Err(e) => setter_of(*f) == Err::<AccessorV, GenErrorV>(e@),
        },
{
    let w = f.bit_range.width;
    if w == 1 {
        Ok(Accessor::BitSetter { name: setter_name(f.name.as_str()), offset: f.bit_range.offset })
    } else {
        match to_ty(w) {
            None => Err(GenError::UnsupportedWidth { name: f.name.clone(), width: w }),
            Some(t) => Ok(
                Accessor::FieldSetter {
                    name: setter_name(f.name.as_str()),
                    offset: f.bit_range.offset,
                    width: w,
                    mask: mask_of(w),
                    ty: t,
                },
            ),
        }
    }
}

/// The read accessors of fields `fs`.
fn read_accessors(fs: &Vec<Field>) -> (res: Result<Vec<Accessor>, GenError>)
    ensures
        accessors_result(res) == read_items(fs@),
{
    let mut items: Vec<Accessor> = Vec::new();
    let mut i: usize = 0;
    proof {
        assert(fs@.take(0) =~= Seq::<Field>::empty());
        assert(accessors_view(items@) =~= Seq::<AccessorV>::empty());
    }
    while i < fs.len()
        invariant
            0 <= i <= fs@.len(),
            read_items(fs@.take(i as int)) == Ok::<Seq<AccessorV>, GenErrorV>(accessors_view(items@)),
        decreases fs.len() - i,
    {
        let f = &fs[i];
        proof {
            assert(fs@.take(i + 1).drop_last() =~= fs@.take(i as int));
            assert(fs@.take(i + 1).last() == fs@[i as int]);
        }
        if !matches!(f.access, Some(Access::WriteOnly)) {
            let ghost before = items@;
            push_doc(&mut items, f);
            match getter(f) {
                Err(e) => {
                    proof {
                        lemma_read_items_err(fs@, i + 1);
                    }
                    return Err(e);
                },
                Ok(g) => {
                    let ghost mid = items@;
                    items.push(g);
                    proof {
                        assert(accessors_view(items@) =~= accessors_view(mid).push(g@));
                        assert(accessors_view(items@) =~= accessors_view(before) + doc_items(*f) + seq![g@]);
                    }
                },
            }
        }
        i += 1;
    }
    proof {
        assert(fs@.take(fs@.len() as int) =~= fs@);
    }
    Ok(items)
}

/// The write accessors of fields `fs`.
fn write_accessors(fs: &Vec<Field>) -> (res: Result<Vec<Accessor>, GenError>)
    ensures
        accessors_result(res) == write_items(fs@),
{
    let mut items: Vec<Accessor> = Vec::new();
    let mut i: usize = 0;
    proof {
        assert(fs@.take(0) =~= Seq::<Field>::empty());
        assert(accessors_view(items@) =~= Seq::<AccessorV>::empty());
    }
    while i < fs.len()
        invariant
            0 <= i <= fs@.len(),
            write_items(fs@.take(i as int)) == Ok::<Seq<AccessorV>, GenErrorV>(accessors_view(items@)),
        decreases fs.len() - i,
    {
        let f = &fs[i];
        proof {
            assert(fs@.take(i + 1).drop_last() =~= fs@.take(i as int));
            assert(fs@.take(i + 1).last() == fs@[i as int]);
        }
        if !matches!(f.access, Some(Access::ReadOnly)) {
            let ghost before = items@;
            push_doc(&mut items, f);
            match setter(f) {
                Err(e) => {
                    proof {
                        lemma_write_items_err(fs@, i + 1);
                    }
                    return Err(e);
                },
                Ok(s) => {
                    let ghost mid = items@;
                    items.push(s);
                    proof {
                        assert(accessors_view(items@) =~= accessors_view(mid).push(s@));
                        assert(accessors_view(items@) =~= accessors_view(before) + doc_items(*f) + seq![s@]);
                    }
                },
            }
        }
        i += 1;
    }
    proof {
        assert(fs@.take(fs@.len() as int) =~= fs@);
    }
    Ok(items)
}

/// The wrapper type of register `r`, holding its raw bits in the smallest
/// integer type that fits its size.
pub fn gen_register(r: &Register, d: &Defaults) -> (res: Result<Vec<Fragment>, GenError>)
    ensures
        fragments_result(res) == register_type(*r, *d),
{
    match bits_ty(r, d) {
        Err(e) => Err(e),
        Ok(t) => {
            let v = vec![Fragment::RegisterType { name: pascal_name(r.name.as_str()), bits: t }];
            proof {
                assert(fragments_view(v@) =~= seq![v@[0]@]);
            }
            Ok(v)
        },
    }
}

/// The `impl` block of register `r` with a getter for each field that is not
/// write-only.
pub fn gen_register_read_methods(r: &Register, d: &Defaults) -> (res: Result<Vec<Fragment>, GenError>)
    ensures
        fragments_result(res) == read_methods(*r, *d),
{
    if let Err(e) = bits_ty(r, d) {
        return Err(e);
    }
    let items = match &r.fields {
        None => Vec::new(),
        Some(fs) => match read_accessors(fs) {
            Err(e) => {
                return Err(e);
            },
            Ok(items) => items,
        },
    };
    proof {
        assert(accessors_view(Seq::<Accessor>::empty()) =~= Seq::<AccessorV>::empty());
    }
    let v = vec![Fragment::Impl { name: pascal_name(r.name.as_str()), items }];
    proof {
        assert(fragments_view(v@) =~= seq![v@[0]@]);
    }
    Ok(v)
}

/// The `impl` block of register `r` with its reset-value constructor, where a
/// reset value is known, and a setter for each field that is not read-only.
pub fn gen_register_write_methods(r: &Register, d: &Defaults) -> (res: Result<Vec<Fragment>, GenError>)
    ensures
        fragments_result(res) == write_methods(*r, *d),
{
    if let Err(e) = bits_ty(r, d) {
        return Err(e);
    }
    let mut items: Vec<Accessor> = Vec::new();
    if let Some(v) = register_reset(r, d) {
        items.push(Accessor::ResetValue { value: v });
    }
    proof {
        assert(accessors_view(items@) =~= reset_items(*r, *d));
    }
    if let Some(fs) = &r.fields {
        match write_accessors(fs) {
            Err(e) => {
                return Err(e);
            },
            Ok(mut setters) => {
                let ghost before = items@;
                let ghost rest = setters@;
                items.append(&mut setters);
                proof {
                    assert(accessors_view(items@) =~= accessors_view(before) + accessors_view(rest));
                }
            },
        }
    }
    let v = vec![Fragment::Impl { name: pascal_name(r.name.as_str()), items }];
    proof {
        assert(fragments_view(v@) =~= seq![v@[0]@]);
    }
    Ok(v)
}

} // verus!

verus! {

/// Accessor types: a single-bit field gets a boolean getter and setter; a field
/// of 2 to 32 bits gets a getter and a setter over the smallest of the 8-, 16-
/// and 32-bit types that holds it; a width of 0 or above 32 is an error.
pub proof fn lemma_accessor_types(f: Field)
    ensures
        f.bit_range.width == 1 ==> (getter_of(f) matches Ok(AccessorV::BitGetter { .. })),
        f.bit_range.width == 1 ==> (setter_of(f) matches Ok(AccessorV::BitSetter { .. })),
        2 <= f.bit_range.width <= 32 ==> (getter_of(f) matches Ok(
            AccessorV::FieldGetter { ty, .. },
        ) && Some(ty) == int_ty_of(f.bit_range.width as int)),
        2 <= f.bit_range.width <= 32 ==> (setter_of(f) matches Ok(
            AccessorV::FieldSetter { ty, .. },
        ) && Some(ty) == int_ty_of(f.bit_range.width as int)),
        (f.bit_range.width == 0 || f.bit_range.width > 32) ==> getter_of(f) == Err::<
            AccessorV,
            GenErrorV,
        >(GenErrorV::UnsupportedWidth { name: f.name@, width: f.bit_range.width })
            && setter_of(f) == Err::<AccessorV, GenErrorV>(
            GenErrorV::UnsupportedWidth { name: f.name@, width: f.bit_range.width },
        ),
{
}

} // verus!
