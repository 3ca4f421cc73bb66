//! Layout of a peripheral: its registers in address order, with padding
//! between them, followed by the fragments of each register.
use vstd::prelude::*;
use crate::access::{resolve_access, resolved_access};
use crate::codegen::{gen_register, gen_register_read_methods, gen_register_write_methods, register_type, read_methods, write_methods};
use crate::error::{GenError, GenErrorV};
use crate::fragment::{Fragment, FragmentV, Generated, GeneratedV, Overlap, OverlapV, PeripheralField, PeripheralFieldV, fields_view, fragments_view, overlaps_view};
use crate::model::{Access, Defaults, Peripheral, Register, bytes_of, size_of, register_size};
use crate::naming::{pascal_name, pascal_of, respace, respaced, snake_name, snake_of};

verus! {

/// The state of a layout after some registers: the byte offset where the last
/// kept register ends, how many padding fields were made, the layout's
/// fields, the indices of the kept registers and the skipped ones.
pub ghost struct LayoutV {
    pub cumulative: int,
    pub reserved: int,
    pub fields: Seq<PeripheralFieldV>,
    pub kept: Seq<usize>,
    pub overlaps: Seq<OverlapV>,
}

/// The layout before any register.
pub open spec fn empty_layout() -> LayoutV {
    LayoutV { cumulative: 0, reserved: 0, fields: seq![], kept: seq![], overlaps: seq![] }
}

/// The layout field of register `r` with access mode `a`.
pub open spec fn register_field(r: Register, a: Access) -> PeripheralFieldV {
    PeripheralFieldV::Register {
        name: snake_of(r.name@),
        ty: pascal_of(r.name@),
        access: a,
        address_offset: r.address_offset,
        description: respaced(r.description@),
    }
}

/// The layout after register `r`, the `idx`-th, is taken in after state `s`.
/// A register that starts before `s.cumulative` is skipped and recorded;
/// otherwise a gap before it becomes one padding field, then the register's
/// own field follows and the layout continues where the register ends.
pub open spec fn layout_step(s: LayoutV, r: Register, idx: usize, d: Defaults) -> Result<
    LayoutV,
    GenErrorV,
> {
    if (r.address_offset as int) < s.cumulative {
        Ok(
            LayoutV {
                cumulative: s.cumulative,
                reserved: s.reserved,
                fields: s.fields,
                kept: s.kept,
                overlaps: s.overlaps.push(
                    OverlapV { register: r.name@, address_offset: r.address_offset },
                ),
            },
        )
    } else {
        let gap = r.address_offset as int - s.cumulative;
        let padded = if gap > 0 {
            s.fields.push(PeripheralFieldV::Reserved { index: s.reserved as u64, bytes: gap as u32 })
        } else {
            s.fields
        };
        match resolved_access(r) {
            Err(e) => Err(e),
            Ok(a) => match size_of(r, d) {
                None => Err(GenErrorV::UnresolvableSize { register: r.name@ }),
                Some(size) => Ok(
                    LayoutV {
                        cumulative: r.address_offset as int + bytes_of(size),
                        reserved: if gap > 0 {
                            s.reserved + 1
                        } else {
                            s.reserved
                        },
                        fields: padded.push(register_field(r, a)),
                        kept: s.kept.push(idx),
                        overlaps: s.overlaps,
                    },
                ),
            },
        }
    }
}

/// The layout of registers `regs`, taken in order.
pub open spec fn layout_of(regs: Seq<Register>, d: Defaults) -> Result<LayoutV, GenErrorV>
    decreases regs.len(),
{
    if regs.len() == 0 {
        Ok(empty_layout())
    } else {
        match layout_of(regs.drop_last(), d) {
            Err(e) => Err(e),
            Ok(s) => layout_step(s, regs.last(), (regs.len() - 1) as usize, d),
        }
    }
}

/// The fragments of register `r`: its type, then its read and write `impl` blocks.
pub open spec fn register_fragments(r: Register, d: Defaults) -> Result<Seq<FragmentV>, GenErrorV> {
    match register_type(r, d) {
        Err(e) => Err(e),
        Ok(a) => match read_methods(r, d) {
            Err(e) => Err(e),
            Ok(b) => match write_methods(r, d) {
                Err(e) => Err(e),
                Ok(c) => Ok(a + b + c),
            },
        },
    }
}

/// The fragments of the registers of `regs` at indices `kept`, in that order.
pub open spec fn kept_fragments(regs: Seq<Register>, kept: Seq<usize>, d: Defaults) -> Result<
    Seq<FragmentV>,
    GenErrorV,
>
    decreases kept.len(),
{
    if kept.len() == 0 {
        Ok(seq![])
    } else {
        match kept_fragments(regs, kept.drop_last(), d) {
            Err(e) => Err(e),
            Ok(prev) => match register_fragments(regs[kept.last() as int], d) {
                Err(e) => Err(e),
                Ok(f) => Ok(prev + f),
            },
        }
    }
}

/// The peripheral's doc comment, where it has a description, and its layout type.
pub open spec fn peripheral_header(p: Peripheral, fields: Seq<PeripheralFieldV>) -> Seq<FragmentV> {
    let doc = match p.description {
        Some(ds) => seq![FragmentV::Doc { text: respaced(ds@) }],
        None => seq![],
    };
    doc + seq![FragmentV::PeripheralStruct { name: pascal_of(p.name@), fields }]
}

/// The alias that names peripheral `p` after the peripheral `base` it derives from.
pub open spec fn alias_of(p: Peripheral, base: Seq<char>) -> FragmentV {
    FragmentV::TypeAlias { name: pascal_of(p.name@), module: snake_of(base), target: pascal_of(base) }
}

/// What is generated for peripheral `p`: an alias alone where it derives from
/// another; else its header and then the fragments of each kept register.
pub open spec fn generated(p: Peripheral, d: Defaults) -> Result<GeneratedV, GenErrorV> {
    match p.derived_from {
        Some(base) => Ok(GeneratedV { items: seq![alias_of(p, base@)], overlaps: seq![] }),
        None => match layout_of(p.registers@, d) {
            Err(e) => Err(e),
            Ok(s) => match kept_fragments(p.registers@, s.kept, d) {
                Err(e) => Err(e),
                Ok(rest) => Ok(
                    GeneratedV { items: peripheral_header(p, s.fields) + rest, overlaps: s.overlaps },
                ),
            },
        },
    }
}

/// A generation result seen through the views.
pub open spec fn generated_result(res: Result<Generated, GenError>) -> Result<GeneratedV, GenErrorV> {
    match res {
        Ok(g) => Ok(g@),
        Err(e) => Err(e@),
    }
}

/// Once the layout of a prefix of `regs` fails, so does that of `regs`, with the same error.
proof fn lemma_layout_err(regs: Seq<Register>, n: int, d: Defaults)
    requires
        0 <= n <= regs.len(),
        layout_of(regs.take(n), d) is Err,
    ensures
        layout_of(regs, d) == layout_of(regs.take(n), d),
    decreases regs.len(),
{
    if n == regs.len() {
        assert(regs.take(n) =~= regs);
    } else {
        assert(regs.drop_last().take(n) =~= regs.take(n));
        lemma_layout_err(regs.drop_last(), n, d);
    }
}

/// Once the fragments of a prefix of `kept` fail, so do those of `kept`, with the same error.
proof fn lemma_kept_err(regs: Seq<Register>, kept: Seq<usize>, n: int, d: Defaults)
    requires
        0 <= n <= kept.len(),
        kept_fragments(regs, kept.take(n), d) is Err,
    ensures
        kept_fragments(regs, kept, d) == kept_fragments(regs, kept.take(n), d),
    decreases kept.len(),
{
    if n == kept.len() {
        assert(kept.take(n) =~= kept);
    } else {
        assert(kept.drop_last().take(n) =~= kept.take(n));
        lemma_kept_err(regs, kept.drop_last(), n, d);
    }
}

/// Lays out registers `regs`: the layout's fields, the indices of the kept
/// registers and the skipped ones.
fn layout(regs: &Vec<Register>, d: &Defaults) -> (res: Result<
    (Vec<PeripheralField>, Vec<usize>, Vec<Overlap>),
    GenError,
>)
    ensures
        match res {
            Ok((fields, kept, overlaps)) => {
                &&& layout_of(regs@, *d) is Ok
                &&& fields_view(fields@) == layout_of(regs@, *d)->Ok_0.fields
                &&& kept@ == layout_of(regs@, *d)->Ok_0.kept
                &&& overlaps_view(overlaps@) == layout_of(regs@, *d)->Ok_0.overlaps
                &&& forall|j: int| 0 <= j < kept@.len() ==> kept@[j] < regs@.len()
            },
            Err(e) => layout_of(regs@, *d) == Err::<LayoutV, GenErrorV>(e@),
        },
{
    let mut fields: Vec<PeripheralField> = Vec::new();
    let mut kept: Vec<usize> = Vec::new();
    let mut overlaps: Vec<Overlap> = Vec::new();
    let mut cumulative: u64 = 0;
    let mut reserved: u64 = 0;
    let mut i: usize = 0;
    proof {
        assert(regs@.take(0) =~= Seq::<Register>::empty());
        assert(fields_view(fields@) =~= Seq::<PeripheralFieldV>::empty());
        assert(overlaps_view(overlaps@) =~= Seq::<OverlapV>::empty());
    }
    while i < regs.len()
        invariant
            0 <= i <= regs@.len(),
            layout_of(regs@.take(i as int), *d) == Ok::<LayoutV, GenErrorV>(
                LayoutV {
                    cumulative: cumulative as int,
                    reserved: reserved as int,
                    fields: fields_view(fields@),
                    kept: kept@,
                    overlaps: overlaps_view(overlaps@),
                },
            ),
            cumulative <= 0x1_2000_0000u64,
            reserved <= i,
            forall|j: int| 0 <= j < kept@.len() ==> kept@[j] < i,
        decreases regs.len() - i,
    {
        let r = &regs[i];
        proof {
            assert(regs@.take(i + 1).drop_last() =~= regs@.take(i as int));
            assert(regs@.take(i + 1).last() == regs@[i as int]);
        }
        if (r.address_offset as u64) < cumulative {
            let ghost before = overlaps@;
            let o = Overlap { register: r.name.clone(), address_offset: r.address_offset };
            overlaps.push(o);
            proof {
                assert(overlaps_view(overlaps@) =~= overlaps_view(before).push(o@));
            }
        } else {
            let gap = ((r.address_offset as u64) - cumulative) as u32;
            let ghost fields0 = fields@;
            if gap > 0 {
                let pad = PeripheralField::Reserved { index: reserved, bytes: gap };
                fields.push(pad);
                proof {
                    assert(fields_view(fields@) =~= fields_view(fields0).push(pad@));
                }
                reserved = reserved + 1;
            }
            let ghost fields1 = fields@;
            let access = match resolve_access(r) {
                Err(e) => {
                    proof {
                        lemma_layout_err(regs@, i + 1, *d);
                    }
                    return Err(e);
                },
                Ok(a) => a,
            };
            let size = match register_size(r, d) {
                None => {
                    proof {
                        lemma_layout_err(regs@, i + 1, *d);
                    }
                    return Err(GenError::UnresolvableSize { register: r.name.clone() });
                },
                Some(s) => s,
            };
            let description = respace(r.description.as_str());
            let field = PeripheralField::Register {
                name: snake_name(r.name.as_str()),
                ty: pascal_name(r.name.as_str()),
                access,
                address_offset: r.address_offset,
                description,
            };
            fields.push(field);
            kept.push(i);
            proof {
                assert(fields_view(fields@) =~= fields_view(fields1).push(field@));
            }
            cumulative = r.address_offset as u64 + (size as u64 + 7) / 8;
        }
        i += 1;
    }
    proof {
        assert(regs@.take(regs@.len() as int) =~= regs@);
    }
    Ok((fields, kept, overlaps))
}

/// Generates the fragments of peripheral `p`. A peripheral derived from another
/// becomes one type alias. Otherwise its registers are laid out in the order
/// given, with a padding field for each gap and registers that start inside an
/// earlier one skipped and reported; the peripheral's layout type (after its
/// doc comment, where it has a description) is followed, for each kept
/// register, by its wrapper type and its read and write `impl` blocks.
pub fn gen_peripheral(p: &Peripheral, d: &Defaults) -> (res: Result<Generated, GenError>)
    ensures
        generated_result(res) == generated(*p, *d),
{
    if let Some(base) = &p.derived_from {
        let alias = Fragment::TypeAlias {
            name: pascal_name(p.name.as_str()),
            module: snake_name(base.as_str()),
            target: pascal_name(base.as_str()),
        };
        let items = vec![alias];
        let overlaps: Vec<Overlap> = Vec::new();
        let g = Generated { items, overlaps };
        proof {
            assert(fragments_view(g.items@) =~= seq![alias_of(*p, base@)]);
            assert(overlaps_view(g.overlaps@) =~= Seq::<OverlapV>::empty());
        }
        return Ok(g);
    }
    let regs = &p.registers;
    let (fields, kept, overlaps) = match layout(regs, d) {
        Err(e) => {
            return Err(e);
        },
        Ok(l) => l,
    };
    let ghost fields_v = fields_view(fields@);
    let mut items: Vec<Fragment> = Vec::new();
    if let Some(ds) = &p.description {
        items.push(Fragment::Doc { text: respace(ds.as_str()) });
    }
    let layout_type = Fragment::PeripheralStruct { name: pascal_name(p.name.as_str()), fields };
    items.push(layout_type);
    proof {
        assert(fragments_view(items@) =~= peripheral_header(*p, fields_v));
    }
    let ghost header = items@;
    let mut j: usize = 0;
    proof {
        assert(kept@.take(0) =~= Seq::<usize>::empty());
        assert(fragments_view(items@) =~= fragments_view(header) + Seq::<FragmentV>::empty());
    }
    while j < kept.len()
        invariant
            0 <= j <= kept@.len(),
            p.derived_from is None,
            regs == &p.registers,
            layout_of(regs@, *d) is Ok,
            layout_of(regs@, *d)->Ok_0.kept == kept@,
            forall|k: int| 0 <= k < kept@.len() ==> kept@[k] < regs@.len(),
            kept_fragments(regs@, kept@.take(j as int), *d) matches Ok(done) && fragments_view(
                items@,
            ) == fragments_view(header) + done,
        decreases kept.len() - j,
    {
        let r = &regs[kept[j]];
        proof {
            assert(kept@.take(j + 1).drop_last() =~= kept@.take(j as int));
            assert(kept@.take(j + 1).last() == kept@[j as int]);
        }
        let ghost before = items@;
        let mut a = match gen_register(r, d) {
            Err(e) => {
                proof {
                    lemma_kept_err(regs@, kept@, j + 1, *d);
                }
                return Err(e);
            },
            Ok(a) => a,
        };
        let mut b = match gen_register_read_methods(r, d) {
            Err(e) => {
                proof {
                    lemma_kept_err(regs@, kept@, j + 1, *d);
                }
                return Err(e);
            },
            Ok(b) => b,
        };
        let mut c = match gen_register_write_methods(r, d) {
            Err(e) => {
                proof {
                    lemma_kept_err(regs@, kept@, j + 1, *d);
                }
                return Err(e);
            },
            Ok(c) => c,
        };
        let ghost (av, bv, cv) = (a@, b@, c@);
        items.append(&mut a);
        items.append(&mut b);
        items.append(&mut c);
        proof {
            assert(items@ =~= before + av + bv + cv);
            assert(fragments_view(items@) =~= fragments_view(before) + fragments_view(av)
                + fragments_view(bv) + fragments_view(cv));
            let done = kept_fragments(regs@, kept@.take(j as int), *d)->Ok_0;
            assert(fragments_view(items@) =~= fragments_view(header) + (done + (fragments_view(
                av,
            ) + fragments_view(bv) + fragments_view(cv))));
        }
        j += 1;
    }
    proof {
        assert(kept@.take(kept@.len() as int) =~= kept@);
        let done = kept_fragments(regs@, kept@, *d)->Ok_0;
        assert(fragments_view(items@) == peripheral_header(*p, fields_v) + done);
    }
    let g = Generated { items, overlaps };
    Ok(g)
}

} // verus!

verus! {

/// Padding: when a register is kept, the layout gains no padding field if it
/// starts exactly where the previous kept register ends, and exactly one
/// padding field, as long as the gap in bytes, if it starts later; the
/// register's own field follows.
pub proof fn lemma_padding(regs: Seq<Register>, d: Defaults)
    requires
        regs.len() > 0,
        layout_of(regs.drop_last(), d) is Ok,
        layout_of(regs, d) is Ok,
        regs.last().address_offset as int >= layout_of(regs.drop_last(), d)->Ok_0.cumulative,
    ensures
        ({
            let s = layout_of(regs.drop_last(), d)->Ok_0;
            let t = layout_of(regs, d)->Ok_0;
            let gap = regs.last().address_offset as int - s.cumulative;
            &&& gap == 0 ==> t.fields.len() == s.fields.len() + 1 && t.fields.drop_last() == s.fields
            &&& gap > 0 ==> t.fields.len() == s.fields.len() + 2 && t.fields.take(
                s.fields.len() as int,
            ) == s.fields && t.fields[s.fields.len() as int] == (PeripheralFieldV::Reserved {
                index: s.reserved as u64,
                bytes: gap as u32,
            })
            &&& t.fields.last() is Register
        }),
{
    let s = layout_of(regs.drop_last(), d)->Ok_0;
    let t = layout_of(regs, d)->Ok_0;
    let gap = regs.last().address_offset as int - s.cumulative;
    if gap == 0 {
        assert(t.fields.drop_last() =~= s.fields);
    } else {
        assert(t.fields.take(s.fields.len() as int) =~= s.fields);
    }
}

/// Overlap: a register that starts before the end of the last kept register
/// is recorded as skipped and changes nothing else; in particular the layout
/// goes on from the same cumulative offset.
pub proof fn lemma_overlap_skipped(regs: Seq<Register>, d: Defaults)
    requires
        regs.len() > 0,
        layout_of(regs.drop_last(), d) is Ok,
        (regs.last().address_offset as int) < layout_of(regs.drop_last(), d)->Ok_0.cumulative,
    ensures
        ({
            let s = layout_of(regs.drop_last(), d)->Ok_0;
            layout_of(regs, d) == Ok::<LayoutV, GenErrorV>(
                LayoutV {
                    cumulative: s.cumulative,
                    reserved: s.reserved,
                    fields: s.fields,
                    kept: s.kept,
                    overlaps: s.overlaps.push(
                        OverlapV { register: regs.last().name@, address_offset: regs.last().address_offset },
                    ),
                },
            )
        }),
{
}

/// A derived peripheral: what is generated is a single type alias, whatever
/// registers the peripheral lists; two peripherals with the same name and the
/// same base give the same output.
pub proof fn lemma_derived_alias(p: Peripheral, q: Peripheral, d: Defaults)
    requires
        p.derived_from is Some,
        q.derived_from is Some,
        p.derived_from->Some_0@ == q.derived_from->Some_0@,
        p.name@ == q.name@,
    ensures
        generated(p, d) is Ok,
        generated(p, d)->Ok_0.items.len() == 1,
        generated(p, d)->Ok_0.items[0] is TypeAlias,
        generated(p, d)->Ok_0.overlaps.len() == 0,
        generated(p, d) == generated(q, d),
{
    assert(generated(p, d)->Ok_0.items =~= generated(q, d)->Ok_0.items);
}

} // verus!
