//! The structured code fragments that generation produces; a printer renders
//! them in the syntax of the target language.
use vstd::prelude::*;
use crate::model::Access;
use crate::width::IntTy;

verus! {

/// A field of a peripheral's layout type.
#[derive(Clone, Debug)]
pub enum PeripheralField {
    /// `bytes` of padding, the `index`-th of the peripheral (`_reserved<index>`).
    Reserved { index: u64, bytes: u32 },
    /// A register: field `name` of type `ty` wrapped for `access`, with a
    /// comment of its offset and its description.
    Register { name: String, ty: String, access: Access, address_offset: u32, description: String },
}

/// An item of a register type's `impl` block.
#[derive(Clone, Debug)]
pub enum Accessor {
    /// Documents the next accessor: bit `offset` (width 1) or bits
    /// `offset` to `offset + width - 1`, then `text`.
    Doc { offset: u32, width: u32, text: String },
    /// Getter `name` returning whether bit `offset` is set.
    BitGetter { name: String, offset: u32 },
    /// Getter `name` returning `(bits >> offset) & mask` as `ty`.
    FieldGetter { name: String, offset: u32, width: u32, mask: u32, ty: IntTy },
    /// Constructor of the register with raw bits `value`.
    ResetValue { value: u32 },
    /// Setter `name` setting or clearing bit `offset`, returning `&mut Self`.
    BitSetter { name: String, offset: u32 },
    /// Setter `name` taking a `ty`, clearing the bits under `mask << offset`
    /// and or-ing in `(value & mask) << offset`, returning `&mut Self`.
    FieldSetter { name: String, offset: u32, width: u32, mask: u32, ty: IntTy },
}

/// A top-level declaration of the generated code.
#[derive(Clone, Debug)]
pub enum Fragment {
    /// `type name = ::module::target;`
    TypeAlias { name: String, module: String, target: String },
    /// A doc comment on the next declaration.
    Doc { text: String },
    /// The peripheral's layout type, its fields in address order.
    PeripheralStruct { name: String, fields: Vec<PeripheralField> },
    /// A register's wrapper type around raw bits of type `bits`.
    RegisterType { name: String, bits: IntTy },
    /// An `impl` block of register type `name`.
    Impl { name: String, items: Vec<Accessor> },
}

/// A register that was skipped because it starts inside an earlier one.
#[derive(Clone, Debug)]
pub struct Overlap {
    pub register: String,
    pub address_offset: u32,
}

/// The fragments made for a peripheral, and the registers skipped on the way.
#[derive(Clone, Debug)]
pub struct Generated {
    pub items: Vec<Fragment>,
    pub overlaps: Vec<Overlap>,
}

pub ghost enum PeripheralFieldV {
    Reserved { index: u64, bytes: u32 },
    Register {
        name: Seq<char>,
        ty: Seq<char>,
        access: Access,
        address_offset: u32,
        description: Seq<char>,
    },
}

pub ghost enum AccessorV {
    Doc { offset: u32, width: u32, text: Seq<char> },
    BitGetter { name: Seq<char>, offset: u32 },
    FieldGetter { name: Seq<char>, offset: u32, width: u32, mask: u32, ty: IntTy },
    ResetValue { value: u32 },
    BitSetter { name: Seq<char>, offset: u32 },
    FieldSetter { name: Seq<char>, offset: u32, width: u32, mask: u32, ty: IntTy },
}

pub ghost enum FragmentV {
    TypeAlias { name: Seq<char>, module: Seq<char>, target: Seq<char> },
    Doc { text: Seq<char> },
    PeripheralStruct { name: Seq<char>, fields: Seq<PeripheralFieldV> },
    RegisterType { name: Seq<char>, bits: IntTy },
    Impl { name: Seq<char>, items: Seq<AccessorV> },
}

pub ghost struct OverlapV {
    pub register: Seq<char>,
    pub address_offset: u32,
}

pub ghost struct GeneratedV {
    pub items: Seq<FragmentV>,
    pub overlaps: Seq<OverlapV>,
}

impl View for PeripheralField {
    type V = PeripheralFieldV;

    open spec fn view(&self) -> PeripheralFieldV {
        match self {
            PeripheralField::Reserved { index, bytes } => PeripheralFieldV::Reserved {
                index: *index,
                bytes: *bytes,
            },
            PeripheralField::Register { name, ty, access, address_offset, description } => {
                PeripheralFieldV::Register {
                    name: name@,
                    ty: ty@,
                    access: *access,
                    address_offset: *address_offset,
                    description: description@,
                }
            },
        }
    }
}

impl View for Accessor {
    type V = AccessorV;

    open spec fn view(&self) -> AccessorV {
        match self {
            Accessor::Doc { offset, width, text } => AccessorV::Doc {
                offset: *offset,
                width: *width,
                text: text@,
            },
            Accessor::BitGetter { name, offset } => AccessorV::BitGetter {
                name: name@,
                offset: *offset,
            },
            Accessor::FieldGetter { name, offset, width, mask, ty } => AccessorV::FieldGetter {
                name: name@,
                offset: *offset,
                width: *width,
                mask: *mask,
                ty: *ty,
            },
            Accessor::ResetValue { value } => AccessorV::ResetValue { value: *value },
            Accessor::BitSetter { name, offset } => AccessorV::BitSetter {
                name: name@,
                offset: *offset,
            },
            Accessor::FieldSetter { name, offset, width, mask, ty } => AccessorV::FieldSetter {
                name: name@,
                offset: *offset,
                width: *width,
                mask: *mask,
                ty: *ty,
            },
        }
    }
}

/// The views of a sequence of layout fields.
pub open spec fn fields_view(s: Seq<PeripheralField>) -> Seq<PeripheralFieldV> {
    s.map_values(|f: PeripheralField| f@)
}

/// The views of a sequence of accessors.
pub open spec fn accessors_view(s: Seq<Accessor>) -> Seq<AccessorV> {
    s.map_values(|a: Accessor| a@)
}

impl View for Fragment {
    type V = FragmentV;

    open spec fn view(&self) -> FragmentV {
        match self {
            Fragment::TypeAlias { name, module, target } => FragmentV::TypeAlias {
                name: name@,
                module: module@,
                target: target@,
            },
            Fragment::Doc { text } => FragmentV::Doc { text: text@ },
            Fragment::PeripheralStruct { name, fields } => FragmentV::PeripheralStruct {
                name: name@,
                fields: fields_view(fields@),
            },
            Fragment::RegisterType { name, bits } => FragmentV::RegisterType {
                name: name@,
                bits: *bits,
            },
            Fragment::Impl { name, items } => FragmentV::Impl {
                name: name@,
                items: accessors_view(items@),
            },
        }
    }
}

/// The views of a sequence of fragments.
pub open spec fn fragments_view(s: Seq<Fragment>) -> Seq<FragmentV> {
    s.map_values(|f: Fragment| f@)
}

impl View for Overlap {
    type V = OverlapV;

    open spec fn view(&self) -> OverlapV {
        OverlapV { register: self.register@, address_offset: self.address_offset }
    }
}

/// The views of a sequence of skipped registers.
pub open spec fn overlaps_view(s: Seq<Overlap>) -> Seq<OverlapV> {
    s.map_values(|o: Overlap| o@)
}

impl View for Generated {
    type V = GeneratedV;

    open spec fn view(&self) -> GeneratedV {
        GeneratedV { items: fragments_view(self.items@), overlaps: overlaps_view(self.overlaps@) }
    }
}

} // verus!
