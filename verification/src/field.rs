//! Column metadata in the two fixed layouts that foreign callers read: the
//! current one with a wide width field and the legacy one with a narrow one.

use vstd::prelude::*;
use vstd::array::array_fill_for_copy_types;
use vstd::slice::slice_subrange;
use vstd::string::StringSliceAdditionalSpecFns;
use crate::error::c_text;

verus! {

/// Size of the name buffer of a metadata entry, terminator included.
pub const NAME_SIZE: usize = 65;

/// One column of a result schema: its name, its type tag and its declared
/// width in bytes.
#[derive(Debug, Clone, PartialEq, Eq)]
pub struct Field {
    pub name: String,
    pub ty: u8,
    pub bytes: u32,
}

/// A column as a value.
pub struct FieldView {
    pub name: Seq<char>,
    pub ty: u8,
    pub bytes: u32,
}

impl View for Field {
    type V = FieldView;

    open spec fn view(&self) -> FieldView {
        FieldView { name: self.name@, ty: self.ty, bytes: self.bytes }
    }
}

/// The name buffer of an entry: the name's bytes as far as they fit before
/// the terminator, the rest zero.
pub open spec fn name_buffer(name: Seq<u8>) -> Seq<u8> {
    Seq::new(NAME_SIZE as nat, |i: int| if i < name.len() && i < NAME_SIZE - 1 { name[i] } else { 0u8 })
}

/// The narrow width field of the legacy layout: the low sixteen bits.
pub open spec fn narrow(bytes: u32) -> u16 {
    (bytes % 0x1_0000) as u16
}

fn fill_name(name: &[u8]) -> (buffer: [u8; 65])
    ensures
        buffer@ == name_buffer(name@),
{
    let mut buffer: [u8; 65] = array_fill_for_copy_types(0u8);
    let mut i: usize = 0;
    while i < name.len() && i < NAME_SIZE - 1
        invariant
            i <= name.len(),
            i <= NAME_SIZE - 1,
            buffer@.len() == NAME_SIZE,
            forall|j: int| 0 <= j < i ==> buffer@[j] == name@[j],
            forall|j: int| i <= j < NAME_SIZE ==> buffer@[j] == 0,
        decreases name.len() - i,
    {
        buffer[i] = name[i];
        i += 1;
    }
    assert(buffer@ =~= name_buffer(name@));
    buffer
}

fn name_of(buffer: &[u8; 65]) -> (name: &[u8])
    ensures
        name@ == c_text(buffer@),
{
    let all = buffer.as_slice();
    let mut i: usize = 0;
    while i < NAME_SIZE && all[i] != 0
        invariant
            i <= NAME_SIZE,
            all@ == buffer@,
            all@.len() == NAME_SIZE,
            forall|j: int| 0 <= j < i ==> all@[j] != 0,
        decreases NAME_SIZE - i,
    {
        i += 1;
    }
    proof {
        all@.index_of_first_ensures(0u8);
        if i < NAME_SIZE {
            assert(all@.contains(0u8));
        } else {
            if all@.contains(0u8) {
                let first = all@.index_of_first(0u8)->0;
                assert(all@[first] == 0);
            }
            assert(all@.take(i as int) == all@);
        }
    }
    slice_subrange(all, 0, i)
}

/// Metadata entry of the current layout.
#[allow(non_camel_case_types)]
#[derive(Debug, Clone, Copy, PartialEq, Eq)]
pub struct WS_FIELD {
    pub name: [u8; 65],
    pub ty: u8,
    pub bytes: u32,
}

/// Metadata entry of the legacy layout.
#[allow(non_camel_case_types)]
#[derive(Debug, Clone, Copy, PartialEq, Eq)]
pub struct WS_FIELD_V2 {
    pub name: [u8; 65],
    pub ty: u8,
    pub bytes: u16,
}

impl WS_FIELD {
    /// The entry of a column in the current layout.
    pub open spec fn of(field: FieldView) -> WS_FIELD_VIEW {
        WS_FIELD_VIEW { name: name_buffer(encode(field.name)), ty: field.ty, bytes: field.bytes }
    }

    /// The entry of a column.
    pub fn from(field: &Field) -> (entry: WS_FIELD)
        ensures
            entry@ == WS_FIELD::of(field@),
    {
        WS_FIELD { name: fill_name(field.name.as_str().as_bytes()), ty: field.ty, bytes: field.bytes }
    }

    /// The name: the bytes of the buffer before its first zero.
    pub fn name(&self) -> (name: &[u8])
        ensures
            name@ == c_text(self.name@),
    {
        name_of(&self.name)
    }

    /// The type tag.
    pub fn ty(&self) -> (ty: u8)
        ensures
            ty == self.ty,
    {
        self.ty
    }

    /// The declared width in bytes.
    pub fn bytes(&self) -> (bytes: u32)
        ensures
            bytes == self.bytes,
    {
        self.bytes
    }
}

impl WS_FIELD_V2 {
    /// The entry of a column in the legacy layout.
    pub open spec fn of(field: FieldView) -> WS_FIELD_V2_VIEW {
        WS_FIELD_V2_VIEW {
            name: name_buffer(encode(field.name)),
            ty: field.ty,
            bytes: narrow(field.bytes),
        }
    }

    /// The entry of a column.
    pub fn from(field: &Field) -> (entry: WS_FIELD_V2)
        ensures
            entry@ == WS_FIELD_V2::of(field@),
    {
        let wide: u32 = field.bytes;
        let low: u32 = wide & 0xFFFF;
        assert(low == wide % 0x1_0000) by (bit_vector)
            requires
                low == wide & 0xFFFF,
        ;
        WS_FIELD_V2 {
            name: fill_name(field.name.as_str().as_bytes()),
            ty: field.ty,
            bytes: low as u16,
        }
    }

    /// The name: the bytes of the buffer before its first zero.
    pub fn name(&self) -> (name: &[u8])
        ensures
            name@ == c_text(self.name@),
    {
        name_of(&self.name)
    }

    /// The type tag.
    pub fn ty(&self) -> (ty: u8)
        ensures
            ty == self.ty,
    {
        self.ty
    }

    /// The declared width in bytes.
    pub fn bytes(&self) -> (bytes: u32)
        ensures
            bytes == self.bytes,
    {
        self.bytes as u32
    }
}

/// The UTF-8 bytes of a text.
pub open spec fn encode(text: Seq<char>) -> Seq<u8> {
    vstd::utf8::encode_utf8(text)
}

#[allow(non_camel_case_types)]
pub struct WS_FIELD_VIEW {
    pub name: Seq<u8>,
    pub ty: u8,
    pub bytes: u32,
}

#[allow(non_camel_case_types)]
pub struct WS_FIELD_V2_VIEW {
    pub name: Seq<u8>,
    pub ty: u8,
    pub bytes: u16,
}

impl View for WS_FIELD {
    type V = WS_FIELD_VIEW;

    open spec fn view(&self) -> WS_FIELD_VIEW {
        WS_FIELD_VIEW { name: self.name@, ty: self.ty, bytes: self.bytes }
    }
}

impl View for WS_FIELD_V2 {
    type V = WS_FIELD_V2_VIEW;

    open spec fn view(&self) -> WS_FIELD_V2_VIEW {
        WS_FIELD_V2_VIEW { name: self.name@, ty: self.ty, bytes: self.bytes }
    }
}

/// The two layouts of one column agree in name and type; the legacy width is
/// the low sixteen bits of the current one, the same number where that fits.
pub proof fn lemma_layouts_agree(field: FieldView)
    ensures
        WS_FIELD::of(field).name == WS_FIELD_V2::of(field).name,
        WS_FIELD::of(field).ty == WS_FIELD_V2::of(field).ty,
        WS_FIELD_V2::of(field).bytes == WS_FIELD::of(field).bytes % 0x1_0000,
        field.bytes <= u16::MAX ==> WS_FIELD_V2::of(field).bytes == WS_FIELD::of(field).bytes,
{
}

/// A name buffer is a C string of the name: it has the fixed size, it holds
/// a zero, and what stands before the first zero is the name itself where the
/// name is short enough and has no zero byte.
pub proof fn lemma_name_buffer_terminated(name: Seq<u8>)
    ensures
        name_buffer(name).len() == NAME_SIZE,
        name_buffer(name)[NAME_SIZE - 1] == 0,
        c_text(name_buffer(name)).len() < NAME_SIZE,
        name.len() < NAME_SIZE && !name.contains(0u8) ==> c_text(name_buffer(name)) == name,
{
    let buffer = name_buffer(name);
    buffer.index_of_first_ensures(0u8);
    assert(buffer.contains(0u8)) by {
        assert(buffer[NAME_SIZE - 1] == 0);
    }
    if name.len() < NAME_SIZE && !name.contains(0u8) {
        let first = buffer.index_of_first(0u8)->0;
        assert(buffer[name.len() as int] == 0);
        assert(first == name.len()) by {
            if first < name.len() {
                assert(buffer[first] == name[first]);
                assert(name.contains(name[first]));
            }
        }
        assert(buffer.take(first) =~= name);
    }
}

} // verus!
