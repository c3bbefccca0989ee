//! The bounded vectors of the arrayvec crate, as this library uses them.
use vstd::prelude::*;

use arrayvec::ArrayVec;

use crate::gb_core::instructions::Instruction;
use crate::gb_core::ppu::{Color, ObjectAttribute};

verus! {

#[verifier::external_type_specification]
#[verifier::external_body]
#[verifier::reject_recursive_types(T)]
pub struct ExArrayVec<T, const CAP: usize>(ArrayVec<T, CAP>);

/// The keys that a buffer of at most ten objects holds, in order.
pub uninterp spec fn object_keys(v: ArrayVec<u16, 10>) -> Seq<u16>;

/// `ArrayVec::new`: an empty buffer.
#[verifier::external_body]
pub(crate) fn object_buffer_new() -> (r: ArrayVec<u16, 10>)
    ensures
        object_keys(r) == Seq::<u16>::empty(),
{
    ArrayVec::new()
}

/// `ArrayVec::push`: appends `key`. It panics on a full buffer, so room is required.
#[verifier::external_body]
pub(crate) fn object_buffer_push(v: &mut ArrayVec<u16, 10>, key: u16)
    requires
        object_keys(*old(v)).len() < 10,
    ensures
        object_keys(*final(v)) == object_keys(*old(v)).push(key),
{
    v.push(key)
}

/// The number of keys held (`len` of the slice the buffer dereferences to).
#[verifier::external_body]
pub(crate) fn object_buffer_len(v: &ArrayVec<u16, 10>) -> (r: usize)
    ensures
        r == object_keys(*v).len(),
{
    v.len()
}

/// The key at `index` (indexing the slice the buffer dereferences to).
#[verifier::external_body]
pub(crate) fn object_buffer_get(v: &ArrayVec<u16, 10>, index: usize) -> (r: u16)
    requires
        index < object_keys(*v).len(),
    ensures
        r == object_keys(*v)[index as int],
{
    v[index]
}

/// `<[u16]>::sort_unstable` on the slice the buffer dereferences to: the same keys, ascending.
#[verifier::external_body]
pub(crate) fn object_buffer_sort(v: &mut ArrayVec<u16, 10>)
    ensures
        object_keys(*final(v)).to_multiset() == object_keys(*old(v)).to_multiset(),
        forall|i: int, j: int|
            0 <= i < j < object_keys(*final(v)).len() ==> object_keys(*final(v))[i] <= object_keys(*final(v))[j],
{
    v.sort_unstable()
}

/// The objects that a renderer has still to fetch, the next one last.
pub uninterp spec fn attribute_items(v: ArrayVec<ObjectAttribute, 10>) -> Seq<ObjectAttribute>;

/// `<[ObjectAttribute]>::last` on the slice the buffer dereferences to, copied out.
#[verifier::external_body]
pub(crate) fn attribute_buffer_last(v: &ArrayVec<ObjectAttribute, 10>) -> (r: Option<ObjectAttribute>)
    ensures
        r == (if attribute_items(*v).len() == 0 {
            None
        } else {
            Some(attribute_items(*v).last())
        }),
{
    v.last().copied()
}

/// `ArrayVec::pop`: removes and returns the last object.
#[verifier::external_body]
pub(crate) fn attribute_buffer_pop(v: &mut ArrayVec<ObjectAttribute, 10>) -> (r: Option<ObjectAttribute>)
    ensures
        attribute_items(*old(v)).len() == 0 ==> r == None::<ObjectAttribute> && attribute_items(*final(v))
            == attribute_items(*old(v)),
        attribute_items(*old(v)).len() > 0 ==> r == Some(attribute_items(*old(v)).last()) && attribute_items(
            *final(v),
        ) == attribute_items(*old(v)).drop_last(),
{
    v.pop()
}

/// The pixels of a line drawn so far.
pub uninterp spec fn color_items(v: ArrayVec<Color, 160>) -> Seq<Color>;

/// `ArrayVec::new`: no pixel yet.
#[verifier::external_body]
pub(crate) fn color_buffer_new() -> (r: ArrayVec<Color, 160>)
    ensures
        color_items(r) == Seq::<Color>::empty(),
{
    ArrayVec::new()
}

/// `ArrayVec::push`: appends a pixel. It panics on a full line, so room is required.
#[verifier::external_body]
pub(crate) fn color_buffer_push(v: &mut ArrayVec<Color, 160>, color: Color)
    requires
        color_items(*old(v)).len() < 160,
    ensures
        color_items(*final(v)) == color_items(*old(v)).push(color),
{
    v.push(color)
}

/// The number of pixels drawn (`len` of the slice the buffer dereferences to).
#[verifier::external_body]
pub(crate) fn color_buffer_len(v: &ArrayVec<Color, 160>) -> (r: usize)
    ensures
        r == color_items(*v).len(),
{
    v.len()
}

/// The micro-operations still to run, the next one last.
pub uninterp spec fn instruction_items(v: ArrayVec<Instruction, 5>) -> Seq<Instruction>;

/// `ArrayVec::new`: no micro-operation.
#[verifier::external_body]
pub(crate) fn instruction_buffer_new() -> (r: ArrayVec<Instruction, 5>)
    ensures
        instruction_items(r) == Seq::<Instruction>::empty(),
{
    ArrayVec::new()
}

/// `ArrayVec::push`: appends a micro-operation. It panics when full, so room is required.
#[verifier::external_body]
pub(crate) fn instruction_buffer_push(v: &mut ArrayVec<Instruction, 5>, instruction: Instruction)
    requires
        instruction_items(*old(v)).len() < 5,
    ensures
        instruction_items(*final(v)) == instruction_items(*old(v)).push(instruction),
{
    v.push(instruction)
}

/// `ArrayVec::pop`: removes and returns the last micro-operation, the next to run.
#[verifier::external_body]
pub(crate) fn instruction_buffer_pop(v: &mut ArrayVec<Instruction, 5>) -> (r: Option<Instruction>)
    ensures
        instruction_items(*old(v)).len() == 0 ==> r == None::<Instruction> && instruction_items(*final(v))
            == instruction_items(*old(v)),
        instruction_items(*old(v)).len() > 0 ==> r == Some(instruction_items(*old(v)).last())
            && instruction_items(*final(v)) == instruction_items(*old(v)).drop_last(),
{
    v.pop()
}

/// `ArrayVec::is_empty`: whether no micro-operation is left.
#[verifier::external_body]
pub(crate) fn instruction_buffer_is_empty(v: &ArrayVec<Instruction, 5>) -> (r: bool)
    ensures
        r == (instruction_items(*v).len() == 0),
{
    v.is_empty()
}

} // verus!
