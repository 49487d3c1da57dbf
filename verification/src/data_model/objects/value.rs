//! The values that a read hands to the sink.
use vstd::prelude::*;

verus! {

/// The value of an attribute as a read hands it out: a cell's value, or what
/// the cluster's metadata answers for a global attribute.
#[derive(Debug, PartialEq, Eq)]
pub enum AttrValue {
    U8(u8),
    U16(u16),
    U32(u32),
    I16(i16),
    /// An array of eight octets.
    U8Array8([u8; 8]),
    /// An array of thirty-two octets.
    U8Array32([u8; 32]),
    /// An array of thirty-two strings.
    StrArray32([&'static str; 32]),
    /// A list of attribute or command numbers.
    IdList(Vec<u32>),
}

/// The model of an `AttrValue`: arrays and lists by their elements, strings
/// by their characters.
pub enum AttrValueView {
    U8(u8),
    U16(u16),
    U32(u32),
    I16(i16),
    U8Array(Seq<u8>),
    StrArray(Seq<Seq<char>>),
    IdList(Seq<u32>),
}

impl View for AttrValue {
    type V = AttrValueView;

    open spec fn view(&self) -> AttrValueView {
        match *self {
            AttrValue::U8(v) => AttrValueView::U8(v),
            AttrValue::U16(v) => AttrValueView::U16(v),
            AttrValue::U32(v) => AttrValueView::U32(v),
            AttrValue::I16(v) => AttrValueView::I16(v),
            AttrValue::U8Array8(v) => AttrValueView::U8Array(v.deep_view()),
            AttrValue::U8Array32(v) => AttrValueView::U8Array(v.deep_view()),
            AttrValue::StrArray32(v) => AttrValueView::StrArray(v.deep_view()),
            AttrValue::IdList(v) => AttrValueView::IdList(v@),
        }
    }
}

impl Clone for AttrValue {
    fn clone(&self) -> (value: Self)
        ensures
            value@ == self@,
    {
        match self {
            AttrValue::U8(v) => AttrValue::U8(*v),
            AttrValue::U16(v) => AttrValue::U16(*v),
            AttrValue::U32(v) => AttrValue::U32(*v),
            AttrValue::I16(v) => AttrValue::I16(*v),
            AttrValue::U8Array8(v) => AttrValue::U8Array8(*v),
            AttrValue::U8Array32(v) => AttrValue::U8Array32(*v),
            AttrValue::StrArray32(v) => AttrValue::StrArray32(*v),
            AttrValue::IdList(v) => AttrValue::IdList(copy_of(v)),
        }
    }
}

/// A copy of a list.
pub(crate) fn copy_of<T: Copy>(list: &Vec<T>) -> (copy: Vec<T>)
    ensures
        copy@ == list@,
{
    let mut copy: Vec<T> = Vec::new();
    let mut i: usize = 0;
    while i < list.len()
        invariant
            i <= list.len(),
            copy@ == list@.take(i as int),
        decreases list.len() - i,
    {
        copy.push(list[i]);
        assert(list@.take(i + 1) =~= list@.take(i as int).push(list@[i as int]));
        i += 1;
    }
    assert(list@.take(list.len() as int) =~= list@);
    copy
}

} // verus!
