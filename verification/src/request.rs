//! The structured publish request and its attribute mapping.
//!
//! Attribute values are always string-typed on the wire, whatever their
//! source type, so an attribute is a name, the fixed type tag, and the
//! rendered value. The mapping is kept as a vector of attributes whose
//! names are pairwise distinct.

use vstd::prelude::*;

verus! {

/// One delivery-configuration attribute of a publish request.
#[derive(Clone, Debug, PartialEq, Eq)]
pub struct MessageAttribute {
    /// The attribute key, under the vendor namespace prefix.
    pub name: String,
    /// The wire type tag; always "String" for the attributes built here.
    pub data_type: String,
    /// The rendered value.
    pub value: String,
}

impl MessageAttribute {
    /// The (name, value) pair this attribute binds.
    pub open spec fn pair(&self) -> (Seq<char>, Seq<char>) {
        (self.name@, self.value@)
    }
}

/// The (name, value) pairs that a sequence of attributes binds, in order.
pub open spec fn attr_pairs(attrs: Seq<MessageAttribute>) -> Seq<(Seq<char>, Seq<char>)> {
    attrs.map_values(|a: MessageAttribute| a.pair())
}

/// The value bound under `name`, if the mapping contains it; the first
/// binding wins where a name repeats.
pub open spec fn attr_value(pairs: Seq<(Seq<char>, Seq<char>)>, name: Seq<char>) -> Option<
    Seq<char>,
>
    decreases pairs.len(),
{
    if pairs.len() == 0 {
        None
    } else if pairs[0].0 == name {
        Some(pairs[0].1)
    } else {
        attr_value(pairs.drop_first(), name)
    }
}

/// Whether the mapping binds `name` at all.
pub open spec fn has_attr(pairs: Seq<(Seq<char>, Seq<char>)>, name: Seq<char>) -> bool {
    attr_value(pairs, name) is Some
}

/// A publish request, ready for the surrounding application to hand to the
/// cloud SDK: the message body, the destination phone number, and the
/// delivery-configuration attributes.
#[derive(Clone, Debug, PartialEq, Eq)]
pub struct PublishRequest {
    pub message: String,
    pub phone_number: String,
    pub attributes: Vec<MessageAttribute>,
}

} // verus!
