//! The record of a source operation.

use vstd::prelude::*;

use crate::wire::{
    put_string, put_string_entries, string_entries, string_field, text_pairs, Message,
};

verus! {

/// A source: an identifier and its attributes, the attributes ordered by key.
#[derive(Debug, Clone, PartialEq, Eq)]
pub struct SourceOp {
    pub identifier: String,
    pub attrs: Vec<(String, String)>,
}

/// What a [`SourceOp`] holds.
pub ghost struct SourceOpView {
    pub identifier: Seq<char>,
    pub attrs: Seq<(Seq<char>, Seq<char>)>,
}

impl SourceOpView {
    /// The encoded fields.
    pub open spec fn wire(&self) -> Seq<u8> {
        string_field(1, self.identifier) + string_entries(2, self.attrs)
    }
}

impl View for SourceOp {
    type V = SourceOpView;

    open spec fn view(&self) -> SourceOpView {
        SourceOpView { identifier: self.identifier@, attrs: text_pairs(self.attrs@) }
    }
}

impl Message for SourceOp {
    open spec fn wire(&self) -> Seq<u8> {
        self@.wire()
    }

    fn encode(&self, buf: &mut Vec<u8>) {
        put_string(buf, 1, self.identifier.as_str());
        put_string_entries(buf, 2, &self.attrs);
        assert(final(buf)@ =~= old(buf)@ + self@.wire());
    }
}

} // verus!
