//! The record of one vertex of the graph, and its metadata.

use vstd::prelude::*;

use crate::pb::exec::{ExecOp, ExecOpView};
use crate::pb::file::{FileOp, FileOpView};
use crate::pb::source::{SourceOp, SourceOpView};
use crate::wire::{
    bool_field, flag_entries, int64_field, len_field, len_items, put_bool, put_flag_entries,
    put_int64, put_message, put_messages, put_string, put_string_entries, string_entries,
    string_field, text_flags, text_pairs, wires, Message,
};

verus! {

/// An input edge: the digest of the vertex it comes from and the index of the
/// output it takes.
#[derive(Debug, Clone, PartialEq, Eq)]
pub struct Input {
    pub digest: String,
    pub index: i64,
}

/// What an [`Input`] holds.
pub ghost struct InputView {
    pub digest: Seq<char>,
    pub index: i64,
}

impl InputView {
    /// The encoded fields.
    pub open spec fn wire(&self) -> Seq<u8> {
        string_field(1, self.digest) + int64_field(2, self.index)
    }
}

impl View for Input {
    type V = InputView;

    open spec fn view(&self) -> InputView {
        InputView { digest: self.digest@, index: self.index }
    }
}

impl Message for Input {
    open spec fn wire(&self) -> Seq<u8> {
        self@.wire()
    }

    fn encode(&self, buf: &mut Vec<u8>) {
        put_string(buf, 1, self.digest.as_str());
        put_int64(buf, 2, self.index);
        assert(final(buf)@ =~= old(buf)@ + self@.wire());
    }
}

/// The views of a list of input edges.
pub open spec fn input_views(inputs: Seq<Input>) -> Seq<InputView> {
    inputs.map_values(|i: Input| i@)
}

/// The encodings of a list of input edges.
pub open spec fn input_wires(inputs: Seq<InputView>) -> Seq<Seq<u8>> {
    inputs.map_values(|i: InputView| i.wire())
}

/// What a vertex does.
#[derive(Debug, Clone, PartialEq, Eq)]
pub enum OpBody {
    Exec(ExecOp),
    Source(SourceOp),
    File(FileOp),
}

/// What an [`OpBody`] holds.
pub ghost enum OpBodyView {
    Exec(ExecOpView),
    Source(SourceOpView),
    File(FileOpView),
}

impl OpBodyView {
    /// The body as the one field of its kind.
    pub open spec fn wire(&self) -> Seq<u8> {
        match self {
            OpBodyView::Exec(exec) => len_field(2, exec.wire()),
            OpBodyView::Source(source) => len_field(3, source.wire()),
            OpBodyView::File(file) => len_field(4, file.wire()),
        }
    }
}

impl View for OpBody {
    type V = OpBodyView;

    open spec fn view(&self) -> OpBodyView {
        match self {
            OpBody::Exec(exec) => OpBodyView::Exec(exec@),
            OpBody::Source(source) => OpBodyView::Source(source@),
            OpBody::File(file) => OpBodyView::File(file@),
        }
    }
}

/// The wire form of an optional body: nothing when there is none.
pub open spec fn body_wire(body: Option<OpBodyView>) -> Seq<u8> {
    match body {
        Some(body) => body.wire(),
        None => Seq::empty(),
    }
}

/// One vertex: its input edges, then what it does.
#[derive(Debug, Clone, PartialEq, Eq)]
pub struct Op {
    pub inputs: Vec<Input>,
    pub op: Option<OpBody>,
}

/// What an [`Op`] holds.
pub ghost struct OpView {
    pub inputs: Seq<InputView>,
    pub op: Option<OpBodyView>,
}

impl OpView {
    /// The encoded fields.
    pub open spec fn wire(&self) -> Seq<u8> {
        len_items(1, input_wires(self.inputs)) + body_wire(self.op)
    }
}

impl View for Op {
    type V = OpView;

    open spec fn view(&self) -> OpView {
        OpView {
            inputs: input_views(self.inputs@),
            op: match self.op {
                Some(body) => Some(body@),
                None => None,
            },
        }
    }
}

impl Message for Op {
    open spec fn wire(&self) -> Seq<u8> {
        self@.wire()
    }

    fn encode(&self, buf: &mut Vec<u8>) {
        put_messages(buf, 1, &self.inputs);
        match &self.op {
            Some(OpBody::Exec(exec)) => put_message(buf, 2, exec),
            Some(OpBody::Source(source)) => put_message(buf, 3, source),
            Some(OpBody::File(file)) => put_message(buf, 4, file),
            None => {},
        }
        assert(wires(self.inputs@) =~= input_wires(input_views(self.inputs@)));
        assert(final(buf)@ =~= old(buf)@ + self@.wire());
    }
}

/// Metadata of a vertex: cache behaviour, free-form description and declared
/// capabilities. Both maps are kept as lists ordered by key.
#[derive(Debug, Clone, PartialEq, Eq)]
pub struct OpMetadata {
    pub ignore_cache: bool,
    pub description: Vec<(String, String)>,
    pub caps: Vec<(String, bool)>,
}

/// What an [`OpMetadata`] holds.
pub ghost struct OpMetadataView {
    pub ignore_cache: bool,
    pub description: Seq<(Seq<char>, Seq<char>)>,
    pub caps: Seq<(Seq<char>, bool)>,
}

impl OpMetadataView {
    /// The encoded fields.
    pub open spec fn wire(&self) -> Seq<u8> {
        bool_field(1, self.ignore_cache) + string_entries(2, self.description) + flag_entries(
            5,
            self.caps,
        )
    }

    /// Whether every field has its default value.
    pub open spec fn is_default(&self) -> bool {
        !self.ignore_cache && self.description.len() == 0 && self.caps.len() == 0
    }

    /// The metadata with every field at its default.
    pub open spec fn empty() -> OpMetadataView {
        OpMetadataView { ignore_cache: false, description: Seq::empty(), caps: Seq::empty() }
    }
}

impl View for OpMetadata {
    type V = OpMetadataView;

    open spec fn view(&self) -> OpMetadataView {
        OpMetadataView {
            ignore_cache: self.ignore_cache,
            description: text_pairs(self.description@),
            caps: text_flags(self.caps@),
        }
    }
}

impl Message for OpMetadata {
    open spec fn wire(&self) -> Seq<u8> {
        self@.wire()
    }

    fn encode(&self, buf: &mut Vec<u8>) {
        put_bool(buf, 1, self.ignore_cache);
        put_string_entries(buf, 2, &self.description);
        put_flag_entries(buf, 5, &self.caps);
        assert(final(buf)@ =~= old(buf)@ + self@.wire());
    }
}

impl OpMetadata {
    /// Metadata with every field at its default.
    pub fn new() -> (out: OpMetadata)
        ensures
            out@ == OpMetadataView::empty(),
    {
        let out = OpMetadata { ignore_cache: false, description: Vec::new(), caps: Vec::new() };
        assert(out@.description =~= Seq::empty());
        assert(out@.caps =~= Seq::empty());
        out
    }

    /// Whether every field has its default value.
    pub fn is_default(&self) -> (out: bool)
        ensures
            out == self@.is_default(),
    {
        !self.ignore_cache && self.description.len() == 0 && self.caps.len() == 0
    }
}

} // verus!
