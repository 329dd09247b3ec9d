//! A directory of the client as a source.

use std::sync::Arc;
use vstd::prelude::*;
use vstd::string::StringExecFns;

use crate::ops::metadata::{build_metadata, metadata_of, text_opt, Capabilities};
use crate::ops::{OperationBuilder, SingleBorrowedOutput, SingleOwnedOutput};
use crate::pb::{Op, OpBody, OpBodyView, SourceOp, SourceOpView};
use crate::serialization::context::Context;
use crate::serialization::model::{serialized, OperationView};
use crate::serialization::{EdgeView, Node, OperationId};
use crate::utils::{share, OperationArc, OperationOutput, OperationRef, OutputIdx};
use crate::wire::{text_pairs, texts};

verus! {

/// The error of the JSON encoder.
#[verifier::external_type_specification]
#[verifier::external_body]
pub struct ExJsonError(serde_json::Error);

/// The JSON text of a list of strings, where the encoder gives one.
pub uninterp spec fn json_array(items: Seq<Seq<char>>) -> Option<Seq<char>>;

/// Encodes a list of strings as a JSON array.
///
/// Trusted: calls `serde_json::to_string`, which serializes the value as a
/// string of JSON or reports a failure; which of the two, and the text, is a
/// function of the strings alone.
#[verifier::external_body]
pub(crate) fn to_json(items: &Vec<String>) -> (out: Result<String, serde_json::Error>)
    ensures
        match out {
            Ok(text) => json_array(texts(items@)) == Some(text@),
            Err(_) => json_array(texts(items@)) is None,
        },
{
    serde_json::to_string(items)
}

/// A source that takes a directory from the client.
#[derive(Debug)]
pub struct LocalSource {
    id: OperationId,
    name: String,
    custom_name: Option<String>,
    ignore_cache: bool,
    excluded: Vec<String>,
    included: Vec<String>,
}

/// What a [`LocalSource`] holds.
pub ghost struct LocalSourceView {
    pub id: u64,
    pub name: Seq<char>,
    pub custom_name: Option<Seq<char>>,
    pub ignore_cache: bool,
    pub excluded: Seq<Seq<char>>,
    pub included: Seq<Seq<char>>,
}

/// The JSON text that stands for a list of patterns: none for the empty
/// list, which is left out of the attributes.
pub open spec fn pattern_text(patterns: Seq<Seq<char>>) -> Option<Seq<char>> {
    if patterns.len() == 0 {
        None
    } else {
        json_array(patterns)
    }
}

/// The attributes of a local source with the given pattern texts: the
/// excluded patterns under `local.excludepatterns`, then the included patterns
/// under `local.includepattern`, each only if it is there.
pub open spec fn local_attrs(excluded: Option<Seq<char>>, included: Option<Seq<char>>) -> Seq<
    (Seq<char>, Seq<char>),
> {
    (match excluded {
        Some(text) => seq![("local.excludepatterns"@, text)],
        None => Seq::empty(),
    }) + (match included {
        Some(text) => seq![("local.includepattern"@, text)],
        None => Seq::empty(),
    })
}

impl LocalSourceView {
    /// The identifier: `local://` and the name.
    pub open spec fn identifier(&self) -> Seq<char> {
        "local://"@ + self.name
    }

    /// The source as a vertex of the graph. It has an encoding when every
    /// list of patterns that is not empty has a JSON text.
    pub open spec fn operation(&self) -> OperationView {
        OperationView {
            id: self.id,
            inputs: Seq::empty(),
            body: Some(
                OpBodyView::Source(
                    SourceOpView {
                        identifier: self.identifier(),
                        attrs: local_attrs(
                            pattern_text(self.excluded),
                            pattern_text(self.included),
                        ),
                    },
                ),
            ),
            metadata: metadata_of(self.custom_name, self.ignore_cache, Capabilities::spec_none()),
            encodable: (self.excluded.len() == 0 || json_array(self.excluded) is Some) && (
            self.included.len() == 0 || json_array(self.included) is Some),
        }
    }
}

impl View for LocalSource {
    type V = LocalSourceView;

    closed spec fn view(&self) -> LocalSourceView {
        LocalSourceView {
            id: self.id@,
            name: self.name@,
            custom_name: text_opt(self.custom_name),
            ignore_cache: self.ignore_cache,
            excluded: texts(self.excluded@),
            included: texts(self.included@),
        }
    }
}

/// Builds the attributes of a local source from the texts of its patterns.
pub fn build_local_attrs(excluded: Option<String>, included: Option<String>) -> (attrs: Vec<
    (String, String),
>)
    ensures
        text_pairs(attrs@) == local_attrs(text_opt(excluded), text_opt(included)),
{
    let mut attrs: Vec<(String, String)> = Vec::new();
    if let Some(text) = excluded {
        attrs.push((String::from_str("local.excludepatterns"), text));
    }
    if let Some(text) = included {
        attrs.push((String::from_str("local.includepattern"), text));
    }
    assert(text_pairs(attrs@) =~= local_attrs(text_opt(excluded), text_opt(included)));
    attrs
}

impl LocalSource {
    /// The source as a vertex of the graph.
    pub open spec fn operation(&self) -> OperationView {
        self@.operation()
    }

    /// A source for the client directory known under `name`.
    pub fn new(id: OperationId, name: &str) -> (source: LocalSource)
        ensures
            source@ == (LocalSourceView {
                id: id@,
                name: name@,
                custom_name: None,
                ignore_cache: false,
                excluded: Seq::empty(),
                included: Seq::empty(),
            }),
    {
        let source = LocalSource {
            id,
            name: String::from_str(name),
            custom_name: None,
            ignore_cache: false,
            excluded: Vec::new(),
            included: Vec::new(),
        };
        assert(source@.excluded =~= Seq::empty());
        assert(source@.included =~= Seq::empty());
        source
    }

    /// Adds a pattern of paths to take.
    pub fn add_include_pattern(self, included: &str) -> (source: LocalSource)
        ensures
            source@ == (LocalSourceView { included: self@.included.push(included@), ..self@ }),
    {
        let mut source = self;
        source.included.push(String::from_str(included));
        assert(source@.included =~= self@.included.push(included@));
        source
    }

    /// Adds a pattern of paths to leave out.
    pub fn add_exclude_pattern(self, excluded: &str) -> (source: LocalSource)
        ensures
            source@ == (LocalSourceView { excluded: self@.excluded.push(excluded@), ..self@ }),
    {
        let mut source = self;
        source.excluded.push(String::from_str(excluded));
        assert(source@.excluded =~= self@.excluded.push(excluded@));
        source
    }

    /// The identity of the operation.
    pub fn id(&self) -> (id: u64)
        ensures
            id == self@.id,
    {
        self.id.value()
    }

    /// The record of the source, given the texts of its patterns.
    pub fn source_op(&self, excluded: Option<String>, included: Option<String>) -> (op: SourceOp)
        ensures
            op@ == (SourceOpView {
                identifier: self@.identifier(),
                attrs: local_attrs(text_opt(excluded), text_opt(included)),
            }),
    {
        let mut identifier = String::from_str("local://");
        identifier.append(self.name.as_str());
        SourceOp { identifier, attrs: build_local_attrs(excluded, included) }
    }

    /// Serializes the source. A source consumes nothing, so the context stays
    /// as it is. Fails when the patterns cannot be encoded.
    pub fn serialize(&self, cx: &mut Context) -> (result: Result<Node, ()>)
        ensures
            serialized(old(cx)@, self.operation(), final(cx)@, result),
            self@.excluded.len() == 0 && self@.included.len() == 0 ==> result is Ok,
    {
        let excluded = if self.excluded.len() == 0 {
            None
        } else {
            match to_json(&self.excluded) {
                Ok(text) => Some(text),
                Err(_) => {
                    return Err(());
                },
            }
        };
        let included = if self.included.len() == 0 {
            None
        } else {
            match to_json(&self.included) {
                Ok(text) => Some(text),
                Err(_) => {
                    return Err(());
                },
            }
        };
        let head = Op {
            inputs: Vec::new(),
            op: Some(OpBody::Source(self.source_op(excluded, included))),
        };
        let metadata = build_metadata(&self.custom_name, self.ignore_cache, &Capabilities::none());
        proof {
            assert(head@.inputs =~= Seq::empty());
        }
        Ok(Node::new(head, metadata))
    }
}

impl<'a> SingleBorrowedOutput<'a> for LocalSource {
    fn output(&'a self) -> (out: OperationOutput<'a>)
        ensures
            out@ == (EdgeView { target: self.operation(), index: 0 }),
    {
        OperationOutput::borrowed(OperationRef::Local(self), OutputIdx(0))
    }
}

impl SingleOwnedOutput<'static> for Arc<LocalSource> {
    fn output(&self) -> (out: OperationOutput<'static>)
        ensures
            out@ == (EdgeView { target: self.operation(), index: 0 }),
    {
        OperationOutput::owned(OperationArc::Local(share(self)), OutputIdx(0))
    }
}

impl OperationBuilder<'static> for LocalSource {
    fn custom_name(self, name: &str) -> (source: LocalSource)
        ensures
            source@ == (LocalSourceView { custom_name: Some(name@), ..self@ }),
    {
        let mut source = self;
        source.custom_name = Some(String::from_str(name));
        source
    }

    fn ignore_cache(self, ignore: bool) -> (source: LocalSource)
        ensures
            source@ == (LocalSourceView { ignore_cache: ignore, ..self@ }),
    {
        let mut source = self;
        source.ignore_cache = ignore;
        source
    }
}

} // verus!
