//! A file fetched over HTTP as a source.

use std::sync::Arc;
use vstd::prelude::*;
use vstd::string::StringExecFns;

use crate::ops::metadata::{build_metadata, metadata_of, text_opt, Capabilities};
use crate::ops::{OperationBuilder, SingleBorrowedOutput, SingleOwnedOutput};
use crate::pb::{Op, OpBody, OpBodyView, SourceOp, SourceOpView};
use crate::serialization::context::Context;
use crate::serialization::model::{serialized, OperationView};
use crate::serialization::{EdgeView, Node, OperationId};
use crate::utils::{share, OperationArc, OperationOutput, OperationRef, OutputIdx};

verus! {

/// A source that downloads a file.
#[derive(Debug)]
pub struct HttpSource {
    id: OperationId,
    url: String,
    file_name: Option<String>,
    custom_name: Option<String>,
    ignore_cache: bool,
}

/// What an [`HttpSource`] holds.
pub ghost struct HttpSourceView {
    pub id: u64,
    pub url: Seq<char>,
    pub file_name: Option<Seq<char>>,
    pub custom_name: Option<Seq<char>>,
    pub ignore_cache: bool,
}

impl HttpSourceView {
    /// The attributes: the file name under `http.filename`, if one is set.
    pub open spec fn attrs(&self) -> Seq<(Seq<char>, Seq<char>)> {
        match self.file_name {
            Some(name) => seq![("http.filename"@, name)],
            None => Seq::empty(),
        }
    }

    /// The source as a vertex of the graph: its identifier is the URL as
    /// it was given.
    pub open spec fn operation(&self) -> OperationView {
        OperationView {
            id: self.id,
            inputs: Seq::empty(),
            body: Some(
                OpBodyView::Source(SourceOpView { identifier: self.url, attrs: self.attrs() }),
            ),
            metadata: metadata_of(self.custom_name, self.ignore_cache, Capabilities::spec_none()),
            encodable: true,
        }
    }
}

impl View for HttpSource {
    type V = HttpSourceView;

    closed spec fn view(&self) -> HttpSourceView {
        HttpSourceView {
            id: self.id@,
            url: self.url@,
            file_name: text_opt(self.file_name),
            custom_name: text_opt(self.custom_name),
            ignore_cache: self.ignore_cache,
        }
    }
}

impl HttpSource {
    /// The source as a vertex of the graph.
    pub open spec fn operation(&self) -> OperationView {
        self@.operation()
    }

    /// A source for the file at `url`.
    pub fn new(id: OperationId, url: &str) -> (source: HttpSource)
        ensures
            source@ == (HttpSourceView {
                id: id@,
                url: url@,
                file_name: None,
                custom_name: None,
                ignore_cache: false,
            }),
    {
        HttpSource {
            id,
            url: String::from_str(url),
            file_name: None,
            custom_name: None,
            ignore_cache: false,
        }
    }

    /// Sets the name under which the downloaded file is stored.
    pub fn with_file_name(self, name: &str) -> (source: HttpSource)
        ensures
            source@ == (HttpSourceView { file_name: Some(name@), ..self@ }),
    {
        let mut source = self;
        source.file_name = Some(String::from_str(name));
        source
    }

    /// The identity of the operation.
    pub fn id(&self) -> (id: u64)
        ensures
            id == self@.id,
    {
        self.id.value()
    }

    /// Serializes the source. A source consumes nothing, so the context stays
    /// as it is.
    pub fn serialize(&self, cx: &mut Context) -> (result: Result<Node, ()>)
        ensures
            serialized(old(cx)@, self.operation(), final(cx)@, result),
            result is Ok,
    {
        let mut attrs: Vec<(String, String)> = Vec::new();
        if let Some(name) = &self.file_name {
            attrs.push((String::from_str("http.filename"), name.clone()));
        }
        let head = Op {
            inputs: Vec::new(),
            op: Some(OpBody::Source(SourceOp { identifier: self.url.clone(), attrs })),
        };
        let metadata = build_metadata(&self.custom_name, self.ignore_cache, &Capabilities::none());
        proof {
            assert(head@.inputs =~= Seq::empty());
            assert(head@.op->0->Source_0.attrs =~= self@.attrs());
        }
        Ok(Node::new(head, metadata))
    }
}

impl<'a> SingleBorrowedOutput<'a> for HttpSource {
    fn output(&'a self) -> (out: OperationOutput<'a>)
        ensures
            out@ == (EdgeView { target: self.operation(), index: 0 }),
    {
        OperationOutput::borrowed(OperationRef::Http(self), OutputIdx(0))
    }
}

impl SingleOwnedOutput<'static> for Arc<HttpSource> {
    fn output(&self) -> (out: OperationOutput<'static>)
        ensures
            out@ == (EdgeView { target: self.operation(), index: 0 }),
    {
        OperationOutput::owned(OperationArc::Http(share(self)), OutputIdx(0))
    }
}

impl OperationBuilder<'static> for HttpSource {
    fn custom_name(self, name: &str) -> (source: HttpSource)
        ensures
            source@ == (HttpSourceView { custom_name: Some(name@), ..self@ }),
    {
        let mut source = self;
        source.custom_name = Some(String::from_str(name));
        source
    }

    fn ignore_cache(self, ignore: bool) -> (source: HttpSource)
        ensures
            source@ == (HttpSourceView { ignore_cache: ignore, ..self@ }),
    {
        let mut source = self;
        source.ignore_cache = ignore;
        source
    }
}

} // verus!
