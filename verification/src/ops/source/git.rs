//! A Git repository as a source.

use std::sync::Arc;
use vstd::prelude::*;
use vstd::string::StringExecFns;

use crate::ops::metadata::{build_metadata, metadata_of, text_opt, Capabilities};
use crate::ops::{OperationBuilder, SingleBorrowedOutput, SingleOwnedOutput};
use crate::pb::{Op, OpBody, OpBodyView, SourceOp, SourceOpView};
use crate::serialization::context::Context;
use crate::serialization::model::{serialized, OperationView};
use crate::serialization::{EdgeView, Node, OperationId};
use crate::text::{chars_of, starts_with, text_of};
use crate::utils::{share, OperationArc, OperationOutput, OperationRef, OutputIdx};

verus! {

/// A source that checks out a Git repository.
#[derive(Debug)]
pub struct GitSource {
    id: OperationId,
    remote: String,
    reference: Option<String>,
    custom_name: Option<String>,
    ignore_cache: bool,
}

/// What a [`GitSource`] holds.
pub ghost struct GitSourceView {
    pub id: u64,
    pub remote: Seq<char>,
    pub reference: Option<Seq<char>>,
    pub custom_name: Option<Seq<char>>,
    pub ignore_cache: bool,
}

/// The remote of a repository URL: the URL without its scheme, where the
/// scheme is the first of `http://`, `https://`, `git://` and `git@` that the
/// URL begins with.
pub open spec fn strip_scheme(url: Seq<char>) -> Seq<char> {
    if "http://"@.is_prefix_of(url) {
        url.skip("http://"@.len() as int)
    } else if "https://"@.is_prefix_of(url) {
        url.skip("https://"@.len() as int)
    } else if "git://"@.is_prefix_of(url) {
        url.skip("git://"@.len() as int)
    } else if "git@"@.is_prefix_of(url) {
        url.skip("git@"@.len() as int)
    } else {
        url
    }
}

impl GitSourceView {
    /// The identifier: `git://`, the remote and, after `#`, the reference
    /// if one is set.
    pub open spec fn identifier(&self) -> Seq<char> {
        match self.reference {
            Some(reference) => "git://"@ + self.remote + "#"@ + reference,
            None => "git://"@ + self.remote,
        }
    }

    /// The source as a vertex of the graph.
    pub open spec fn operation(&self) -> OperationView {
        OperationView {
            id: self.id,
            inputs: Seq::empty(),
            body: Some(
                OpBodyView::Source(
                    SourceOpView { identifier: self.identifier(), attrs: Seq::empty() },
                ),
            ),
            metadata: metadata_of(self.custom_name, self.ignore_cache, Capabilities::spec_none()),
            encodable: true,
        }
    }
}

impl View for GitSource {
    type V = GitSourceView;

    closed spec fn view(&self) -> GitSourceView {
        GitSourceView {
            id: self.id@,
            remote: self.remote@,
            reference: text_opt(self.reference),
            custom_name: text_opt(self.custom_name),
            ignore_cache: self.ignore_cache,
        }
    }
}

impl GitSource {
    /// The source as a vertex of the graph.
    pub open spec fn operation(&self) -> OperationView {
        self@.operation()
    }

    /// A source for the repository at `url`, the scheme of the URL removed.
    pub fn new(id: OperationId, url: &str) -> (source: GitSource)
        ensures
            source@ == (GitSourceView {
                id: id@,
                remote: strip_scheme(url@),
                reference: None,
                custom_name: None,
                ignore_cache: false,
            }),
    {
        let chars = chars_of(url);
        let http = chars_of("http://");
        let https = chars_of("https://");
        let git = chars_of("git://");
        let git_at = chars_of("git@");
        let start: usize = if starts_with(&chars, &http) {
            http.len()
        } else if starts_with(&chars, &https) {
            https.len()
        } else if starts_with(&chars, &git) {
            git.len()
        } else if starts_with(&chars, &git_at) {
            git_at.len()
        } else {
            0
        };
        let remote = text_of(&chars, start, chars.len());
        assert(url@.skip(0) =~= url@);
        GitSource { id, remote, reference: None, custom_name: None, ignore_cache: false }
    }

    /// Sets the branch, tag or commit to check out.
    pub fn with_reference(self, reference: &str) -> (source: GitSource)
        ensures
            source@ == (GitSourceView { reference: Some(reference@), ..self@ }),
    {
        let mut source = self;
        source.reference = Some(String::from_str(reference));
        source
    }

    /// The identity of the operation.
    pub fn id(&self) -> (id: u64)
        ensures
            id == self@.id,
    {
        self.id.value()
    }

    /// Serializes the source. A source consumes nothing, so the context stays
    /// as it is.
    pub fn serialize(&self, cx: &mut Context) -> (result: Result<Node, ()>)
        ensures
            serialized(old(cx)@, self.operation(), final(cx)@, result),
            result is Ok,
    {
        let mut identifier = String::from_str("git://");
        identifier.append(self.remote.as_str());
        if let Some(reference) = &self.reference {
            identifier.append("#");
            identifier.append(reference.as_str());
        }
        let head = Op {
            inputs: Vec::new(),
            op: Some(OpBody::Source(SourceOp { identifier, attrs: Vec::new() })),
        };
        let metadata = build_metadata(&self.custom_name, self.ignore_cache, &Capabilities::none());
        proof {
            assert(head@.inputs =~= Seq::empty());
            assert(head@.op->0->Source_0.attrs =~= Seq::empty());
            assert(head@.op->0->Source_0.identifier =~= self@.identifier());
        }
        Ok(Node::new(head, metadata))
    }
}

impl<'a> SingleBorrowedOutput<'a> for GitSource {
    fn output(&'a self) -> (out: OperationOutput<'a>)
        ensures
            out@ == (EdgeView { target: self.operation(), index: 0 }),
    {
        OperationOutput::borrowed(OperationRef::Git(self), OutputIdx(0))
    }
}

impl SingleOwnedOutput<'static> for Arc<GitSource> {
    fn output(&self) -> (out: OperationOutput<'static>)
        ensures
            out@ == (EdgeView { target: self.operation(), index: 0 }),
    {
        OperationOutput::owned(OperationArc::Git(share(self)), OutputIdx(0))
    }
}

impl OperationBuilder<'static> for GitSource {
    fn custom_name(self, name: &str) -> (source: GitSource)
        ensures
            source@ == (GitSourceView { custom_name: Some(name@), ..self@ }),
    {
        let mut source = self;
        source.custom_name = Some(String::from_str(name));
        source
    }

    fn ignore_cache(self, ignore: bool) -> (source: GitSource)
        ensures
            source@ == (GitSourceView { ignore_cache: ignore, ..self@ }),
    {
        let mut source = self;
        source.ignore_cache = ignore;
        source
    }
}

} // verus!
