//! A container image as a source.

use std::sync::Arc;
use vstd::prelude::*;
use vstd::string::{StrSliceExecFns, StringExecFns};

use crate::ops::metadata::{build_metadata, metadata_of, text_opt, Capabilities};
use crate::ops::{OperationBuilder, SingleBorrowedOutput, SingleOwnedOutput};
use crate::pb::{Op, OpBody, OpBodyView, SourceOp, SourceOpView};
use crate::serialization::context::Context;
use crate::serialization::model::{serialized, OperationView};
use crate::serialization::{EdgeView, Node, OperationId};
use crate::text::{chars_of, find_char, first_index, prefix_equals, text_of};
use crate::utils::{share, OperationArc, OperationOutput, OperationRef, OutputIdx};

verus! {

/// The error of the pattern compiler.
#[verifier::external_type_specification]
#[verifier::external_body]
pub struct ExPatternError(regex::Error);

/// The part of `text` before the leftmost match of `pattern`: `Some(None)`
/// where the pattern does not match, `None` where it is no valid pattern.
pub uninterp spec fn text_before_match(pattern: Seq<char>, text: Seq<char>) -> Option<
    Option<Seq<char>>,
>;

/// Searches `text` for `pattern` and gives the part of the text that stands
/// before the leftmost match.
///
/// Trusted: calls `regex::Regex::new` on the pattern and `Regex::find` on the
/// text. `find` returns the first match of the pattern in the text; the text
/// up to the start of that match is handed out. Whether the pattern compiles,
/// whether it matches and where are functions of the two strings alone.
#[verifier::external_body]
pub(crate) fn find_before_match(pattern: &str, text: &str) -> (out: Result<
    Option<String>,
    regex::Error,
>)
    ensures
        match out {
            Ok(found) => text_before_match(pattern@, text@) == Some(text_opt(found)),
            Err(_) => text_before_match(pattern@, text@) is None,
        },
{
    let re = regex::Regex::new(pattern)?;
    Ok(
        match re.find(text) {
            Some(found) => Some(text[..found.start()].to_string()),
            None => None,
        },
    )
}

/// How an image is looked up.
#[derive(Debug, Clone, Copy, PartialEq, Eq)]
pub enum ResolveMode {
    Default,
    ForcePull,
    PreferLocal,
}

impl ResolveMode {
    /// The text that stands for the mode in the attributes.
    pub open spec fn text(&self) -> Seq<char> {
        match self {
            ResolveMode::Default => "default"@,
            ResolveMode::ForcePull => "pull"@,
            ResolveMode::PreferLocal => "local"@,
        }
    }

    /// The text that stands for the mode in the attributes.
    pub fn to_string(&self) -> (out: String)
        ensures
            out@ == self.text(),
    {
        match self {
            ResolveMode::Default => String::from_str("default"),
            ResolveMode::ForcePull => String::from_str("pull"),
            ResolveMode::PreferLocal => String::from_str("local"),
        }
    }
}

impl Default for ResolveMode {
    fn default() -> (mode: ResolveMode)
        ensures
            mode == ResolveMode::Default,
    {
        ResolveMode::Default
    }
}

/// A source that pulls a container image.
#[derive(Debug)]
pub struct ImageSource {
    id: OperationId,
    domain: Option<String>,
    name: String,
    tag: Option<String>,
    digest: Option<String>,
    custom_name: Option<String>,
    ignore_cache: bool,
    resolve_mode: Option<ResolveMode>,
}

/// What an [`ImageSource`] holds.
pub ghost struct ImageSourceView {
    pub id: u64,
    pub domain: Option<Seq<char>>,
    pub name: Seq<char>,
    pub tag: Option<Seq<char>>,
    pub digest: Option<Seq<char>>,
    pub custom_name: Option<Seq<char>>,
    pub ignore_cache: bool,
    pub resolve_mode: Option<ResolveMode>,
}

/// The pattern of a tag at the end of a name: a colon, a word character, and
/// one or more word characters, dots or hyphens.
pub open spec fn tag_pattern() -> Seq<char> {
    ":[\\w][\\w.-]+$"@
}

/// A reference without its digest, and the digest: the text after the first
/// `@`, if there is one.
pub open spec fn split_digest(reference: Seq<char>) -> (Seq<char>, Option<Seq<char>>) {
    match first_index(reference, '@') {
        Some(at) => (reference.take(at), Some(reference.skip(at + 1))),
        None => (reference, None),
    }
}

/// The text before the tag of a name without digest, if the name ends in a
/// tag.
pub open spec fn before_tag(name: Seq<char>) -> Option<Seq<char>> {
    match text_before_match(tag_pattern(), name) {
        Some(found) => found,
        None => None,
    }
}

/// A name without its tag, and the tag: the text after the colon that
/// follows the `before` characters in front of the match.
pub open spec fn split_tag(name: Seq<char>, before: Option<Seq<char>>) -> (
    Seq<char>,
    Option<Seq<char>>,
) {
    match before {
        Some(before) => if before.len() < name.len() {
            (name.take(before.len() as int), Some(name.skip(before.len() as int + 1)))
        } else {
            (name, None)
        },
        None => (name, None),
    }
}

/// The domain of a name without tag, and the rest of the name. The first
/// component is a domain if it is `localhost` or holds a dot or a colon;
/// `docker.io` is taken off and not kept.
pub open spec fn split_domain(name: Seq<char>) -> (Option<Seq<char>>, Seq<char>) {
    match first_index(name, '/') {
        Some(slash) => {
            let first = name.take(slash);
            let rest = name.skip(slash + 1);
            if first == "docker.io"@ {
                (None, rest)
            } else if first == "localhost"@ {
                (Some(first), rest)
            } else if first_index(first, '.') is Some {
                (Some(first), rest)
            } else if first_index(first, ':') is Some {
                (Some(first), rest)
            } else {
                (None, name)
            }
        },
        None => (None, name),
    }
}

/// The repository of an image: `library/` is put before a name without
/// domain that has a single component.
pub open spec fn repository(domain: Option<Seq<char>>, name: Seq<char>) -> Seq<char> {
    if domain is None && first_index(name, '/') is None {
        "library/"@ + name
    } else {
        name
    }
}

impl ImageSourceView {
    /// The image that a name without digest refers to, given the text in
    /// front of the tag that the name ends in.
    pub open spec fn parsed(
        id: u64,
        name: Seq<char>,
        digest: Option<Seq<char>>,
        before: Option<Seq<char>>,
    ) -> ImageSourceView {
        let (untagged, tag) = split_tag(name, before);
        let (domain, rest) = split_domain(untagged);
        ImageSourceView {
            id: id,
            domain: domain,
            name: repository(domain, rest),
            tag: tag,
            digest: digest,
            custom_name: None,
            ignore_cache: false,
            resolve_mode: None,
        }
    }

    /// The image that a reference of the form
    /// `[<domain>/]<name>[:<tag>][@<digest>]` refers to.
    pub open spec fn of_reference(id: u64, reference: Seq<char>) -> ImageSourceView {
        let (name, digest) = split_digest(reference);
        ImageSourceView::parsed(id, name, digest, before_tag(name))
    }

    /// The canonical name: the domain or `docker.io`, the repository, the tag
    /// or `latest`, and the digest if there is one.
    pub open spec fn canonical_name(&self) -> Seq<char> {
        let domain = match self.domain {
            Some(domain) => domain,
            None => "docker.io"@,
        };
        let tag = match self.tag {
            Some(tag) => tag,
            None => "latest"@,
        };
        let base = domain + "/"@ + self.name + ":"@ + tag;
        match self.digest {
            Some(digest) => base + "@"@ + digest,
            None => base,
        }
    }

    /// The attributes: the resolve mode under `image.resolvemode`, if one is
    /// set.
    pub open spec fn attrs(&self) -> Seq<(Seq<char>, Seq<char>)> {
        match self.resolve_mode {
            Some(mode) => seq![("image.resolvemode"@, mode.text())],
            None => Seq::empty(),
        }
    }

    /// The source as a vertex of the graph.
    pub open spec fn operation(&self) -> OperationView {
        OperationView {
            id: self.id,
            inputs: Seq::empty(),
            body: Some(
                OpBodyView::Source(
                    SourceOpView {
                        identifier: "docker-image://"@ + self.canonical_name(),
                        attrs: self.attrs(),
                    },
                ),
            ),
            metadata: metadata_of(self.custom_name, self.ignore_cache, Capabilities::spec_none()),
            encodable: true,
        }
    }
}

impl View for ImageSource {
    type V = ImageSourceView;

    closed spec fn view(&self) -> ImageSourceView {
        ImageSourceView {
            id: self.id@,
            domain: text_opt(self.domain),
            name: self.name@,
            tag: text_opt(self.tag),
            digest: text_opt(self.digest),
            custom_name: text_opt(self.custom_name),
            ignore_cache: self.ignore_cache,
            resolve_mode: self.resolve_mode,
        }
    }
}

impl ImageSource {
    /// The source as a vertex of the graph.
    pub open spec fn operation(&self) -> OperationView {
        self@.operation()
    }

    /// A source for the image that `reference` names.
    pub fn new(id: OperationId, reference: &str) -> (source: ImageSource)
        ensures
            source@ == ImageSourceView::of_reference(id@, reference@),
    {
        let chars = chars_of(reference);
        let len = chars.len();
        assert(chars@.subrange(0, len as int) =~= chars@);
        let (end, digest) = match find_char(&chars, len, '@') {
            Some(at) => {
                let digest = text_of(&chars, at + 1, len);
                (at, Some(digest))
            },
            None => (len, None),
        };
        let name = text_of(&chars, 0, end);
        proof {
            assert(chars@.subrange(0, end as int) =~= split_digest(reference@).0);
        }
        let before = match find_before_match(":[\\w][\\w.-]+$", name.as_str()) {
            Ok(found) => found,
            Err(_) => None,
        };
        ImageSource::parse(id, name.as_str(), digest, before)
    }

    /// A source for the image that `name`, a reference without digest, names,
    /// where `before` is the text in front of the tag that the name ends in.
    pub fn parse(id: OperationId, name: &str, digest: Option<String>, before: Option<String>) -> (source:
        ImageSource)
        ensures
            source@ == ImageSourceView::parsed(id@, name@, text_opt(digest), text_opt(before)),
    {
        let chars = chars_of(name);
        let len = chars.len();
        let (end, tag) = match before {
            Some(before) => {
                let count = before.as_str().unicode_len();
                if count < len {
                    (count, Some(text_of(&chars, count + 1, len)))
                } else {
                    (len, None)
                }
            },
            None => (len, None),
        };
        let ghost untagged = split_tag(name@, text_opt(before)).0;
        assert(chars@.subrange(0, end as int) =~= untagged);
        assert(text_opt(tag) == split_tag(name@, text_opt(before)).1);
        let (domain, start) = match find_char(&chars, end, '/') {
            Some(slash) => {
                let docker = chars_of("docker.io");
                let localhost = chars_of("localhost");
                assert(untagged.take(slash as int) =~= chars@.subrange(0, slash as int));
                if prefix_equals(&chars, slash, &docker) {
                    (None, slash + 1)
                } else if prefix_equals(&chars, slash, &localhost) {
                    (Some(text_of(&chars, 0, slash)), slash + 1)
                } else if find_char(&chars, slash, '.').is_some() {
                    (Some(text_of(&chars, 0, slash)), slash + 1)
                } else if find_char(&chars, slash, ':').is_some() {
                    (Some(text_of(&chars, 0, slash)), slash + 1)
                } else {
                    (None, 0)
                }
            },
            None => (None, 0),
        };
        let ghost rest = split_domain(untagged).1;
        assert(chars@.subrange(start as int, end as int) =~= rest);
        assert(text_opt(domain) == split_domain(untagged).0);
        let rest_chars = chars_of(text_of(&chars, start, end).as_str());
        assert(rest_chars@.subrange(0, rest_chars@.len() as int) =~= rest);
        let bare = domain.is_none() && find_char(&rest_chars, rest_chars.len(), '/').is_none();
        let mut full = if bare {
            String::from_str("library/")
        } else {
            String::new()
        };
        full.append(text_of(&chars, start, end).as_str());
        assert(full@ =~= repository(text_opt(domain), rest));
        ImageSource {
            id,
            domain,
            name: full,
            tag,
            digest,
            custom_name: None,
            ignore_cache: false,
            resolve_mode: None,
        }
    }

    /// Sets how the image is looked up.
    pub fn with_resolve_mode(self, mode: ResolveMode) -> (source: ImageSource)
        ensures
            source@ == (ImageSourceView { resolve_mode: Some(mode), ..self@ }),
    {
        let mut source = self;
        source.resolve_mode = Some(mode);
        source
    }

    /// How the image is looked up, if that was set.
    pub fn resolve_mode(&self) -> (mode: Option<ResolveMode>)
        ensures
            mode == self@.resolve_mode,
    {
        self.resolve_mode
    }

    /// Sets the digest of the image.
    pub fn with_digest(self, digest: &str) -> (source: ImageSource)
        ensures
            source@ == (ImageSourceView { digest: Some(digest@), ..self@ }),
    {
        let mut source = self;
        source.digest = Some(String::from_str(digest));
        source
    }

    /// Sets the tag of the image.
    pub fn with_tag(self, tag: &str) -> (source: ImageSource)
        ensures
            source@ == (ImageSourceView { tag: Some(tag@), ..self@ }),
    {
        let mut source = self;
        source.tag = Some(String::from_str(tag));
        source
    }

    /// The canonical name of the image.
    pub fn canonical_name(&self) -> (name: String)
        ensures
            name@ == self@.canonical_name(),
    {
        let mut name = match &self.domain {
            Some(domain) => domain.clone(),
            None => String::from_str("docker.io"),
        };
        name.append("/");
        name.append(self.name.as_str());
        name.append(":");
        match &self.tag {
            Some(tag) => name.append(tag.as_str()),
            None => name.append("latest"),
        }
        if let Some(digest) = &self.digest {
            name.append("@");
            name.append(digest.as_str());
        }
        name
    }

    /// The identity of the operation.
    pub fn id(&self) -> (id: u64)
        ensures
            id == self@.id,
    {
        self.id.value()
    }

    /// Serializes the source. A source consumes nothing, so the context stays
    /// as it is.
    pub fn serialize(&self, cx: &mut Context) -> (result: Result<Node, ()>)
        ensures
            serialized(old(cx)@, self.operation(), final(cx)@, result),
            result is Ok,
    {
        let mut attrs: Vec<(String, String)> = Vec::new();
        if let Some(mode) = &self.resolve_mode {
            attrs.push((String::from_str("image.resolvemode"), mode.to_string()));
        }
        let mut identifier = String::from_str("docker-image://");
        identifier.append(self.canonical_name().as_str());
        let head = Op {
            inputs: Vec::new(),
            op: Some(OpBody::Source(SourceOp { identifier, attrs })),
        };
        let metadata = build_metadata(&self.custom_name, self.ignore_cache, &Capabilities::none());
        proof {
            assert(head@.inputs =~= Seq::empty());
            assert(head@.op->0->Source_0.attrs =~= self@.attrs());
        }
        Ok(Node::new(head, metadata))
    }
}

impl<'a> SingleBorrowedOutput<'a> for ImageSource {
    fn output(&'a self) -> (out: OperationOutput<'a>)
        ensures
            out@ == (EdgeView { target: self.operation(), index: 0 }),
    {
        OperationOutput::borrowed(OperationRef::Image(self), OutputIdx(0))
    }
}

impl SingleOwnedOutput<'static> for Arc<ImageSource> {
    fn output(&self) -> (out: OperationOutput<'static>)
        ensures
            out@ == (EdgeView { target: self.operation(), index: 0 }),
    {
        OperationOutput::owned(OperationArc::Image(share(self)), OutputIdx(0))
    }
}

impl OperationBuilder<'static> for ImageSource {
    fn custom_name(self, name: &str) -> (source: ImageSource)
        ensures
            source@ == (ImageSourceView { custom_name: Some(name@), ..self@ }),
    {
        let mut source = self;
        source.custom_name = Some(String::from_str(name));
        source
    }

    fn ignore_cache(self, ignore: bool) -> (source: ImageSource)
        ensures
            source@ == (ImageSourceView { ignore_cache: ignore, ..self@ }),
    {
        let mut source = self;
        source.ignore_cache = ignore;
        source
    }
}

} // verus!
