//! Sources: where the layers of a graph come from.

pub mod git;
pub mod http;
pub mod image;
pub mod local;

pub use self::git::{GitSource, GitSourceView};
pub use self::http::{HttpSource, HttpSourceView};
pub use self::image::{ImageSource, ImageSourceView, ResolveMode};
pub use self::local::{LocalSource, LocalSourceView};

use vstd::prelude::*;

use crate::serialization::OperationId;

verus! {

/// The sources of a graph. A `FROM` line of a Dockerfile becomes an image
/// source.
#[derive(Debug)]
pub struct Source;

impl Source {
    /// A container image.
    pub fn image(id: OperationId, name: &str) -> (source: ImageSource)
        ensures
            source@ == ImageSourceView::of_reference(id@, name@),
    {
        ImageSource::new(id, name)
    }

    /// A Git repository.
    pub fn git(id: OperationId, url: &str) -> (source: GitSource)
        ensures
            source@ == (GitSourceView {
                id: id@,
                remote: self::git::strip_scheme(url@),
                reference: None,
                custom_name: None,
                ignore_cache: false,
            }),
    {
        GitSource::new(id, url)
    }

    /// A directory of the client.
    pub fn local(id: OperationId, name: &str) -> (source: LocalSource)
        ensures
            source@ == (LocalSourceView {
                id: id@,
                name: name@,
                custom_name: None,
                ignore_cache: false,
                excluded: Seq::empty(),
                included: Seq::empty(),
            }),
    {
        LocalSource::new(id, name)
    }

    /// A file fetched over HTTP.
    pub fn http(id: OperationId, url: &str) -> (source: HttpSource)
        ensures
            source@ == (HttpSourceView {
                id: id@,
                url: url@,
                file_name: None,
                custom_name: None,
                ignore_cache: false,
            }),
    {
        HttpSource::new(id, url)
    }
}

} // verus!
