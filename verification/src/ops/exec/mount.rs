//! How the inputs and outputs of a command are mounted.

use vstd::prelude::*;
use vstd::string::StringExecFns;

use crate::ops::metadata::Capabilities;
use crate::pb;
use crate::serialization::EdgeView;
use crate::text::chars_of;
use crate::utils::{OperationOutput, OutputIdx};

verus! {

/// A path as it is handed to a builder: borrowed text or an owned string.
pub trait AsPath: View<V = Seq<char>> {
    /// The path as an owned string.
    fn to_path(&self) -> (path: String)
        ensures
            path@ == self@,
    ;
}

impl AsPath for String {
    fn to_path(&self) -> (path: String) {
        self.clone()
    }
}

impl<'b> AsPath for &'b str {
    fn to_path(&self) -> (path: String) {
        String::from_str(*self)
    }
}

/// One mount of a command. Every mount has a destination path.
#[derive(Debug)]
pub enum Mount<'a, P> {
    /// The output of another operation, read-only.
    ReadOnlyLayer(OperationOutput<'a>, P),
    /// A path inside the output of another operation, read-only: the
    /// destination first, then the selected path.
    ReadOnlySelector(OperationOutput<'a>, P, P),
    /// An empty layer that becomes an output.
    Scratch(OutputIdx, P),
    /// The output of another operation, writable, which becomes an output.
    Layer(OutputIdx, OperationOutput<'a>, P),
    /// A persistent cache shared between writers.
    SharedCache(P),
    /// The socket of an SSH agent, if one is offered.
    OptionalSshAgent(P),
}

/// What a [`Mount`] holds.
pub ghost enum MountView {
    ReadOnlyLayer(EdgeView, Seq<char>),
    ReadOnlySelector(EdgeView, Seq<char>, Seq<char>),
    Scratch(u32, Seq<char>),
    Layer(u32, EdgeView, Seq<char>),
    SharedCache(Seq<char>),
    OptionalSshAgent(Seq<char>),
}

impl MountView {
    /// The destination path.
    pub open spec fn dest(&self) -> Seq<char> {
        match self {
            MountView::ReadOnlyLayer(_, dest) => *dest,
            MountView::ReadOnlySelector(_, dest, _) => *dest,
            MountView::Scratch(_, dest) => *dest,
            MountView::Layer(_, _, dest) => *dest,
            MountView::SharedCache(dest) => *dest,
            MountView::OptionalSshAgent(dest) => *dest,
        }
    }

    /// Whether this is the mount of the root filesystem: its destination is
    /// `/`, and it is no SSH agent socket.
    pub open spec fn is_root(&self) -> bool {
        !(self is OptionalSshAgent) && self.dest() == "/"@
    }

    /// The output that the mount consumes, if it consumes one.
    pub open spec fn source(&self) -> Option<EdgeView> {
        match self {
            MountView::ReadOnlyLayer(source, _) => Some(*source),
            MountView::ReadOnlySelector(source, _, _) => Some(*source),
            MountView::Layer(_, source, _) => Some(*source),
            _ => None,
        }
    }

    /// The capabilities declared with the mount added to `caps`.
    pub open spec fn declare(&self, caps: Capabilities) -> Capabilities {
        match self {
            MountView::ReadOnlySelector(..) => Capabilities {
                exec_mount_bind: true,
                exec_mount_selector: true,
                ..caps
            },
            MountView::SharedCache(_) => Capabilities {
                exec_mount_cache: true,
                exec_mount_cache_sharing: true,
                ..caps
            },
            MountView::OptionalSshAgent(_) => Capabilities { exec_mount_ssh: true, ..caps },
            _ => Capabilities { exec_mount_bind: true, ..caps },
        }
    }

    /// The mount record. `input` is the position of the consumed output in
    /// the input list; a mount that consumes nothing has input `-1`, and one
    /// that produces nothing has output `-1`.
    pub open spec fn record(&self, input: i64) -> pb::MountView {
        match self {
            MountView::ReadOnlyLayer(_, dest) => pb::MountView {
                input: input,
                selector: Seq::empty(),
                dest: *dest,
                output: -1i64,
                readonly: true,
                mount_type: pb::MountType::Bind,
                cache_opt: None,
                ssh_opt: None,
            },
            MountView::ReadOnlySelector(_, dest, selector) => pb::MountView {
                input: input,
                selector: *selector,
                dest: *dest,
                output: -1i64,
                readonly: true,
                mount_type: pb::MountType::Bind,
                cache_opt: None,
                ssh_opt: None,
            },
            MountView::Layer(output, _, dest) => pb::MountView {
                input: input,
                selector: Seq::empty(),
                dest: *dest,
                output: *output as i64,
                readonly: false,
                mount_type: pb::MountType::Bind,
                cache_opt: None,
                ssh_opt: None,
            },
            MountView::Scratch(output, dest) => pb::MountView {
                input: -1i64,
                selector: Seq::empty(),
                dest: *dest,
                output: *output as i64,
                readonly: false,
                mount_type: pb::MountType::Bind,
                cache_opt: None,
                ssh_opt: None,
            },
            MountView::SharedCache(dest) => pb::MountView {
                input: -1i64,
                selector: Seq::empty(),
                dest: *dest,
                output: -1i64,
                readonly: false,
                mount_type: pb::MountType::Cache,
                cache_opt: Some(
                    pb::CacheOptView { id: *dest, sharing: pb::CacheSharingOpt::Shared },
                ),
                ssh_opt: None,
            },
            MountView::OptionalSshAgent(dest) => pb::MountView {
                input: -1i64,
                selector: Seq::empty(),
                dest: *dest,
                output: -1i64,
                readonly: false,
                mount_type: pb::MountType::Ssh,
                cache_opt: None,
                ssh_opt: Some(
                    pb::SshOptView { id: Seq::empty(), uid: 0, gid: 0, mode: 0o600, optional: true },
                ),
            },
        }
    }
}

/// The outputs that a list of mounts consumes, in the order of the mounts.
pub open spec fn edges(mounts: Seq<MountView>) -> Seq<EdgeView>
    decreases mounts.len(),
{
    if mounts.len() == 0 {
        Seq::empty()
    } else {
        match mounts.last().source() {
            Some(source) => edges(mounts.drop_last()).push(source),
            None => edges(mounts.drop_last()),
        }
    }
}

/// The records of a list of mounts. The input of a mount that consumes an
/// output is the number of outputs that the mounts before it consume.
pub open spec fn records(mounts: Seq<MountView>) -> Seq<pb::MountView>
    decreases mounts.len(),
{
    if mounts.len() == 0 {
        Seq::empty()
    } else {
        records(mounts.drop_last()).push(
            mounts.last().record(edges(mounts.drop_last()).len() as i64),
        )
    }
}

impl<'a, P: View<V = Seq<char>>> View for Mount<'a, P> {
    type V = MountView;

    open spec fn view(&self) -> MountView
        decreases self, 0nat,
    {
        match self {
            Mount::ReadOnlyLayer(source, dest) => MountView::ReadOnlyLayer(source@, dest@),
            Mount::ReadOnlySelector(source, dest, selector) => MountView::ReadOnlySelector(
                source@,
                dest@,
                selector@,
            ),
            Mount::Scratch(output, dest) => MountView::Scratch(output.0, dest@),
            Mount::Layer(output, source, dest) => MountView::Layer(output.0, source@, dest@),
            Mount::SharedCache(dest) => MountView::SharedCache(dest@),
            Mount::OptionalSshAgent(dest) => MountView::OptionalSshAgent(dest@),
        }
    }
}

impl<'a, P: AsPath> Mount<'a, P> {
    /// The same mount with owned paths.
    pub fn into_owned(self) -> (mount: Mount<'a, String>)
        ensures
            mount@ == self@,
    {
        match self {
            Mount::ReadOnlySelector(source, dest, selector) => Mount::ReadOnlySelector(
                source,
                dest.to_path(),
                selector.to_path(),
            ),
            Mount::ReadOnlyLayer(source, dest) => Mount::ReadOnlyLayer(source, dest.to_path()),
            Mount::Scratch(output, dest) => Mount::Scratch(output, dest.to_path()),
            Mount::Layer(output, source, dest) => Mount::Layer(output, source, dest.to_path()),
            Mount::SharedCache(dest) => Mount::SharedCache(dest.to_path()),
            Mount::OptionalSshAgent(dest) => Mount::OptionalSshAgent(dest.to_path()),
        }
    }

    /// Whether this is the mount of the root filesystem.
    pub fn is_root(&self) -> (root: bool)
        ensures
            root == self@.is_root(),
    {
        let dest = match self {
            Mount::ReadOnlySelector(_, dest, _) => dest.to_path(),
            Mount::ReadOnlyLayer(_, dest) => dest.to_path(),
            Mount::Scratch(_, dest) => dest.to_path(),
            Mount::Layer(_, _, dest) => dest.to_path(),
            Mount::SharedCache(dest) => dest.to_path(),
            Mount::OptionalSshAgent(_) => {
                return false;
            },
        };
        let chars = chars_of(dest.as_str());
        proof {
            reveal_strlit("/");
            if chars@.len() == 1 && chars@[0] == '/' {
                assert(chars@ =~= "/"@);
            }
        }
        chars.len() == 1 && chars[0] == '/'
    }
}

impl<'a> Mount<'a, String> {
    /// A mount like this one, of the same output.
    pub fn duplicate(&self) -> (mount: Mount<'a, String>)
        ensures
            mount@ == self@,
    {
        match self {
            Mount::ReadOnlyLayer(source, dest) => Mount::ReadOnlyLayer(
                source.duplicate(),
                dest.clone(),
            ),
            Mount::ReadOnlySelector(source, dest, selector) => Mount::ReadOnlySelector(
                source.duplicate(),
                dest.clone(),
                selector.clone(),
            ),
            Mount::Scratch(output, dest) => Mount::Scratch(*output, dest.clone()),
            Mount::Layer(output, source, dest) => Mount::Layer(
                *output,
                source.duplicate(),
                dest.clone(),
            ),
            Mount::SharedCache(dest) => Mount::SharedCache(dest.clone()),
            Mount::OptionalSshAgent(dest) => Mount::OptionalSshAgent(dest.clone()),
        }
    }

    /// The output that the mount consumes, if it consumes one.
    pub fn source(&self) -> (source: Option<&OperationOutput<'a>>)
        ensures
            match source {
                Some(source) => self@.source() == Some(source@),
                None => self@.source() is None,
            },
    {
        match self {
            Mount::ReadOnlyLayer(source, _) => Some(source),
            Mount::ReadOnlySelector(source, _, _) => Some(source),
            Mount::Layer(_, source, _) => Some(source),
            _ => None,
        }
    }

    /// The record of the mount, with `input` as the position of the output
    /// that it consumes.
    pub fn record(&self, input: i64) -> (record: pb::Mount)
        ensures
            record@ == self@.record(input),
    {
        match self {
            Mount::ReadOnlyLayer(_, dest) => pb::Mount {
                input,
                selector: String::new(),
                dest: dest.clone(),
                output: -1i64,
                readonly: true,
                mount_type: pb::MountType::Bind,
                cache_opt: None,
                ssh_opt: None,
            },
            Mount::ReadOnlySelector(_, dest, selector) => pb::Mount {
                input,
                selector: selector.clone(),
                dest: dest.clone(),
                output: -1i64,
                readonly: true,
                mount_type: pb::MountType::Bind,
                cache_opt: None,
                ssh_opt: None,
            },
            Mount::Layer(output, _, dest) => pb::Mount {
                input,
                selector: String::new(),
                dest: dest.clone(),
                output: output.to_i64(),
                readonly: false,
                mount_type: pb::MountType::Bind,
                cache_opt: None,
                ssh_opt: None,
            },
            Mount::Scratch(output, dest) => pb::Mount {
                input: -1i64,
                selector: String::new(),
                dest: dest.clone(),
                output: output.to_i64(),
                readonly: false,
                mount_type: pb::MountType::Bind,
                cache_opt: None,
                ssh_opt: None,
            },
            Mount::SharedCache(dest) => pb::Mount {
                input: -1i64,
                selector: String::new(),
                dest: dest.clone(),
                output: -1i64,
                readonly: false,
                mount_type: pb::MountType::Cache,
                cache_opt: Some(
                    pb::CacheOpt { id: dest.clone(), sharing: pb::CacheSharingOpt::Shared },
                ),
                ssh_opt: None,
            },
            Mount::OptionalSshAgent(dest) => pb::Mount {
                input: -1i64,
                selector: String::new(),
                dest: dest.clone(),
                output: -1i64,
                readonly: false,
                mount_type: pb::MountType::Ssh,
                cache_opt: None,
                ssh_opt: Some(
                    pb::SshOpt { id: String::new(), uid: 0, gid: 0, mode: 0o600, optional: true },
                ),
            },
        }
    }
}

} // verus!
