//! The execution of a command in a root filesystem made of mounts.

use std::sync::Arc;
use vstd::prelude::*;
use vstd::string::StringExecFns;

use crate::ops::exec::context::{copy_texts, Context, ProcessView};
use crate::ops::exec::mount::{edges, records, AsPath, Mount, MountView};
use crate::ops::metadata::{build_metadata, metadata_of, text_opt, Capabilities};
use crate::ops::{MultiBorrowedOutput, MultiOwnedOutput, OperationBuilder};
use crate::pb;
use crate::pb::exec::mount_views;
use crate::pb::op::input_views;
use crate::serialization::context::Context as SerializationCtx;
use crate::serialization::model::{
    lemma_register_inputs_fails, register_inputs, serialized, OperationView,
};
use crate::serialization::{EdgeView, Node, OperationId};
use crate::utils::{share, OperationArc, OperationOutput, OperationRef, OutputIdx};
use crate::wire::lemma_texts_push;

verus! {

/// A command to run. This is what a `RUN` line of a Dockerfile becomes.
#[derive(Debug)]
pub struct Command<'a> {
    id: OperationId,
    context: Context,
    root_mount: Option<Mount<'a, String>>,
    other_mounts: Vec<Mount<'a, String>>,
    custom_name: Option<String>,
    caps: Capabilities,
    ignore_cache: bool,
}

/// What a [`Command`] holds.
pub ghost struct CommandView {
    pub id: u64,
    pub process: ProcessView,
    pub root_mount: Option<MountView>,
    pub other_mounts: Seq<MountView>,
    pub custom_name: Option<Seq<char>>,
    pub caps: Capabilities,
    pub ignore_cache: bool,
}

impl CommandView {
    /// The mounts in the order they are written: the root mount first, then
    /// the others as they were declared.
    pub open spec fn mounts(&self) -> Seq<MountView> {
        match self.root_mount {
            Some(root) => seq![root] + self.other_mounts,
            None => self.other_mounts,
        }
    }

    /// The command with one more mount: the mount's capabilities are declared,
    /// a root mount takes the place of the root mount, any other mount comes
    /// after the others.
    pub open spec fn mount(&self, mount: MountView) -> CommandView {
        if mount.is_root() {
            CommandView { caps: mount.declare(self.caps), root_mount: Some(mount), ..*self }
        } else {
            CommandView {
                caps: mount.declare(self.caps),
                other_mounts: self.other_mounts.push(mount),
                ..*self
            }
        }
    }

    /// The command as a vertex of the graph. Its inputs are the outputs that
    /// its mounts consume, in the order of the mounts; it runs with the network
    /// mode unset, in the sandbox. It has an encoding when the positions of its
    /// inputs fit the wire.
    pub open spec fn operation(&self) -> OperationView {
        OperationView {
            id: self.id,
            inputs: edges(self.mounts()),
            body: Some(
                pb::OpBodyView::Exec(
                    pb::ExecOpView {
                        meta: Some(self.process.meta()),
                        mounts: records(self.mounts()),
                        network: pb::NetMode::Unset,
                        security: pb::SecurityMode::Sandbox,
                    },
                ),
            ),
            metadata: metadata_of(self.custom_name, self.ignore_cache, self.caps),
            encodable: edges(self.mounts()).len() <= i64::MAX,
        }
    }
}

impl<'a> View for Command<'a> {
    type V = CommandView;

    closed spec fn view(&self) -> CommandView
        decreases self, 0nat,
    {
        CommandView {
            id: self.id@,
            process: self.context@,
            root_mount: match self.root_mount {
                Some(root) => Some(root@),
                None => None,
            },
            other_mounts: Seq::new(
                self.other_mounts@.len(),
                |i: int|
                    if 0 <= i < self.other_mounts@.len() {
                        self.other_mounts@[i]@
                    } else {
                        arbitrary()
                    },
            ),
            custom_name: text_opt(self.custom_name),
            caps: self.caps,
            ignore_cache: self.ignore_cache,
        }
    }
}

/// The outputs consumed by the first mounts of a list are the first outputs
/// consumed by the list.
pub proof fn lemma_edges_prefix(mounts: Seq<MountView>, count: int)
    requires
        0 <= count <= mounts.len(),
    ensures
        edges(mounts.take(count)).len() <= edges(mounts).len(),
        edges(mounts.take(count)) == edges(mounts).take(edges(mounts.take(count)).len() as int),
    decreases mounts.len() - count,
{
    if count == mounts.len() {
        assert(mounts.take(count) =~= mounts);
        assert(edges(mounts).take(edges(mounts).len() as int) =~= edges(mounts));
    } else {
        lemma_edges_prefix(mounts, count + 1);
        assert(mounts.take(count + 1).drop_last() =~= mounts.take(count));
        let longer = edges(mounts.take(count + 1));
        let shorter = edges(mounts.take(count));
        assert(shorter =~= longer.take(shorter.len() as int));
        assert(shorter =~= edges(mounts).take(shorter.len() as int));
    }
}

impl<'a> Command<'a> {
    /// The command as a vertex of the graph.
    pub open spec fn operation(&self) -> OperationView
        decreases self, 1nat,
    {
        self@.operation()
    }

    /// A command that runs the program `name`: no arguments, no environment,
    /// working directory `/`, user `root`, no mounts.
    pub fn run(id: OperationId, name: &str) -> (command: Command<'a>)
        ensures
            command@ == (CommandView {
                id: id@,
                process: ProcessView {
                    name: name@,
                    args: Seq::empty(),
                    env: Seq::empty(),
                    cwd: "/"@,
                    user: "root"@,
                },
                root_mount: None,
                other_mounts: Seq::empty(),
                custom_name: None,
                caps: Capabilities::spec_none(),
                ignore_cache: false,
            }),
    {
        let command = Command {
            id,
            context: Context::new(name),
            root_mount: None,
            other_mounts: Vec::new(),
            custom_name: None,
            caps: Capabilities::none(),
            ignore_cache: false,
        };
        assert(command@.other_mounts =~= Seq::empty());
        command
    }

    /// Replaces the arguments.
    pub fn args(self, args: &[&str]) -> (command: Command<'a>)
        ensures
            command@ == (CommandView {
                process: ProcessView {
                    args: Seq::new(args@.len(), |i: int| args@[i]@),
                    ..self@.process
                },
                ..self@
            }),
    {
        let mut command = self;
        let mut owned: Vec<String> = Vec::new();
        let mut i: usize = 0;
        while i < args.len()
            invariant
                i <= args@.len(),
                owned@.len() == i,
                forall|j: int| 0 <= j < i ==> (#[trigger] owned@[j])@ == args@[j]@,
            decreases args@.len() - i,
        {
            owned.push(String::from_str(args[i]));
            i = i + 1;
        }
        command.context.args = owned;
        assert(command@.process.args =~= Seq::new(args@.len(), |i: int| args@[i]@));
        assert(command@.other_mounts =~= self@.other_mounts);
        command
    }

    /// Adds `NAME=VALUE` to the environment.
    pub fn env(self, name: &str, value: &str) -> (command: Command<'a>)
        ensures
            command@ == (CommandView {
                process: ProcessView {
                    env: self@.process.env.push(name@ + "="@ + value@),
                    ..self@.process
                },
                ..self@
            }),
    {
        let mut command = self;
        let mut entry = String::from_str(name);
        entry.append("=");
        entry.append(value);
        let ghost listed = command.context.env@;
        command.context.env.push(entry);
        proof {
            lemma_texts_push(listed, entry);
        }
        assert(command@.process.env =~= self@.process.env.push(name@ + "="@ + value@));
        assert(command@.other_mounts =~= self@.other_mounts);
        command
    }

    /// Adds every pair as `NAME=VALUE` to the environment, in order.
    pub fn env_iter(self, iter: Vec<(&str, &str)>) -> (command: Command<'a>)
        ensures
            command@ == (CommandView {
                process: ProcessView {
                    env: self@.process.env + Seq::new(
                        iter@.len(),
                        |i: int| iter@[i].0@ + "="@ + iter@[i].1@,
                    ),
                    ..self@.process
                },
                ..self@
            }),
    {
        let mut command = self;
        let mut i: usize = 0;
        while i < iter.len()
            invariant
                i <= iter@.len(),
                command@ == (CommandView {
                    process: ProcessView {
                        env: self@.process.env + Seq::new(
                            i as nat,
                            |k: int| iter@[k].0@ + "="@ + iter@[k].1@,
                        ),
                        ..self@.process
                    },
                    ..self@
                }),
            decreases iter@.len() - i,
        {
            let ghost before = command@;
            let ghost listed = command.context.env@;
            let mut entry = String::from_str(iter[i].0);
            entry.append("=");
            entry.append(iter[i].1);
            command.context.env.push(entry);
            proof {
                lemma_texts_push(listed, entry);
                assert(command@.process.env == before.process.env.push(entry@));
                assert(command@.other_mounts =~= before.other_mounts);
                assert(command@.process.env =~= self@.process.env + Seq::new(
                    (i + 1) as nat,
                    |k: int| iter@[k].0@ + "="@ + iter@[k].1@,
                ));
            }
            i = i + 1;
        }
        assert(command@.process.env == self@.process.env + Seq::new(
            iter@.len(),
            |i: int| iter@[i].0@ + "="@ + iter@[i].1@,
        ));
        command
    }

    /// Sets the working directory.
    pub fn cwd(self, path: &str) -> (command: Command<'a>)
        ensures
            command@ == (CommandView {
                process: ProcessView { cwd: path@, ..self@.process },
                ..self@
            }),
    {
        let mut command = self;
        command.context.cwd = String::from_str(path);
        assert(command@.other_mounts =~= self@.other_mounts);
        command
    }

    /// Sets the user.
    pub fn user(self, user: &str) -> (command: Command<'a>)
        ensures
            command@ == (CommandView {
                process: ProcessView { user: user@, ..self@.process },
                ..self@
            }),
    {
        let mut command = self;
        command.context.user = String::from_str(user);
        assert(command@.other_mounts =~= self@.other_mounts);
        command
    }

    /// Adds a mount and declares its capabilities. A mount of `/` takes the
    /// place of the root mount declared before; the others keep their order.
    pub fn mount<P: AsPath>(self, mount: Mount<'a, P>) -> (command: Command<'a>)
        ensures
            command@ == self@.mount(mount@),
    {
        let mut command = self;
        match &mount {
            Mount::Layer(..) | Mount::ReadOnlyLayer(..) | Mount::Scratch(..) => {
                command.caps.exec_mount_bind = true;
            },
            Mount::ReadOnlySelector(..) => {
                command.caps.exec_mount_bind = true;
                command.caps.exec_mount_selector = true;
            },
            Mount::SharedCache(..) => {
                command.caps.exec_mount_cache = true;
                command.caps.exec_mount_cache_sharing = true;
            },
            Mount::OptionalSshAgent(..) => {
                command.caps.exec_mount_ssh = true;
            },
        }
        if mount.is_root() {
            command.root_mount = Some(mount.into_owned());
            assert(command@.other_mounts =~= self@.other_mounts);
        } else {
            command.other_mounts.push(mount.into_owned());
            assert(command@.other_mounts =~= self@.other_mounts.push(mount@));
        }
        command
    }

    /// A command like this one under another identity: a vertex of its
    /// own, with the same contents.
    pub fn clone_as(&self, id: OperationId) -> (command: Command<'a>)
        ensures
            command@ == (CommandView { id: id@, ..self@ }),
    {
        let mut others: Vec<Mount<'a, String>> = Vec::new();
        let mut i: usize = 0;
        while i < self.other_mounts.len()
            invariant
                i <= self.other_mounts@.len(),
                others@.len() == i,
                forall|k: int| 0 <= k < i ==> (#[trigger] others@[k])@ == self.other_mounts@[k]@,
            decreases self.other_mounts@.len() - i,
        {
            others.push(self.other_mounts[i].duplicate());
            i = i + 1;
        }
        let command = Command {
            id,
            context: Context {
                name: self.context.name.clone(),
                args: copy_texts(&self.context.args),
                env: copy_texts(&self.context.env),
                cwd: self.context.cwd.clone(),
                user: self.context.user.clone(),
            },
            root_mount: match &self.root_mount {
                Some(root) => Some(root.duplicate()),
                None => None,
            },
            other_mounts: others,
            custom_name: self.custom_name.clone(),
            caps: self.caps,
            ignore_cache: self.ignore_cache,
        };
        assert(command@.other_mounts =~= self@.other_mounts);
        command
    }

    /// The identity of the operation.
    pub fn id(&self) -> (id: u64)
        ensures
            id == self@.id,
    {
        self.id.value()
    }

    /// The mounts in the order they are written.
    fn all_mounts(&self) -> (all: Vec<&Mount<'a, String>>)
        ensures
            all@.len() == self@.mounts().len(),
            forall|i: int| 0 <= i < all@.len() ==> (#[trigger] all@[i])@ == self@.mounts()[i],
    {
        let mut all: Vec<&Mount<'a, String>> = Vec::new();
        if let Some(root) = &self.root_mount {
            all.push(root);
        }
        let ghost lead = all@.len();
        let mut i: usize = 0;
        while i < self.other_mounts.len()
            invariant
                i <= self.other_mounts@.len(),
                lead == (if self@.root_mount is Some { 1nat } else { 0nat }),
                all@.len() == lead + i,
                forall|j: int| 0 <= j < all@.len() ==> (#[trigger] all@[j])@ == self@.mounts()[j],
            decreases self.other_mounts@.len() - i,
        {
            all.push(&self.other_mounts[i]);
            i = i + 1;
        }
        all
    }

    /// Serializes the command. Its mounts are written root mount first; each
    /// output that a mount consumes is registered, in the order of the mounts,
    /// and becomes the next input.
    pub fn serialize(&self, cx: &mut SerializationCtx) -> (result: Result<Node, ()>)
        ensures
            serialized(old(cx)@, self.operation(), final(cx)@, result),
        decreases self.operation(), 0nat,
    {
        let all = self.all_mounts();
        let ghost mounts = self@.mounts();
        let ghost op = self.operation();
        let mut inputs: Vec<pb::Input> = Vec::new();
        let mut written: Vec<pb::Mount> = Vec::new();
        let mut i: usize = 0;
        assert(mounts.take(0) =~= Seq::empty());
        assert(input_views(inputs@) =~= Seq::empty());
        assert(mount_views(written@) =~= Seq::empty());
        while i < all.len()
            invariant
                i <= all@.len(),
                all@.len() == mounts.len(),
                forall|j: int| 0 <= j < all@.len() ==> (#[trigger] all@[j])@ == mounts[j],
                mounts == self@.mounts(),
                op == self.operation(),
                inputs@.len() == edges(mounts.take(i as int)).len(),
                register_inputs(old(cx)@, op, inputs@.len() as nat) == Some(
                    (cx@, input_views(inputs@)),
                ),
                mount_views(written@) == records(mounts.take(i as int)),
            decreases all@.len() - i,
        {
            let mount = all[i];
            proof {
                lemma_edges_prefix(mounts, i as int);
                lemma_edges_prefix(mounts, i + 1);
                assert(mounts.take(i + 1).drop_last() =~= mounts.take(i as int));
            }
            let input: i64 = match mount.source() {
                Some(source) => {
                    let position = inputs.len();
                    proof {
                        assert(mounts.take(i + 1).last() == mounts[i as int]);
                        assert(mount@.source() == Some(source@));
                        assert(edges(mounts.take(i + 1)) == edges(mounts.take(i as int)).push(
                            source@,
                        ));
                        assert(edges(mounts.take(i + 1))[position as int] == source@);
                        assert(op.inputs == edges(mounts));
                    }
                    assert(op.inputs[position as int] == source@);
                    if position as u64 >= i64::MAX as u64 {
                        return Err(());
                    }
                    match source.register(cx) {
                        Ok(edge) => {
                            inputs.push(edge);
                            assert(input_views(inputs@) =~= input_views(
                                inputs@.drop_last(),
                            ).push(edge@));
                        },
                        Err(_) => {
                            proof {
                                lemma_register_inputs_fails(
                                    old(cx)@,
                                    op,
                                    (position + 1) as nat,
                                    op.inputs.len(),
                                );
                            }
                            return Err(());
                        },
                    }
                    position as i64
                },
                None => -1,
            };
            written.push(mount.record(input));
            assert(mount_views(written@) =~= mount_views(written@.drop_last()).push(
                mount@.record(input),
            ));
            i = i + 1;
        }
        assert(mounts.take(i as int) =~= mounts);
        if inputs.len() as u64 > i64::MAX as u64 {
            return Err(());
        }
        let head = pb::Op {
            inputs,
            op: Some(
                pb::OpBody::Exec(
                    pb::ExecOp {
                        meta: Some(self.context.to_meta()),
                        mounts: written,
                        network: pb::NetMode::Unset,
                        security: pb::SecurityMode::Sandbox,
                    },
                ),
            ),
        };
        let metadata = build_metadata(&self.custom_name, self.ignore_cache, &self.caps);
        Ok(Node::new(head, metadata))
    }
}

impl<'a> MultiBorrowedOutput<'a> for Command<'a> {
    fn output(&'a self, number: u32) -> (out: OperationOutput<'a>)
        ensures
            out@ == (EdgeView { target: self.operation(), index: number as i64 }),
    {
        OperationOutput::borrowed(OperationRef::Command(self), OutputIdx(number))
    }
}

impl<'a> MultiOwnedOutput<'a> for Arc<Command<'a>> {
    fn output(&self, number: u32) -> (out: OperationOutput<'a>)
        ensures
            out@ == (EdgeView { target: self.operation(), index: number as i64 }),
    {
        OperationOutput::owned(OperationArc::Command(share(self)), OutputIdx(number))
    }
}

impl<'a> OperationBuilder<'a> for Command<'a> {
    fn custom_name(self, name: &str) -> (command: Command<'a>)
        ensures
            command@ == (CommandView { custom_name: Some(name@), ..self@ }),
    {
        let mut command = self;
        command.custom_name = Some(String::from_str(name));
        assert(command@.other_mounts =~= self@.other_mounts);
        command
    }

    fn ignore_cache(self, ignore: bool) -> (command: Command<'a>)
        ensures
            command@ == (CommandView { ignore_cache: ignore, ..self@ }),
    {
        let mut command = self;
        command.ignore_cache = ignore;
        assert(command@.other_mounts =~= self@.other_mounts);
        command
    }
}

} // verus!
