//! Records of a command execution: the process description and its mounts.

use vstd::prelude::*;

use crate::wire::{
    bool_field, int64_field, len_field, len_items, lemma_appended, put_bool, put_int64, put_message,
    put_messages, put_string, put_string_items, put_uint32, string_field, string_items, texts,
    uint32_field, wires, Message,
};

verus! {

/// Network access of an executed command.
#[derive(Debug, Clone, Copy, PartialEq, Eq)]
pub enum NetMode {
    Unset,
    Host,
    NoNetwork,
}

impl NetMode {
    /// The number that stands for the mode on the wire.
    pub open spec fn spec_number(&self) -> i64 {
        match self {
            NetMode::Unset => 0,
            NetMode::Host => 1,
            NetMode::NoNetwork => 2,
        }
    }

    /// The number that stands for the mode on the wire.
    pub fn number(&self) -> (n: i64)
        ensures
            n == self.spec_number(),
    {
        match self {
            NetMode::Unset => 0,
            NetMode::Host => 1,
            NetMode::NoNetwork => 2,
        }
    }
}

/// Privilege level of an executed command.
#[derive(Debug, Clone, Copy, PartialEq, Eq)]
pub enum SecurityMode {
    Sandbox,
    Insecure,
}

impl SecurityMode {
    /// The number that stands for the mode on the wire.
    pub open spec fn spec_number(&self) -> i64 {
        match self {
            SecurityMode::Sandbox => 0,
            SecurityMode::Insecure => 1,
        }
    }

    /// The number that stands for the mode on the wire.
    pub fn number(&self) -> (n: i64)
        ensures
            n == self.spec_number(),
    {
        match self {
            SecurityMode::Sandbox => 0,
            SecurityMode::Insecure => 1,
        }
    }
}

/// Kind of a mount.
#[derive(Debug, Clone, Copy, PartialEq, Eq)]
pub enum MountType {
    Bind,
    Secret,
    Ssh,
    Cache,
    Tmpfs,
}

impl MountType {
    /// The number that stands for the kind on the wire.
    pub open spec fn spec_number(&self) -> i64 {
        match self {
            MountType::Bind => 0,
            MountType::Secret => 1,
            MountType::Ssh => 2,
            MountType::Cache => 3,
            MountType::Tmpfs => 4,
        }
    }

    /// The number that stands for the kind on the wire.
    pub fn number(&self) -> (n: i64)
        ensures
            n == self.spec_number(),
    {
        match self {
            MountType::Bind => 0,
            MountType::Secret => 1,
            MountType::Ssh => 2,
            MountType::Cache => 3,
            MountType::Tmpfs => 4,
        }
    }
}

/// How concurrent writers share a cache mount.
#[derive(Debug, Clone, Copy, PartialEq, Eq)]
pub enum CacheSharingOpt {
    Shared,
    Private,
    Locked,
}

impl CacheSharingOpt {
    /// The number that stands for the sharing mode on the wire.
    pub open spec fn spec_number(&self) -> i64 {
        match self {
            CacheSharingOpt::Shared => 0,
            CacheSharingOpt::Private => 1,
            CacheSharingOpt::Locked => 2,
        }
    }

    /// The number that stands for the sharing mode on the wire.
    pub fn number(&self) -> (n: i64)
        ensures
            n == self.spec_number(),
    {
        match self {
            CacheSharingOpt::Shared => 0,
            CacheSharingOpt::Private => 1,
            CacheSharingOpt::Locked => 2,
        }
    }
}

/// Options of a cache mount.
#[derive(Debug, Clone, PartialEq, Eq)]
pub struct CacheOpt {
    pub id: String,
    pub sharing: CacheSharingOpt,
}

/// What a [`CacheOpt`] holds.
pub ghost struct CacheOptView {
    pub id: Seq<char>,
    pub sharing: CacheSharingOpt,
}

impl CacheOptView {
    /// The encoded fields.
    pub open spec fn wire(&self) -> Seq<u8> {
        string_field(1, self.id) + int64_field(2, self.sharing.spec_number())
    }
}

impl View for CacheOpt {
    type V = CacheOptView;

    open spec fn view(&self) -> CacheOptView {
        CacheOptView { id: self.id@, sharing: self.sharing }
    }
}

impl Message for CacheOpt {
    open spec fn wire(&self) -> Seq<u8> {
        self@.wire()
    }

    fn encode(&self, buf: &mut Vec<u8>) {
        put_string(buf, 1, self.id.as_str());
        put_int64(buf, 2, self.sharing.number());
        assert(final(buf)@ =~= old(buf)@ + self@.wire());
    }
}

/// Options of an SSH agent mount.
#[derive(Debug, Clone, PartialEq, Eq)]
pub struct SshOpt {
    pub id: String,
    pub uid: u32,
    pub gid: u32,
    pub mode: u32,
    pub optional: bool,
}

/// What an [`SshOpt`] holds.
pub ghost struct SshOptView {
    pub id: Seq<char>,
    pub uid: u32,
    pub gid: u32,
    pub mode: u32,
    pub optional: bool,
}

impl SshOptView {
    /// The encoded fields.
    pub open spec fn wire(&self) -> Seq<u8> {
        string_field(1, self.id) + uint32_field(2, self.uid) + uint32_field(3, self.gid)
            + uint32_field(4, self.mode) + bool_field(5, self.optional)
    }
}

impl View for SshOpt {
    type V = SshOptView;

    open spec fn view(&self) -> SshOptView {
        SshOptView {
            id: self.id@,
            uid: self.uid,
            gid: self.gid,
            mode: self.mode,
            optional: self.optional,
        }
    }
}

impl Message for SshOpt {
    open spec fn wire(&self) -> Seq<u8> {
        self@.wire()
    }

    fn encode(&self, buf: &mut Vec<u8>) {
        put_string(buf, 1, self.id.as_str());
        put_uint32(buf, 2, self.uid);
        put_uint32(buf, 3, self.gid);
        put_uint32(buf, 4, self.mode);
        put_bool(buf, 5, self.optional);
        assert(final(buf)@ =~= old(buf)@ + self@.wire());
    }
}

/// One mount of an executed command.
#[derive(Debug, Clone, PartialEq, Eq)]
pub struct Mount {
    pub input: i64,
    pub selector: String,
    pub dest: String,
    pub output: i64,
    pub readonly: bool,
    pub mount_type: MountType,
    pub cache_opt: Option<CacheOpt>,
    pub ssh_opt: Option<SshOpt>,
}

/// What a [`Mount`] holds.
pub ghost struct MountView {
    pub input: i64,
    pub selector: Seq<char>,
    pub dest: Seq<char>,
    pub output: i64,
    pub readonly: bool,
    pub mount_type: MountType,
    pub cache_opt: Option<CacheOptView>,
    pub ssh_opt: Option<SshOptView>,
}

impl MountView {
    /// The encoded fields.
    pub open spec fn wire(&self) -> Seq<u8> {
        int64_field(1, self.input) + string_field(2, self.selector) + string_field(3, self.dest)
            + int64_field(4, self.output) + bool_field(5, self.readonly) + int64_field(
            6,
            self.mount_type.spec_number(),
        ) + (match self.cache_opt {
            Some(opt) => len_field(20, opt.wire()),
            None => Seq::empty(),
        }) + (match self.ssh_opt {
            Some(opt) => len_field(22, opt.wire()),
            None => Seq::empty(),
        })
    }
}

impl View for Mount {
    type V = MountView;

    open spec fn view(&self) -> MountView {
        MountView {
            input: self.input,
            selector: self.selector@,
            dest: self.dest@,
            output: self.output,
            readonly: self.readonly,
            mount_type: self.mount_type,
            cache_opt: match self.cache_opt {
                Some(opt) => Some(opt@),
                None => None,
            },
            ssh_opt: match self.ssh_opt {
                Some(opt) => Some(opt@),
                None => None,
            },
        }
    }
}

impl Message for Mount {
    open spec fn wire(&self) -> Seq<u8> {
        self@.wire()
    }

    fn encode(&self, buf: &mut Vec<u8>) {
        let ghost start = buf@;
        put_int64(buf, 1, self.input);
        let ghost done = int64_field(1, self.input);
        put_string(buf, 2, self.selector.as_str());
        proof {
            lemma_appended(start, done, string_field(2, self.selector@));
        }
        let ghost done = done + string_field(2, self.selector@);
        put_string(buf, 3, self.dest.as_str());
        proof {
            lemma_appended(start, done, string_field(3, self.dest@));
        }
        let ghost done = done + string_field(3, self.dest@);
        put_int64(buf, 4, self.output);
        proof {
            lemma_appended(start, done, int64_field(4, self.output));
        }
        let ghost done = done + int64_field(4, self.output);
        put_bool(buf, 5, self.readonly);
        proof {
            lemma_appended(start, done, bool_field(5, self.readonly));
        }
        let ghost done = done + bool_field(5, self.readonly);
        put_int64(buf, 6, self.mount_type.number());
        proof {
            lemma_appended(start, done, int64_field(6, self.mount_type.spec_number()));
        }
        let ghost done = done + int64_field(6, self.mount_type.spec_number());
        let ghost cache = match self@.cache_opt {
            Some(opt) => len_field(20, opt.wire()),
            None => Seq::empty(),
        };
        if let Some(opt) = &self.cache_opt {
            put_message(buf, 20, opt);
        }
        proof {
            assert(buf@ =~= start + done + cache);
            lemma_appended(start, done, cache);
        }
        let ghost done = done + cache;
        let ghost ssh = match self@.ssh_opt {
            Some(opt) => len_field(22, opt.wire()),
            None => Seq::empty(),
        };
        if let Some(opt) = &self.ssh_opt {
            put_message(buf, 22, opt);
        }
        proof {
            assert(buf@ =~= start + done + ssh);
            lemma_appended(start, done, ssh);
        }
    }
}

/// The views of a list of mounts.
pub open spec fn mount_views(mounts: Seq<Mount>) -> Seq<MountView> {
    mounts.map_values(|m: Mount| m@)
}

/// The encodings of a list of mounts.
pub open spec fn mount_wires(mounts: Seq<MountView>) -> Seq<Seq<u8>> {
    mounts.map_values(|m: MountView| m.wire())
}

/// The process that a command runs.
#[derive(Debug, Clone, PartialEq, Eq)]
pub struct Meta {
    pub args: Vec<String>,
    pub env: Vec<String>,
    pub cwd: String,
    pub user: String,
}

/// What a [`Meta`] holds.
pub ghost struct MetaView {
    pub args: Seq<Seq<char>>,
    pub env: Seq<Seq<char>>,
    pub cwd: Seq<char>,
    pub user: Seq<char>,
}

impl MetaView {
    /// The encoded fields.
    pub open spec fn wire(&self) -> Seq<u8> {
        string_items(1, self.args) + string_items(2, self.env) + string_field(3, self.cwd)
            + string_field(4, self.user)
    }
}

impl View for Meta {
    type V = MetaView;

    open spec fn view(&self) -> MetaView {
        MetaView {
            args: texts(self.args@),
            env: texts(self.env@),
            cwd: self.cwd@,
            user: self.user@,
        }
    }
}

impl Message for Meta {
    open spec fn wire(&self) -> Seq<u8> {
        self@.wire()
    }

    fn encode(&self, buf: &mut Vec<u8>) {
        put_string_items(buf, 1, &self.args);
        put_string_items(buf, 2, &self.env);
        put_string(buf, 3, self.cwd.as_str());
        put_string(buf, 4, self.user.as_str());
        assert(final(buf)@ =~= old(buf)@ + self@.wire());
    }
}

/// A command execution.
#[derive(Debug, Clone, PartialEq, Eq)]
pub struct ExecOp {
    pub meta: Option<Meta>,
    pub mounts: Vec<Mount>,
    pub network: NetMode,
    pub security: SecurityMode,
}

/// What an [`ExecOp`] holds.
pub ghost struct ExecOpView {
    pub meta: Option<MetaView>,
    pub mounts: Seq<MountView>,
    pub network: NetMode,
    pub security: SecurityMode,
}

impl ExecOpView {
    /// The encoded fields.
    pub open spec fn wire(&self) -> Seq<u8> {
        (match self.meta {
            Some(meta) => len_field(1, meta.wire()),
            None => Seq::empty(),
        }) + len_items(2, mount_wires(self.mounts)) + int64_field(3, self.network.spec_number())
            + int64_field(4, self.security.spec_number())
    }
}

impl View for ExecOp {
    type V = ExecOpView;

    open spec fn view(&self) -> ExecOpView {
        ExecOpView {
            meta: match self.meta {
                Some(meta) => Some(meta@),
                None => None,
            },
            mounts: mount_views(self.mounts@),
            network: self.network,
            security: self.security,
        }
    }
}

impl Message for ExecOp {
    open spec fn wire(&self) -> Seq<u8> {
        self@.wire()
    }

    fn encode(&self, buf: &mut Vec<u8>) {
        if let Some(meta) = &self.meta {
            put_message(buf, 1, meta);
        }
        put_messages(buf, 2, &self.mounts);
        put_int64(buf, 3, self.network.number());
        put_int64(buf, 4, self.security.number());
        assert(wires(self.mounts@) =~= mount_wires(mount_views(self.mounts@)));
        assert(final(buf)@ =~= old(buf)@ + self@.wire());
    }
}

} // verus!
