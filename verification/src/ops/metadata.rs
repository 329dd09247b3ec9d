//! What every operation carries besides its body: a display name, the cache
//! switch and the capabilities it declares.

use vstd::prelude::*;
use vstd::string::StringExecFns;

use crate::pb::{OpMetadata, OpMetadataView};

verus! {

/// The description of an operation: its display name under the key
/// `llb.customname`, or nothing.
pub open spec fn description_of(name: Option<Seq<char>>) -> Seq<(Seq<char>, Seq<char>)> {
    match name {
        Some(name) => seq![("llb.customname"@, name)],
        None => Seq::empty(),
    }
}

/// The capabilities that an operation declares.
#[derive(Debug, Clone, Copy, PartialEq, Eq)]
pub struct Capabilities {
    pub exec_mount_bind: bool,
    pub exec_mount_cache: bool,
    pub exec_mount_cache_sharing: bool,
    pub exec_mount_selector: bool,
    pub exec_mount_ssh: bool,
    pub file_base: bool,
}

/// The entry of one capability, present when the capability is declared.
pub open spec fn flag_of(declared: bool, name: Seq<char>) -> Seq<(Seq<char>, bool)> {
    if declared {
        seq![(name, true)]
    } else {
        Seq::empty()
    }
}

impl Capabilities {
    /// The declared capabilities as map entries, ordered by name.
    pub open spec fn entries(&self) -> Seq<(Seq<char>, bool)> {
        flag_of(self.exec_mount_bind, "exec.mount.bind"@) + flag_of(
            self.exec_mount_cache,
            "exec.mount.cache"@,
        ) + flag_of(self.exec_mount_cache_sharing, "exec.mount.cache.sharing"@) + flag_of(
            self.exec_mount_selector,
            "exec.mount.selector"@,
        ) + flag_of(self.exec_mount_ssh, "exec.mount.ssh"@) + flag_of(
            self.file_base,
            "file.base"@,
        )
    }

    /// No capability.
    pub open spec fn spec_none() -> Capabilities {
        Capabilities {
            exec_mount_bind: false,
            exec_mount_cache: false,
            exec_mount_cache_sharing: false,
            exec_mount_selector: false,
            exec_mount_ssh: false,
            file_base: false,
        }
    }

    /// No capability.
    pub fn none() -> (caps: Capabilities)
        ensures
            caps == Capabilities::spec_none(),
    {
        Capabilities {
            exec_mount_bind: false,
            exec_mount_cache: false,
            exec_mount_cache_sharing: false,
            exec_mount_selector: false,
            exec_mount_ssh: false,
            file_base: false,
        }
    }

    /// The declared capabilities as map entries, ordered by name.
    pub fn to_entries(&self) -> (out: Vec<(String, bool)>)
        ensures
            crate::wire::text_flags(out@) == self.entries(),
    {
        let mut out: Vec<(String, bool)> = Vec::new();
        let ghost mut done: Seq<(Seq<char>, bool)> = Seq::empty();
        assert(crate::wire::text_flags(out@) =~= done);
        if self.exec_mount_bind {
            out.push((String::from_str("exec.mount.bind"), true));
        }
        proof {
            done = done + flag_of(self.exec_mount_bind, "exec.mount.bind"@);
            assert(crate::wire::text_flags(out@) =~= done);
        }
        if self.exec_mount_cache {
            out.push((String::from_str("exec.mount.cache"), true));
        }
        proof {
            done = done + flag_of(self.exec_mount_cache, "exec.mount.cache"@);
            assert(crate::wire::text_flags(out@) =~= done);
        }
        if self.exec_mount_cache_sharing {
            out.push((String::from_str("exec.mount.cache.sharing"), true));
        }
        proof {
            done = done + flag_of(self.exec_mount_cache_sharing, "exec.mount.cache.sharing"@);
            assert(crate::wire::text_flags(out@) =~= done);
        }
        if self.exec_mount_selector {
            out.push((String::from_str("exec.mount.selector"), true));
        }
        proof {
            done = done + flag_of(self.exec_mount_selector, "exec.mount.selector"@);
            assert(crate::wire::text_flags(out@) =~= done);
        }
        if self.exec_mount_ssh {
            out.push((String::from_str("exec.mount.ssh"), true));
        }
        proof {
            done = done + flag_of(self.exec_mount_ssh, "exec.mount.ssh"@);
            assert(crate::wire::text_flags(out@) =~= done);
        }
        if self.file_base {
            out.push((String::from_str("file.base"), true));
        }
        proof {
            done = done + flag_of(self.file_base, "file.base"@);
            assert(crate::wire::text_flags(out@) =~= done);
            assert(done =~= self.entries());
        }
        out
    }
}

/// The metadata of an operation with the given display name, cache switch and
/// capabilities.
pub open spec fn metadata_of(
    name: Option<Seq<char>>,
    ignore_cache: bool,
    caps: Capabilities,
) -> OpMetadataView {
    OpMetadataView {
        ignore_cache: ignore_cache,
        description: description_of(name),
        caps: caps.entries(),
    }
}

/// The character view of an optional string.
pub open spec fn text_opt(text: Option<String>) -> Option<Seq<char>> {
    match text {
        Some(text) => Some(text@),
        None => None,
    }
}

/// Builds the metadata of an operation.
pub fn build_metadata(name: &Option<String>, ignore_cache: bool, caps: &Capabilities) -> (out:
    OpMetadata)
    ensures
        out@ == metadata_of(text_opt(*name), ignore_cache, *caps),
{
    let mut description: Vec<(String, String)> = Vec::new();
    if let Some(name) = name {
        description.push((String::from_str("llb.customname"), name.clone()));
    }
    let caps = caps.to_entries();
    let out = OpMetadata { ignore_cache, description, caps };
    assert(out@.description =~= description_of(text_opt(*name)));
    out
}

} // verus!
