use buildkit_llb::ops::exec::Mount;
use buildkit_llb::ops::{
    Command, MultiBorrowedOutput, MultiOwnedOutput, OperationBuilder, SingleBorrowedOutput,
    SingleOwnedOutput, Source,
};
use buildkit_llb::pb;
use buildkit_llb::serialization::{Context, Node, OperationIds};
use buildkit_llb::utils::OutputIdx;
use buildkit_llb::wire::Message;

const LOCAL: &str = "sha256:a60212791641cbeaa3a49de4f7dff9e40ae50ec19d1be9607232037c1db16702";
const RUST: &str = "sha256:dee2a3d7dd482dd8098ba543ff1dcb01efd29fcd16fdb0979ef556f38564543a";
const ALPINE: &str = "sha256:0e6b31ceed3e6dc542018f35a53a0e857e6a188453d32a2a5bbe7aa2971c1220";

fn to_vec(items: Vec<&str>) -> Vec<String> {
    items.into_iter().map(String::from).collect()
}

fn exec_op(inputs: Vec<(&str, i64)>, mounts: Vec<pb::Mount>, meta: pb::Meta) -> Vec<u8> {
    let op = pb::Op {
        inputs: inputs
            .into_iter()
            .map(|(digest, index)| pb::Input {
                digest: digest.to_string(),
                index,
            })
            .collect(),
        op: Some(pb::OpBody::Exec(pb::ExecOp {
            meta: Some(meta),
            mounts,
            network: pb::NetMode::Unset,
            security: pb::SecurityMode::Sandbox,
        })),
    };
    let mut bytes = Vec::new();
    op.encode(&mut bytes);
    bytes
}

fn meta(args: Vec<&str>, env: Vec<&str>, cwd: &str, user: &str) -> pb::Meta {
    pb::Meta {
        args: to_vec(args),
        env: to_vec(env),
        cwd: cwd.to_string(),
        user: user.to_string(),
    }
}

fn bind(input: i64, selector: &str, dest: &str, output: i64, readonly: bool) -> pb::Mount {
    pb::Mount {
        input,
        selector: selector.to_string(),
        dest: dest.to_string(),
        output,
        readonly,
        mount_type: pb::MountType::Bind,
        cache_opt: None,
        ssh_opt: None,
    }
}

fn caps(node: &Node) -> Vec<String> {
    let mut caps: Vec<String> = node.metadata.caps.iter().map(|pair| pair.0.clone()).collect();
    caps.sort();
    caps
}

fn cached_tail(cx: &Context) -> Vec<String> {
    cx.registered_nodes_iter()
        .iter()
        .map(|node| node.digest.clone())
        .collect()
}

#[test]
fn mod_serialization() {
    let mut ids = OperationIds::new();
    let mut cx = Context::new();
    let node = Command::run(ids.allocate(), "/bin/sh")
        .args(&["-c", "echo 'test string' > /out/file0"])
        .env("HOME", "/root")
        .custom_name("exec custom name")
        .serialize(&mut cx)
        .unwrap();

    assert_eq!(
        node.digest,
        "sha256:dc9a5a3cd84bb1c7b633f1750fdfccd9d0a69d060f8e3babb297bc190e2d7484"
    );
    assert_eq!(
        node.metadata.description,
        vec![("llb.customname".to_string(), "exec custom name".to_string())]
    );
    assert_eq!(caps(&node), to_vec(vec![]));
    assert_eq!(cached_tail(&cx), to_vec(vec![]));
    assert_eq!(
        node.bytes,
        exec_op(
            vec![],
            vec![],
            meta(
                vec!["/bin/sh", "-c", "echo 'test string' > /out/file0"],
                vec!["HOME=/root"],
                "/",
                "root"
            )
        )
    );
}

#[test]
fn serialization_with_env_iter() {
    let mut ids = OperationIds::new();
    let mut cx = Context::new();
    let node = Command::run(ids.allocate(), "cargo")
        .args(&["build"])
        .env_iter(vec![
            ("HOME", "/root"),
            ("PATH", "/bin"),
            ("CARGO_HOME", "/root/.cargo"),
        ])
        .serialize(&mut cx)
        .unwrap();

    assert_eq!(
        node.digest,
        "sha256:7675be0b02acb379d57bafee5dc749fca7e795fb1e0a92748ccc59a7bc3b491e"
    );
    assert!(node.metadata.description.is_empty());
    assert_eq!(caps(&node), to_vec(vec![]));
    assert_eq!(cached_tail(&cx), to_vec(vec![]));
    assert_eq!(
        node.bytes,
        exec_op(
            vec![],
            vec![],
            meta(
                vec!["cargo", "build"],
                vec!["HOME=/root", "PATH=/bin", "CARGO_HOME=/root/.cargo"],
                "/",
                "root"
            )
        )
    );
}

#[test]
fn serialization_with_cwd() {
    let mut ids = OperationIds::new();
    let mut cx = Context::new();
    let node = Command::run(ids.allocate(), "cargo")
        .args(&["build"])
        .cwd("/rust-src")
        .serialize(&mut cx)
        .unwrap();

    assert_eq!(
        node.digest,
        "sha256:b8120a0e1d1f7fcaa3d6c95db292d064524dc92c6cae8b97672d4e1eafcd03fa"
    );
    assert!(node.metadata.description.is_empty());
    assert_eq!(caps(&node), to_vec(vec![]));
    assert_eq!(cached_tail(&cx), to_vec(vec![]));
    assert_eq!(
        node.bytes,
        exec_op(
            vec![],
            vec![],
            meta(vec!["cargo", "build"], vec![], "/rust-src", "root")
        )
    );
}

#[test]
fn serialization_with_user() {
    let mut ids = OperationIds::new();
    let mut cx = Context::new();
    let node = Command::run(ids.allocate(), "cargo")
        .args(&["build"])
        .user("builder")
        .serialize(&mut cx)
        .unwrap();

    assert_eq!(
        node.digest,
        "sha256:7631ea645e2126e9dbc5d9ae789e34301d9d5c80ce89bfa72bc9b82aa43b57c0"
    );
    assert!(node.metadata.description.is_empty());
    assert_eq!(caps(&node), to_vec(vec![]));
    assert_eq!(cached_tail(&cx), to_vec(vec![]));
    assert_eq!(
        node.bytes,
        exec_op(
            vec![],
            vec![],
            meta(vec!["cargo", "build"], vec![], "/", "builder")
        )
    );
}

#[test]
fn serialization_with_mounts() {
    let mut ids = OperationIds::new();
    let context = Source::local(ids.allocate(), "context");
    let builder_image = Source::image(ids.allocate(), "rustlang/rust:nightly");
    let final_image = Source::image(ids.allocate(), "library/alpine:latest");

    let command = Command::run(ids.allocate(), "cargo")
        .args(&["build"])
        .mount(Mount::ReadOnlyLayer(builder_image.output(), "/"))
        .mount(Mount::Scratch(OutputIdx(1), "/tmp"))
        .mount(Mount::ReadOnlySelector(
            context.output(),
            "/buildkit-frontend",
            "/frontend-sources",
        ))
        .mount(Mount::Layer(OutputIdx(0), final_image.output(), "/output"))
        .mount(Mount::SharedCache("/root/.cargo"));

    let mut cx = Context::new();
    let node = command.serialize(&mut cx).unwrap();

    assert_eq!(
        node.digest,
        "sha256:54a66b514361b13b17f8b5aaaa2392a4c07b55ac53303e4f50584f3dfef6add0"
    );
    assert!(node.metadata.description.is_empty());
    assert_eq!(
        caps(&node),
        to_vec(vec![
            "exec.mount.bind",
            "exec.mount.cache",
            "exec.mount.cache.sharing",
            "exec.mount.selector",
        ])
    );
    // The registered vertices come in the order of their first registration:
    // that of the mounts, root mount first.
    assert_eq!(cached_tail(&cx), to_vec(vec![RUST, LOCAL, ALPINE]));
    assert_eq!(
        node.bytes,
        exec_op(
            vec![(RUST, 0), (LOCAL, 0), (ALPINE, 0)],
            vec![
                bind(0, "", "/", -1, true),
                bind(-1, "", "/tmp", 1, false),
                bind(1, "/frontend-sources", "/buildkit-frontend", -1, true),
                bind(2, "", "/output", 0, false),
                pb::Mount {
                    input: -1,
                    selector: "".into(),
                    dest: "/root/.cargo".into(),
                    output: -1,
                    readonly: false,
                    mount_type: pb::MountType::Cache,
                    cache_opt: Some(pb::CacheOpt {
                        id: "/root/.cargo".into(),
                        sharing: pb::CacheSharingOpt::Shared,
                    }),
                    ssh_opt: None,
                },
            ],
            meta(vec!["cargo", "build"], vec![], "/", "root")
        )
    );
}

#[test]
fn serialization_with_several_root_mounts() {
    let mut ids = OperationIds::new();
    let builder_image = Source::image(ids.allocate(), "rustlang/rust:nightly");
    let final_image = Source::image(ids.allocate(), "library/alpine:latest");

    let command = Command::run(ids.allocate(), "cargo")
        .args(&["build"])
        .mount(Mount::Scratch(OutputIdx(0), "/tmp"))
        .mount(Mount::ReadOnlyLayer(builder_image.output(), "/"))
        .mount(Mount::Scratch(OutputIdx(1), "/var"))
        .mount(Mount::ReadOnlyLayer(final_image.output(), "/"));

    let mut cx = Context::new();
    let node = command.serialize(&mut cx).unwrap();

    assert_eq!(
        node.digest,
        "sha256:baa1bf591d2c47058b7361a0284fa8a3f1bd0fac8a93c87affa77ddc0a5026fd"
    );
    assert!(node.metadata.description.is_empty());
    assert_eq!(caps(&node), to_vec(vec!["exec.mount.bind"]));
    assert_eq!(cached_tail(&cx), to_vec(vec![ALPINE]));
    assert_eq!(
        node.bytes,
        exec_op(
            vec![(ALPINE, 0)],
            vec![
                bind(0, "", "/", -1, true),
                bind(-1, "", "/tmp", 0, false),
                bind(-1, "", "/var", 1, false),
            ],
            meta(vec!["cargo", "build"], vec![], "/", "root")
        )
    );
}

#[test]
fn serialization_with_ssh_mounts() {
    let mut ids = OperationIds::new();
    let builder_image = Source::image(ids.allocate(), "rustlang/rust:nightly");
    let command = Command::run(ids.allocate(), "cargo")
        .args(&["build"])
        .mount(Mount::ReadOnlyLayer(builder_image.output(), "/"))
        .mount(Mount::OptionalSshAgent("/run/buildkit/ssh_agent.0"));

    let mut cx = Context::new();
    let node = command.serialize(&mut cx).unwrap();

    assert_eq!(
        node.digest,
        "sha256:1ac1438c67a153878f21fe8067383fd7544901261374eb53ba8bf26e9a5821a5"
    );
    assert!(node.metadata.description.is_empty());
    assert_eq!(caps(&node), to_vec(vec!["exec.mount.bind", "exec.mount.ssh"]));
    assert_eq!(cached_tail(&cx), to_vec(vec![RUST]));
    assert_eq!(
        node.bytes,
        exec_op(
            vec![(RUST, 0)],
            vec![
                bind(0, "", "/", -1, true),
                pb::Mount {
                    input: -1,
                    selector: "".into(),
                    dest: "/run/buildkit/ssh_agent.0".into(),
                    output: -1,
                    readonly: false,
                    mount_type: pb::MountType::Ssh,
                    cache_opt: None,
                    ssh_opt: Some(pb::SshOpt {
                        id: "".into(),
                        uid: 0,
                        gid: 0,
                        mode: 0o600,
                        optional: true,
                    }),
                },
            ],
            meta(vec!["cargo", "build"], vec![], "/", "root")
        )
    );
}

#[test]
fn root_mount_rules() {
    let mut ids = OperationIds::new();
    let image = Source::image(ids.allocate(), "rust");
    assert!(Mount::ReadOnlyLayer(image.output(), "/").is_root());
    assert!(Mount::Scratch(OutputIdx(0), "/").is_root());
    assert!(Mount::SharedCache("/").is_root());
    assert!(!Mount::OptionalSshAgent("/").is_root());
    assert!(!Mount::Scratch(OutputIdx(0), "/tmp").is_root());
    assert!(!Mount::Scratch(OutputIdx(0), "").is_root());
    assert!(Mount::Scratch(OutputIdx(0), String::from("/")).into_owned().is_root());
}

#[test]
fn owned_and_borrowed_outputs_serialize_alike() {
    let mut ids = OperationIds::new();
    let image = Source::image(ids.allocate(), "rustlang/rust:nightly");
    let borrowed = Command::run(ids.allocate(), "cargo")
        .mount(Mount::ReadOnlyLayer(image.output(), "/"))
        .mount(Mount::Scratch(OutputIdx(0), "/out"));
    let mut cx = Context::new();
    let first = borrowed.serialize(&mut cx).unwrap();

    let shared = Source::image(ids.allocate(), "rustlang/rust:nightly").ref_counted();
    let owned = Command::run(ids.allocate(), "cargo")
        .mount(Mount::ReadOnlyLayer(shared.output(), "/"))
        .mount(Mount::Scratch(OutputIdx(0), "/out"))
        .ref_counted();
    let mut cx = Context::new();
    let second = owned.serialize(&mut cx).unwrap();

    assert_eq!(first.bytes, second.bytes);
    assert_eq!(first.digest, second.digest);

    let consumer = Command::run(ids.allocate(), "ls")
        .mount(Mount::ReadOnlyLayer(owned.output(0), "/"))
        .mount(Mount::ReadOnlyLayer(borrowed.output(0), "/other"));
    let mut cx = Context::new();
    let node = consumer.serialize(&mut cx).unwrap();
    // Two identities with equal contents: two vertices, one digest.
    assert_eq!(cx.registered_nodes_iter().len(), 4);
    assert_eq!(
        node.bytes,
        exec_op(
            vec![(&first.digest, 0), (&first.digest, 0)],
            vec![
                bind(0, "", "/", -1, true),
                bind(1, "", "/other", -1, true),
            ],
            meta(vec!["ls"], vec![], "/", "root")
        )
    );
}
