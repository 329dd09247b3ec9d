use buildkit_llb::ops::source::ResolveMode;
use buildkit_llb::ops::{OperationBuilder, Source};
use buildkit_llb::pb::{Op, OpBody, SourceOp};
use buildkit_llb::serialization::{Context, Node, OperationIds};
use buildkit_llb::wire::Message;

fn encoded(op: &Op) -> Vec<u8> {
    let mut bytes = Vec::new();
    op.encode(&mut bytes);
    bytes
}

fn source_op(identifier: &str, attrs: Vec<(&str, &str)>) -> Op {
    Op {
        inputs: vec![],
        op: Some(OpBody::Source(SourceOp {
            identifier: identifier.to_string(),
            attrs: attrs
                .into_iter()
                .map(|(k, v)| (k.to_string(), v.to_string()))
                .collect(),
        })),
    }
}

fn pairs(items: Vec<(&str, &str)>) -> Vec<(String, String)> {
    items
        .into_iter()
        .map(|(k, v)| (k.to_string(), v.to_string()))
        .collect()
}

fn check(
    node: &Node,
    cx: &Context,
    digest: &str,
    description: Vec<(&str, &str)>,
    identifier: &str,
    attrs: Vec<(&str, &str)>,
) {
    assert_eq!(node.digest, digest);
    assert_eq!(node.metadata.description, pairs(description));
    assert!(node.metadata.caps.is_empty());
    assert!(cx.registered_nodes_iter().is_empty());
    assert_eq!(node.bytes, encoded(&source_op(identifier, attrs)));
    assert_eq!(Node::get_digest(&node.bytes), digest);
}

#[test]
fn git_serialization() {
    let mut ids = OperationIds::new();
    let mut cx = Context::new();
    let node = Source::git(ids.allocate(), "any.url")
        .serialize(&mut cx)
        .unwrap();
    check(
        &node,
        &cx,
        "sha256:ecde982e19ace932e5474e57b0ca71ba690ed7d28abff2a033e8f969e22bf2d8",
        vec![],
        "git://any.url",
        vec![],
    );

    let mut cx = Context::new();
    let node = Source::git(ids.allocate(), "any.url")
        .custom_name("git custom name")
        .serialize(&mut cx)
        .unwrap();
    check(
        &node,
        &cx,
        "sha256:ecde982e19ace932e5474e57b0ca71ba690ed7d28abff2a033e8f969e22bf2d8",
        vec![("llb.customname", "git custom name")],
        "git://any.url",
        vec![],
    );
}

#[test]
fn prefixes() {
    let mut ids = OperationIds::new();
    for url in ["http://any.url", "https://any.url", "git://any.url", "git@any.url"] {
        let mut cx = Context::new();
        let node = Source::git(ids.allocate(), url).serialize(&mut cx).unwrap();
        check(
            &node,
            &cx,
            "sha256:ecde982e19ace932e5474e57b0ca71ba690ed7d28abff2a033e8f969e22bf2d8",
            vec![],
            "git://any.url",
            vec![],
        );
    }
}

#[test]
fn with_reference() {
    let mut ids = OperationIds::new();
    let mut cx = Context::new();
    let node = Source::git(ids.allocate(), "any.url")
        .with_reference("abcdef")
        .serialize(&mut cx)
        .unwrap();
    check(
        &node,
        &cx,
        "sha256:f59aa7f8db62e0b5c2a1da396752ba8a2bb0b5d28ddcfdd1d4f822d26ebfe3cf",
        vec![],
        "git://any.url#abcdef",
        vec![],
    );
}

#[test]
fn http_serialization() {
    let mut ids = OperationIds::new();
    let mut cx = Context::new();
    let node = Source::http(ids.allocate(), "http://any.url/with/path")
        .serialize(&mut cx)
        .unwrap();
    check(
        &node,
        &cx,
        "sha256:22ec64461f39dd3b54680fc240b459248b1ced597f113b5d692abe9695860d12",
        vec![],
        "http://any.url/with/path",
        vec![],
    );

    let mut cx = Context::new();
    let node = Source::http(ids.allocate(), "http://any.url/with/path")
        .custom_name("git custom name")
        .serialize(&mut cx)
        .unwrap();
    check(
        &node,
        &cx,
        "sha256:22ec64461f39dd3b54680fc240b459248b1ced597f113b5d692abe9695860d12",
        vec![("llb.customname", "git custom name")],
        "http://any.url/with/path",
        vec![],
    );

    let mut cx = Context::new();
    let node = Source::http(ids.allocate(), "http://any.url/with/path")
        .with_file_name("file.name")
        .serialize(&mut cx)
        .unwrap();
    check(
        &node,
        &cx,
        "sha256:e1fe6584287dfa2b065ed29fcf4f77bcf86fb54781832d2f45074fa1671df692",
        vec![],
        "http://any.url/with/path",
        vec![("http.filename", "file.name")],
    );
}

#[test]
fn local_serialization() {
    let mut ids = OperationIds::new();
    let mut cx = Context::new();
    let node = Source::local(ids.allocate(), "context")
        .serialize(&mut cx)
        .unwrap();
    check(
        &node,
        &cx,
        "sha256:a60212791641cbeaa3a49de4f7dff9e40ae50ec19d1be9607232037c1db16702",
        vec![],
        "local://context",
        vec![],
    );

    let mut cx = Context::new();
    let node = Source::local(ids.allocate(), "context")
        .custom_name("context custom name")
        .serialize(&mut cx)
        .unwrap();
    check(
        &node,
        &cx,
        "sha256:a60212791641cbeaa3a49de4f7dff9e40ae50ec19d1be9607232037c1db16702",
        vec![("llb.customname", "context custom name")],
        "local://context",
        vec![],
    );

    let mut cx = Context::new();
    let node = Source::local(ids.allocate(), "context")
        .add_exclude_pattern("**/target")
        .add_exclude_pattern("Dockerfile")
        .serialize(&mut cx)
        .unwrap();
    check(
        &node,
        &cx,
        "sha256:f6962b8bb1659c63a2c2c3e2a7ccf0326c87530dd70c514343f127e4c20460c4",
        vec![],
        "local://context",
        vec![("local.excludepatterns", "[\"**/target\",\"Dockerfile\"]")],
    );

    let mut cx = Context::new();
    let node = Source::local(ids.allocate(), "context")
        .add_include_pattern("Cargo.toml")
        .add_include_pattern("inner/Cargo.toml")
        .serialize(&mut cx)
        .unwrap();
    check(
        &node,
        &cx,
        "sha256:a7e628333262b810572f83193bbf8554e688abfb51d44ac30bdad7fa425f3839",
        vec![],
        "local://context",
        vec![("local.includepattern", "[\"Cargo.toml\",\"inner/Cargo.toml\"]")],
    );
}

#[test]
fn image_serialization() {
    let mut ids = OperationIds::new();
    let mut cx = Context::new();
    let node = Source::image(ids.allocate(), "rustlang/rust:nightly")
        .serialize(&mut cx)
        .unwrap();
    check(
        &node,
        &cx,
        "sha256:dee2a3d7dd482dd8098ba543ff1dcb01efd29fcd16fdb0979ef556f38564543a",
        vec![],
        "docker-image://docker.io/rustlang/rust:nightly",
        vec![],
    );

    let mut cx = Context::new();
    let node = Source::image(ids.allocate(), "library/alpine:latest")
        .serialize(&mut cx)
        .unwrap();
    check(
        &node,
        &cx,
        "sha256:0e6b31ceed3e6dc542018f35a53a0e857e6a188453d32a2a5bbe7aa2971c1220",
        vec![],
        "docker-image://docker.io/library/alpine:latest",
        vec![],
    );

    let mut cx = Context::new();
    let node = Source::image(ids.allocate(), "rustlang/rust:nightly")
        .custom_name("image custom name")
        .serialize(&mut cx)
        .unwrap();
    check(
        &node,
        &cx,
        "sha256:dee2a3d7dd482dd8098ba543ff1dcb01efd29fcd16fdb0979ef556f38564543a",
        vec![("llb.customname", "image custom name")],
        "docker-image://docker.io/rustlang/rust:nightly",
        vec![],
    );

    let mut cx = Context::new();
    let node = Source::image(ids.allocate(), "rustlang/rust:nightly")
        .with_digest("sha256:123456")
        .serialize(&mut cx)
        .unwrap();
    check(
        &node,
        &cx,
        "sha256:a9837e26998d165e7b6433f8d40b36d259905295860fcbbc62bbce75a6c991c6",
        vec![],
        "docker-image://docker.io/rustlang/rust:nightly@sha256:123456",
        vec![],
    );
}

#[test]
fn resolve_mode() {
    let mut ids = OperationIds::new();
    let cases = [
        (
            ResolveMode::Default,
            "sha256:792e246751e84b9a5e40c28900d70771a07e8cc920c1039cdddfc6bf69256dfe",
            "default",
        ),
        (
            ResolveMode::ForcePull,
            "sha256:0bd920010eab701bdce44c61d220e6943d56d3fb9a9fa4e773fc060c0d746122",
            "pull",
        ),
        (
            ResolveMode::PreferLocal,
            "sha256:bd6797c8644d2663b29c36a8b3b63931e539be44ede5e56aca2da4f35f241f18",
            "local",
        ),
    ];
    for (mode, digest, text) in cases {
        let mut cx = Context::new();
        let source = Source::image(ids.allocate(), "rustlang/rust:nightly").with_resolve_mode(mode);
        assert_eq!(source.resolve_mode(), Some(mode));
        let node = source.serialize(&mut cx).unwrap();
        check(
            &node,
            &cx,
            digest,
            vec![],
            "docker-image://docker.io/rustlang/rust:nightly",
            vec![("image.resolvemode", text)],
        );
    }
}

#[test]
fn image_name() {
    let mut ids = OperationIds::new();
    let cases = [
        ("rustlang/rust", "docker.io/rustlang/rust:latest"),
        ("rust:nightly", "docker.io/library/rust:nightly"),
        ("rust", "docker.io/library/rust:latest"),
        ("library/rust", "docker.io/library/rust:latest"),
        ("rust:obj@sha256:abcdef", "docker.io/library/rust:obj@sha256:abcdef"),
        ("rust@sha256:abcdef", "docker.io/library/rust:latest@sha256:abcdef"),
        ("rust:obj@abcdef", "docker.io/library/rust:obj@abcdef"),
        (
            "b.gcr.io/test.example.com/my-app:test.example.com",
            "b.gcr.io/test.example.com/my-app:test.example.com",
        ),
        (
            "sub-dom1.foo.com/bar/baz/quux:some-long-tag",
            "sub-dom1.foo.com/bar/baz/quux:some-long-tag",
        ),
        (
            "sub-dom1.foo.com/quux:some-long-tag",
            "sub-dom1.foo.com/quux:some-long-tag",
        ),
        ("localhost/rust:obj", "localhost/rust:obj"),
        ("127.0.0.1/rust:obj", "127.0.0.1/rust:obj"),
        ("localhost:5000/rust:obj", "localhost:5000/rust:obj"),
        ("127.0.0.1:5000/rust:obj", "127.0.0.1:5000/rust:obj"),
        ("localhost:5000/rust", "localhost:5000/rust:latest"),
        ("127.0.0.1:5000/rust", "127.0.0.1:5000/rust:latest"),
        ("docker.io/rust", "docker.io/library/rust:latest"),
        ("docker.io/library/rust", "docker.io/library/rust:latest"),
    ];
    for (name, canonical) in cases {
        let source = Source::image(ids.allocate(), name);
        assert_eq!(source.canonical_name(), canonical, "for {}", name);
        let mut cx = Context::new();
        let node = source.serialize(&mut cx).unwrap();
        let identifier = format!("docker-image://{}", canonical);
        assert_eq!(node.bytes, encoded(&source_op(&identifier, vec![])));
    }
}
