use buildkit_llb::ops::fs::LayerPath;
use buildkit_llb::ops::{
    FileSystem, MultiBorrowedLastOutput, MultiBorrowedOutput, OperationBuilder,
    SingleBorrowedOutput, Source,
};
use buildkit_llb::pb;
use buildkit_llb::serialization::{Context, Node, OperationIds};
use buildkit_llb::utils::{OutputIdx, OwnOutputIdx};
use buildkit_llb::wire::Message;

const LOCAL: &str = "sha256:a60212791641cbeaa3a49de4f7dff9e40ae50ec19d1be9607232037c1db16702";
const RUST: &str = "sha256:dee2a3d7dd482dd8098ba543ff1dcb01efd29fcd16fdb0979ef556f38564543a";

fn to_vec(items: Vec<&str>) -> Vec<String> {
    items.into_iter().map(String::from).collect()
}

fn file_op(inputs: Vec<(&str, i64)>, actions: Vec<pb::FileAction>) -> Vec<u8> {
    let op = pb::Op {
        inputs: inputs
            .into_iter()
            .map(|(digest, index)| pb::Input {
                digest: digest.to_string(),
                index,
            })
            .collect(),
        op: Some(pb::OpBody::File(pb::FileOp { actions })),
    };
    let mut bytes = Vec::new();
    op.encode(&mut bytes);
    bytes
}

fn copy(input: i64, secondary_input: i64, output: i64, src: &str, dest: &str) -> pb::FileAction {
    pb::FileAction {
        input,
        secondary_input,
        output,
        action: Some(pb::Action::Copy(pb::FileActionCopy {
            src: src.into(),
            dest: dest.into(),
            mode: -1,
            follow_symlink: false,
            dir_copy_contents: false,
            attempt_unpack_docker_compatibility: false,
            create_dest_path: false,
            allow_wildcard: false,
            allow_empty_wildcard: false,
            timestamp: -1,
        })),
    }
}

fn with_copy(action: pb::FileAction, change: fn(&mut pb::FileActionCopy)) -> pb::FileAction {
    let mut action = action;
    if let Some(pb::Action::Copy(copy)) = &mut action.action {
        change(copy);
    }
    action
}

fn mkdir(input: i64, output: i64, path: &str, make_parents: bool) -> pb::FileAction {
    pb::FileAction {
        input,
        secondary_input: -1,
        output,
        action: Some(pb::Action::Mkdir(pb::FileActionMkDir {
            path: path.into(),
            mode: -1,
            make_parents,
            timestamp: -1,
        })),
    }
}

fn mkfile(input: i64, output: i64, path: &str, data: &[u8]) -> pb::FileAction {
    pb::FileAction {
        input,
        secondary_input: -1,
        output,
        action: Some(pb::Action::Mkfile(pb::FileActionMkFile {
            path: path.into(),
            mode: -1,
            data: data.to_vec(),
            timestamp: -1,
        })),
    }
}

fn caps(node: &Node) -> Vec<String> {
    let mut caps: Vec<String> = node.metadata.caps.iter().map(|pair| pair.0.clone()).collect();
    caps.sort();
    caps
}

fn cached_tail(cx: &Context) -> Vec<String> {
    cx.registered_nodes_iter()
        .iter()
        .map(|node| node.digest.clone())
        .collect()
}

#[test]
fn copy_serialization() {
    let mut ids = OperationIds::new();
    let context = Source::local(ids.allocate(), "context");
    let builder_image = Source::image(ids.allocate(), "rustlang/rust:nightly");

    let operation = FileSystem::sequence(ids.allocate())
        .append(
            FileSystem::copy()
                .from(LayerPath::Other(context.output(), "Cargo.toml"))
                .to(OutputIdx(0), LayerPath::Scratch("Cargo.toml")),
        )
        .append(
            FileSystem::copy()
                .from(LayerPath::Other(builder_image.output(), "/bin/sh"))
                .to(OutputIdx(1), LayerPath::Own(OwnOutputIdx(0), "/bin/sh")),
        )
        .append(
            FileSystem::copy()
                .from(LayerPath::Own(OwnOutputIdx(1), "Cargo.toml"))
                .to(OutputIdx(2), LayerPath::Scratch("Cargo.toml")),
        );

    let mut cx = Context::new();
    let node = operation.serialize(&mut cx).unwrap();

    assert_eq!(
        node.digest,
        "sha256:c4f7fb723fa87f03788aaf660dc9110ad8748fc9971e13713f103b632c05ae96"
    );
    assert!(node.metadata.description.is_empty());
    assert_eq!(caps(&node), to_vec(vec!["file.base"]));
    assert_eq!(cached_tail(&cx), to_vec(vec![LOCAL, RUST]));
    assert_eq!(
        node.bytes,
        file_op(
            vec![(LOCAL, 0), (RUST, 0)],
            vec![
                copy(-1, 0, 0, "Cargo.toml", "Cargo.toml"),
                copy(2, 1, 1, "/bin/sh", "/bin/sh"),
                copy(-1, 3, 2, "Cargo.toml", "Cargo.toml"),
            ]
        )
    );
    assert_eq!(operation.last_output_index(), Some(2));
    assert!(operation.last_output().is_some());
}

#[test]
fn copy_with_params_serialization() {
    let mut ids = OperationIds::new();
    let context = Source::local(ids.allocate(), "context");

    let operation = FileSystem::sequence(ids.allocate())
        .append(
            FileSystem::copy()
                .from(LayerPath::Other(context.output(), "Cargo.toml"))
                .to(OutputIdx(0), LayerPath::Scratch("Cargo.toml"))
                .follow_symlinks(true),
        )
        .append(
            FileSystem::copy()
                .from(LayerPath::Other(context.output(), "Cargo.toml"))
                .to(OutputIdx(1), LayerPath::Scratch("Cargo.toml"))
                .recursive(true),
        )
        .append(
            FileSystem::copy()
                .from(LayerPath::Other(context.output(), "Cargo.toml"))
                .to(OutputIdx(2), LayerPath::Scratch("Cargo.toml"))
                .create_path(true),
        )
        .append(
            FileSystem::copy()
                .from(LayerPath::Other(context.output(), "Cargo.toml"))
                .to(OutputIdx(3), LayerPath::Scratch("Cargo.toml"))
                .wildcard(true),
        );

    let mut cx = Context::new();
    let node = operation.serialize(&mut cx).unwrap();

    assert_eq!(
        node.digest,
        "sha256:8be9c1c8335d53c894d0f5848ef354c69a96a469a72b00aadae704b23d465022"
    );
    assert!(node.metadata.description.is_empty());
    assert_eq!(caps(&node), to_vec(vec!["file.base"]));
    assert_eq!(cached_tail(&cx), to_vec(vec![LOCAL]));
    assert_eq!(
        node.bytes,
        file_op(
            vec![(LOCAL, 0), (LOCAL, 0), (LOCAL, 0), (LOCAL, 0)],
            vec![
                with_copy(copy(-1, 0, 0, "Cargo.toml", "Cargo.toml"), |c| c
                    .follow_symlink = true),
                with_copy(copy(-1, 1, 1, "Cargo.toml", "Cargo.toml"), |c| c
                    .dir_copy_contents = true),
                with_copy(copy(-1, 2, 2, "Cargo.toml", "Cargo.toml"), |c| c
                    .create_dest_path = true),
                with_copy(copy(-1, 3, 3, "Cargo.toml", "Cargo.toml"), |c| c
                    .allow_wildcard = true),
            ]
        )
    );
}

#[test]
fn mkdir_serialization() {
    let mut ids = OperationIds::new();
    let context = Source::local(ids.allocate(), "context");

    let operation = FileSystem::sequence(ids.allocate())
        .append(
            FileSystem::mkdir(
                OutputIdx(0),
                LayerPath::Other(context.output(), "/new-crate"),
            )
            .make_parents(true),
        )
        .append(FileSystem::mkdir(
            OutputIdx(1),
            LayerPath::Scratch("/new-crate"),
        ))
        .append(FileSystem::mkdir(
            OutputIdx(2),
            LayerPath::Own(OwnOutputIdx(1), "/another-crate/deep/directory"),
        ));

    let mut cx = Context::new();
    let node = operation.serialize(&mut cx).unwrap();

    assert_eq!(
        node.digest,
        "sha256:bfcd58256cba441c6d9e89c439bc6640b437d47213472cf8491646af4f0aa5b2"
    );
    assert!(node.metadata.description.is_empty());
    assert_eq!(caps(&node), to_vec(vec!["file.base"]));
    assert_eq!(cached_tail(&cx), to_vec(vec![LOCAL]));
    assert_eq!(
        node.bytes,
        file_op(
            vec![(LOCAL, 0)],
            vec![
                mkdir(0, 0, "/new-crate", true),
                mkdir(-1, 1, "/new-crate", false),
                mkdir(2, 2, "/another-crate/deep/directory", false),
            ]
        )
    );
}

#[test]
fn mkfile_serialization() {
    let mut ids = OperationIds::new();
    let context = Source::local(ids.allocate(), "context");

    let operation = FileSystem::sequence(ids.allocate())
        .append(
            FileSystem::mkfile(
                OutputIdx(0),
                LayerPath::Other(context.output(), "/build-plan.json"),
            )
            .data(b"any bytes".to_vec()),
        )
        .append(FileSystem::mkfile(
            OutputIdx(1),
            LayerPath::Scratch("/build-graph.json"),
        ))
        .append(FileSystem::mkfile(
            OutputIdx(2),
            LayerPath::Own(OwnOutputIdx(1), "/llb.pb"),
        ));

    let mut cx = Context::new();
    let node = operation.serialize(&mut cx).unwrap();

    assert_eq!(
        node.digest,
        "sha256:9c0d9f741dfc9b4ea8d909ebf388bc354da0ee401eddf5633e8e4ece7e87d22d"
    );
    assert!(node.metadata.description.is_empty());
    assert_eq!(caps(&node), to_vec(vec!["file.base"]));
    assert_eq!(cached_tail(&cx), to_vec(vec![LOCAL]));
    assert_eq!(
        node.bytes,
        file_op(
            vec![(LOCAL, 0)],
            vec![
                mkfile(0, 0, "/build-plan.json", b"any bytes"),
                mkfile(-1, 1, "/build-graph.json", b""),
                mkfile(2, 2, "/llb.pb", b""),
            ]
        )
    );
}

#[test]
fn copy_between_two_other_layers() {
    let mut ids = OperationIds::new();
    let context = Source::local(ids.allocate(), "context");
    let image = Source::image(ids.allocate(), "rustlang/rust:nightly");

    let operation = FileSystem::mkdir(OutputIdx(0), LayerPath::Scratch("/a"))
        .into_operation(ids.allocate())
        .append(
            FileSystem::copy()
                .from(LayerPath::Other(context.output(), "/src"))
                .to(OutputIdx(1), LayerPath::Other(image.output(), "/dst")),
        )
        .append(
            FileSystem::copy()
                .from(LayerPath::Own(OwnOutputIdx(1), "/x"))
                .to(OutputIdx(2), LayerPath::Other(context.output(), "/y")),
        )
        .custom_name("copies")
        .ignore_cache(true);

    let mut cx = Context::new();
    let node = operation.serialize(&mut cx).unwrap();
    assert!(node.metadata.ignore_cache);
    assert_eq!(
        node.metadata.description,
        vec![("llb.customname".to_string(), "copies".to_string())]
    );
    assert_eq!(cached_tail(&cx), to_vec(vec![LOCAL, RUST]));
    assert_eq!(
        node.bytes,
        file_op(
            vec![(LOCAL, 0), (RUST, 0), (LOCAL, 0)],
            vec![
                mkdir(-1, 0, "/a", false),
                copy(1, 0, 1, "/src", "/dst"),
                copy(2, 4, 2, "/x", "/y"),
            ]
        )
    );
    assert_eq!(operation.output(2).output().0, 2);
}

#[test]
fn empty_sequence_has_no_last_output() {
    let mut ids = OperationIds::new();
    let operation = FileSystem::sequence(ids.allocate());
    assert_eq!(operation.last_output_index(), None);
    assert!(operation.last_output().is_none());
}

#[test]
fn action_records_with_given_counts() {
    let action = FileSystem::mkdir(OutputIdx(5), LayerPath::Own(OwnOutputIdx(2), "/d"));
    let record = action.serialize_action(7, 3).unwrap();
    assert_eq!(record, mkdir(9, 5, "/d", false));
    // Indices past the largest signed number have no record.
    assert!(action.serialize_action(u64::MAX, 0).is_err());
    assert!(action.serialize_action(0, u64::MAX).is_err());

    let mut ids = OperationIds::new();
    let context = Source::local(ids.allocate(), "context");
    let both = FileSystem::copy()
        .from(LayerPath::Other(context.output(), "/a"))
        .to(OutputIdx(0), LayerPath::Other(context.output(), "/b"));
    assert_eq!(both.serialize_action(10, 4).unwrap(), copy(5, 4, 0, "/a", "/b"));
    assert!(both.serialize_action(1 << 63, 4).is_err());
}
