use buildkit_llb::ops::exec::Mount;
use buildkit_llb::ops::fs::LayerPath;
use buildkit_llb::ops::{
    Command, FileSystem, MultiBorrowedOutput, SingleBorrowedOutput, Source, Terminal,
};
use buildkit_llb::serialization::{Node, OperationIds};
use buildkit_llb::utils::{OutputIdx, OwnOutputIdx};

const LOCAL: &str = "sha256:a60212791641cbeaa3a49de4f7dff9e40ae50ec19d1be9607232037c1db16702";
const RUST: &str = "sha256:dee2a3d7dd482dd8098ba543ff1dcb01efd29fcd16fdb0979ef556f38564543a";
const ALPINE: &str = "sha256:0e6b31ceed3e6dc542018f35a53a0e857e6a188453d32a2a5bbe7aa2971c1220";
const FIRST: &str = "sha256:782f343f8f4ee33e4f342ed4209ad1a9eb4582485e45251595a5211ebf2b3cbf";
const SECOND: &str = "sha256:3418ad515958b5e68fd45c9d6fbc8d2ce7d567a956150d22ff529a3fea401aa2";
const ASSEMBLY: &str = "sha256:13bb644e4ec0cabe836392649a04551686e69613b1ea9c89a1a8f3bc86181791";
const LAST: &str = "sha256:d13a773a61236be3c7d539f3ef6d583095c32d2a2a60deda86e71705f2dbc99b";

fn to_vec(items: Vec<&str>) -> Vec<String> {
    items.into_iter().map(String::from).collect()
}

#[test]
fn terminal_serialization() {
    let mut ids = OperationIds::new();
    let context = Source::local(ids.allocate(), "context");
    let builder_image = Source::image(ids.allocate(), "rustlang/rust:nightly");
    let final_image = Source::image(ids.allocate(), "library/alpine:latest");

    let first_command = Command::run(ids.allocate(), "rustc")
        .args(&["--crate-name", "crate-1"])
        .mount(Mount::ReadOnlyLayer(builder_image.output(), "/"))
        .mount(Mount::ReadOnlyLayer(context.output(), "/context"))
        .mount(Mount::Scratch(OutputIdx(0), "/target"));

    let second_command = Command::run(ids.allocate(), "rustc")
        .args(&["--crate-name", "crate-2"])
        .mount(Mount::ReadOnlyLayer(builder_image.output(), "/"))
        .mount(Mount::ReadOnlyLayer(context.output(), "/context"))
        .mount(Mount::Scratch(OutputIdx(0), "/target"));

    let assembly_op = FileSystem::sequence(ids.allocate())
        .append(FileSystem::mkdir(
            OutputIdx(0),
            LayerPath::Other(final_image.output(), "/output"),
        ))
        .append(
            FileSystem::copy()
                .from(LayerPath::Other(first_command.output(0), "/target/crate-1"))
                .to(
                    OutputIdx(1),
                    LayerPath::Own(OwnOutputIdx(0), "/output/crate-1"),
                ),
        )
        .append(
            FileSystem::copy()
                .from(LayerPath::Other(
                    second_command.output(0),
                    "/target/crate-2",
                ))
                .to(
                    OutputIdx(2),
                    LayerPath::Own(OwnOutputIdx(1), "/output/crate-2"),
                ),
        );

    let definition = Terminal::with(assembly_op.output(0))
        .into_definition()
        .unwrap();

    // Every vertex once, in the order of its first registration, the
    // terminal's own node last.
    assert_eq!(
        definition
            .def
            .iter()
            .map(|bytes| Node::get_digest(&bytes))
            .collect::<Vec<_>>(),
        to_vec(vec![ALPINE, RUST, LOCAL, FIRST, SECOND, ASSEMBLY, LAST])
    );

    let mut metadata_digests = {
        definition
            .metadata
            .iter()
            .map(|(digest, _)| digest.as_str())
            .collect::<Vec<_>>()
    };

    // The entries come in the order of their digests.
    let listed = metadata_digests.clone();
    metadata_digests.sort();
    assert_eq!(listed, metadata_digests);
    assert_eq!(
        metadata_digests,
        vec![ALPINE, ASSEMBLY, SECOND, FIRST, LOCAL, LAST, RUST]
    );
}

#[test]
fn shared_vertices_appear_once() {
    let mut ids = OperationIds::new();
    let image = Source::image(ids.allocate(), "rust");
    let command = Command::run(ids.allocate(), "true")
        .mount(Mount::ReadOnlyLayer(image.output(), "/"))
        .mount(Mount::ReadOnlyLayer(image.output(), "/again"))
        .mount(Mount::Layer(OutputIdx(0), image.output(), "/third"));
    let definition = Terminal::with(command.output(0)).into_definition().unwrap();
    assert_eq!(definition.def.len(), 3);
    assert_eq!(definition.metadata.len(), 3);
}

#[test]
fn same_graph_twice_gives_the_same_bytes() {
    let build = |ids: &mut OperationIds| {
        let image = Source::image(ids.allocate(), "rust");
        let command = Command::run(ids.allocate(), "true")
            .mount(Mount::ReadOnlyLayer(image.output(), "/"));
        let mut bytes = Vec::new();
        Terminal::with(command.output(0))
            .write_definition(&mut bytes)
            .unwrap();
        bytes
    };
    let mut ids = OperationIds::new();
    let first = build(&mut ids);
    let second = build(&mut ids);
    assert!(!first.is_empty());
    assert_eq!(first, second);
}
