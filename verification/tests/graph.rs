use buildkit_llb::ops::exec::Mount;
use buildkit_llb::ops::source::{ImageSource, LocalSource};
use buildkit_llb::ops::{
    Command, MultiBorrowedOutput, OperationBuilder, SingleBorrowedOutput, Source, Terminal,
};
use buildkit_llb::serialization::{Context, OperationIds};
use buildkit_llb::utils::{OperationOutput, OperationRef, OutputIdx};

#[test]
fn identities_count_up_and_wrap() {
    let mut ids = OperationIds::new();
    assert_eq!(ids.allocate().value(), 0);
    assert_eq!(ids.allocate().value(), 1);
    assert_eq!(ids.allocate().value(), 2);
    let source = Source::local(ids.allocate(), "context");
    assert_eq!(source.id(), 3);
}

#[test]
fn registration_is_idempotent() {
    let mut ids = OperationIds::new();
    let image = Source::image(ids.allocate(), "rust");
    let command = Command::run(ids.allocate(), "true")
        .mount(Mount::ReadOnlyLayer(image.output(), "/"));
    let mut cx = Context::new();
    let first = cx.register(OperationRef::Command(&command)).unwrap();
    assert_eq!(cx.registered_nodes_iter().len(), 2);
    let second = cx.register(OperationRef::Command(&command)).unwrap();
    assert_eq!(first, second);
    assert_eq!(cx.registered_nodes_iter().len(), 2);
    let third = cx.register(OperationRef::Image(&image)).unwrap();
    assert_eq!(cx.registered_nodes_iter().len(), 2);
    assert_eq!(third, cx.registered_nodes_iter()[0].digest);
    let nodes = cx.into_registered_nodes();
    assert_eq!(nodes.len(), 2);
    assert_eq!(nodes[1].digest, first);
}

#[test]
fn digests_do_not_depend_on_identities() {
    let build = |ids: &mut OperationIds, reversed: bool| {
        let (image, context) = if reversed {
            let context = Source::local(ids.allocate(), "context");
            let image = Source::image(ids.allocate(), "rust");
            (image, context)
        } else {
            let image = Source::image(ids.allocate(), "rust");
            let context = Source::local(ids.allocate(), "context");
            (image, context)
        };
        let command = Command::run(ids.allocate(), "make")
            .mount(Mount::ReadOnlyLayer(image.output(), "/"))
            .mount(Mount::ReadOnlyLayer(context.output(), "/src"))
            .mount(Mount::Scratch(OutputIdx(0), "/out"));
        Terminal::with(command.output(0))
            .into_definition()
            .unwrap()
    };
    let mut ids = OperationIds::new();
    let first = build(&mut ids, false);
    let second = build(&mut ids, true);
    assert_eq!(first, second);
    assert_eq!(first.def.len(), 4);
}

#[test]
fn clones_by_contents_are_distinct_vertices() {
    let mut ids = OperationIds::new();
    let one = Source::image(ids.allocate(), "rust");
    let other = Source::image(ids.allocate(), "rust");
    let command = Command::run(ids.allocate(), "true")
        .mount(Mount::ReadOnlyLayer(one.output(), "/"))
        .mount(Mount::ReadOnlyLayer(other.output(), "/other"));
    let definition = Terminal::with(command.output(0)).into_definition().unwrap();
    // Two vertices with the same bytes, one metadata key for both.
    assert_eq!(definition.def.len(), 4);
    assert_eq!(definition.def[0], definition.def[1]);
    assert_eq!(definition.metadata.len(), 3);
}

#[test]
fn image_reference_with_given_tag_position() {
    let mut ids = OperationIds::new();
    let parsed = ImageSource::parse(ids.allocate(), "rust:obj", None, Some("rust".to_string()));
    assert_eq!(parsed.canonical_name(), "docker.io/library/rust:obj");
    let parsed = ImageSource::parse(ids.allocate(), "rust:obj", None, None);
    assert_eq!(parsed.canonical_name(), "docker.io/library/rust:obj:latest");
    let parsed = ImageSource::parse(
        ids.allocate(),
        "a.b/c:d",
        Some("sha256:1".to_string()),
        Some("a.b/c".to_string()),
    );
    assert_eq!(parsed.canonical_name(), "a.b/c:d@sha256:1");
    // A position at or past the end of the name leaves the name untagged.
    let parsed = ImageSource::parse(ids.allocate(), "rust", None, Some("rust".to_string()));
    assert_eq!(parsed.canonical_name(), "docker.io/library/rust:latest");
    let tagged = Source::image(ids.allocate(), "rust")
        .with_tag("1.70")
        .with_digest("sha256:abc");
    assert_eq!(tagged.canonical_name(), "docker.io/library/rust:1.70@sha256:abc");
    assert_eq!(tagged.resolve_mode(), None);
}

#[test]
fn local_source_record_with_given_texts() {
    let mut ids = OperationIds::new();
    let source: LocalSource = Source::local(ids.allocate(), "ctx");
    let record = source.source_op(Some("[\"x\"]".to_string()), Some("[\"y\"]".to_string()));
    assert_eq!(record.identifier, "local://ctx");
    assert_eq!(
        record.attrs,
        vec![
            ("local.excludepatterns".to_string(), "[\"x\"]".to_string()),
            ("local.includepattern".to_string(), "[\"y\"]".to_string()),
        ]
    );
    let record = source.source_op(None, None);
    assert!(record.attrs.is_empty());

    let both = Source::local(ids.allocate(), "ctx")
        .add_include_pattern("a\"b")
        .add_exclude_pattern("c");
    let mut cx = Context::new();
    let node = both.serialize(&mut cx).unwrap();
    let expected = both.source_op(Some("[\"c\"]".to_string()), Some("[\"a\\\"b\"]".to_string()));
    let mut bytes = Vec::new();
    buildkit_llb::wire::put_message(&mut bytes, 3, &expected);
    assert_eq!(node.bytes, bytes);
}

#[test]
fn output_references() {
    let mut ids = OperationIds::new();
    let command = Command::run(ids.allocate(), "true");
    let output: OperationOutput = command.output(7);
    assert_eq!(output.output().0, 7);
    assert_eq!(output.operation().id(), command.id());
    assert_eq!(OutputIdx(3).to_i64(), 3);
}

#[test]
fn a_duplicate_is_a_vertex_of_its_own() {
    let mut ids = OperationIds::new();
    let image = Source::image(ids.allocate(), "rust");
    let command = Command::run(ids.allocate(), "make")
        .args(&["all"])
        .env("A", "b")
        .cwd("/src")
        .user("me")
        .custom_name("build")
        .mount(Mount::ReadOnlyLayer(image.output(), "/"))
        .mount(Mount::Scratch(OutputIdx(0), "/out"))
        .mount(Mount::SharedCache("/cache"));
    let twin = command.clone_as(ids.allocate());
    assert!(twin.id() != command.id());

    let mut cx = Context::new();
    let first = command.serialize(&mut cx).unwrap();
    let second = twin.serialize(&mut cx).unwrap();
    assert_eq!(first.bytes, second.bytes);
    assert_eq!(first.digest, second.digest);
    assert_eq!(first.metadata, second.metadata);

    let consumer = Command::run(ids.allocate(), "ls")
        .mount(Mount::ReadOnlyLayer(command.output(0), "/"))
        .mount(Mount::ReadOnlyLayer(twin.output(0), "/twin"));
    let definition = Terminal::with(consumer.output(0)).into_definition().unwrap();
    // The image once, the command and its twin, the consumer, the terminal.
    assert_eq!(definition.def.len(), 5);
    assert_eq!(definition.def[1], definition.def[2]);
}
