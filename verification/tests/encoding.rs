use buildkit_llb::digest::{format_digest, get_digest};
use buildkit_llb::ops::metadata::{build_metadata, Capabilities};
use buildkit_llb::ordering::text_less;
use buildkit_llb::ops::{OperationBuilder, SingleBorrowedOutput, Source, Terminal};
use buildkit_llb::pb::{Definition, Input, Op, OpMetadata};
use buildkit_llb::serialization::{Node, OperationIds};
use buildkit_llb::text::{chars_of, starts_with};
use buildkit_llb::wire::{
    put_bool, put_bytes, put_int64, put_key, put_len, put_string, put_string_entries,
    put_string_item, put_uint32, put_varint, Message,
};

fn hex(bytes: &[u8]) -> String {
    bytes.iter().map(|b| format!("{:02x}", b)).collect()
}

#[test]
fn varint_values() {
    let mut buf = vec![0xaa];
    put_varint(&mut buf, 0);
    put_varint(&mut buf, 1);
    put_varint(&mut buf, 127);
    put_varint(&mut buf, 128);
    put_varint(&mut buf, 150);
    put_varint(&mut buf, 300);
    put_varint(&mut buf, u64::MAX);
    assert_eq!(hex(&buf), "aa00017f8001960 1ac02ffffffffffffffffff01".replace(' ', ""));
}

#[test]
fn scalar_fields() {
    let mut buf = Vec::new();
    put_key(&mut buf, 20, 2);
    assert_eq!(hex(&buf), "a201");

    let mut buf = Vec::new();
    put_int64(&mut buf, 1, 0);
    assert!(buf.is_empty());
    put_int64(&mut buf, 1, -1);
    put_int64(&mut buf, 2, -2);
    put_int64(&mut buf, 3, 5);
    assert_eq!(
        hex(&buf),
        "08ffffffffffffffffff0110feffffffffffffffff011805"
    );

    let mut buf = Vec::new();
    put_uint32(&mut buf, 4, 0);
    put_bool(&mut buf, 5, false);
    put_bytes(&mut buf, 3, b"");
    put_string(&mut buf, 2, "");
    assert!(buf.is_empty());
    put_uint32(&mut buf, 4, 0o600);
    put_bool(&mut buf, 5, true);
    put_bytes(&mut buf, 3, b"ab");
    put_string(&mut buf, 2, "\u{e9}");
    assert_eq!(hex(&buf), "2080032801" .to_string() + "1a026162" + "1202c3a9");
}

#[test]
fn repeated_and_map_fields() {
    let mut buf = Vec::new();
    put_string_item(&mut buf, 1, "");
    put_len(&mut buf, 2, b"");
    assert_eq!(hex(&buf), "0a001200");

    let mut buf = Vec::new();
    put_string_entries(
        &mut buf,
        2,
        &vec![
            ("k".to_string(), "v".to_string()),
            ("e".to_string(), "".to_string()),
        ],
    );
    assert_eq!(hex(&buf), "12060a016b1201761203 0a0165".replace(' ', ""));
}

#[test]
fn record_bytes() {
    let input = Input {
        digest: "a".into(),
        index: 1,
    };
    let mut buf = Vec::new();
    input.encode(&mut buf);
    assert_eq!(hex(&buf), "0a01611001");

    let op = Op {
        inputs: vec![input],
        op: None,
    };
    let mut buf = Vec::new();
    op.encode(&mut buf);
    assert_eq!(hex(&buf), "0a050a01611001");
}

#[test]
fn digests() {
    assert_eq!(
        get_digest(b""),
        "sha256:e3b0c44298fc1c149afbf4c8996fb92427ae41e4649b934ca495991b7852b855"
    );
    assert_eq!(
        Node::get_digest(b"abc"),
        "sha256:ba7816bf8f01cfea414140de5dae2223b00361a396177a9cb410ff61f20015ad"
    );
    assert_eq!(format_digest(&[0x00, 0x0f, 0xa0, 0xff]), "sha256:000fa0ff");
    assert_eq!(format_digest(&[]), "sha256:");
}

#[test]
fn metadata_entries_are_ordered() {
    let caps = Capabilities {
        exec_mount_bind: true,
        exec_mount_cache: true,
        exec_mount_cache_sharing: true,
        exec_mount_selector: true,
        exec_mount_ssh: true,
        file_base: true,
    };
    let metadata = build_metadata(&Some("name".to_string()), true, &caps);
    assert!(metadata.ignore_cache);
    assert!(!metadata.is_default());
    assert!(OpMetadata::new().is_default());
    assert_eq!(
        metadata.description,
        vec![("llb.customname".to_string(), "name".to_string())]
    );
    let names: Vec<&str> = metadata.caps.iter().map(|c| c.0.as_str()).collect();
    assert_eq!(
        names,
        vec![
            "exec.mount.bind",
            "exec.mount.cache",
            "exec.mount.cache.sharing",
            "exec.mount.selector",
            "exec.mount.ssh",
            "file.base",
        ]
    );
    assert!(metadata.caps.iter().all(|c| c.1));
    assert!(Capabilities::none().to_entries().is_empty());
}

#[test]
fn definition_bytes() {
    let mut ids = OperationIds::new();
    let context = Source::local(ids.allocate(), "context");
    let definition: Definition = Terminal::with(context.output()).into_definition().unwrap();
    assert_eq!(
        hex(&definition.def[0]),
        "1a110a0f6c6f63616c3a2f2f636f6e74657874"
    );
    assert_eq!(definition.def.len(), 2);
    assert_eq!(definition.metadata.len(), 2);
    assert!(definition.metadata[0].0 < definition.metadata[1].0);
    let bytes = definition.to_bytes();
    assert_eq!(bytes.len(), 248);
    assert_eq!(
        get_digest(&bytes),
        "sha256:a08763a4eaff01627c3c39db74ed92cfb7f5a027dd377e9ce8a39d9ba54b70d4"
    );

    let context = Source::local(ids.allocate(), "context")
        .custom_name("ctx")
        .ignore_cache(true);
    let mut sink = vec![1, 2, 3];
    Terminal::with(context.output())
        .write_definition(&mut sink)
        .unwrap();
    assert_eq!(&sink[..3], &[1, 2, 3]);
    assert_eq!(sink.len(), 3 + 275);
    assert_eq!(
        get_digest(&sink[3..]),
        "sha256:caaa4361878a344c362b85ef3551dfa67d80bc570570635e174ad82bc542b5de"
    );
}

#[test]
fn text_helpers() {
    let chars = chars_of("a\u{e9}/b@c");
    assert_eq!(chars, vec!['a', '\u{e9}', '/', 'b', '@', 'c']);
    assert!(starts_with(&chars, &chars_of("a\u{e9}")));
    assert!(starts_with(&chars, &chars_of("")));
    assert!(!starts_with(&chars, &chars_of("a/")));
    assert!(!starts_with(&chars_of("a"), &chars_of("ab")));
}

#[test]
fn text_order() {
    assert!(text_less("", "a"));
    assert!(!text_less("a", ""));
    assert!(!text_less("abc", "abc"));
    assert!(text_less("abc", "abd"));
    assert!(text_less("ab", "abc"));
    assert!(!text_less("b", "abc"));
    assert!(text_less("sha256:0f", "sha256:a0"));
    assert!(text_less("z", "\u{e9}"));
}
