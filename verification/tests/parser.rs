use axml::cursor::AxmlCursor;
use axml::error::FormatError;
use axml::parser::{parse_xml, XmlElement};

fn doc_u16(b: &mut Vec<u8>, v: u16) {
    b.extend_from_slice(&v.to_le_bytes());
}

fn doc_u32(b: &mut Vec<u8>, v: u32) {
    b.extend_from_slice(&v.to_le_bytes());
}

/// A UTF-8 string-pool chunk holding the given strings, ending exactly
/// after the last entry.
fn utf8_pool_chunk(strings: &[&str]) -> Vec<u8> {
    let mut entries: Vec<u8> = Vec::new();
    let mut offsets: Vec<u32> = Vec::new();
    for s in strings {
        offsets.push(entries.len() as u32);
        entries.push(s.len() as u8); // encoded length
        entries.push(s.len() as u8); // byte length
        entries.extend_from_slice(s.as_bytes());
    }
    let strings_start = 28 + 4 * strings.len() as u32;
    let chunk_size = strings_start + entries.len() as u32;
    let mut b = Vec::new();
    doc_u16(&mut b, 0x0001);
    doc_u16(&mut b, 28); // header size
    doc_u32(&mut b, chunk_size);
    doc_u32(&mut b, strings.len() as u32);
    doc_u32(&mut b, 0); // style count
    doc_u32(&mut b, 0x100); // flags: UTF-8
    doc_u32(&mut b, strings_start);
    doc_u32(&mut b, 0); // styles start
    for o in offsets {
        doc_u32(&mut b, o);
    }
    b.extend_from_slice(&entries);
    b
}

fn start_namespace_chunk(prefix: u32, uri: u32) -> Vec<u8> {
    let mut b = Vec::new();
    doc_u16(&mut b, 0x0100);
    doc_u16(&mut b, 16);
    doc_u32(&mut b, 24);
    doc_u32(&mut b, 1); // line number
    doc_u32(&mut b, 0xffffffff); // comment
    doc_u32(&mut b, prefix);
    doc_u32(&mut b, uri);
    b
}

fn end_namespace_chunk(prefix: u32, uri: u32) -> Vec<u8> {
    let mut b = Vec::new();
    doc_u16(&mut b, 0x0101);
    doc_u16(&mut b, 16);
    doc_u32(&mut b, 24);
    doc_u32(&mut b, 9); // line number
    doc_u32(&mut b, 0xffffffff); // comment
    doc_u32(&mut b, prefix);
    doc_u32(&mut b, uri);
    b
}

/// One attribute: namespace index, name index, raw-value index, typed
/// value tag, typed value data.
fn start_element_chunk(name: u32, attrs: &[(u32, u32, u32, u8, u32)]) -> Vec<u8> {
    let mut b = Vec::new();
    doc_u16(&mut b, 0x0102);
    doc_u16(&mut b, 16);
    doc_u32(&mut b, 36 + 20 * attrs.len() as u32);
    doc_u32(&mut b, 2); // line number
    doc_u32(&mut b, 0xffffffff); // comment
    doc_u32(&mut b, 0xffffffff); // element namespace
    doc_u32(&mut b, name);
    doc_u32(&mut b, 0x0014_0014); // attribute block sizes
    doc_u16(&mut b, attrs.len() as u16);
    doc_u16(&mut b, 0); // id index
    doc_u16(&mut b, 0); // class index
    doc_u16(&mut b, 0); // style index
    for (ns, nm, raw, vtype, data) in attrs {
        doc_u32(&mut b, *ns);
        doc_u32(&mut b, *nm);
        doc_u32(&mut b, *raw);
        doc_u16(&mut b, 8); // typed value size
        b.push(0); // reserved
        b.push(*vtype);
        doc_u32(&mut b, *data);
    }
    b
}

fn end_element_chunk(name: u32) -> Vec<u8> {
    let mut b = Vec::new();
    doc_u16(&mut b, 0x0103);
    doc_u16(&mut b, 16);
    doc_u32(&mut b, 24);
    doc_u32(&mut b, 3); // line number
    doc_u32(&mut b, 0xffffffff); // comment
    doc_u32(&mut b, 0xffffffff); // namespace
    doc_u32(&mut b, name);
    b
}

fn minimal_manifest_doc() -> Vec<u8> {
    let mut doc = utf8_pool_chunk(&[
        "manifest",
        "package",
        "com.example",
        "android",
        "http://schemas.android.com/apk/res/android",
    ]);
    doc.extend(start_namespace_chunk(3, 4));
    // A `manifest` element with one attribute: the key is pool entry 1
    // and the value pool entry 2 through the raw-value index.
    doc.extend(start_element_chunk(0, &[(0xffffffff, 1, 2, 0x03, 2)]));
    doc.extend(end_element_chunk(0));
    doc
}

fn elements_equal(a: &XmlElement, b: &XmlElement) -> bool {
    a.element_type == b.element_type && a.attributes == b.attributes
        && a.children.len() == b.children.len()
        && a.children.iter().zip(b.children.iter()).all(|(x, y)| elements_equal(x, y))
}

#[test]
fn test_minimal_document_end_to_end() {
    let root = parse_xml(AxmlCursor::new(minimal_manifest_doc())).unwrap();
    assert_eq!(root.element_type, "manifest");
    assert_eq!(root.attributes, vec![(String::from("package"), String::from("com.example"))]);
    assert!(root.children.is_empty());
}

#[test]
fn test_decode_is_idempotent() {
    let doc = minimal_manifest_doc();
    let first = parse_xml(AxmlCursor::new(doc.clone())).unwrap();
    let second = parse_xml(AxmlCursor::new(doc)).unwrap();
    assert!(elements_equal(&first, &second));
}

#[test]
fn test_string_index_before_pool_fails() {
    // The first chunk is a start-element: no ordering requirement is
    // violated as such, but its name index has no pool entry yet, and
    // that must fail rather than silently default.
    let doc = start_element_chunk(0, &[]);
    let result = parse_xml(AxmlCursor::new(doc));
    assert_eq!(result.unwrap_err(), FormatError::StringIndexOutOfRange);
}

#[test]
fn test_namespaced_attribute_key() {
    // An attribute with a namespace gets a `prefix:name` key, and an
    // absent raw value falls back to the typed value's rendering.
    let mut doc = utf8_pool_chunk(&["manifest", "exported", "x", "android", "uri:ns"]);
    doc.extend(start_namespace_chunk(3, 4));
    doc.extend(start_element_chunk(0, &[(4, 1, 0xffffffff, 0x12, 1)]));
    doc.extend(end_element_chunk(0));
    let root = parse_xml(AxmlCursor::new(doc)).unwrap();
    assert_eq!(root.attributes, vec![(
        String::from("android:exported"),
        String::from("true"),
    )]);
}

#[test]
fn test_undeclared_namespace_fails() {
    let mut doc = utf8_pool_chunk(&["manifest", "exported", "x", "android", "uri:ns"]);
    // No start-namespace chunk: the URI at pool index 4 is never declared.
    doc.extend(start_element_chunk(0, &[(4, 1, 0xffffffff, 0x12, 1)]));
    doc.extend(end_element_chunk(0));
    let result = parse_xml(AxmlCursor::new(doc));
    assert_eq!(result.unwrap_err(), FormatError::UnresolvedNamespace);
}

#[test]
fn test_nested_elements() {
    let mut doc = utf8_pool_chunk(&["manifest", "application", "activity"]);
    doc.extend(start_element_chunk(0, &[]));
    doc.extend(start_element_chunk(1, &[]));
    doc.extend(start_element_chunk(2, &[]));
    doc.extend(end_element_chunk(2));
    doc.extend(end_element_chunk(1));
    doc.extend(end_element_chunk(0));
    let root = parse_xml(AxmlCursor::new(doc)).unwrap();
    assert_eq!(root.element_type, "manifest");
    assert_eq!(root.children.len(), 1);
    assert_eq!(root.children[0].element_type, "application");
    assert_eq!(root.children[0].children.len(), 1);
    assert_eq!(root.children[0].children[0].element_type, "activity");
}

#[test]
fn test_null_chunks_are_skipped() {
    let mut doc = Vec::new();
    doc_u16(&mut doc, 0x0000); // null chunk before anything else
    doc.extend(utf8_pool_chunk(&["manifest"]));
    doc_u16(&mut doc, 0x0000); // and another between chunks
    doc.extend(start_element_chunk(0, &[]));
    doc.extend(end_element_chunk(0));
    let root = parse_xml(AxmlCursor::new(doc)).unwrap();
    assert_eq!(root.element_type, "manifest");
    assert!(root.attributes.is_empty());
}

#[test]
fn test_xml_chunk_header_is_consumed() {
    // A document wrapped in the XML chunk: its 8-byte header is
    // consumed, and the chunks inside follow.
    let mut doc = Vec::new();
    doc_u16(&mut doc, 0x0003);
    doc_u16(&mut doc, 8);
    doc_u32(&mut doc, 0); // placeholder total size, fixed below
    let mut inner = utf8_pool_chunk(&["manifest"]);
    inner.extend(start_element_chunk(0, &[]));
    inner.extend(end_element_chunk(0));
    let total = (8 + inner.len()) as u32;
    doc[4..8].copy_from_slice(&total.to_le_bytes());
    doc.extend(inner);
    let root = parse_xml(AxmlCursor::new(doc)).unwrap();
    assert_eq!(root.element_type, "manifest");
}

#[test]
fn test_resource_table_chunk_is_skipped() {
    let mut doc = utf8_pool_chunk(&["manifest"]);
    // An opaque resource-table chunk of declared size 12: the 4 bytes
    // after its header are not valid chunks and must be skipped over.
    doc_u16(&mut doc, 0x0002);
    doc_u16(&mut doc, 8);
    doc_u32(&mut doc, 12);
    doc.extend_from_slice(&[0xde, 0xad, 0xbe, 0xef]);
    doc.extend(start_element_chunk(0, &[]));
    doc.extend(end_element_chunk(0));
    let root = parse_xml(AxmlCursor::new(doc)).unwrap();
    assert_eq!(root.element_type, "manifest");
}

#[test]
fn test_resource_table_declared_past_end_fails() {
    let mut doc = utf8_pool_chunk(&["manifest"]);
    doc_u16(&mut doc, 0x0002);
    doc_u16(&mut doc, 8);
    doc_u32(&mut doc, 1000); // declared size runs past the buffer
    doc.extend_from_slice(&[0, 0, 0, 0]);
    let result = parse_xml(AxmlCursor::new(doc));
    assert_eq!(result.unwrap_err(), FormatError::TruncatedInput);
}

#[test]
fn test_unknown_chunk_type_fails() {
    let mut doc = utf8_pool_chunk(&["manifest"]);
    doc_u16(&mut doc, 0x0aab);
    let result = parse_xml(AxmlCursor::new(doc));
    assert_eq!(result.unwrap_err(), FormatError::UnknownChunkType(0x0aab));
}

#[test]
fn test_pop_beyond_root_fails() {
    let mut doc = utf8_pool_chunk(&["manifest"]);
    doc.extend(end_element_chunk(0)); // closes the synthetic root
    doc.extend(end_element_chunk(0)); // nothing left to pop
    let result = parse_xml(AxmlCursor::new(doc));
    assert_eq!(result.unwrap_err(), FormatError::UnbalancedElement);
}

#[test]
fn test_namespace_kept_after_end_namespace() {
    // The namespace table is document-scoped: an end-namespace chunk
    // does not remove the entry, so a later attribute still resolves.
    let mut doc = utf8_pool_chunk(&["manifest", "exported", "x", "android", "uri:ns"]);
    doc.extend(start_namespace_chunk(3, 4));
    doc.extend(end_namespace_chunk(3, 4));
    doc.extend(start_element_chunk(0, &[(4, 1, 0xffffffff, 0x12, 0)]));
    doc.extend(end_element_chunk(0));
    let root = parse_xml(AxmlCursor::new(doc)).unwrap();
    assert_eq!(root.attributes, vec![(
        String::from("android:exported"),
        String::from("false"),
    )]);
}

#[test]
fn test_nested_manifest_element_becomes_child() {
    // Only a `manifest` start-element arriving while the stack holds
    // exactly the synthetic root merges into it; one nested inside
    // another open element is an ordinary child.
    let mut doc = utf8_pool_chunk(&["manifest", "application"]);
    doc.extend(start_element_chunk(0, &[])); // merges into the root
    doc.extend(start_element_chunk(1, &[]));
    doc.extend(start_element_chunk(0, &[])); // nested: becomes a child
    doc.extend(end_element_chunk(0));
    doc.extend(end_element_chunk(1));
    doc.extend(end_element_chunk(0));
    let root = parse_xml(AxmlCursor::new(doc)).unwrap();
    assert_eq!(root.element_type, "manifest");
    assert_eq!(root.children.len(), 1);
    assert_eq!(root.children[0].element_type, "application");
    assert_eq!(root.children[0].children.len(), 1);
    assert_eq!(root.children[0].children[0].element_type, "manifest");
}

#[test]
fn test_repeated_top_level_manifest_merges_attributes() {
    // A second `manifest` start-element while the stack again holds
    // exactly the root merges its attributes too.
    let mut doc = utf8_pool_chunk(&["manifest", "package", "com.example", "versionName", "1.0"]);
    doc.extend(start_element_chunk(0, &[(0xffffffff, 1, 2, 0x03, 0)]));
    doc.extend(start_element_chunk(0, &[(0xffffffff, 3, 4, 0x03, 0)]));
    doc.extend(end_element_chunk(0));
    let root = parse_xml(AxmlCursor::new(doc)).unwrap();
    assert_eq!(root.attributes, vec![
        (String::from("package"), String::from("com.example")),
        (String::from("versionName"), String::from("1.0")),
    ]);
    assert!(root.children.is_empty());
}

#[test]
fn test_empty_document_yields_bare_root() {
    // End of input at the first chunk boundary: the synthetic root
    // comes back untouched.
    let root = parse_xml(AxmlCursor::new(Vec::new())).unwrap();
    assert_eq!(root.element_type, "manifest");
    assert!(root.attributes.is_empty());
    assert!(root.children.is_empty());
}

#[test]
fn test_truncated_start_element_fails() {
    let mut doc = utf8_pool_chunk(&["manifest"]);
    let mut chunk = start_element_chunk(0, &[(0xffffffff, 0, 0, 0x03, 0)]);
    chunk.truncate(chunk.len() - 6); // cut into the attribute block
    doc.extend(chunk);
    let result = parse_xml(AxmlCursor::new(doc));
    assert_eq!(result.unwrap_err(), FormatError::TruncatedInput);
}

#[test]
fn test_get_manifest_contents_entry_point() {
    let root = axml::get_manifest_contents(AxmlCursor::new(minimal_manifest_doc())).unwrap();
    assert_eq!(root.element_type, "manifest");
    assert_eq!(root.attributes.len(), 1);
}

#[test]
fn test_deep_copy_is_structural() {
    let root = parse_xml(AxmlCursor::new(minimal_manifest_doc())).unwrap();
    let copy = root.deep_copy();
    assert!(elements_equal(&root, &copy));
}

#[test]
fn test_get_attribute_later_pair_wins() {
    let e = XmlElement {
        element_type: String::from("a"),
        attributes: vec![
            (String::from("k"), String::from("v1")),
            (String::from("k"), String::from("v2")),
        ],
        children: Vec::new(),
    };
    assert_eq!(e.get_attribute(&String::from("k")), Some(String::from("v2")));
    assert_eq!(e.get_attribute(&String::from("missing")), None);
}
