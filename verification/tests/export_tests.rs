use itemdoc::allman::JSONFormatAllman;
use itemdoc::compact::JSONFormatCompact;
use itemdoc::context::{ContextError, ExportError};
use itemdoc::formats::OutputFormats;
use itemdoc::knr::JSONFormatKNR;
use itemdoc::linear::JSONFormatLinear;
use itemdoc::sink::ByteBuffer;
use itemdoc::whitesmith::JSONFormatWhitesmith;
use itemdoc::yaml::YAMLFormat;

fn text(buf: ByteBuffer) -> String {
    String::from_utf8(buf.into_bytes()).unwrap()
}

#[test]
fn compact_list_of_scalars() {
    let mut fmt = JSONFormatCompact::new(ByteBuffer::new());
    fmt.list_open().unwrap();
    fmt.list_write_null().unwrap();
    fmt.list_write_bool(true).unwrap();
    fmt.list_write_number(&"42".to_string()).unwrap();
    fmt.list_write_string(&"hi".to_string()).unwrap();
    fmt.list_write_empty_list().unwrap();
    fmt.list_write_empty_hash().unwrap();
    fmt.list_close().unwrap();
    assert_eq!(text(fmt.into_writer()), "[null,true,42,\"hi\",[],{}]");
}

#[test]
fn compact_empty_list_literal() {
    let mut fmt = JSONFormatCompact::new(ByteBuffer::new());
    fmt.list_open().unwrap();
    fmt.list_close().unwrap();
    assert_eq!(text(fmt.into_writer()), "[]");
}

#[test]
fn compact_empty_hash_literal() {
    let mut fmt = JSONFormatCompact::new(ByteBuffer::new());
    fmt.hash_open().unwrap();
    fmt.hash_close().unwrap();
    assert_eq!(text(fmt.into_writer()), "{}");
}

#[test]
fn allman_empty_list_literal() {
    let mut fmt = JSONFormatAllman::new(ByteBuffer::new(), None);
    fmt.list_open().unwrap();
    fmt.list_close().unwrap();
    assert_eq!(text(fmt.into_writer()), "[ ]");
}

#[test]
fn allman_hash_spacing() {
    let mut fmt = JSONFormatAllman::new(ByteBuffer::new(), None);
    fmt.hash_open().unwrap();
    fmt.hash_write_number(&"a".to_string(), &"1".to_string()).unwrap();
    fmt.hash_write_bool(&"b".to_string(), false).unwrap();
    fmt.hash_close().unwrap();
    assert_eq!(text(fmt.into_writer()), "{ \"a\": 1, \"b\": false }");
}

#[test]
fn whitesmith_hash_spacing() {
    let mut fmt = JSONFormatWhitesmith::new(ByteBuffer::new(), None);
    fmt.hash_open().unwrap();
    fmt.hash_write_number(&"a".to_string(), &"1".to_string()).unwrap();
    fmt.hash_write_bool(&"b".to_string(), false).unwrap();
    fmt.hash_close().unwrap();
    assert_eq!(text(fmt.into_writer()), "{ \"a\":1, \"b\":false }");
}

#[test]
fn linear_list_spacing() {
    let mut fmt = JSONFormatLinear::new(ByteBuffer::new());
    fmt.list_open().unwrap();
    fmt.list_write_number(&"1".to_string()).unwrap();
    fmt.list_write_number(&"2".to_string()).unwrap();
    fmt.list_close().unwrap();
    assert_eq!(text(fmt.into_writer()), "[1, 2]");
}

#[test]
fn knr_nested_hash_and_list() {
    let mut fmt = JSONFormatKNR::new(ByteBuffer::new(), None);
    fmt.hash_open().unwrap();
    fmt.hash_write_number(&"a".to_string(), &"1".to_string()).unwrap();
    fmt.hash_begin_next(&"b".to_string()).unwrap();
    fmt.list_open().unwrap();
    fmt.list_write_number(&"2".to_string()).unwrap();
    fmt.list_write_number(&"3".to_string()).unwrap();
    fmt.list_close().unwrap();
    fmt.hash_close().unwrap();
    assert_eq!(
        text(fmt.into_writer()),
        "{\r\n\t\"a\": 1,\r\n\t\"b\": [\r\n\t\t2,\r\n\t\t3\r\n\t]\r\n}"
    );
}

#[test]
fn knr_empty_containers() {
    let mut fmt = JSONFormatKNR::new(ByteBuffer::new(), None);
    fmt.list_open().unwrap();
    fmt.list_close().unwrap();
    assert_eq!(text(fmt.into_writer()), "[ ]");
    let mut fmt2 = JSONFormatKNR::new(ByteBuffer::new(), None);
    fmt2.hash_open().unwrap();
    fmt2.hash_close().unwrap();
    assert_eq!(text(fmt2.into_writer()), "{ }");
}

#[test]
fn yaml_block_scenario() {
    let mut fmt = YAMLFormat::new(ByteBuffer::new(), None);
    fmt.hash_open().unwrap();
    fmt.hash_write_number(&"a".to_string(), &"1".to_string()).unwrap();
    fmt.hash_begin_next(&"b".to_string()).unwrap();
    fmt.list_open().unwrap();
    fmt.list_write_number(&"2".to_string()).unwrap();
    fmt.list_write_number(&"3".to_string()).unwrap();
    fmt.list_close().unwrap();
    fmt.hash_close().unwrap();
    assert_eq!(
        text(fmt.into_writer()),
        "\"a\": 1\r\n\"b\": \r\n  - 2\r\n  - 3"
    );
}

#[test]
fn yaml_empty_containers_use_flow_literals() {
    let mut fmt = YAMLFormat::new(ByteBuffer::new(), None);
    fmt.list_open().unwrap();
    fmt.list_close().unwrap();
    assert_eq!(text(fmt.into_writer()), "[]");
    let mut fmt2 = YAMLFormat::new(ByteBuffer::new(), None);
    fmt2.hash_open().unwrap();
    fmt2.hash_close().unwrap();
    assert_eq!(text(fmt2.into_writer()), "{}");
}

#[test]
fn mismatched_close_is_a_context_error() {
    let mut fmt = JSONFormatCompact::new(ByteBuffer::new());
    fmt.list_open().unwrap();
    let r = fmt.hash_close();
    assert!(matches!(
        r,
        Err(ExportError::Context(ContextError::NotAnItemHash))
    ));
}

#[test]
fn close_without_open_is_a_context_error() {
    let mut fmt = JSONFormatCompact::new(ByteBuffer::new());
    let r = fmt.list_close();
    assert!(matches!(
        r,
        Err(ExportError::Context(ContextError::NotAnItemList))
    ));
}

#[test]
fn string_values_are_escaped_and_quoted() {
    let mut fmt = JSONFormatCompact::new(ByteBuffer::new());
    fmt.list_open().unwrap();
    fmt.list_write_string(&"a\"b\\c\nd".to_string()).unwrap();
    fmt.list_write_string(&"\u{1}".to_string()).unwrap();
    fmt.list_close().unwrap();
    assert_eq!(
        text(fmt.into_writer()),
        "[\"a\\\"b\\\\c\\nd\",\"\\u0001\"]"
    );
}

#[test]
fn nested_lists_in_compact_style() {
    let mut fmt = JSONFormatCompact::new(ByteBuffer::new());
    fmt.list_open().unwrap();
    fmt.list_write_number(&"1".to_string()).unwrap();
    fmt.list_open().unwrap();
    fmt.list_write_number(&"2".to_string()).unwrap();
    fmt.list_close().unwrap();
    fmt.list_write_number(&"3".to_string()).unwrap();
    fmt.list_close().unwrap();
    assert_eq!(text(fmt.into_writer()), "[1,[2],3]");
}

#[test]
fn output_formats_dispatches_each_style() {
    let mut compact = OutputFormats::Compact(JSONFormatCompact::new(ByteBuffer::new()));
    compact.list_open().unwrap();
    compact.list_close().unwrap();
    assert_eq!(text(compact.into_writer()), "[]");

    let mut allman = OutputFormats::Allman(JSONFormatAllman::new(ByteBuffer::new(), None));
    allman.list_open().unwrap();
    allman.list_close().unwrap();
    assert_eq!(text(allman.into_writer()), "[ ]");

    let mut yaml = OutputFormats::YAML(YAMLFormat::new(ByteBuffer::new(), None));
    yaml.hash_open().unwrap();
    yaml.hash_write_bool(&"ok".to_string(), true).unwrap();
    yaml.hash_close().unwrap();
    assert_eq!(text(yaml.into_writer()), "\"ok\": true");
}

#[test]
fn knr_indent_cache_is_exposed() {
    let mut fmt = JSONFormatKNR::new(ByteBuffer::new(), Some("  ".to_string()));
    fmt.list_open().unwrap();
    assert_eq!(fmt.get_indent_vec().as_slice(), &b"  "[..]);
    assert_eq!(fmt.get_outdent_vec().as_slice(), &b""[..]);
    fmt.list_open().unwrap();
    assert_eq!(fmt.get_indent_vec().as_slice(), &b"    "[..]);
    assert_eq!(fmt.get_outdent_vec().as_slice(), &b"  "[..]);
}

#[test]
fn linear_empty_containers() {
    let mut fmt = JSONFormatLinear::new(ByteBuffer::new());
    fmt.list_open().unwrap();
    fmt.list_close().unwrap();
    assert_eq!(text(fmt.into_writer()), "[]");
    let mut fmt2 = JSONFormatLinear::new(ByteBuffer::new());
    fmt2.hash_open().unwrap();
    fmt2.hash_close().unwrap();
    assert_eq!(text(fmt2.into_writer()), "{}");
}

#[test]
fn whitesmith_empty_containers() {
    let mut fmt = JSONFormatWhitesmith::new(ByteBuffer::new(), None);
    fmt.list_open().unwrap();
    fmt.list_close().unwrap();
    assert_eq!(text(fmt.into_writer()), "[ ]");
    let mut fmt2 = JSONFormatWhitesmith::new(ByteBuffer::new(), None);
    fmt2.hash_open().unwrap();
    fmt2.hash_close().unwrap();
    assert_eq!(text(fmt2.into_writer()), "{ }");
}

#[test]
fn allman_empty_hash_literal() {
    let mut fmt = JSONFormatAllman::new(ByteBuffer::new(), None);
    fmt.hash_open().unwrap();
    fmt.hash_close().unwrap();
    assert_eq!(text(fmt.into_writer()), "{ }");
}
