use tree_sitter_rb::error::ErrorKind;
use tree_sitter_rb::language::{get_language, get_language_internal, list_languages, symbol_name, LanguageRegistry};
use tree_sitter_rb::node::{byte_window, inspect_parts, span_text};
use tree_sitter_rb::parser::{budget_exhausted, source_window, Parser};
use tree_sitter_rb::point::Point;
use tree_sitter_rb::query::QueryCursor;
use tree_sitter_rb::range::Range;
use tree_sitter_rb::render::decimal_string;

#[test]
fn point_accessors_and_pair() {
    let p = Point::new(3, 7);
    assert_eq!(p.row(), 3);
    assert_eq!(p.column(), 7);
    assert_eq!(p.to_a(), (3, 7));
}

#[test]
fn point_inspect_renders_fields() {
    assert_eq!(Point::new(0, 12).inspect(), "#<TreeSitter::Point row=0 column=12>");
    assert_eq!(Point::new(105, 9).inspect(), "#<TreeSitter::Point row=105 column=9>");
}

#[test]
fn point_equality() {
    assert!(Point::new(1, 2).eq(&Point::new(1, 2)));
    assert!(!Point::new(1, 2).eq(&Point::new(2, 1)));
}

#[test]
fn range_round_trip_and_size() {
    let r = Range::new(4, 10, Point::new(0, 4), Point::new(1, 2));
    assert_eq!(r.start_byte(), 4);
    assert_eq!(r.end_byte(), 10);
    assert_eq!(r.start_point(), Point::new(0, 4));
    assert_eq!(r.end_point(), Point::new(1, 2));
    assert_eq!(r.size(), 6);
}

#[test]
fn range_inspect_renders_size() {
    let r = Range::new(4, 10, Point::new(0, 4), Point::new(0, 10));
    assert_eq!(r.inspect(), "#<TreeSitter::Range start_byte=4 end_byte=10 size=6>");
    let empty = Range::new(0, 0, Point::new(0, 0), Point::new(0, 0));
    assert_eq!(empty.size(), 0);
    assert_eq!(empty.inspect(), "#<TreeSitter::Range start_byte=0 end_byte=0 size=0>");
}

#[test]
fn decimal_numerals() {
    assert_eq!(decimal_string(0), "0");
    assert_eq!(decimal_string(9), "9");
    assert_eq!(decimal_string(10), "10");
    assert_eq!(decimal_string(4096), "4096");
    assert_eq!(decimal_string(usize::MAX), usize::MAX.to_string());
}

#[test]
fn span_text_slices_source() {
    let source = "fn add(a: i32) {}";
    assert_eq!(span_text(source, 3, 6), "add");
    assert_eq!(span_text(source, 0, source.len()), source);
    assert_eq!(span_text(source, 5, 5), "");
}

#[test]
fn span_text_out_of_range_is_empty() {
    let source = "abc";
    assert_eq!(span_text(source, 1, 4), "");
    assert_eq!(span_text(source, 2, 1), "");
    assert_eq!(span_text(source, 10, 12), "");
}

#[test]
fn span_text_off_char_boundary_is_empty() {
    let source = "aé";
    assert_eq!(span_text(source, 1, 3), "é");
    assert_eq!(span_text(source, 1, 2), "");
}

#[test]
fn node_inspect_quotes_kind() {
    assert_eq!(
        inspect_parts("identifier", 3, 6),
        "#<TreeSitter::Node kind=\"identifier\" start_byte=3 end_byte=6>"
    );
    assert_eq!(
        inspect_parts("\"", 0, 1),
        "#<TreeSitter::Node kind=\"\\\"\" start_byte=0 end_byte=1>"
    );
}

#[test]
fn entry_point_symbol_name() {
    assert_eq!(symbol_name("rust"), "tree_sitter_rust");
    assert_eq!(symbol_name(""), "tree_sitter_");
}

#[test]
fn empty_registry_lists_nothing() {
    let registry = LanguageRegistry::new();
    assert!(list_languages(&registry).is_empty());
}

#[test]
fn lookup_of_unregistered_name_fails() {
    let registry = LanguageRegistry::new();
    let err = get_language(&registry, "ruby".to_string()).err().unwrap();
    assert_eq!(err.kind(), ErrorKind::NotFoundError);
    assert_eq!(
        err.message(),
        "Language 'ruby' not registered. Call TreeSitter.register_language first."
    );
    let err = get_language_internal(&registry, &"ruby".to_string()).err().unwrap();
    assert_eq!(err.kind(), ErrorKind::NotFoundError);
}

#[test]
fn parser_starts_without_language_or_budget() {
    let registry = LanguageRegistry::new();
    let parser = Parser::new();
    assert_eq!(parser.timeout_micros(), 0);
    assert!(parser.language(&registry).unwrap().is_none());
}

#[test]
fn parse_without_language_fails() {
    let mut parser = Parser::new();
    let err = parser.parse("fn main() {}".to_string(), None).err().unwrap();
    assert_eq!(err.kind(), ErrorKind::NoLanguageError);
    assert_eq!(err.message(), "No language set. Call `parser.language = 'name'` first.");
}

#[test]
fn set_unknown_language_fails_and_keeps_state() {
    let registry = LanguageRegistry::new();
    let mut parser = Parser::new();
    let err = parser.set_language(&registry, "nope".to_string()).err().unwrap();
    assert_eq!(err.kind(), ErrorKind::NotFoundError);
    assert!(parser.language(&registry).unwrap().is_none());
    let err = parser.parse(String::new(), None).err().unwrap();
    assert_eq!(err.kind(), ErrorKind::NoLanguageError);
}

#[test]
fn timeout_accessors_and_reset() {
    let mut parser = Parser::new();
    parser.set_timeout_micros(1);
    assert_eq!(parser.timeout_micros(), 1);
    parser.reset();
    assert_eq!(parser.timeout_micros(), 1);
    parser.set_timeout_micros(0);
    assert_eq!(parser.timeout_micros(), 0);
}

#[test]
fn budget_decision() {
    assert!(!budget_exhausted(0, 1));
    assert!(budget_exhausted(1, 1));
    assert!(budget_exhausted(5, 1));
    assert!(!budget_exhausted(999, 1000));
    assert!(budget_exhausted(0, 0));
}

#[test]
fn source_windows() {
    let bytes = b"hello";
    assert_eq!(source_window(bytes, 0), b"hello");
    assert_eq!(source_window(bytes, 3), b"lo");
    assert!(source_window(bytes, 5).is_empty());
    assert!(source_window(bytes, 9).is_empty());
}

#[test]
fn cursor_can_be_created() {
    let _cursor = QueryCursor::new();
}

#[test]
fn byte_windows_stay_in_bounds() {
    let bytes = b"let x = 1;";
    assert_eq!(byte_window(bytes, 4, 5), b"x");
    assert_eq!(byte_window(bytes, 0, 10), b"let x = 1;");
    assert!(byte_window(bytes, 8, 20).is_empty());
    assert!(byte_window(bytes, 6, 3).is_empty());
    assert!(byte_window(bytes, 3, 3).is_empty());
}
