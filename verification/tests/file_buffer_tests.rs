use can_c_codegen_rs::errors::Error;
use can_c_codegen_rs::file_buffer::{FileBuffer, id_debug_text_quoted};
use can_c_codegen_rs::options::{Options, Platform};
use can_c_codegen_rs::source_block::{SourceBlock, SourceBlockIdentifier};

fn definition(name: &str, content: &str, deps: Vec<SourceBlockIdentifier>) -> SourceBlock {
    SourceBlock::new(SourceBlockIdentifier::Definition(name.to_owned()), content.to_owned(), deps)
}

fn import(path: &str) -> SourceBlockIdentifier {
    SourceBlockIdentifier::Import(path.to_owned())
}

#[test]
fn duplicate_definition_is_refused() {
    let mut f = FileBuffer::new("x.h");
    assert_eq!(f.add_block(definition("a", "int a;\n", vec![])), Ok(()));
    assert_eq!(f.add_block(definition("a", "int a2;\n", vec![])), Err(Error::DuplicatedBlockIdentifier));
    assert_eq!(f.render(None), "int a;\n");
}

#[test]
fn duplicate_declaration_is_refused() {
    let mut f = FileBuffer::new("x.h");
    let decl = |c: &str| SourceBlock::new(SourceBlockIdentifier::Declartion("f".to_owned()), c.to_owned(), vec![]);
    assert_eq!(f.add_block(decl("void f();\n")), Ok(()));
    assert_eq!(f.add_block(decl("void f(int);\n")), Err(Error::DuplicatedBlockIdentifier));
    assert_eq!(f.render(None), "void f();\n");
}

#[test]
fn repeated_import_is_ignored() {
    let mut f = FileBuffer::new("x.h");
    let b = || SourceBlock::new(import("stdint.h"), "#include <stdint.h>\n".to_owned(), vec![]);
    assert_eq!(f.add_block(b()), Ok(()));
    assert_eq!(f.add_block(b()), Ok(()));
    assert_eq!(f.render(None), "#include <stdint.h>\n");
}

#[test]
fn same_name_different_kind_is_accepted() {
    let mut f = FileBuffer::new("x.h");
    let d = SourceBlock::new(SourceBlockIdentifier::Declartion("f".to_owned()), "void f();\n".to_owned(), vec![]);
    assert_eq!(f.add_block(d), Ok(()));
    assert_eq!(f.add_block(definition("f", "void f() {}\n", vec![])), Ok(()));
    assert_eq!(f.render(None), "void f();\nvoid f() {}\n");
}

#[test]
fn empty_file_renders_empty() {
    let f = FileBuffer::new("x.c");
    assert_eq!(f.render(None), "");
    assert_eq!(f.path(), "x.c");
}

#[test]
fn empty_file_with_guard() {
    let f = FileBuffer::new("x.h");
    assert_eq!(
        f.render(Some("G".to_owned())),
        "#ifndef G\n#define G\n#ifdef __cplusplus\nextern \"C\" {\n#endif\n\n#ifdef __cplusplus \n}\n#endif\n#endif\n"
    );
}

#[test]
fn render_orders_includes_guard_imports_blocks() {
    let mut h = FileBuffer::new("a.h");
    let mut s = FileBuffer::new("a.c");
    h.add_block(definition("x", "X;\n", vec![import("stdint.h"), import("stdint.h"), import("b.h")])).unwrap();
    h.add_block(definition("y", "Y;\n", vec![import("b.h"), SourceBlockIdentifier::Definition("x".to_owned()), import("c.h")]))
        .unwrap();
    s.add_block(definition("z", "Z;\n", vec![])).unwrap();
    s.include_file_buffer(&h);
    assert_eq!(
        h.render(Some("G".to_owned())),
        "#ifndef G\n#define G\n#ifdef __cplusplus\nextern \"C\" {\n#endif\n#include \"stdint.h\"\n#include \"b.h\"\n#include \"c.h\"\nX;\nY;\n\n#ifdef __cplusplus \n}\n#endif\n#endif\n"
    );
    assert_eq!(s.render(None), "#include \"a.h\"\nZ;\n");
}

#[test]
fn debug_text_lists_blocks() {
    let mut f = FileBuffer::new("a.h");
    f.add_block(definition("x", "X;\n", vec![])).unwrap();
    f.add_block(SourceBlock::new(import("q\"x.h"), String::new(), vec![])).unwrap();
    f.add_block(SourceBlock::new(SourceBlockIdentifier::Declartion("y".to_owned()), "Y;\n".to_owned(), vec![])).unwrap();
    assert_eq!(f.debug_text(), "FILE = a.h\n//Definition(\"x\")\nX;\n//Import(\"q\\\"x.h\")\n//Declartion(\"y\")\nY;\n");
}

#[test]
fn source_block_parts() {
    let b = SourceBlock::new(SourceBlockIdentifier::Definition("n".to_owned()), "c".to_owned(), vec![import("i.h")]);
    assert_eq!(b.content(), "c");
    assert_eq!(b.id(), &SourceBlockIdentifier::Definition("n".to_owned()));
    assert_eq!(b.dependencies(), &vec![import("i.h")]);
}

#[test]
fn options_default_and_setters() {
    let mut o = Options::default();
    assert_eq!(o.source_file_path(), "canzero.c");
    assert_eq!(o.header_file_path(), "canzero.h");
    assert_eq!(o.platform(), &Platform::Linux);
    assert_eq!(o.indent(), 2);
    assert_eq!(o.namespace(), "can");
    o.set_source_file_path("out/x.c");
    o.set_header_file_path("out/x.h");
    o.set_indent(4);
    o.set_namespace("canzero");
    o.set_platform(Platform::Linux);
    assert_eq!(o.source_file_path(), "out/x.c");
    assert_eq!(o.header_file_path(), "out/x.h");
    assert_eq!(o.indent(), 4);
    assert_eq!(o.namespace(), "canzero");
}

#[test]
fn identifier_debug_form_around_quoted_name() {
    assert_eq!(id_debug_text_quoted(&import("x.h"), "\"x.h\""), "Import(\"x.h\")");
    assert_eq!(id_debug_text_quoted(&SourceBlockIdentifier::Declartion("f".to_owned()), "Q"), "Declartion(Q)");
    assert_eq!(id_debug_text_quoted(&SourceBlockIdentifier::Definition("f".to_owned()), "Q"), "Definition(Q)");
}
