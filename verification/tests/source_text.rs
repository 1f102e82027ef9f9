use auto_version::Item;
use auto_version::ItemKind;
use auto_version::ParseError;
use auto_version::VersionLookup;
use auto_version::read_item;
use auto_version::transform_source;

#[test]
fn type_definition_text_is_rejected() {
    let r = transform_source("struct S { x: u32 }", &VersionLookup::cargo_package_version());
    assert_eq!(
        r.unwrap_err(),
        ParseError::NotAFunction { kind: ItemKind::TypeDefinition }
    );
}

#[test]
fn constant_text_is_rejected() {
    let r = transform_source("const MAX: u16 = 65535;", &VersionLookup::cargo_package_version());
    assert_eq!(
        r.unwrap_err(),
        ParseError::NotAFunction { kind: ItemKind::Constant }
    );
}

#[test]
fn module_text_is_rejected() {
    let r = transform_source("mod helpers;", &VersionLookup::cargo_package_version());
    assert_eq!(
        r.unwrap_err(),
        ParseError::NotAFunction { kind: ItemKind::Module }
    );
}

#[test]
fn other_item_text_is_rejected() {
    let r = transform_source("use core::cmp::Ordering;", &VersionLookup::cargo_package_version());
    assert_eq!(
        r.unwrap_err(),
        ParseError::NotAFunction { kind: ItemKind::Other }
    );
}

#[test]
fn text_that_is_no_item_is_unreadable() {
    let r = transform_source("== not an item ==", &VersionLookup::cargo_package_version());
    assert_eq!(r.unwrap_err(), ParseError::Unreadable);
}

#[test]
fn function_text_is_taken_apart() {
    let item = read_item("#[inline] pub fn main() { println!(\"Hello world!\"); }").unwrap();
    match item {
        Item::Function(d) => {
            assert_eq!(d.attributes.len(), 1);
            assert!(d.attributes[0].contains("inline"));
            assert_eq!(d.visibility, Some("pub".to_string()));
            assert!(d.signature.contains("fn main"));
            assert_eq!(d.body.len(), 1);
            assert!(d.body[0].contains("Hello world!"));
        }
        Item::Foreign(k) => panic!("expected a function, classified as {:?}", k),
    }
}

#[test]
fn foreign_text_keeps_its_kind() {
    let item = read_item("static COUNT: u32 = 0;").unwrap();
    match item {
        Item::Function(_) => panic!("a static is not a function"),
        Item::Foreign(k) => assert_eq!(k, ItemKind::Constant),
    }
}

#[test]
fn transformed_entry_point_keeps_its_statement_after_the_prologue() {
    let out = transform_source(
        "fn main() { println!(\"Hello world!\"); }",
        &VersionLookup::cargo_package_version(),
    )
    .unwrap();
    assert!(out.starts_with("fn main"));
    assert!(out.contains("option_env!(\"CARGO_PKG_VERSION\")"));
    assert!(out.contains("Hello world!"));
    let prologue_at = out.find("{ let args").unwrap();
    let body_at = out.find("Hello world!").unwrap();
    assert!(prologue_at < body_at);
}

#[test]
fn transformed_text_is_exact() {
    let out = transform_source(
        "fn main() { println!(\"Hello world!\"); }",
        &VersionLookup::cargo_package_version(),
    )
    .unwrap();
    assert_eq!(
        out,
        "fn main () { { let args: Vec<std::ffi::OsString> = std::env::args_os().collect(); let v = std::ffi::OsStr::new(\"-v\"); let version = std::ffi::OsStr::new(\"--version\"); for arg in args.iter() { if arg == v || arg == version { match option_env!(\"CARGO_PKG_VERSION\") { Some(found) => println!(\"{}\", found), None => println!(\"`auto_version` macro only works for projects compiled with cargo\") } std::process::exit(0); } } } println ! (\"Hello world!\") ; }".to_string()
    );
}
