use auto_version::FunctionDefinition;
use auto_version::Item;
use auto_version::ItemKind;
use auto_version::ParseError;
use auto_version::VersionLookup;
use auto_version::escape_literal;
use auto_version::parse;
use auto_version::prologue_effect;
use auto_version::reassemble;
use auto_version::render;
use auto_version::synthesize_prologue;
use auto_version::version_line;

const FALLBACK: &str = "`auto_version` macro only works for projects compiled with cargo";

#[test]
fn short_flag_prints_version() {
    let args = vec!["target/debug/test_auto_version".to_string(), "-v".to_string()];
    let version = Some("0.0.1".to_string());
    assert_eq!(prologue_effect(&args, &version), Some("0.0.1".to_string()));
}

#[test]
fn long_flag_prints_version() {
    let args = vec!["target/debug/test_auto_version".to_string(), "--version".to_string()];
    let version = Some("0.0.1".to_string());
    assert_eq!(prologue_effect(&args, &version), Some("0.0.1".to_string()));
}

#[test]
fn empty_argument_list_falls_through() {
    let args: Vec<String> = vec![];
    assert_eq!(prologue_effect(&args, &Some("0.0.1".to_string())), None);
    assert_eq!(prologue_effect(&args, &None), None);
}

#[test]
fn no_arguments_fall_through() {
    let args = vec!["target/debug/test_auto_version".to_string()];
    let version = Some("0.0.1".to_string());
    assert_eq!(prologue_effect(&args, &version), None);
}

#[test]
fn unrelated_arguments_fall_through() {
    let args = vec![
        "app".to_string(),
        "-x".to_string(),
        "version".to_string(),
        "-version".to_string(),
        "--v".to_string(),
        "-vv".to_string(),
        "--versions".to_string(),
    ];
    let version = Some("0.0.1".to_string());
    assert_eq!(prologue_effect(&args, &version), None);
}

#[test]
fn flag_anywhere_wins_over_everything_after_it() {
    let args = vec![
        "app".to_string(),
        "ordinary".to_string(),
        "--version".to_string(),
        "-v".to_string(),
        "more".to_string(),
    ];
    let version = Some("1.2.3".to_string());
    assert_eq!(prologue_effect(&args, &version), Some("1.2.3".to_string()));
}

#[test]
fn fallback_line_is_exact() {
    let args = vec!["app".to_string(), "--version".to_string()];
    assert_eq!(prologue_effect(&args, &None), Some(FALLBACK.to_string()));
    assert_eq!(version_line(&None), FALLBACK.to_string());
}

#[test]
fn parse_accepts_a_function_unchanged() {
    let d = FunctionDefinition {
        attributes: vec!["#[inline]".to_string()],
        visibility: Some("pub".to_string()),
        signature: "fn answer() -> u32".to_string(),
        body: vec!["let x = 41;".to_string(), "x + 1".to_string()],
    };
    let r = parse(Item::Function(d)).unwrap();
    assert_eq!(r.attributes, vec!["#[inline]".to_string()]);
    assert_eq!(r.visibility, Some("pub".to_string()));
    assert_eq!(r.signature, "fn answer() -> u32".to_string());
    assert_eq!(r.body, vec!["let x = 41;".to_string(), "x + 1".to_string()]);
}

#[test]
fn parse_rejects_every_other_kind() {
    for kind in [
        ItemKind::TypeDefinition,
        ItemKind::Constant,
        ItemKind::Module,
        ItemKind::Other,
    ] {
        let r = parse(Item::Foreign(kind));
        assert_eq!(r.unwrap_err(), ParseError::NotAFunction { kind });
    }
}

#[test]
fn diagnostic_names_the_kind() {
    let e = ParseError::NotAFunction { kind: ItemKind::Module };
    assert_eq!(
        e.diagnostic(),
        "expected a function definition, found a module".to_string()
    );
}

#[test]
fn reassemble_preserves_everything_and_prepends() {
    let d = FunctionDefinition {
        attributes: vec!["#[inline]".to_string(), "#[cold]".to_string()],
        visibility: None,
        signature: "fn run()".to_string(),
        body: vec!["a();".to_string(), "b();".to_string()],
    };
    let prologue = synthesize_prologue(&VersionLookup::cargo_package_version());
    let stmt = prologue.statements[0].clone();
    let r = reassemble(d, prologue);
    assert_eq!(r.attributes, vec!["#[inline]".to_string(), "#[cold]".to_string()]);
    assert_eq!(r.visibility, None);
    assert_eq!(r.signature, "fn run()".to_string());
    assert_eq!(r.body, vec![stmt, "a();".to_string(), "b();".to_string()]);
}

#[test]
fn escaping_is_exact() {
    assert_eq!(escape_literal("0.0.1"), "0.0.1".to_string());
    assert_eq!(escape_literal("A\"B\\C"), "A\\\"B\\\\C".to_string());
    assert_eq!(escape_literal(""), "".to_string());
}

#[test]
fn prologue_is_one_statement_with_key_and_fallback() {
    let prologue = synthesize_prologue(&VersionLookup::cargo_package_version());
    assert_eq!(prologue.statements.len(), 1);
    let stmt = &prologue.statements[0];
    assert!(stmt.starts_with("{ let args"));
    assert!(stmt.contains("option_env!(\"CARGO_PKG_VERSION\")"));
    assert!(stmt.contains(FALLBACK));
    assert!(stmt.ends_with("} } }"));
}

#[test]
fn prologue_escapes_the_key() {
    let prologue = synthesize_prologue(&VersionLookup { key: "A\"B\\C".to_string() });
    assert!(prologue.statements[0].contains("option_env!(\"A\\\"B\\\\C\")"));
}

#[test]
fn render_writes_the_definition_back() {
    let d = FunctionDefinition {
        attributes: vec!["#[inline]".to_string()],
        visibility: Some("pub".to_string()),
        signature: "fn answer() -> u32".to_string(),
        body: vec!["let x = 41;".to_string(), "x + 1".to_string()],
    };
    assert_eq!(
        render(&d),
        "#[inline] pub fn answer() -> u32 { let x = 41; x + 1 }".to_string()
    );
}

#[test]
fn render_without_attributes_or_visibility() {
    let d = FunctionDefinition {
        attributes: vec![],
        visibility: None,
        signature: "fn main()".to_string(),
        body: vec![],
    };
    assert_eq!(render(&d), "fn main() { }".to_string());
}
