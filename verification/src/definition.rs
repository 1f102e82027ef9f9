use vstd::prelude::*;
use vstd::string::StringExecFns;

verus! {

/// One function definition taken apart into the pieces the transformation
/// must preserve: attributes, visibility, signature and body statements.
/// Each piece is kept verbatim, as text; the transformation never looks
/// inside one.
#[derive(Debug)]
pub struct FunctionDefinition {
    /// The annotations above the definition, in order.
    pub attributes: Vec<String>,
    /// The visibility marker, or `None` where the definition carries none.
    pub visibility: Option<String>,
    /// Name, parameters and return type, as one piece.
    pub signature: String,
    /// The statements of the body, in order.
    pub body: Vec<String>,
}

/// The mathematical shape of a `FunctionDefinition`: each textual piece as
/// a sequence of characters.
pub struct FunctionDefinitionView {
    pub attributes: Seq<Seq<char>>,
    pub visibility: Option<Seq<char>>,
    pub signature: Seq<char>,
    pub body: Seq<Seq<char>>,
}

impl View for FunctionDefinition {
    type V = FunctionDefinitionView;

    open spec fn view(&self) -> FunctionDefinitionView {
        FunctionDefinitionView {
            attributes: self.attributes.deep_view(),
            visibility: self.visibility.deep_view(),
            signature: self.signature@,
            body: self.body.deep_view(),
        }
    }
}

/// What kind of top-level item a piece of source text holds.
#[derive(Clone, Copy, PartialEq, Eq, Structural, Debug)]
pub enum ItemKind {
    /// A function definition.
    Function,
    /// A struct, enum, union or type alias.
    TypeDefinition,
    /// A constant or a static.
    Constant,
    /// A module or module declaration.
    Module,
    /// Any other item.
    Other,
}

/// The kind written out as it stands in a diagnostic.
pub open spec fn spec_kind_text(k: ItemKind) -> Seq<char> {
    match k {
        ItemKind::Function => "a function definition"@,
        ItemKind::TypeDefinition => "a type definition"@,
        ItemKind::Constant => "a constant"@,
        ItemKind::Module => "a module"@,
        ItemKind::Other => "an item of another kind"@,
    }
}

impl ItemKind {
    /// The kind written out as it stands in a diagnostic.
    pub fn describe(&self) -> (r: &'static str)
        ensures
            r@ == spec_kind_text(*self),
    {
        match self {
            ItemKind::Function => "a function definition",
            ItemKind::TypeDefinition => "a type definition",
            ItemKind::Constant => "a constant",
            ItemKind::Module => "a module",
            ItemKind::Other => "an item of another kind",
        }
    }
}

/// One top-level item as the transformation receives it: a function
/// definition taken apart, or an item of some other kind, which the
/// transformation refuses.
#[derive(Debug)]
pub enum Item {
    Function(FunctionDefinition),
    Foreign(ItemKind),
}

/// The mathematical shape of an `Item`.
pub enum ItemModel {
    Function(FunctionDefinitionView),
    Foreign(ItemKind),
}

impl View for Item {
    type V = ItemModel;

    open spec fn view(&self) -> ItemModel {
        match self {
            Item::Function(d) => ItemModel::Function(d@),
            Item::Foreign(k) => ItemModel::Foreign(*k),
        }
    }
}

/// Why a transformation was refused: the item handed in was not a function
/// definition, or the text did not hold a single well-formed item at all.
#[derive(Clone, Copy, PartialEq, Eq, Structural, Debug)]
pub enum ParseError {
    /// The item is well formed but of some other kind than a function.
    NotAFunction { kind: ItemKind },
    /// The text does not hold one well-formed top-level item.
    Unreadable,
}

/// The diagnostic the build stops with, word for word.
pub open spec fn spec_diagnostic(e: ParseError) -> Seq<char> {
    match e {
        ParseError::NotAFunction { kind } => "expected a function definition, found "@
            + spec_kind_text(kind),
        ParseError::Unreadable => "expected a function definition, found text that is not one well-formed item"@,
    }
}

impl ParseError {
    /// The diagnostic the build stops with, identifying the offending item.
    pub fn diagnostic(&self) -> (r: String)
        ensures
            r@ == spec_diagnostic(*self),
    {
        match self {
            ParseError::NotAFunction { kind } => {
                let mut text = String::from_str("expected a function definition, found ");
                text.append(kind.describe());
                text
            },
            ParseError::Unreadable => String::from_str(
                "expected a function definition, found text that is not one well-formed item",
            ),
        }
    }
}

/// The synthesized prologue: an ordered sequence of statements, each as
/// text, built fresh on every transformation and spliced in front of the
/// original body.
pub struct PrologueBlock {
    pub statements: Vec<String>,
}

impl View for PrologueBlock {
    type V = Seq<Seq<char>>;

    open spec fn view(&self) -> Seq<Seq<char>> {
        self.statements.deep_view()
    }
}

/// How the synthesized prologue resolves the version when the transformed
/// program is built: by looking up this key in the build metadata.
pub struct VersionLookup {
    pub key: String,
}

impl View for VersionLookup {
    type V = Seq<char>;

    open spec fn view(&self) -> Seq<char> {
        self.key@
    }
}

impl VersionLookup {
    /// The lookup used when the transformed program is built with cargo:
    /// the version of its own package.
    pub fn cargo_package_version() -> (r: VersionLookup)
        ensures
            r@ == "CARGO_PKG_VERSION"@,
    {
        VersionLookup { key: "CARGO_PKG_VERSION".to_owned() }
    }
}

} // verus!
