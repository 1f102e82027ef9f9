use vstd::prelude::*;

use crate::definition::FunctionDefinition;
use crate::definition::FunctionDefinitionView;
use crate::definition::Item;
use crate::definition::ItemKind;
use crate::definition::ItemModel;
use crate::definition::ParseError;
use crate::definition::VersionLookup;
use crate::reassembler::auto_version;
use crate::reassembler::spec_auto_version;
use crate::render::render;
use crate::render::spec_render;

verus! {

/// What the host grammar reads in a piece of source text: one top-level
/// item, or nothing when the text is not one well-formed item. A function
/// item is taken apart into attributes, visibility, signature and body
/// statements, each printed back as text; the result depends on the text
/// alone.
pub uninterp spec fn source_item(src: Seq<char>) -> Option<ItemModel>;

/// Relies on `syn::parse_str::<syn::Item>`: when the text is one function
/// item, hands its parts back, each printed as text by `quote::ToTokens`.
#[verifier::external_body]
fn read_function(src: &str) -> (r: Option<FunctionDefinition>)
    ensures
        (match source_item(src@) {
            Some(m) => match m {
                ItemModel::Function(d) => r matches Some(f) && f@ == d,
                ItemModel::Foreign(_) => r is None,
            },
            None => r is None,
        }),
{
    let f = match syn::parse_str::<syn::Item>(src) {
        Ok(syn::Item::Fn(f)) => f,
        _ => return None,
    };
    Some(FunctionDefinition {
        attributes: f.attrs.iter().map(|a| quote::ToTokens::to_token_stream(a).to_string()).collect(),
        visibility: (match &f.vis {
            syn::Visibility::Inherited => None,
            v => Some(quote::ToTokens::to_token_stream(v).to_string()),
        }),
        signature: quote::ToTokens::to_token_stream(&f.sig).to_string(),
        body: f.block.stmts.iter().map(|s| quote::ToTokens::to_token_stream(s).to_string()).collect(),
    })
}

/// Relies on `syn::parse_str::<syn::Item>`: tells which kind of top-level
/// item the text holds, or that it holds none.
#[verifier::external_body]
fn classify_item(src: &str) -> (r: Option<ItemKind>)
    ensures
        (match source_item(src@) {
            Some(m) => match m {
                ItemModel::Function(_) => r == Some(ItemKind::Function),
                ItemModel::Foreign(k) => r == Some(k),
            },
            None => r is None,
        }),
{
    let item = match syn::parse_str::<syn::Item>(src) {
        Ok(i) => i,
        Err(_) => return None,
    };
    Some(match item {
        syn::Item::Fn(_) => ItemKind::Function,
        syn::Item::Struct(_) | syn::Item::Enum(_) | syn::Item::Union(_) | syn::Item::Type(_) => ItemKind::TypeDefinition,
        syn::Item::Const(_) | syn::Item::Static(_) => ItemKind::Constant,
        syn::Item::Mod(_) => ItemKind::Module,
        _ => ItemKind::Other,
    })
}

/// Reads one top-level item from source text: a function definition comes
/// back taken apart, any other item only by its kind, and text that is not
/// one well-formed item comes back as nothing.
pub fn read_item(src: &str) -> (r: Option<Item>)
    ensures
        (match source_item(src@) {
            Some(m) => r matches Some(it) && it@ == m,
            None => r is None,
        }),
{
    match read_function(src) {
        Some(d) => Some(Item::Function(d)),
        None => match classify_item(src) {
            Some(k) => Some(Item::Foreign(k)),
            None => None,
        },
    }
}

/// The whole transformation on source text: reads the one item the text
/// holds, applies the transformation, and writes the new definition back
/// as text. Text holding a function definition always comes back `Ok`;
/// a well-formed item of any other kind comes back as the error naming
/// its kind, and text that is no single item as `Unreadable`.
pub fn transform_source(src: &str, lookup: &VersionLookup) -> (r: Result<String, ParseError>)
    ensures
        (match r {
            Ok(text) => source_item(src@) matches Some(m) && (spec_auto_version(m, lookup@)
                matches Ok(d) && text@ == spec_render(d)),
            Err(e) => match source_item(src@) {
                Some(m) => spec_auto_version(m, lookup@) == Err::<FunctionDefinitionView,
                    ParseError,
                >(e),
                None => e == ParseError::Unreadable,
            },
        }),
{
    let item = match read_item(src) {
        Some(i) => i,
        None => return Err(ParseError::Unreadable),
    };
    match auto_version(item, lookup) {
        Ok(d) => Ok(render(&d)),
        Err(e) => Err(e),
    }
}

} // verus!
