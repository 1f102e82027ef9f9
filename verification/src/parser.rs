use vstd::prelude::*;

use crate::definition::FunctionDefinition;
use crate::definition::FunctionDefinitionView;
use crate::definition::Item;
use crate::definition::ItemModel;
use crate::definition::ParseError;

verus! {

/// What parsing one top-level item yields: the function definition itself,
/// or an error naming the kind of the item that was refused.
pub open spec fn spec_parse(item: ItemModel) -> Result<FunctionDefinitionView, ParseError> {
    match item {
        ItemModel::Function(d) => Ok(d),
        ItemModel::Foreign(k) => Err(ParseError::NotAFunction { kind: k }),
    }
}

/// Accepts exactly a function definition and hands back its parts
/// unchanged; an item of any other kind is a fatal error, so that a
/// misapplied transformation stops the build instead of being skipped.
pub fn parse(item: Item) -> (r: Result<FunctionDefinition, ParseError>)
    ensures
        (match r {
            Ok(d) => spec_parse(item@) == Ok::<FunctionDefinitionView, ParseError>(d@),
            Err(e) => spec_parse(item@) == Err::<FunctionDefinitionView, ParseError>(e),
        }),
{
    match item {
        Item::Function(d) => Ok(d),
        Item::Foreign(k) => Err(ParseError::NotAFunction { kind: k }),
    }
}

} // verus!
