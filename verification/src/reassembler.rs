use vstd::prelude::*;

use crate::definition::FunctionDefinition;
use crate::definition::FunctionDefinitionView;
use crate::definition::Item;
use crate::definition::ItemModel;
use crate::definition::ParseError;
use crate::definition::PrologueBlock;
use crate::definition::VersionLookup;
use crate::parser::parse;
use crate::parser::spec_parse;
use crate::prologue::spec_prologue;
use crate::prologue::synthesize_prologue;

verus! {

/// The transformed definition: attributes, visibility and signature of the
/// original, and the prologue's statements followed by the original body.
pub open spec fn spec_reassemble(
    d: FunctionDefinitionView,
    prologue: Seq<Seq<char>>,
) -> FunctionDefinitionView {
    FunctionDefinitionView {
        attributes: d.attributes,
        visibility: d.visibility,
        signature: d.signature,
        body: prologue + d.body,
    }
}

/// Builds a new function definition with identical attributes (in order),
/// identical visibility (including its absence) and identical signature,
/// whose body is the prologue's statements followed by every original
/// statement, in order: nothing is inspected, rewritten or dropped.
pub fn reassemble(def: FunctionDefinition, prologue: PrologueBlock) -> (r: FunctionDefinition)
    ensures
        r@ == spec_reassemble(def@, prologue@),
{
    let ghost dv = def@;
    let ghost pv = prologue@;
    let FunctionDefinition { attributes, visibility, signature, body } = def;
    let mut new_body = prologue.statements;
    let mut rest = body;
    new_body.append(&mut rest);
    proof {
        assert forall|i: int| 0 <= i < new_body@.len() implies new_body.deep_view()[i] == (pv
            + dv.body)[i] by {}
        assert(new_body.deep_view() =~= pv + dv.body);
    }
    FunctionDefinition { attributes, visibility, signature, body: new_body }
}

/// What the whole transformation yields for one item and one metadata key:
/// the reassembled definition for a function, the parser's error otherwise.
pub open spec fn spec_auto_version(item: ItemModel, key: Seq<char>) -> Result<
    FunctionDefinitionView,
    ParseError,
> {
    match spec_parse(item) {
        Ok(d) => Ok(spec_reassemble(d, spec_prologue(key))),
        Err(e) => Err(e),
    }
}

/// The transformation itself: parses the item, synthesizes the prologue
/// for the given version lookup, and reassembles. A function definition
/// always comes back transformed; any other item is refused, so that the
/// build stops instead of silently keeping an undecorated entry point.
pub fn auto_version(item: Item, lookup: &VersionLookup) -> (r: Result<
    FunctionDefinition,
    ParseError,
>)
    ensures
        (match r {
            Ok(d) => spec_auto_version(item@, lookup@) == Ok::<FunctionDefinitionView, ParseError>(
                d@,
            ),
            Err(e) => spec_auto_version(item@, lookup@) == Err::<FunctionDefinitionView, ParseError>(
                e,
            ),
        }),
{
    match parse(item) {
        Ok(d) => {
            let prologue = synthesize_prologue(lookup);
            Ok(reassemble(d, prologue))
        },
        Err(e) => Err(e),
    }
}

} // verus!
