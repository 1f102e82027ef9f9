use vstd::prelude::*;

use crate::definition::FunctionDefinitionView;
use crate::definition::ItemKind;
use crate::definition::ItemModel;
use crate::definition::ParseError;
use crate::prologue::has_version_flag;
use crate::prologue::is_version_flag;
use crate::prologue::spec_fallback_line;
use crate::prologue::spec_long_flag;
use crate::prologue::spec_prologue;
use crate::prologue::spec_prologue_effect;
use crate::prologue::spec_short_flag;
use crate::prologue::spec_version_line;
use crate::reassembler::spec_auto_version;

verus! {

/// Structural fidelity: transforming any function definition keeps its
/// attributes, visibility and signature exactly, and its new body is the
/// synthesized prologue followed by the original statements, in order.
pub proof fn lemma_structural_fidelity(d: FunctionDefinitionView, key: Seq<char>)
    ensures
        spec_auto_version(ItemModel::Function(d), key) matches Ok(t) && t.attributes
            == d.attributes && t.visibility == d.visibility && t.signature == d.signature && t.body
            == spec_prologue(key) + d.body,
{
}

/// Non-interference: on any argument list holding neither `-v` nor
/// `--version`, the prologue is a no-op — it writes nothing and the
/// transformed program runs its original body unchanged.
pub proof fn lemma_non_interference(args: Seq<Seq<char>>, version: Option<Seq<char>>)
    requires
        forall|i: int| 0 <= i < args.len() ==> !is_version_flag(#[trigger] args[i]),
    ensures
        spec_prologue_effect(args, version) is None,
{
}

/// Version precedence: on any argument list with `-v` or `--version` at
/// any position, the transformed program's whole standard output is one
/// line — the version when the build metadata held one, the fixed fallback
/// sentence otherwise — and it exits with status 0, whatever else the
/// arguments hold and whatever the original body would have done.
pub proof fn lemma_version_precedence(args: Seq<Seq<char>>, version: Option<Seq<char>>, i: int)
    requires
        0 <= i < args.len(),
        is_version_flag(args[i]),
    ensures
        spec_prologue_effect(args, version) == Some(spec_version_line(version)),
        version matches Some(v) ==> spec_prologue_effect(args, version) == Some(v),
        version is None ==> spec_prologue_effect(args, version) == Some(spec_fallback_line()),
{
    assert(has_version_flag(args));
}

/// Fallback correctness: built where no version metadata was available,
/// the transformed program invoked with `--version` prints exactly the
/// fixed fallback sentence and exits with status 0.
pub proof fn lemma_fallback_correctness(args: Seq<Seq<char>>, i: int)
    requires
        0 <= i < args.len(),
        args[i] == spec_long_flag(),
    ensures
        spec_prologue_effect(args, None) == Some(spec_fallback_line()),
{
    lemma_version_precedence(args, None, i);
}

/// Non-function rejection: an item of any other kind than a function is
/// refused with the error naming that kind, and no definition is produced.
pub proof fn lemma_non_function_rejection(k: ItemKind, key: Seq<char>)
    ensures
        spec_auto_version(ItemModel::Foreign(k), key) == Err::<FunctionDefinitionView, ParseError>(
            ParseError::NotAFunction { kind: k },
        ),
{
}

/// The two flag spellings are distinct, so exactly the two literal
/// arguments `-v` and `--version` trigger the version query.
pub proof fn lemma_flags_distinct()
    ensures
        spec_short_flag() != spec_long_flag(),
{
    reveal_strlit("-v");
    reveal_strlit("--version");
    assert(spec_short_flag().len() == 2);
    assert(spec_long_flag().len() == 9);
}

} // verus!
