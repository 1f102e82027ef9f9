//! A build-time source transformation: given one entry-point function
//! definition, it synthesizes a short prologue that inspects the process's
//! command-line arguments and, when a version-query flag (`-v` or
//! `--version`) is present, prints a version string and ends the process
//! with exit status 0 before any original statement runs. The new function
//! keeps the original's attributes, visibility, signature and body exactly,
//! with the prologue prepended.

mod definition;
mod laws;
mod parser;
mod prologue;
mod reassembler;
mod render;
mod source;

pub use definition::FunctionDefinition;
pub use definition::FunctionDefinitionView;
pub use definition::Item;
pub use definition::ItemKind;
pub use definition::ItemModel;
pub use definition::ParseError;
pub use definition::PrologueBlock;
pub use definition::VersionLookup;
pub use definition::spec_diagnostic;
pub use definition::spec_kind_text;
pub use laws::lemma_fallback_correctness;
pub use laws::lemma_flags_distinct;
pub use laws::lemma_non_function_rejection;
pub use laws::lemma_non_interference;
pub use laws::lemma_structural_fidelity;
pub use laws::lemma_version_precedence;
pub use parser::parse;
pub use parser::spec_parse;
pub use prologue::fallback_line;
pub use prologue::has_version_flag;
pub use prologue::is_version_flag;
pub use prologue::prologue_effect;
pub use prologue::spec_fallback_line;
pub use prologue::spec_long_flag;
pub use prologue::spec_prologue_effect;
pub use prologue::spec_short_flag;
pub use prologue::spec_version_line;
pub use prologue::escape_literal;
pub use prologue::spec_escape_char;
pub use prologue::spec_escaped;
pub use prologue::spec_prologue;
pub use prologue::spec_prologue_head;
pub use prologue::spec_prologue_mid;
pub use prologue::spec_prologue_statement;
pub use prologue::spec_prologue_tail;
pub use prologue::synthesize_prologue;
pub use prologue::version_line;
pub use reassembler::auto_version;
pub use reassembler::reassemble;
pub use reassembler::spec_auto_version;
pub use reassembler::spec_reassemble;
pub use render::render;
pub use render::spec_joined;
pub use render::spec_render;
pub use render::spec_rendered_head;
pub use source::read_item;
pub use source::source_item;
pub use source::transform_source;
