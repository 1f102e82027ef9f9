use vstd::prelude::*;
use vstd::string::StrSliceExecFns;
use vstd::string::StringExecFns;

use crate::definition::PrologueBlock;
use crate::definition::VersionLookup;

verus! {

/// The short spelling of the version-query flag.
pub open spec fn spec_short_flag() -> Seq<char> {
    "-v"@
}

/// The long spelling of the version-query flag.
pub open spec fn spec_long_flag() -> Seq<char> {
    "--version"@
}

/// The fixed sentence printed when the build metadata held no version.
pub open spec fn spec_fallback_line() -> Seq<char> {
    "`auto_version` macro only works for projects compiled with cargo"@
}

/// An argument that triggers the version query: exactly `-v` or
/// `--version`, compared character for character, never as a prefix.
pub open spec fn is_version_flag(arg: Seq<char>) -> bool {
    arg == spec_short_flag() || arg == spec_long_flag()
}

/// Whether some argument in the list is a version-query flag.
pub open spec fn has_version_flag(args: Seq<Seq<char>>) -> bool {
    exists|i: int| 0 <= i < args.len() && is_version_flag(#[trigger] args[i])
}

/// The one line a version query prints: the version itself when the build
/// metadata supplied one, else the fixed fallback sentence.
pub open spec fn spec_version_line(version: Option<Seq<char>>) -> Seq<char> {
    match version {
        Some(v) => v,
        None => spec_fallback_line(),
    }
}

/// What the synthesized prologue does when the transformed program starts,
/// given the process's arguments and the version the build metadata held:
/// `Some(line)` means the program writes `line` and a newline to standard
/// output and ends at once with exit status 0; `None` means the prologue
/// writes nothing and execution falls through to the original body.
pub open spec fn spec_prologue_effect(
    args: Seq<Seq<char>>,
    version: Option<Seq<char>>,
) -> Option<Seq<char>> {
    if has_version_flag(args) {
        Some(spec_version_line(version))
    } else {
        None
    }
}

/// The fixed sentence printed when the build metadata held no version.
pub fn fallback_line() -> (r: &'static str)
    ensures
        r@ == spec_fallback_line(),
{
    "`auto_version` macro only works for projects compiled with cargo"
}

/// The one line a version query prints, as an owned string.
pub fn version_line(version: &Option<String>) -> (r: String)
    ensures
        r@ == spec_version_line(version.deep_view()),
{
    match version {
        Some(v) => v.clone(),
        None => fallback_line().to_owned(),
    }
}

/// The runtime behaviour of the synthesized prologue, run against a given
/// argument list and the version the build metadata held. The arguments
/// are scanned left to right; the first one equal to `-v` or `--version`
/// makes the transformed program print one line and exit with status 0,
/// and `Some` of that line is returned. `None` means the arguments hold
/// neither flag and the original body runs unchanged.
pub fn prologue_effect(args: &Vec<String>, version: &Option<String>) -> (r: Option<String>)
    ensures
        (match r {
            Some(line) => spec_prologue_effect(args.deep_view(), version.deep_view()) == Some(
                line@,
            ),
            None => spec_prologue_effect(args.deep_view(), version.deep_view()) is None,
        }),
{
    let short = String::from_str("-v");
    let long = String::from_str("--version");
    let mut i: usize = 0;
    while i < args.len()
        invariant
            i <= args.len(),
            short@ == spec_short_flag(),
            long@ == spec_long_flag(),
            forall|j: int| 0 <= j < i ==> !is_version_flag(#[trigger] args.deep_view()[j]),
        decreases args.len() - i,
    {
        if args[i] == short || args[i] == long {
            proof {
                assert(args.deep_view()[i as int] == args@[i as int]@);
                assert(is_version_flag(args.deep_view()[i as int]));
            }
            return Some(version_line(version));
        }
        proof {
            assert(args.deep_view()[i as int] == args@[i as int]@);
        }
        i += 1;
    }
    None
}

/// One character as it stands in the body of a double-quoted source
/// literal: backslash and double quote get a leading backslash, every
/// other character stands as itself.
pub open spec fn spec_escape_char(c: char) -> Seq<char> {
    if c == '\\' {
        seq!['\\', '\\']
    } else if c == '"' {
        seq!['\\', '"']
    } else {
        seq![c]
    }
}

/// Text as it stands in the body of a double-quoted source literal.
pub open spec fn spec_escaped(s: Seq<char>) -> Seq<char>
    decreases s.len(),
{
    if s.len() == 0 {
        Seq::empty()
    } else {
        spec_escape_char(s[0]) + spec_escaped(s.drop_first())
    }
}

proof fn lemma_escaped_push(s: Seq<char>, c: char)
    ensures
        spec_escaped(s.push(c)) == spec_escaped(s) + spec_escape_char(c),
    decreases s.len(),
{
    if s.len() == 0 {
        assert(s.push(c)[0] == c);
        assert(s.push(c).drop_first() =~= Seq::<char>::empty());
        assert(spec_escaped(s.push(c).drop_first()) == Seq::<char>::empty());
        assert(spec_escaped(s.push(c)) =~= spec_escaped(s) + spec_escape_char(c));
    } else {
        assert(s.push(c).drop_first() =~= s.drop_first().push(c));
        lemma_escaped_push(s.drop_first(), c);
        assert(spec_escaped(s.push(c)) =~= spec_escaped(s) + spec_escape_char(c));
    }
}

/// Relies on `String::push`: appends one character at the end of the text.
#[verifier::external_body]
fn push_char(s: &mut String, c: char)
    ensures
        final(s)@ == old(s)@.push(c),
{
    s.push(c);
}

/// `s` as it stands in the body of a double-quoted source literal:
/// backslash and double quote escaped, every other character verbatim.
pub fn escape_literal(s: &str) -> (r: String)
    ensures
        r@ == spec_escaped(s@),
{
    let n = s.unicode_len();
    let mut r = String::new();
    let mut i: usize = 0;
    while i < n
        invariant
            i <= n,
            n == s@.len(),
            r@ == spec_escaped(s@.subrange(0, i as int)),
        decreases n - i,
    {
        let c = s.get_char(i);
        let ghost r0 = r@;
        if c == '\\' {
            push_char(&mut r, '\\');
            push_char(&mut r, '\\');
        } else if c == '"' {
            push_char(&mut r, '\\');
            push_char(&mut r, '"');
        } else {
            push_char(&mut r, c);
        }
        proof {
            assert(r@ =~= r0 + spec_escape_char(c));
            lemma_escaped_push(s@.subrange(0, i as int), c);
            assert(s@.subrange(0, i as int).push(c) =~= s@.subrange(0, i as int + 1));
        }
        i += 1;
    }
    proof {
        assert(s@.subrange(0, n as int) =~= s@);
    }
    r
}

/// The opening of the synthesized statement, up to the metadata key.
pub open spec fn spec_prologue_head() -> Seq<char> {
    "{ let args: Vec<std::ffi::OsString> = std::env::args_os().collect(); let v = std::ffi::OsStr::new(\"-v\"); let version = std::ffi::OsStr::new(\"--version\"); for arg in args.iter() { if arg == v || arg == version { match option_env!(\""@
}

/// The middle of the synthesized statement, between the metadata key and
/// the fallback sentence.
pub open spec fn spec_prologue_mid() -> Seq<char> {
    "\") { Some(found) => println!(\"{}\", found), None => println!(\""@
}

/// The closing of the synthesized statement, after the fallback sentence.
pub open spec fn spec_prologue_tail() -> Seq<char> {
    "\") } std::process::exit(0); } } }"@
}

/// The one statement of the synthesized prologue. It is a nested block, so
/// the names it introduces (the argument list and the two flag values) are
/// out of scope before the original body and can neither collide with nor
/// shadow its names. Run at the start of the transformed program, the block
/// scans the arguments left to right for `-v` or `--version`; at the first
/// match it resolves the version under `key` in the build metadata, prints
/// it (or the fixed fallback sentence when the lookup finds nothing)
/// followed by a newline, and ends the process with exit status 0. What
/// that comes to, argument list by argument list, is `spec_prologue_effect`.
pub open spec fn spec_prologue_statement(key: Seq<char>) -> Seq<char> {
    spec_prologue_head() + spec_escaped(key) + spec_prologue_mid() + spec_fallback_line()
        + spec_prologue_tail()
}

/// The statements of the synthesized prologue, in order.
pub open spec fn spec_prologue(key: Seq<char>) -> Seq<Seq<char>> {
    seq![spec_prologue_statement(key)]
}

/// Builds the prologue afresh: one self-contained block statement, with
/// the metadata key spliced in as a literal (escaped, so any key yields a
/// well-formed literal) and the fixed fallback sentence embedded for the
/// case where the lookup finds nothing. Pure construction: it cannot fail.
pub fn synthesize_prologue(lookup: &VersionLookup) -> (r: PrologueBlock)
    ensures
        r@ == spec_prologue(lookup@),
{
    let mut text = String::from_str(
        "{ let args: Vec<std::ffi::OsString> = std::env::args_os().collect(); let v = std::ffi::OsStr::new(\"-v\"); let version = std::ffi::OsStr::new(\"--version\"); for arg in args.iter() { if arg == v || arg == version { match option_env!(\"",
    );
    let escaped_key = escape_literal(lookup.key.as_str());
    text.append(escaped_key.as_str());
    text.append("\") { Some(found) => println!(\"{}\", found), None => println!(\"");
    text.append(fallback_line());
    text.append("\") } std::process::exit(0); } } }");
    proof {
        assert(text@ =~= spec_prologue_statement(lookup@));
    }
    let mut statements: Vec<String> = Vec::new();
    let ghost stmt = text@;
    statements.push(text);
    proof {
        assert(statements.deep_view() =~= spec_prologue(lookup@));
    }
    PrologueBlock { statements }
}

} // verus!
