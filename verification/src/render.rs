use vstd::prelude::*;
use vstd::string::StringExecFns;

use crate::definition::FunctionDefinition;
use crate::definition::FunctionDefinitionView;

verus! {

/// The pieces written out one after another, each followed by one space.
pub open spec fn spec_joined(parts: Seq<Seq<char>>) -> Seq<char>
    decreases parts.len(),
{
    if parts.len() == 0 {
        Seq::empty()
    } else {
        parts[0] + " "@ + spec_joined(parts.drop_first())
    }
}

proof fn lemma_joined_push(parts: Seq<Seq<char>>, p: Seq<char>)
    ensures
        spec_joined(parts.push(p)) == spec_joined(parts) + p + " "@,
    decreases parts.len(),
{
    if parts.len() == 0 {
        assert(parts.push(p)[0] == p);
        assert(parts.push(p).drop_first() =~= Seq::<Seq<char>>::empty());
        assert(spec_joined(parts.push(p).drop_first()) == Seq::<char>::empty());
        assert(spec_joined(parts.push(p)) =~= spec_joined(parts) + p + " "@);
    } else {
        assert(parts.push(p).drop_first() =~= parts.drop_first().push(p));
        lemma_joined_push(parts.drop_first(), p);
        assert(spec_joined(parts.push(p)) =~= spec_joined(parts) + p + " "@);
    }
}

/// Everything of the written definition that stands before the body's
/// statements: the attributes in order, the visibility marker if there is
/// one, the signature, and the opening of the body block.
pub open spec fn spec_rendered_head(d: FunctionDefinitionView) -> Seq<char> {
    spec_joined(d.attributes) + (match d.visibility {
        Some(v) => v + " "@,
        None => Seq::<char>::empty(),
    }) + d.signature + " { "@
}

/// One function definition written back as source text: the attributes in
/// order, the visibility marker exactly when the definition carries one,
/// the signature, then the body's statements in order inside braces.
pub open spec fn spec_render(d: FunctionDefinitionView) -> Seq<char> {
    spec_rendered_head(d) + spec_joined(d.body) + "}"@
}

/// Writes a function definition back as source text, without reading or
/// changing any of its parts.
pub fn render(def: &FunctionDefinition) -> (r: String)
    ensures
        r@ == spec_render(def@),
{
    let mut text = String::new();
    let mut i: usize = 0;
    while i < def.attributes.len()
        invariant
            i <= def.attributes.len(),
            text@ == spec_joined(def.attributes.deep_view().subrange(0, i as int)),
        decreases def.attributes.len() - i,
    {
        let ghost before = def.attributes.deep_view().subrange(0, i as int);
        text.append(def.attributes[i].as_str());
        text.append(" ");
        proof {
            lemma_joined_push(before, def.attributes.deep_view()[i as int]);
            assert(before.push(def.attributes.deep_view()[i as int]) =~= def.attributes.deep_view(
            ).subrange(0, i as int + 1));
            assert(text@ =~= spec_joined(def.attributes.deep_view().subrange(0, i as int + 1)));
        }
        i += 1;
    }
    proof {
        assert(def.attributes.deep_view().subrange(0, def.attributes@.len() as int)
            =~= def.attributes.deep_view());
    }
    match &def.visibility {
        Some(v) => {
            text.append(v.as_str());
            text.append(" ");
        },
        None => {},
    }
    text.append(def.signature.as_str());
    text.append(" { ");
    proof {
        assert(text@ =~= spec_rendered_head(def@));
    }
    let mut i: usize = 0;
    while i < def.body.len()
        invariant
            i <= def.body.len(),
            text@ == spec_rendered_head(def@) + spec_joined(
                def.body.deep_view().subrange(0, i as int),
            ),
        decreases def.body.len() - i,
    {
        let ghost before = def.body.deep_view().subrange(0, i as int);
        text.append(def.body[i].as_str());
        text.append(" ");
        proof {
            lemma_joined_push(before, def.body.deep_view()[i as int]);
            assert(before.push(def.body.deep_view()[i as int]) =~= def.body.deep_view().subrange(
                0,
                i as int + 1,
            ));
            assert(text@ =~= spec_rendered_head(def@) + spec_joined(
                def.body.deep_view().subrange(0, i as int + 1),
            ));
        }
        i += 1;
    }
    proof {
        assert(def.body.deep_view().subrange(0, def.body@.len() as int) =~= def.body.deep_view());
    }
    text.append("}");
    proof {
        assert(text@ =~= spec_render(def@));
    }
    text
}

} // verus!
