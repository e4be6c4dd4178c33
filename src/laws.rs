//! Properties that relate several functions of the compiler.
use vstd::prelude::*;
use crate::generator::{field_type, file_text, rust_type, Generator};
use crate::parser::{first_content, is_nested_sequence, spec_sequence};
use crate::types::{FieldV, FileV, TypeModifier};
use crate::xml::XmlNode;

verus! {

/// Rendering is a function of the generator and of the document's content:
/// two documents with the same content render to the same text.
pub proof fn lemma_render_deterministic(g: Generator, a: FileV, b: FileV)
    requires
        a == b,
    ensures
        file_text(g, a) == file_text(g, b),
{
}

/// A sequence whose only content is another sequence parses to the same
/// record as that inner sequence; applied once per level, this collapses
/// any depth of nesting.
pub proof fn lemma_nested_sequence_collapses(outer: XmlNode, parent: XmlNode, name: Seq<char>)
    requires
        is_nested_sequence(outer),
    ensures
        0 <= first_content(outer.children@) < outer.children@.len(),
        spec_sequence(outer, parent, name) == spec_sequence(
            outer.children@[first_content(outer.children@)],
            parent,
            name,
        ),
{
    lemma_first_content_in_range(outer.children@);
}

proof fn lemma_first_content_in_range(ch: Seq<XmlNode>)
    requires
        crate::parser::content_count(ch) > 0,
    ensures
        0 <= first_content(ch) < ch.len(),
    decreases ch.len(),
{
    if ch.len() > 0 && crate::parser::content_count(ch.drop_last()) > 0 {
        lemma_first_content_in_range(ch.drop_last());
    }
}

/// A field flagged recursive is always rendered behind a `Box`, so that the
/// record holding it has a finite size.
pub proof fn lemma_recursive_field_boxed(f: FieldV)
    requires
        f.modifiers.contains(TypeModifier::Recursive),
    ensures
        exists|pre: Seq<char>, inner: Seq<char>, post: Seq<char>|
            field_type(f) == pre + "Box<"@ + inner + ">"@ + post,
{
    let base = if f.modifiers.contains(TypeModifier::Empty) {
        "bool"@
    } else {
        rust_type(f.type_ref)
    };
    let e = Seq::<char>::empty();
    if f.modifiers.contains(TypeModifier::Array) {
        if f.modifiers.contains(TypeModifier::Optional) {
            let pre = "Option<"@ + "Vec<"@;
            let post = ">"@ + ">"@;
            assert(field_type(f) == pre + "Box<"@ + base + ">"@ + post);
        } else {
            assert(field_type(f) == "Vec<"@ + "Box<"@ + base + ">"@ + ">"@);
        }
    } else {
        if f.modifiers.contains(TypeModifier::Optional) {
            assert(field_type(f) == "Option<"@ + "Box<"@ + base + ">"@ + ">"@);
        } else {
            assert(field_type(f) == e + "Box<"@ + base + ">"@ + e);
        }
    }
}

} // verus!
