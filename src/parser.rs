//! The construct parsers: each turns one subtree of the schema into one node
//! of the type model.
use vstd::prelude::*;
use crate::error::{res_view, ErrorKind, ParseError};
use crate::case::{snake, to_snake_case};
use crate::text::{ends_with, opt_view, seq_ends_with, str_eq};
use crate::types::{
    fields_view, CaseV, Enum, EnumCase, EnumV, EntityV, FieldV, RsEntity, Struct, StructField,
    StructV, TypeModifier,
};
use crate::xml::{attr_of, doc_of, kind_of, ElementType, XmlNode};

verus! {

/// Whether a node carries content (anything but an annotation).
pub open spec fn is_content(n: XmlNode) -> bool {
    kind_of(n) != ElementType::Annotation
}

/// The number of content nodes in `ch`.
pub open spec fn content_count(ch: Seq<XmlNode>) -> nat
    decreases ch.len(),
{
    if ch.len() == 0 {
        0
    } else {
        content_count(ch.drop_last()) + if is_content(ch.last()) {
            1nat
        } else {
            0nat
        }
    }
}

/// The index of the first content node in `ch`.
pub open spec fn first_content(ch: Seq<XmlNode>) -> int
    decreases ch.len(),
{
    if ch.len() == 0 {
        0
    } else if content_count(ch.drop_last()) > 0 {
        first_content(ch.drop_last())
    } else {
        ch.len() - 1
    }
}

/// The value of attribute `a`, or else of attribute `b`.
pub open spec fn attr_or(node: XmlNode, a: Seq<char>, b: Seq<char>) -> Option<Seq<char>> {
    match attr_of(node, a) {
        Some(v) => Some(v),
        None => attr_of(node, b),
    }
}

/// The occurrence flags of an element.
pub open spec fn occurs_mods(node: XmlNode) -> Seq<TypeModifier> {
    let a = if attr_of(node, "minOccurs"@) == Some("0"@) {
        seq![TypeModifier::Optional]
    } else {
        Seq::empty()
    };
    match attr_of(node, "maxOccurs"@) {
        Some(m) => if m != "0"@ && m != "1"@ {
            a.push(TypeModifier::Array)
        } else {
            a
        },
        None => a,
    }
}

/// The field an `element` node becomes. An element without a type and
/// without content is an empty marker; inline type definitions are not
/// placed.
pub open spec fn spec_element(node: XmlNode) -> Result<FieldV, ErrorKind> {
    match attr_or(node, "name"@, "ref"@) {
        None => Err(ErrorKind::UnexpectedChildShape),
        Some(name) => match attr_or(node, "type"@, "ref"@) {
            Some(t) => Ok(
                FieldV {
                    name,
                    type_ref: t,
                    comment: doc_of(node),
                    modifiers: occurs_mods(node),
                    default: attr_of(node, "default"@),
                    choice: None,
                },
            ),
            None => if content_count(node.children@) == 0 {
                Ok(
                    FieldV {
                        name,
                        type_ref: Seq::empty(),
                        comment: doc_of(node),
                        modifiers: occurs_mods(node).push(TypeModifier::Empty),
                        default: attr_of(node, "default"@),
                        choice: None,
                    },
                )
            } else {
                Err(ErrorKind::UnexpectedChildShape)
            },
        },
    }
}

/// The field an `attribute` node becomes: optional unless its use is
/// required.
pub open spec fn spec_attribute(node: XmlNode) -> Result<FieldV, ErrorKind> {
    match (attr_or(node, "name"@, "ref"@), attr_or(node, "type"@, "ref"@)) {
        (Some(name), Some(t)) => Ok(
            FieldV {
                name,
                type_ref: t,
                comment: doc_of(node),
                modifiers: if attr_of(node, "use"@) == Some("required"@) {
                    Seq::empty()
                } else {
                    seq![TypeModifier::Optional]
                },
                default: attr_of(node, "default"@),
                choice: None,
            },
        ),
        _ => Err(ErrorKind::UnexpectedChildShape),
    }
}

/// The case a child of a `choice` becomes.
pub open spec fn spec_case(node: XmlNode) -> Result<CaseV, ErrorKind> {
    if kind_of(node) == ElementType::Element {
        match spec_element(node) {
            Ok(f) => Ok(
                CaseV {
                    name: f.name,
                    value: f.name,
                    type_ref: if f.type_ref.len() == 0 {
                        None
                    } else {
                        Some(f.type_ref)
                    },
                    comment: f.comment,
                },
            ),
            Err(e) => Err(e),
        }
    } else {
        Err(ErrorKind::UnexpectedChildShape)
    }
}

/// The cases of the content nodes of `ch`, or the first failure.
pub open spec fn spec_cases(ch: Seq<XmlNode>) -> Result<Seq<CaseV>, ErrorKind>
    decreases ch.len(),
{
    if ch.len() == 0 {
        Ok(Seq::empty())
    } else {
        match spec_cases(ch.drop_last()) {
            Err(e) => Err(e),
            Ok(p) => if !is_content(ch.last()) {
                Ok(p)
            } else {
                match spec_case(ch.last()) {
                    Ok(c) => Ok(p.push(c)),
                    Err(e) => Err(e),
                }
            },
        }
    }
}

/// The enumeration a `choice` node becomes under the name `name`.
pub open spec fn spec_choice(node: XmlNode, name: Seq<char>) -> Result<EnumV, ErrorKind> {
    match spec_cases(node.children@) {
        Ok(cs) => Ok(EnumV { name, comment: doc_of(node), cases: cs }),
        Err(e) => Err(e),
    }
}

/// The name of the enumeration folded from a choice inside record `parent`.
pub open spec fn choice_name(parent: Seq<char>) -> Seq<char> {
    parent + "Choice"@
}

/// Whether a field of type `t` inside record `parent` refers to the record
/// itself.
pub open spec fn is_recursive(t: Seq<char>, parent: Seq<char>) -> bool {
    parent.len() > 0 && seq_ends_with(t, parent)
}

/// The field a content child of a sequence becomes inside record `parent`.
pub open spec fn spec_field(node: XmlNode, parent: Seq<char>) -> Result<FieldV, ErrorKind> {
    if kind_of(node) == ElementType::Element {
        match spec_element(node) {
            Ok(f) => Ok(
                if is_recursive(f.type_ref, parent) {
                    FieldV { modifiers: f.modifiers.push(TypeModifier::Recursive), ..f }
                } else {
                    f
                },
            ),
            Err(e) => Err(e),
        }
    } else if kind_of(node) == ElementType::Choice {
        match spec_choice(node, choice_name(parent)) {
            Ok(e) => Ok(
                FieldV {
                    name: choice_name(parent),
                    type_ref: choice_name(parent),
                    comment: None,
                    modifiers: Seq::empty(),
                    default: None,
                    choice: Some(e),
                },
            ),
            Err(e) => Err(e),
        }
    } else if kind_of(node) == ElementType::Unknown {
        Err(ErrorKind::UnrecognizedConstruct)
    } else {
        Err(ErrorKind::UnexpectedChildShape)
    }
}

/// The output names of a sequence of fields.
pub open spec fn field_out_names(fs: Seq<FieldV>) -> Seq<Seq<char>> {
    fs.map_values(|f: FieldV| snake(f.name))
}

/// The fields of the content nodes of `ch`, or the first failure; two
/// fields with the same output name collide.
pub open spec fn spec_fields(ch: Seq<XmlNode>, parent: Seq<char>) -> Result<
    Seq<FieldV>,
    ErrorKind,
>
    decreases ch.len(),
{
    if ch.len() == 0 {
        Ok(Seq::empty())
    } else {
        match spec_fields(ch.drop_last(), parent) {
            Err(e) => Err(e),
            Ok(p) => if !is_content(ch.last()) {
                Ok(p)
            } else {
                match spec_field(ch.last(), parent) {
                    Ok(f) => if field_out_names(p).contains(snake(f.name)) {
                        Err(ErrorKind::NameCollision)
                    } else {
                        Ok(p.push(f))
                    },
                    Err(e) => Err(e),
                }
            },
        }
    }
}

/// Whether the only content of a sequence is another sequence.
pub open spec fn is_nested_sequence(seq: XmlNode) -> bool {
    content_count(seq.children@) == 1 && kind_of(seq.children@[first_content(seq.children@)])
        == ElementType::Sequence
}

/// The fields of a sequence: a sequence whose only content is another
/// sequence has the fields of that inner sequence.
pub open spec fn spec_sequence_fields(seq: XmlNode, parent: Seq<char>) -> Result<
    Seq<FieldV>,
    ErrorKind,
>
    decreases seq,
{
    if is_nested_sequence(seq) && 0 <= first_content(seq.children@) < seq.children@.len() {
        spec_sequence_fields(seq.children@[first_content(seq.children@)], parent)
    } else {
        spec_fields(seq.children@, parent)
    }
}

/// The record a sequence becomes under the name `name`, documented by the
/// documentation of `parent`.
pub open spec fn spec_sequence(seq: XmlNode, parent: XmlNode, name: Seq<char>) -> Result<
    EntityV,
    ErrorKind,
> {
    match spec_sequence_fields(seq, name) {
        Ok(fs) => Ok(EntityV::Struct(StructV { name, comment: doc_of(parent), fields: fs })),
        Err(e) => Err(e),
    }
}

/// The view of a parsed list of fields.
pub open spec fn res_fields(r: Result<Vec<StructField>, ParseError>) -> Result<
    Seq<FieldV>,
    ErrorKind,
> {
    match r {
        Ok(v) => Ok(fields_view(v@)),
        Err(e) => Err(e.kind),
    }
}

/// A failure in a prefix of the children is the failure of the whole.
proof fn lemma_fields_err(ch: Seq<XmlNode>, parent: Seq<char>, i: int)
    requires
        0 <= i <= ch.len(),
        spec_fields(ch.subrange(0, i), parent) is Err,
    ensures
        spec_fields(ch, parent) == spec_fields(ch.subrange(0, i), parent),
    decreases ch.len(),
{
    if i < ch.len() {
        assert(ch.drop_last().subrange(0, i) == ch.subrange(0, i));
        lemma_fields_err(ch.drop_last(), parent, i);
    } else {
        assert(ch.subrange(0, i) == ch);
    }
}

/// A failure in a prefix of the children is the failure of the whole.
proof fn lemma_cases_err(ch: Seq<XmlNode>, i: int)
    requires
        0 <= i <= ch.len(),
        spec_cases(ch.subrange(0, i)) is Err,
    ensures
        spec_cases(ch) == spec_cases(ch.subrange(0, i)),
    decreases ch.len(),
{
    if i < ch.len() {
        assert(ch.drop_last().subrange(0, i) == ch.subrange(0, i));
        lemma_cases_err(ch.drop_last(), i);
    } else {
        assert(ch.subrange(0, i) == ch);
    }
}

/// The value of attribute `a`, or else of attribute `b`.
fn attribute_or(node: &XmlNode, a: &str, b: &str) -> (r: Option<String>)
    ensures
        opt_view(r) == attr_or(*node, a@, b@),
{
    match node.attribute(a) {
        Some(v) => Some(v),
        None => node.attribute(b),
    }
}

/// Whether the attribute `a` of `node` has the value `v`.
fn attribute_is(node: &XmlNode, a: &str, v: &str) -> (r: bool)
    ensures
        r == (attr_of(*node, a@) == Some(v@)),
{
    match node.attribute(a) {
        Some(x) => str_eq(x.as_str(), v),
        None => false,
    }
}

/// The number of content children of `node`, and the index of the first.
pub fn content_info(node: &XmlNode) -> (r: (usize, usize))
    ensures
        r.0 == content_count(node.children@),
        r.0 > 0 ==> r.1 == first_content(node.children@) && r.1 < node.children@.len(),
{
    let n = node.children.len();
    let mut count: usize = 0;
    let mut first: usize = 0;
    let mut i: usize = 0;
    while i < n
        invariant
            n == node.children@.len(),
            i <= n,
            count <= i,
            count == content_count(node.children@.subrange(0, i as int)),
            count > 0 ==> first == first_content(node.children@.subrange(0, i as int)) && first
                < i,
        decreases n - i,
    {
        let ghost pre = node.children@.subrange(0, i + 1);
        assert(pre.drop_last() == node.children@.subrange(0, i as int));
        if node.children[i].classify() != ElementType::Annotation {
            if count == 0 {
                first = i;
            }
            count = count + 1;
        }
        i = i + 1;
    }
    assert(node.children@.subrange(0, n as int) == node.children@);
    (count, first)
}

fn occurs_modifiers(node: &XmlNode) -> (r: Vec<TypeModifier>)
    ensures
        r@ == occurs_mods(*node),
{
    let mut r: Vec<TypeModifier> = Vec::new();
    if attribute_is(node, "minOccurs", "0") {
        r.push(TypeModifier::Optional);
    }
    match node.attribute("maxOccurs") {
        Some(m) => {
            if !str_eq(m.as_str(), "0") && !str_eq(m.as_str(), "1") {
                r.push(TypeModifier::Array);
            }
        },
        None => {},
    }
    proof {
        if attr_of(*node, "minOccurs"@) == Some("0"@) {
            assert(r@.subrange(0, 1) == seq![TypeModifier::Optional]);
        }
    }
    assert(r@ =~= occurs_mods(*node));
    r
}

/// Parses an `element` node into a field.
pub fn parse_element(node: &XmlNode) -> (r: Result<StructField, ParseError>)
    ensures
        res_view(r) == spec_element(*node),
{
    let name = match attribute_or(node, "name", "ref") {
        Some(n) => n,
        None => {
            return Err(ParseError::at(ErrorKind::UnexpectedChildShape, node, ""));
        },
    };
    let comment = node.documentation();
    let default = node.attribute("default");
    let mut mods = occurs_modifiers(node);
    match attribute_or(node, "type", "ref") {
        Some(t) => Ok(
            StructField { name, type_ref: t, comment, type_modifiers: mods, default, choice: None },
        ),
        None => {
            let (count, _) = content_info(node);
            if count == 0 {
                mods.push(TypeModifier::Empty);
                Ok(
                    StructField {
                        name,
                        type_ref: String::new(),
                        comment,
                        type_modifiers: mods,
                        default,
                        choice: None,
                    },
                )
            } else {
                Err(ParseError::at(ErrorKind::UnexpectedChildShape, node, name.as_str()))
            }
        },
    }
}

/// Parses an `attribute` node into a field.
pub fn parse_attribute(node: &XmlNode) -> (r: Result<StructField, ParseError>)
    ensures
        res_view(r) == spec_attribute(*node),
{
    let name = attribute_or(node, "name", "ref");
    let ty = attribute_or(node, "type", "ref");
    match (name, ty) {
        (Some(name), Some(t)) => {
            let mut mods: Vec<TypeModifier> = Vec::new();
            if !attribute_is(node, "use", "required") {
                mods.push(TypeModifier::Optional);
            }
            assert(mods@ =~= (if attr_of(*node, "use"@) == Some("required"@) {
                Seq::empty()
            } else {
                seq![TypeModifier::Optional]
            }));
            Ok(
                StructField {
                    name,
                    type_ref: t,
                    comment: node.documentation(),
                    type_modifiers: mods,
                    default: node.attribute("default"),
                    choice: None,
                },
            )
        },
        _ => Err(ParseError::at(ErrorKind::UnexpectedChildShape, node, "")),
    }
}

/// Parses one child of a `choice` into a case.
fn parse_case(node: &XmlNode) -> (r: Result<EnumCase, ParseError>)
    ensures
        res_view(r) == spec_case(*node),
{
    if node.classify() != ElementType::Element {
        return Err(ParseError::at(ErrorKind::UnexpectedChildShape, node, "choice"));
    }
    let f = parse_element(node)?;
    let type_ref = if f.type_ref.as_str().unicode_len() == 0 {
        None
    } else {
        Some(f.type_ref)
    };
    Ok(EnumCase { name: f.name.clone(), value: f.name, type_ref, comment: f.comment })
}

/// Parses a `choice` node into an enumeration named `name`: each content
/// child becomes one case.
pub fn parse_choice(node: &XmlNode, name: &str) -> (r: Result<Enum, ParseError>)
    ensures
        res_view(r) == spec_choice(*node, name@),
{
    let n = node.children.len();
    let mut cases: Vec<EnumCase> = Vec::new();
    let mut i: usize = 0;
    assert(node.children@.subrange(0, 0) =~= Seq::<XmlNode>::empty());
    assert(cases@.map_values(|c: EnumCase| c@) =~= Seq::<CaseV>::empty());
    while i < n
        invariant
            n == node.children@.len(),
            i <= n,
            spec_cases(node.children@.subrange(0, i as int)) == Ok::<Seq<CaseV>, ErrorKind>(
                cases@.map_values(|c: EnumCase| c@),
            ),
        decreases n - i,
    {
        let ghost pre = node.children@.subrange(0, i + 1);
        assert(pre.drop_last() == node.children@.subrange(0, i as int));
        let c = &node.children[i];
        if c.classify() != ElementType::Annotation {
            match parse_case(c) {
                Ok(x) => {
                    let ghost old_cases = cases@;
                    cases.push(x);
                    assert(cases@.map_values(|c: EnumCase| c@) =~= old_cases.map_values(
                        |c: EnumCase| c@,
                    ).push(x@));
                },
                Err(e) => {
                    proof {
                        lemma_cases_err(node.children@, i + 1);
                    }
                    return Err(e);
                },
            }
        }
        i = i + 1;
    }
    assert(node.children@.subrange(0, n as int) == node.children@);
    Ok(Enum { name: String::from_str(name), comment: node.documentation(), cases })
}

/// Parses one content child of a sequence inside record `parent` into a
/// field: an element becomes a field, flagged recursive when its type is
/// the record itself; a choice becomes a field holding its enumeration.
pub(crate) fn parse_field(node: &XmlNode, parent: &str) -> (r: Result<StructField, ParseError>)
    ensures
        res_view(r) == spec_field(*node, parent@),
{
    let k = node.classify();
    if k == ElementType::Element {
        let mut f = parse_element(node)?;
        if parent.unicode_len() > 0 && ends_with(f.type_ref.as_str(), parent) {
            f.type_modifiers.push(TypeModifier::Recursive);
        }
        Ok(f)
    } else if k == ElementType::Choice {
        let cname = String::from_str(parent).concat("Choice");
        let en = parse_choice(node, cname.as_str())?;
        Ok(
            StructField {
                name: cname.clone(),
                type_ref: cname,
                comment: None,
                type_modifiers: Vec::new(),
                default: None,
                choice: Some(en),
            },
        )
    } else if k == ElementType::Unknown {
        Err(ParseError::at(ErrorKind::UnrecognizedConstruct, node, parent))
    } else {
        Err(ParseError::at(ErrorKind::UnexpectedChildShape, node, parent))
    }
}

/// Whether a field of `fs` has the output name of `name`.
fn has_field_named(fs: &Vec<StructField>, name: &str) -> (r: bool)
    ensures
        r == field_out_names(fields_view(fs@)).contains(snake(name@)),
{
    let target = to_snake_case(name);
    let ghost v = field_out_names(fields_view(fs@));
    let mut i: usize = 0;
    while i < fs.len()
        invariant
            v == field_out_names(fields_view(fs@)),
            v.len() == fs@.len(),
            target@ == snake(name@),
            i <= fs@.len(),
            forall|j: int| 0 <= j < i ==> v[j] != snake(name@),
        decreases fs@.len() - i,
    {
        assert(v[i as int] == snake(fs@[i as int]@.name));
        let out_name = to_snake_case(fs[i].name.as_str());
        if str_eq(out_name.as_str(), target.as_str()) {
            return true;
        }
        i = i + 1;
    }
    false
}

/// Turns the content children of a sequence into the fields of record
/// `parent_name`, in document order; stops at the first child that cannot
/// be placed.
pub fn elements_to_fields(sequence: &XmlNode, parent_name: &str) -> (r: Result<
    Vec<StructField>,
    ParseError,
>)
    ensures
        res_fields(r) == spec_fields(sequence.children@, parent_name@),
        r matches Ok(v) ==> field_out_names(fields_view(v@)).no_duplicates(),
{
    let n = sequence.children.len();
    let mut out: Vec<StructField> = Vec::new();
    let mut i: usize = 0;
    assert(sequence.children@.subrange(0, 0) =~= Seq::<XmlNode>::empty());
    assert(fields_view(out@) =~= Seq::<FieldV>::empty());
    while i < n
        invariant
            n == sequence.children@.len(),
            i <= n,
            spec_fields(sequence.children@.subrange(0, i as int), parent_name@) == Ok::<
                Seq<FieldV>,
                ErrorKind,
            >(fields_view(out@)),
            field_out_names(fields_view(out@)).no_duplicates(),
        decreases n - i,
    {
        let ghost pre = sequence.children@.subrange(0, i + 1);
        assert(pre.drop_last() == sequence.children@.subrange(0, i as int));
        let c = &sequence.children[i];
        if c.classify() != ElementType::Annotation {
            match parse_field(c, parent_name) {
                Ok(f) => {
                    if has_field_named(&out, f.name.as_str()) {
                        proof {
                            lemma_fields_err(sequence.children@, parent_name@, i + 1);
                        }
                        return Err(ParseError::named(ErrorKind::NameCollision, f.name.as_str(), parent_name));
                    }
                    let ghost old_out = out@;
                    out.push(f);
                    assert(fields_view(out@) =~= fields_view(old_out).push(f@));
                    assert(field_out_names(fields_view(out@)) =~= field_out_names(fields_view(old_out)).push(snake(f@.name)));
                },
                Err(e) => {
                    proof {
                        lemma_fields_err(sequence.children@, parent_name@, i + 1);
                    }
                    return Err(e);
                },
            }
        }
        i = i + 1;
    }
    assert(sequence.children@.subrange(0, n as int) == sequence.children@);
    Ok(out)
}

/// The fields of a sequence, after collapsing redundantly nested sequences.
pub fn sequence_fields(sequence: &XmlNode, name: &str) -> (r: Result<
    Vec<StructField>,
    ParseError,
>)
    ensures
        res_fields(r) == spec_sequence_fields(*sequence, name@),
        r matches Ok(v) ==> field_out_names(fields_view(v@)).no_duplicates(),
    decreases sequence,
{
    let (count, first) = content_info(sequence);
    if count == 1 && sequence.children[first].classify() == ElementType::Sequence {
        return sequence_fields(&sequence.children[first], name);
    }
    elements_to_fields(sequence, name)
}

/// Parses a `sequence` node into the record `name`, documented by the
/// documentation of `parent`.
pub fn parse_sequence(sequence: &XmlNode, parent: &XmlNode, name: &str) -> (r: Result<
    RsEntity,
    ParseError,
>)
    ensures
        res_view(r) == spec_sequence(*sequence, *parent, name@),
        r matches Ok(RsEntity::Struct(s)) ==> field_out_names(fields_view(s.fields@)).no_duplicates(),
{
    let fields = sequence_fields(sequence, name)?;
    Ok(
        RsEntity::Struct(
            Struct { name: String::from_str(name), comment: parent.documentation(), fields },
        ),
    )
}

} // verus!
