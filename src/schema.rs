//! Complex and simple types, and the assembly of a whole schema document.
use vstd::prelude::*;
use crate::error::{res_view, ErrorKind, ParseError};
use crate::generator::{local_part, lookup_import};
use crate::merge::{extended, merge_extension, merge_restriction, restricted};
use crate::parser::{
    content_count, content_info, first_content, is_content, parse_attribute, parse_choice,
    parse_field, res_fields, sequence_fields, spec_attribute, spec_choice, spec_field,
    spec_sequence_fields,
};
use crate::case::{pascal, to_pascal_case};
use crate::text::{opt_view, str_eq};
use crate::types::{
    fields_view, Alias, CaseV, Enum, EnumCase, EnumV, EntityV, FieldV, FileV, Import,
    ImportEntry, Namespace, RsEntity, RsFile, StructField, Struct, StructV, TupleStruct,
    TypeModifier,
};
use crate::xml::{attr_of, doc_of, kind_of, ElementType, XmlNode};

verus! {

/// The fields one content child of a complex type contributes; where only
/// attributes are expected, anything else is misplaced.
pub open spec fn spec_ct_item(node: XmlNode, name: Seq<char>, attrs_only: bool) -> Result<
    Seq<FieldV>,
    ErrorKind,
> {
    let k = kind_of(node);
    if k == ElementType::Attribute {
        match spec_attribute(node) {
            Ok(f) => Ok(seq![f]),
            Err(e) => Err(e),
        }
    } else if k == ElementType::Unknown {
        Err(ErrorKind::UnrecognizedConstruct)
    } else if attrs_only {
        Err(ErrorKind::UnexpectedChildShape)
    } else if k == ElementType::Sequence {
        spec_sequence_fields(node, name)
    } else if k == ElementType::Choice {
        match spec_field(node, name) {
            Ok(f) => Ok(seq![f]),
            Err(e) => Err(e),
        }
    } else {
        Err(ErrorKind::UnexpectedChildShape)
    }
}

/// The fields of the content children `ch`, in order, or the first failure.
pub open spec fn spec_ct_fields(ch: Seq<XmlNode>, name: Seq<char>, attrs_only: bool) -> Result<
    Seq<FieldV>,
    ErrorKind,
>
    decreases ch.len(),
{
    if ch.len() == 0 {
        Ok(Seq::empty())
    } else {
        match spec_ct_fields(ch.drop_last(), name, attrs_only) {
            Err(e) => Err(e),
            Ok(p) => if !is_content(ch.last()) {
                Ok(p)
            } else {
                match spec_ct_item(ch.last(), name, attrs_only) {
                    Ok(f) => Ok(p + f),
                    Err(e) => Err(e),
                }
            },
        }
    }
}

/// The fields of the first record named `name` among `known`.
pub open spec fn known_fields(known: Seq<EntityV>, name: Seq<char>) -> Option<Seq<FieldV>>
    decreases known.len(),
{
    if known.len() == 0 {
        None
    } else {
        match known[0] {
            EntityV::Struct(s) => if s.name == name {
                Some(s.fields)
            } else {
                known_fields(known.drop_first(), name)
            },
            _ => known_fields(known.drop_first(), name),
        }
    }
}

/// The child that carries the content of a node whose content is one child.
pub open spec fn sole_content(node: XmlNode) -> Option<XmlNode> {
    if content_count(node.children@) == 1 {
        Some(node.children@[first_content(node.children@)])
    } else {
        None
    }
}

/// The fields of an `extension` or `restriction` of complex content: the
/// local fields merged with those of the base record, found among `known`;
/// a derivation from `anyType` has the local fields alone.
pub open spec fn spec_derived(d: XmlNode, name: Seq<char>, known: Seq<EntityV>) -> Result<
    Seq<FieldV>,
    ErrorKind,
> {
    match attr_of(d, "base"@) {
        None => Err(ErrorKind::UnexpectedChildShape),
        Some(b) => match spec_ct_fields(d.children@, name, false) {
            Err(e) => Err(e),
            Ok(local) => if local_part(b) == "anyType"@ {
                Ok(local)
            } else {
                match known_fields(known, local_part(b)) {
                    None => Err(ErrorKind::UnexpectedChildShape),
                    Some(bf) => if kind_of(d) == ElementType::Extension {
                        Ok(extended(bf, local))
                    } else {
                        Ok(restricted(bf, local))
                    },
                }
            },
        },
    }
}

/// The field that holds the base value of simple content.
pub open spec fn base_field(base: Seq<char>) -> FieldV {
    FieldV {
        name: "base"@,
        type_ref: base,
        comment: None,
        modifiers: Seq::empty(),
        default: None,
        choice: None,
    }
}

/// The type simple content becomes: a tuple type wrapping its base when it
/// has no attributes, else a record of the base value and the attributes.
pub open spec fn spec_simple_content(
    sc: XmlNode,
    name: Seq<char>,
    comment: Option<Seq<char>>,
) -> Result<EntityV, ErrorKind> {
    match sole_content(sc) {
        Some(ext) => if kind_of(ext) == ElementType::Extension {
            match attr_of(ext, "base"@) {
                None => Err(ErrorKind::UnexpectedChildShape),
                Some(b) => match spec_ct_fields(ext.children@, name, true) {
                    Err(e) => Err(e),
                    Ok(fs) => if fs.len() == 0 {
                        Ok(
                            EntityV::TupleStruct {
                                name,
                                comment,
                                type_ref: b,
                                modifiers: Seq::empty(),
                            },
                        )
                    } else {
                        Ok(
                            EntityV::Struct(
                                StructV { name, comment, fields: seq![base_field(b)] + fs },
                            ),
                        )
                    },
                },
            }
        } else {
            Err(ErrorKind::UnexpectedChildShape)
        },
        None => Err(ErrorKind::UnexpectedChildShape),
    }
}

/// The type a named `complexType` becomes.
pub open spec fn spec_complex_type(node: XmlNode, known: Seq<EntityV>) -> Result<
    EntityV,
    ErrorKind,
> {
    match attr_of(node, "name"@) {
        None => Err(ErrorKind::UnexpectedChildShape),
        Some(name) => spec_complex_type_named(node, name, known),
    }
}

/// The type a `complexType` becomes under the name `name`. A choice that is
/// its only content stands alone as an enumeration.
pub open spec fn spec_complex_type_named(node: XmlNode, name: Seq<char>, known: Seq<EntityV>) -> Result<
    EntityV,
    ErrorKind,
> {
    let comment = doc_of(node);
    let record = |r: Result<Seq<FieldV>, ErrorKind>|
        match r {
            Ok(fs) => Ok(EntityV::Struct(StructV { name, comment, fields: fs })),
            Err(e) => Err(e),
        };
    match sole_content(node) {
        Some(c) => if kind_of(c) == ElementType::Choice {
            match spec_choice(c, name) {
                Ok(en) => Ok(EntityV::Enum(en)),
                Err(e) => Err(e),
            }
        } else if kind_of(c) == ElementType::SimpleContent {
            spec_simple_content(c, name, comment)
        } else if kind_of(c) == ElementType::ComplexContent {
            match sole_content(c) {
                Some(d) => if kind_of(d) == ElementType::Extension || kind_of(d)
                    == ElementType::Restriction {
                    record(spec_derived(d, name, known))
                } else {
                    Err(ErrorKind::UnexpectedChildShape)
                },
                None => Err(ErrorKind::UnexpectedChildShape),
            }
        } else {
            record(spec_ct_fields(node.children@, name, false))
        },
        None => record(spec_ct_fields(node.children@, name, false)),
    }
}

/// The views of a list of entities.
pub open spec fn entities_view(es: Seq<RsEntity>) -> Seq<EntityV> {
    es.map_values(|e: RsEntity| e@)
}

fn append_fields(out: &mut Vec<StructField>, more: &Vec<StructField>)
    ensures
        fields_view(final(out)@) == fields_view(old(out)@) + fields_view(more@),
{
    let ghost start = fields_view(out@);
    let ghost m = fields_view(more@);
    let mut j: usize = 0;
    while j < more.len()
        invariant
            m == fields_view(more@),
            m.len() == more@.len(),
            j <= m.len(),
            fields_view(out@) == start + m.subrange(0, j as int),
        decreases m.len() - j,
    {
        let ghost before = out@;
        out.push(more[j].copy());
        assert(fields_view(out@) =~= fields_view(before).push(m[j as int]));
        assert(m.subrange(0, j + 1) == m.subrange(0, j as int).push(m[j as int]));
        j = j + 1;
    }
    assert(m.subrange(0, m.len() as int) == m);
}

fn ct_item(node: &XmlNode, name: &str, attrs_only: bool) -> (r: Result<
    Vec<StructField>,
    ParseError,
>)
    ensures
        res_fields(r) == spec_ct_item(*node, name@, attrs_only),
{
    let k = node.classify();
    if k == ElementType::Attribute {
        let f = parse_attribute(node)?;
        let v = vec![f];
        assert(fields_view(v@) =~= seq![f@]);
        Ok(v)
    } else if k == ElementType::Unknown {
        Err(ParseError::at(ErrorKind::UnrecognizedConstruct, node, name))
    } else if attrs_only {
        Err(ParseError::at(ErrorKind::UnexpectedChildShape, node, name))
    } else if k == ElementType::Sequence {
        sequence_fields(node, name)
    } else if k == ElementType::Choice {
        let f = parse_field(node, name)?;
        let v = vec![f];
        assert(fields_view(v@) =~= seq![f@]);
        Ok(v)
    } else {
        Err(ParseError::at(ErrorKind::UnexpectedChildShape, node, name))
    }
}

proof fn lemma_ct_err(ch: Seq<XmlNode>, name: Seq<char>, attrs_only: bool, i: int)
    requires
        0 <= i <= ch.len(),
        spec_ct_fields(ch.subrange(0, i), name, attrs_only) is Err,
    ensures
        spec_ct_fields(ch, name, attrs_only) == spec_ct_fields(ch.subrange(0, i), name, attrs_only),
    decreases ch.len(),
{
    if i < ch.len() {
        assert(ch.drop_last().subrange(0, i) == ch.subrange(0, i));
        lemma_ct_err(ch.drop_last(), name, attrs_only, i);
    } else {
        assert(ch.subrange(0, i) == ch);
    }
}

/// The fields of the content children of `node`, in order.
fn ct_fields(node: &XmlNode, name: &str, attrs_only: bool) -> (r: Result<
    Vec<StructField>,
    ParseError,
>)
    ensures
        res_fields(r) == spec_ct_fields(node.children@, name@, attrs_only),
{
    let ghost ch = node.children@;
    let n = node.children.len();
    let mut out: Vec<StructField> = Vec::new();
    let mut i: usize = 0;
    assert(ch.subrange(0, 0) =~= Seq::<XmlNode>::empty());
    assert(fields_view(out@) =~= Seq::<FieldV>::empty());
    while i < n
        invariant
            ch == node.children@,
            n == ch.len(),
            i <= n,
            spec_ct_fields(ch.subrange(0, i as int), name@, attrs_only) == Ok::<
                Seq<FieldV>,
                ErrorKind,
            >(fields_view(out@)),
        decreases n - i,
    {
        assert(ch.subrange(0, i + 1).drop_last() == ch.subrange(0, i as int));
        let c = &node.children[i];
        if c.classify() != ElementType::Annotation {
            match ct_item(c, name, attrs_only) {
                Ok(fs) => {
                    append_fields(&mut out, &fs);
                },
                Err(e) => {
                    proof {
                        lemma_ct_err(ch, name@, attrs_only, i + 1);
                    }
                    return Err(e);
                },
            }
        }
        i = i + 1;
    }
    assert(ch.subrange(0, n as int) == ch);
    Ok(out)
}

/// The fields of the first record named `name` among `known`.
fn find_known(known: &Vec<RsEntity>, name: &str) -> (r: Option<Vec<StructField>>)
    ensures
        match r {
            Some(fs) => known_fields(entities_view(known@), name@) == Some(fields_view(fs@)),
            None => known_fields(entities_view(known@), name@) is None,
        },
{
    let ghost v = entities_view(known@);
    let n = known.len();
    let mut i: usize = 0;
    assert(v.subrange(0, n as int) == v);
    while i < n
        invariant
            n == known@.len(),
            v == entities_view(known@),
            v.len() == n,
            i <= n,
            known_fields(v, name@) == known_fields(v.subrange(i as int, n as int), name@),
        decreases n - i,
    {
        assert(v.subrange(i as int, n as int).drop_first() == v.subrange(i + 1, n as int));
        assert(v.subrange(i as int, n as int)[0] == known@[i as int]@);
        match &known[i] {
            RsEntity::Struct(st) => {
                if str_eq(st.name.as_str(), name) {
                    let mut fs: Vec<StructField> = Vec::new();
                    append_fields(&mut fs, &st.fields);
                    assert(fields_view(fs@) =~= fields_view(st.fields@));
                    return Some(fs);
                }
            },
            _ => {},
        }
        i = i + 1;
    }
    None
}

/// The index of the only content child of `node`, if it has exactly one.
fn sole_content_index(node: &XmlNode) -> (r: Option<usize>)
    ensures
        match r {
            Some(i) => i < node.children@.len() && sole_content(*node) == Some(
                node.children@[i as int],
            ),
            None => sole_content(*node) is None,
        },
{
    let (count, first) = content_info(node);
    if count == 1 {
        Some(first)
    } else {
        None
    }
}

fn parse_derived(d: &XmlNode, name: &str, known: &Vec<RsEntity>) -> (r: Result<
    Vec<StructField>,
    ParseError,
>)
    ensures
        res_fields(r) == spec_derived(*d, name@, entities_view(known@)),
{
    let b = match d.attribute("base") {
        Some(b) => b,
        None => {
            return Err(ParseError::at(ErrorKind::UnexpectedChildShape, d, name));
        },
    };
    let local = ct_fields(d, name, false)?;
    let lp = crate::generator::local_part_of(b.as_str());
    if str_eq(lp.as_str(), "anyType") {
        return Ok(local);
    }
    match find_known(known, lp.as_str()) {
        None => Err(ParseError::named(ErrorKind::UnexpectedChildShape, b.as_str(), name)),
        Some(bf) => if d.classify() == ElementType::Extension {
            Ok(merge_extension(&bf, &local))
        } else {
            Ok(merge_restriction(&bf, &local))
        },
    }
}

fn parse_simple_content(sc: &XmlNode, name: &str, comment: Option<String>) -> (r: Result<
    RsEntity,
    ParseError,
>)
    ensures
        res_view(r) == spec_simple_content(*sc, name@, opt_view(comment)),
{
    let i = match sole_content_index(sc) {
        Some(i) => i,
        None => {
            return Err(ParseError::at(ErrorKind::UnexpectedChildShape, sc, name));
        },
    };
    let ext = &sc.children[i];
    if ext.classify() != ElementType::Extension {
        return Err(ParseError::at(ErrorKind::UnexpectedChildShape, ext, name));
    }
    let b = match ext.attribute("base") {
        Some(b) => b,
        None => {
            return Err(ParseError::at(ErrorKind::UnexpectedChildShape, ext, name));
        },
    };
    let fs = ct_fields(ext, name, true)?;
    assert(fields_view(fs@).len() == fs@.len());
    if fs.len() == 0 {
        Ok(
            RsEntity::TupleStruct(
                TupleStruct {
                    name: String::from_str(name),
                    comment,
                    type_ref: b,
                    type_modifiers: Vec::new(),
                },
            ),
        )
    } else {
        let mut fields: Vec<StructField> = Vec::new();
        fields.push(
            StructField {
                name: String::from_str("base"),
                type_ref: b,
                comment: None,
                type_modifiers: Vec::new(),
                default: None,
                choice: None,
            },
        );
        assert(fields_view(fields@) =~= seq![base_field(b@)]);
        append_fields(&mut fields, &fs);
        Ok(RsEntity::Struct(Struct { name: String::from_str(name), comment, fields }))
    }
}

/// Parses a named `complexType` into a record, or into an enumeration when
/// its only content is a choice. A derived type merges the fields of its
/// base record, which must stand among `known`.
pub fn parse_complex_type(node: &XmlNode, known: &Vec<RsEntity>) -> (r: Result<
    RsEntity,
    ParseError,
>)
    ensures
        res_view(r) == spec_complex_type(*node, entities_view(known@)),
{
    match node.attribute("name") {
        Some(n) => parse_complex_type_named(node, n, known),
        None => Err(ParseError::at(ErrorKind::UnexpectedChildShape, node, "")),
    }
}

/// Parses a `complexType` under the name `name`; see `parse_complex_type`.
pub fn parse_complex_type_named(node: &XmlNode, name: String, known: &Vec<RsEntity>) -> (r: Result<
    RsEntity,
    ParseError,
>)
    ensures
        res_view(r) == spec_complex_type_named(*node, name@, entities_view(known@)),
{
    let comment = node.documentation();
    let fields = match sole_content_index(node) {
        Some(i) => {
            let c = &node.children[i];
            let k = c.classify();
            if k == ElementType::Choice {
                let en = parse_choice(c, name.as_str())?;
                return Ok(RsEntity::Enum(en));
            } else if k == ElementType::SimpleContent {
                return parse_simple_content(c, name.as_str(), comment);
            } else if k == ElementType::ComplexContent {
                match sole_content_index(c) {
                    Some(j) => {
                        let d = &c.children[j];
                        let dk = d.classify();
                        if dk == ElementType::Extension || dk == ElementType::Restriction {
                            parse_derived(d, name.as_str(), known)?
                        } else {
                            return Err(
                                ParseError::at(ErrorKind::UnexpectedChildShape, d, name.as_str()),
                            );
                        }
                    },
                    None => {
                        return Err(
                            ParseError::at(ErrorKind::UnexpectedChildShape, c, name.as_str()),
                        );
                    },
                }
            } else {
                ct_fields(node, name.as_str(), false)?
            }
        },
        None => ct_fields(node, name.as_str(), false)?,
    };
    Ok(RsEntity::Struct(Struct { name, comment, fields }))
}

/// The cases of the `enumeration` children of a restriction, in order;
/// other facets add none.
pub open spec fn spec_enum_values(ch: Seq<XmlNode>) -> Result<Seq<CaseV>, ErrorKind>
    decreases ch.len(),
{
    if ch.len() == 0 {
        Ok(Seq::empty())
    } else {
        match spec_enum_values(ch.drop_last()) {
            Err(e) => Err(e),
            Ok(p) => if kind_of(ch.last()) == ElementType::Enumeration {
                match attr_of(ch.last(), "value"@) {
                    Some(v) => Ok(
                        p.push(CaseV { name: v, value: v, type_ref: None, comment: doc_of(ch.last()) }),
                    ),
                    None => Err(ErrorKind::UnexpectedChildShape),
                }
            } else {
                Ok(p)
            },
        }
    }
}

/// The type a named `simpleType` becomes: a restriction that enumerates
/// values is an enumeration, any other restriction an alias of its base, and
/// a list a tuple type holding a list of its item type.
pub open spec fn spec_simple_type(node: XmlNode, name: Seq<char>) -> Result<EntityV, ErrorKind> {
    match sole_content(node) {
        Some(r) => if kind_of(r) == ElementType::Restriction {
            match attr_of(r, "base"@) {
                None => Err(ErrorKind::UnexpectedChildShape),
                Some(b) => match spec_enum_values(r.children@) {
                    Err(e) => Err(e),
                    Ok(cs) => if cs.len() == 0 {
                        Ok(EntityV::Alias { name, original: b, comment: doc_of(node) })
                    } else {
                        Ok(EntityV::Enum(EnumV { name, comment: doc_of(node), cases: cs }))
                    },
                },
            }
        } else if kind_of(r) == ElementType::List {
            match attr_of(r, "itemType"@) {
                Some(t) => Ok(
                    EntityV::TupleStruct {
                        name,
                        comment: doc_of(node),
                        type_ref: t,
                        modifiers: seq![TypeModifier::Array],
                    },
                ),
                None => Err(ErrorKind::UnexpectedChildShape),
            }
        } else if kind_of(r) == ElementType::Unknown {
            Err(ErrorKind::UnrecognizedConstruct)
        } else {
            Err(ErrorKind::UnexpectedChildShape)
        },
        None => Err(ErrorKind::UnexpectedChildShape),
    }
}

proof fn lemma_enum_values_err(ch: Seq<XmlNode>, i: int)
    requires
        0 <= i <= ch.len(),
        spec_enum_values(ch.subrange(0, i)) is Err,
    ensures
        spec_enum_values(ch) == spec_enum_values(ch.subrange(0, i)),
    decreases ch.len(),
{
    if i < ch.len() {
        assert(ch.drop_last().subrange(0, i) == ch.subrange(0, i));
        lemma_enum_values_err(ch.drop_last(), i);
    } else {
        assert(ch.subrange(0, i) == ch);
    }
}

fn enum_values(r: &XmlNode) -> (res: Result<Vec<EnumCase>, ParseError>)
    ensures
        match res {
            Ok(v) => spec_enum_values(r.children@) == Ok::<Seq<CaseV>, ErrorKind>(
                v@.map_values(|c: EnumCase| c@),
            ),
            Err(e) => spec_enum_values(r.children@) == Err::<Seq<CaseV>, ErrorKind>(e.kind),
        },
{
    let ghost ch = r.children@;
    let n = r.children.len();
    let mut out: Vec<EnumCase> = Vec::new();
    let mut i: usize = 0;
    assert(ch.subrange(0, 0) =~= Seq::<XmlNode>::empty());
    assert(out@.map_values(|c: EnumCase| c@) =~= Seq::<CaseV>::empty());
    while i < n
        invariant
            ch == r.children@,
            n == ch.len(),
            i <= n,
            spec_enum_values(ch.subrange(0, i as int)) == Ok::<Seq<CaseV>, ErrorKind>(
                out@.map_values(|c: EnumCase| c@),
            ),
        decreases n - i,
    {
        assert(ch.subrange(0, i + 1).drop_last() == ch.subrange(0, i as int));
        let c = &r.children[i];
        if c.classify() == ElementType::Enumeration {
            match c.attribute("value") {
                Some(v) => {
                    let ghost before = out@;
                    let case = EnumCase {
                        name: v.clone(),
                        value: v,
                        type_ref: None,
                        comment: c.documentation(),
                    };
                    out.push(case);
                    assert(out@.map_values(|c: EnumCase| c@) =~= before.map_values(
                        |c: EnumCase| c@,
                    ).push(case@));
                },
                None => {
                    proof {
                        lemma_enum_values_err(ch, i + 1);
                    }
                    return Err(ParseError::at(ErrorKind::UnexpectedChildShape, c, "enumeration"));
                },
            }
        }
        i = i + 1;
    }
    assert(ch.subrange(0, n as int) == ch);
    Ok(out)
}

/// Parses a `simpleType` named `name`.
pub fn parse_simple_type(node: &XmlNode, name: &str) -> (r: Result<RsEntity, ParseError>)
    ensures
        res_view(r) == spec_simple_type(*node, name@),
{
    let i = match sole_content_index(node) {
        Some(i) => i,
        None => {
            return Err(ParseError::at(ErrorKind::UnexpectedChildShape, node, name));
        },
    };
    let c = &node.children[i];
    let k = c.classify();
    if k == ElementType::Restriction {
        let b = match c.attribute("base") {
            Some(b) => b,
            None => {
                return Err(ParseError::at(ErrorKind::UnexpectedChildShape, c, name));
            },
        };
        let cases = enum_values(c)?;
        if cases.len() == 0 {
            Ok(
                RsEntity::Alias(
                    Alias { name: String::from_str(name), original: b, comment: node.documentation() },
                ),
            )
        } else {
            Ok(
                RsEntity::Enum(
                    Enum { name: String::from_str(name), comment: node.documentation(), cases },
                ),
            )
        }
    } else if k == ElementType::List {
        match c.attribute("itemType") {
            Some(t) => {
                let mods = vec![TypeModifier::Array];
                assert(mods@ =~= seq![TypeModifier::Array]);
                Ok(
                    RsEntity::TupleStruct(
                        TupleStruct {
                            name: String::from_str(name),
                            comment: node.documentation(),
                            type_ref: t,
                            type_modifiers: mods,
                        },
                    ),
                )
            },
            None => Err(ParseError::at(ErrorKind::UnexpectedChildShape, c, name)),
        }
    } else if k == ElementType::Unknown {
        Err(ParseError::at(ErrorKind::UnrecognizedConstruct, c, name))
    } else {
        Err(ParseError::at(ErrorKind::UnexpectedChildShape, c, name))
    }
}

/// The node of the type model a top-level child of a schema becomes, if
/// any; `known` holds the nodes parsed before it.
pub open spec fn spec_top(node: XmlNode, known: Seq<EntityV>) -> Result<
    Option<EntityV>,
    ErrorKind,
> {
    let k = kind_of(node);
    if k == ElementType::Annotation {
        Ok(None)
    } else if k == ElementType::ComplexType {
        match spec_complex_type(node, known) {
            Ok(x) => Ok(Some(x)),
            Err(e) => Err(e),
        }
    } else if k == ElementType::SimpleType {
        match attr_of(node, "name"@) {
            None => Err(ErrorKind::UnexpectedChildShape),
            Some(n) => match spec_simple_type(node, n) {
                Ok(x) => Ok(Some(x)),
                Err(e) => Err(e),
            },
        }
    } else if k == ElementType::Element {
        match (attr_of(node, "name"@), attr_of(node, "type"@)) {
            (Some(n), Some(t)) => Ok(
                Some(EntityV::Alias { name: n, original: t, comment: doc_of(node) }),
            ),
            (Some(n), None) => match sole_content(node) {
                Some(c) => if kind_of(c) == ElementType::ComplexType {
                    match spec_complex_type_named(c, n, known) {
                        Ok(x) => Ok(Some(x)),
                        Err(e) => Err(e),
                    }
                } else if kind_of(c) == ElementType::SimpleType {
                    match spec_simple_type(c, n) {
                        Ok(x) => Ok(Some(x)),
                        Err(e) => Err(e),
                    }
                } else {
                    Err(ErrorKind::UnexpectedChildShape)
                },
                None => Err(ErrorKind::UnexpectedChildShape),
            },
            _ => Err(ErrorKind::UnexpectedChildShape),
        }
    } else if k == ElementType::Unknown {
        Err(ErrorKind::UnrecognizedConstruct)
    } else {
        Err(ErrorKind::UnexpectedChildShape)
    }
}

/// The output names of a sequence of nodes.
pub open spec fn entity_names(es: Seq<EntityV>) -> Seq<Seq<char>> {
    es.map_values(|e: EntityV| pascal(e.name()))
}

/// `es` with `x` appended, unless a node of `es` already has its output
/// name.
pub open spec fn add_entity(es: Seq<EntityV>, x: EntityV) -> Result<Seq<EntityV>, ErrorKind> {
    if entity_names(es).contains(pascal(x.name())) {
        Err(ErrorKind::NameCollision)
    } else {
        Ok(es.push(x))
    }
}

/// The state of a document after one more top-level child. An import must
/// name a namespace of the table `modules`; it becomes a node of the model
/// and an entry of the document's import table.
pub open spec fn schema_step(
    node: XmlNode,
    modules: Seq<(Seq<char>, Seq<char>, Seq<char>)>,
    target: Option<Seq<char>>,
    es: Seq<EntityV>,
    imports: Seq<(Seq<char>, Seq<char>, Seq<char>)>,
) -> Result<(Seq<EntityV>, Seq<(Seq<char>, Seq<char>, Seq<char>)>), ErrorKind> {
    if kind_of(node) == ElementType::Include {
        match target {
            Some(t) => if lookup_import(modules, t) is Some {
                Ok((es, imports))
            } else {
                Err(ErrorKind::UnresolvedImport)
            },
            None => Err(ErrorKind::UnresolvedImport),
        }
    } else if kind_of(node) == ElementType::Import {
        match attr_of(node, "namespace"@) {
            None => Err(ErrorKind::UnexpectedChildShape),
            Some(ns) => match lookup_import(modules, ns) {
                None => Err(ErrorKind::UnresolvedImport),
                Some(entry) => match add_entity(
                    es,
                    EntityV::Import { name: ns, location: entry.2, comment: doc_of(node) },
                ) {
                    Ok(es2) => Ok((es2, imports.push(entry))),
                    Err(e) => Err(e),
                },
            },
        }
    } else {
        match spec_top(node, es) {
            Err(e) => Err(e),
            Ok(None) => Ok((es, imports)),
            Ok(Some(x)) => match add_entity(es, x) {
                Ok(es2) => Ok((es2, imports)),
                Err(e) => Err(e),
            },
        }
    }
}

/// The nodes and imports of the top-level children `ch`, or the first
/// failure.
pub open spec fn schema_fold(
    ch: Seq<XmlNode>,
    modules: Seq<(Seq<char>, Seq<char>, Seq<char>)>,
    target: Option<Seq<char>>,
) -> Result<
    (Seq<EntityV>, Seq<(Seq<char>, Seq<char>, Seq<char>)>),
    ErrorKind,
>
    decreases ch.len(),
{
    if ch.len() == 0 {
        Ok((Seq::empty(), Seq::empty()))
    } else {
        match schema_fold(ch.drop_last(), modules, target) {
            Err(e) => Err(e),
            Ok((es, imports)) => schema_step(ch.last(), modules, target, es, imports),
        }
    }
}

/// The document a `schema` root node becomes under the name `name`, with
/// the modules of the other documents compiled with it in `modules`.
pub open spec fn spec_schema(
    root: XmlNode,
    name: Seq<char>,
    modules: Seq<(Seq<char>, Seq<char>, Seq<char>)>,
) -> Result<FileV, ErrorKind> {
    if kind_of(root) != ElementType::Schema {
        Err(ErrorKind::UnexpectedChildShape)
    } else {
        match schema_fold(root.children@, modules, attr_of(root, "targetNamespace"@)) {
            Err(e) => Err(e),
            Ok((es, imports)) => Ok(
                FileV { name, target: attr_of(root, "targetNamespace"@), types: es, imports },
            ),
        }
    }
}

proof fn lemma_schema_err(
    ch: Seq<XmlNode>,
    modules: Seq<(Seq<char>, Seq<char>, Seq<char>)>,
    target: Option<Seq<char>>,
    i: int,
)
    requires
        0 <= i <= ch.len(),
        schema_fold(ch.subrange(0, i), modules, target) is Err,
    ensures
        schema_fold(ch, modules, target) == schema_fold(ch.subrange(0, i), modules, target),
    decreases ch.len(),
{
    if i < ch.len() {
        assert(ch.drop_last().subrange(0, i) == ch.subrange(0, i));
        lemma_schema_err(ch.drop_last(), modules, target, i);
    } else {
        assert(ch.subrange(0, i) == ch);
    }
}

/// The views of a table of imports.
pub open spec fn imports_view(t: Seq<ImportEntry>) -> Seq<(Seq<char>, Seq<char>, Seq<char>)> {
    t.map_values(|e: ImportEntry| e@)
}

/// Whether a node of `es` is named `name`.
fn has_entity_named(es: &Vec<RsEntity>, name: &str) -> (r: bool)
    ensures
        r == entity_names(entities_view(es@)).contains(pascal(name@)),
{
    let target = to_pascal_case(name);
    let ghost v = entity_names(entities_view(es@));
    let mut i: usize = 0;
    while i < es.len()
        invariant
            v == entity_names(entities_view(es@)),
            v.len() == es@.len(),
            i <= es@.len(),
            target@ == pascal(name@),
            forall|j: int| 0 <= j < i ==> v[j] != pascal(name@),
        decreases es@.len() - i,
    {
        assert(v[i as int] == pascal(es@[i as int]@.name()));
        let out_name = to_pascal_case(es[i].name().as_str());
        if str_eq(out_name.as_str(), target.as_str()) {
            return true;
        }
        i = i + 1;
    }
    false
}

/// Appends `x` to `types` unless a node of `types` already has its name.
fn add_checked(types: &mut Vec<RsEntity>, x: RsEntity) -> (r: Result<(), ParseError>)
    requires
        entity_names(entities_view(old(types)@)).no_duplicates(),
    ensures
        match add_entity(entities_view(old(types)@), x@) {
            Ok(es) => r is Ok && entities_view(final(types)@) == es,
            Err(e) => r matches Err(err) && err.kind == e,
        },
        entity_names(entities_view(final(types)@)).no_duplicates(),
{
    if has_entity_named(types, x.name().as_str()) {
        return Err(ParseError::named(ErrorKind::NameCollision, x.name().as_str(), ""));
    }
    let ghost before = entities_view(types@);
    types.push(x);
    assert(entities_view(types@) =~= before.push(x@));
    assert(entity_names(entities_view(types@)) =~= entity_names(before).push(pascal(x@.name())));
    Ok(())
}

/// The index of the entry of `t` for namespace `ns`.
fn find_entry(t: &Vec<ImportEntry>, ns: &str) -> (r: Option<usize>)
    ensures
        match r {
            Some(i) => i < t@.len() && lookup_import(imports_view(t@), ns@)
                == Some(t@[i as int]@),
            None => lookup_import(imports_view(t@), ns@) is None,
        },
{
    let ghost v = imports_view(t@);
    let n = t.len();
    let mut i: usize = 0;
    assert(v.subrange(0, n as int) == v);
    while i < n
        invariant
            n == t@.len(),
            v == imports_view(t@),
            i <= n,
            lookup_import(v, ns@) == lookup_import(v.subrange(i as int, n as int), ns@),
        decreases n - i,
    {
        assert(v.subrange(i as int, n as int).drop_first() == v.subrange(i + 1, n as int));
        assert(v.subrange(i as int, n as int)[0] == t@[i as int]@);
        if str_eq(t[i].namespace.as_str(), ns) {
            return Some(i);
        }
        i = i + 1;
    }
    None
}

/// Parses a top-level child of a schema into a node of the model, if it
/// makes one; `known` holds the nodes parsed before it.
pub fn parse_top(node: &XmlNode, known: &Vec<RsEntity>) -> (r: Result<
    Option<RsEntity>,
    ParseError,
>)
    ensures
        match r {
            Ok(Some(x)) => spec_top(*node, entities_view(known@)) == Ok::<
                Option<EntityV>,
                ErrorKind,
            >(Some(x@)),
            Ok(None) => spec_top(*node, entities_view(known@)) == Ok::<
                Option<EntityV>,
                ErrorKind,
            >(None),
            Err(e) => spec_top(*node, entities_view(known@)) == Err::<Option<EntityV>, ErrorKind>(
                e.kind,
            ),
        },
{
    let k = node.classify();
    if k == ElementType::Annotation {
        Ok(None)
    } else if k == ElementType::ComplexType {
        Ok(Some(parse_complex_type(node, known)?))
    } else if k == ElementType::SimpleType {
        match node.attribute("name") {
            None => Err(ParseError::at(ErrorKind::UnexpectedChildShape, node, "")),
            Some(n) => Ok(Some(parse_simple_type(node, n.as_str())?)),
        }
    } else if k == ElementType::Element {
        match (node.attribute("name"), node.attribute("type")) {
            (Some(n), Some(t)) => Ok(
                Some(RsEntity::Alias(Alias { name: n, original: t, comment: node.documentation() })),
            ),
            (Some(n), None) => match sole_content_index(node) {
                Some(i) => {
                    let c = &node.children[i];
                    let ck = c.classify();
                    if ck == ElementType::ComplexType {
                        Ok(Some(parse_complex_type_named(c, n, known)?))
                    } else if ck == ElementType::SimpleType {
                        Ok(Some(parse_simple_type(c, n.as_str())?))
                    } else {
                        Err(ParseError::at(ErrorKind::UnexpectedChildShape, c, n.as_str()))
                    }
                },
                None => Err(ParseError::at(ErrorKind::UnexpectedChildShape, node, n.as_str())),
            },
            _ => Err(ParseError::at(ErrorKind::UnexpectedChildShape, node, "")),
        }
    } else if k == ElementType::Unknown {
        Err(ParseError::at(ErrorKind::UnrecognizedConstruct, node, ""))
    } else {
        Err(ParseError::at(ErrorKind::UnexpectedChildShape, node, ""))
    }
}

/// Parses a whole schema document named `name`: its top-level nodes in
/// document order, its target namespace and its import table. `modules`
/// maps the namespaces of the other documents compiled with it to their
/// alias and module name. No two nodes of a parsed document share an output name.
pub fn parse_schema(root: &XmlNode, name: &str, modules: &Vec<ImportEntry>) -> (r: Result<
    RsFile,
    ParseError,
>)
    ensures
        res_view(r) == spec_schema(*root, name@, imports_view(modules@)),
        r matches Ok(f) ==> entity_names(f@.types).no_duplicates(),
{
    let ghost mv = imports_view(modules@);
    if root.classify() != ElementType::Schema {
        return Err(ParseError::at(ErrorKind::UnexpectedChildShape, root, name));
    }
    let ghost ch = root.children@;
    let target = root.attribute("targetNamespace");
    let ghost tg = opt_view(target);
    let n = root.children.len();
    let mut types: Vec<RsEntity> = Vec::new();
    let mut imports: Vec<ImportEntry> = Vec::new();
    let mut i: usize = 0;
    assert(ch.subrange(0, 0) =~= Seq::<XmlNode>::empty());
    assert(entities_view(types@) =~= Seq::<EntityV>::empty());
    assert(imports_view(imports@) =~= Seq::<
        (Seq<char>, Seq<char>, Seq<char>),
    >::empty());
    while i < n
        invariant
            ch == root.children@,
            kind_of(*root) == ElementType::Schema,
            n == ch.len(),
            mv == imports_view(modules@),
            i <= n,
            tg == attr_of(*root, "targetNamespace"@),
            tg == opt_view(target),
            schema_fold(ch.subrange(0, i as int), mv, tg) == Ok::<
                (Seq<EntityV>, Seq<(Seq<char>, Seq<char>, Seq<char>)>),
                ErrorKind,
            >((entities_view(types@), imports_view(imports@))),
            entity_names(entities_view(types@)).no_duplicates(),
        decreases n - i,
    {
        assert(ch.subrange(0, i + 1).drop_last() == ch.subrange(0, i as int));
        assert(ch.subrange(0, i + 1).last() == ch[i as int]);
        let ghost es0 = entities_view(types@);
        let ghost is0 = imports_view(imports@);
        assert(schema_fold(ch.subrange(0, i + 1), mv, tg) == schema_step(ch[i as int], mv, tg, es0, is0));
        let c = &root.children[i];
        let ck = c.classify();
        if ck == ElementType::Include {
            let resolved = match &target {
                Some(t) => find_entry(modules, t.as_str()).is_some(),
                None => false,
            };
            if !resolved {
                proof {
                    lemma_schema_err(ch, mv, tg, i + 1);
                }
                return Err(ParseError::at(ErrorKind::UnresolvedImport, c, name));
            }
        } else if ck == ElementType::Import {
            let ns = match c.attribute("namespace") {
                Some(ns) => ns,
                None => {
                    proof {
                        lemma_schema_err(ch, mv, tg, i + 1);
                    }
                    return Err(ParseError::at(ErrorKind::UnexpectedChildShape, c, name));
                },
            };
            let k = match find_entry(modules, ns.as_str()) {
                Some(k) => k,
                None => {
                    proof {
                        lemma_schema_err(ch, mv, tg, i + 1);
                    }
                    return Err(ParseError::named(ErrorKind::UnresolvedImport, ns.as_str(), name));
                },
            };
            let entry = &modules[k];
            let x = RsEntity::Import(
                Import { name: ns, location: entry.module.clone(), comment: c.documentation() },
            );
            match add_checked(&mut types, x) {
                Ok(()) => {},
                Err(e) => {
                    proof {
                        lemma_schema_err(ch, mv, tg, i + 1);
                    }
                    return Err(e);
                },
            }
            let ghost before = imports@;
            let copy = ImportEntry {
                namespace: entry.namespace.clone(),
                alias: entry.alias.clone(),
                module: entry.module.clone(),
            };
            imports.push(copy);
            assert(imports_view(imports@) =~= imports_view(before).push(entry@));
        } else {
            match parse_top(c, &types) {
                Err(e) => {
                    proof {
                        lemma_schema_err(ch, mv, tg, i + 1);
                    }
                    return Err(e);
                },
                Ok(None) => {},
                Ok(Some(x)) => match add_checked(&mut types, x) {
                    Ok(()) => {},
                    Err(e) => {
                        proof {
                            lemma_schema_err(ch, mv, tg, i + 1);
                        }
                        return Err(e);
                    },
                },
            }
        }
        i = i + 1;
    }
    assert(ch.subrange(0, n as int) == ch);
    let target_ns = match target {
        Some(uri) => Some(Namespace { prefix: None, uri }),
        None => None,
    };
    Ok(RsFile { name: String::from_str(name), target_ns, types, imports })
}

} // verus!
