//! Rendering of the type model as Rust source text, one module per schema
//! document, with one configurable renderer per kind of node.
use vstd::prelude::*;
use crate::case::{pascal, snake, to_pascal_case, to_snake_case};
use crate::error::{ErrorKind, ParseError};
use crate::naming::{module_name_of, namespace_to_module_name};
use crate::text::{opt_view, push_char, str_eq};
use crate::types::{
    CaseV, Enum, EnumCase, EnumV, EntityV, FieldV, FileV, RsEntity, RsFile, Struct, StructField,
    StructV, TupleStruct, TypeModifier,
};

verus! {

/// The part of a qualified name after its last `:`.
pub open spec fn local_part(s: Seq<char>) -> Seq<char>
    decreases s.len(),
{
    if s.len() == 0 {
        s
    } else if s.last() == ':' {
        Seq::empty()
    } else {
        local_part(s.drop_last()).push(s.last())
    }
}

/// The Rust type of a built-in schema type.
pub open spec fn builtin(t: Seq<char>) -> Option<Seq<char>> {
    if t == "string"@ || t == "anyURI"@ || t == "token"@ {
        Some("String"@)
    } else if t == "boolean"@ {
        Some("bool"@)
    } else if t == "int"@ {
        Some("i32"@)
    } else if t == "integer"@ || t == "long"@ {
        Some("i64"@)
    } else if t == "unsignedInt"@ {
        Some("u32"@)
    } else if t == "unsignedLong"@ {
        Some("u64"@)
    } else {
        None
    }
}

/// The Rust type that a referenced type name renders as.
pub open spec fn rust_type(t: Seq<char>) -> Seq<char> {
    match builtin(local_part(t)) {
        Some(b) => b,
        None => pascal(local_part(t)),
    }
}

pub(crate) fn local_part_of(s: &str) -> (r: String)
    ensures
        r@ == local_part(s@),
{
    let n = s.unicode_len();
    let mut out = String::new();
    let mut i: usize = 0;
    while i < n
        invariant
            n == s@.len(),
            i <= n,
            out@ == local_part(s@.subrange(0, i as int)),
        decreases n - i,
    {
        let ghost pre = s@.subrange(0, i + 1);
        assert(pre.drop_last() == s@.subrange(0, i as int));
        let c = s.get_char(i);
        if c == ':' {
            out = String::new();
        } else {
            push_char(&mut out, c);
        }
        i = i + 1;
    }
    assert(s@.subrange(0, n as int) == s@);
    out
}

fn builtin_of(t: &str) -> (r: Option<&'static str>)
    ensures
        match r {
            Some(x) => builtin(t@) == Some(x@),
            None => builtin(t@) is None,
        },
{
    if str_eq(t, "string") || str_eq(t, "anyURI") || str_eq(t, "token") {
        Some("String")
    } else if str_eq(t, "boolean") {
        Some("bool")
    } else if str_eq(t, "int") {
        Some("i32")
    } else if str_eq(t, "integer") || str_eq(t, "long") {
        Some("i64")
    } else if str_eq(t, "unsignedInt") {
        Some("u32")
    } else if str_eq(t, "unsignedLong") {
        Some("u64")
    } else {
        None
    }
}

/// The Rust type that a referenced type name renders as.
pub fn to_rust_type(t: &str) -> (r: String)
    ensures
        r@ == rust_type(t@),
{
    let local = local_part_of(t);
    match builtin_of(local.as_str()) {
        Some(b) => String::from_str(b),
        None => to_pascal_case(local.as_str()),
    }
}

/// The comment line of an optional doc comment.
pub open spec fn comment_text(c: Option<Seq<char>>) -> Seq<char> {
    match c {
        Some(t) => "// "@ + t + "\n"@,
        None => Seq::empty(),
    }
}

fn comment_string(c: &Option<String>) -> (r: String)
    ensures
        r@ == comment_text(opt_view(*c)),
{
    match c {
        Some(t) => String::from_str("// ").concat(t.as_str()).concat("\n"),
        None => String::new(),
    }
}

/// The type of a field: an empty marker is a `bool`; a recursive field is
/// boxed, a repeated one a `Vec`, an optional one an `Option`, in that order
/// from the inside out.
pub open spec fn field_type(f: FieldV) -> Seq<char> {
    let base = if f.modifiers.contains(TypeModifier::Empty) {
        "bool"@
    } else {
        rust_type(f.type_ref)
    };
    let t1 = if f.modifiers.contains(TypeModifier::Recursive) {
        "Box<"@ + base + ">"@
    } else {
        base
    };
    let t2 = if f.modifiers.contains(TypeModifier::Array) {
        "Vec<"@ + t1 + ">"@
    } else {
        t1
    };
    if f.modifiers.contains(TypeModifier::Optional) {
        "Option<"@ + t2 + ">"@
    } else {
        t2
    }
}

/// The text of a field, with the field renderer's attribute text `a`.
pub open spec fn field_text(a: Seq<char>, f: FieldV) -> Seq<char> {
    comment_text(f.comment) + a + "    pub "@ + snake(f.name) + ": "@ + field_type(f) + ",\n"@
}

/// The text of an enumeration case, with the case renderer's attribute text.
pub open spec fn case_text(a: Seq<char>, c: CaseV) -> Seq<char> {
    comment_text(c.comment) + a + "    "@ + pascal(c.name) + match c.type_ref {
        Some(t) => "("@ + rust_type(t) + ")"@,
        None => Seq::empty(),
    } + ",\n"@
}

pub open spec fn cases_text(a: Seq<char>, cs: Seq<CaseV>) -> Seq<char>
    decreases cs.len(),
{
    if cs.len() == 0 {
        Seq::empty()
    } else {
        cases_text(a, cs.drop_last()) + case_text(a, cs.last())
    }
}

pub open spec fn fields_text(a: Seq<char>, fs: Seq<FieldV>) -> Seq<char>
    decreases fs.len(),
{
    if fs.len() == 0 {
        Seq::empty()
    } else {
        fields_text(a, fs.drop_last()) + field_text(a, fs.last())
    }
}

fn has_modifier(mods: &Vec<TypeModifier>, m: TypeModifier) -> (r: bool)
    ensures
        r == mods@.contains(m),
{
    let mut i: usize = 0;
    while i < mods.len()
        invariant
            i <= mods@.len(),
            forall|j: int| 0 <= j < i ==> mods@[j] != m,
        decreases mods@.len() - i,
    {
        if mods[i] == m {
            return true;
        }
        i = i + 1;
    }
    false
}

/// The type a field renders as.
pub fn render_field_type(f: &StructField) -> (r: String)
    ensures
        r@ == field_type(f@),
{
    let base = if has_modifier(&f.type_modifiers, TypeModifier::Empty) {
        String::from_str("bool")
    } else {
        to_rust_type(f.type_ref.as_str())
    };
    let t1 = if has_modifier(&f.type_modifiers, TypeModifier::Recursive) {
        String::from_str("Box<").concat(base.as_str()).concat(">")
    } else {
        base
    };
    let t2 = if has_modifier(&f.type_modifiers, TypeModifier::Array) {
        String::from_str("Vec<").concat(t1.as_str()).concat(">")
    } else {
        t1
    };
    if has_modifier(&f.type_modifiers, TypeModifier::Optional) {
        String::from_str("Option<").concat(t2.as_str()).concat(">")
    } else {
        t2
    }
}

/// The type a tuple type wraps: a `Vec` of its item type for a list.
pub open spec fn tuple_type(mods: Seq<TypeModifier>, t: Seq<char>) -> Seq<char> {
    if mods.contains(TypeModifier::Array) {
        "Vec<"@ + rust_type(t) + ">"@
    } else {
        rust_type(t)
    }
}

fn render_tuple_type(ts: &TupleStruct) -> (r: String)
    ensures
        r@ == tuple_type(ts.type_modifiers@, ts.type_ref@),
{
    let t = to_rust_type(ts.type_ref.as_str());
    if has_modifier(&ts.type_modifiers, TypeModifier::Array) {
        String::from_str("Vec<").concat(t.as_str()).concat(">")
    } else {
        t
    }
}

fn render_field(a: &str, f: &StructField) -> (r: String)
    ensures
        r@ == field_text(a@, f@),
{
    let name = to_snake_case(f.name.as_str());
    let ty = render_field_type(f);
    comment_string(&f.comment).concat(a).concat("    pub ").concat(name.as_str()).concat(
        ": ",
    ).concat(ty.as_str()).concat(",\n")
}

fn render_case(a: &str, c: &EnumCase) -> (r: String)
    ensures
        r@ == case_text(a@, c@),
{
    let name = to_pascal_case(c.name.as_str());
    let payload = match &c.type_ref {
        Some(t) => String::from_str("(").concat(to_rust_type(t.as_str()).as_str()).concat(")"),
        None => String::new(),
    };
    comment_string(&c.comment).concat(a).concat("    ").concat(name.as_str()).concat(
        payload.as_str(),
    ).concat(",\n")
}

/// A renderer of one kind of node: the attribute text (derives, serde
/// directives) it puts before each declaration it renders.
#[derive(Clone, Debug)]
pub struct Renderer {
    pub attributes: String,
}

/// One optional renderer per kind of node. Rendering a kind whose renderer
/// is missing fails with `GeneratorNotConfigured`.
#[derive(Clone, Debug)]
pub struct Generator {
    pub tuple_struct_gen: Option<Renderer>,
    pub struct_gen: Option<Renderer>,
    pub struct_field_gen: Option<Renderer>,
    pub enum_gen: Option<Renderer>,
    pub enum_case_gen: Option<Renderer>,
    pub alias_gen: Option<Renderer>,
    pub import_gen: Option<Renderer>,
}

/// The attribute text of a configured renderer.
pub open spec fn attrs(r: Option<Renderer>) -> Option<Seq<char>> {
    match r {
        Some(x) => Some(x.attributes@),
        None => None,
    }
}

/// The text of an enumeration.
pub open spec fn enum_text(g: Generator, e: EnumV) -> Result<Seq<char>, ErrorKind> {
    match (attrs(g.enum_gen), attrs(g.enum_case_gen)) {
        (Some(a), Some(ca)) => Ok(
            comment_text(e.comment) + a + "pub enum "@ + pascal(e.name) + " {\n"@ + cases_text(
                ca,
                e.cases,
            ) + "}\n\n"@,
        ),
        _ => Err(ErrorKind::GeneratorNotConfigured),
    }
}

/// The enumerations folded into fields, rendered after their record.
pub open spec fn nested_text(g: Generator, fs: Seq<FieldV>) -> Result<Seq<char>, ErrorKind>
    decreases fs.len(),
{
    if fs.len() == 0 {
        Ok(Seq::empty())
    } else {
        match nested_text(g, fs.drop_last()) {
            Err(e) => Err(e),
            Ok(p) => match fs.last().choice {
                None => Ok(p),
                Some(en) => match enum_text(g, en) {
                    Ok(t) => Ok(p + t),
                    Err(e) => Err(e),
                },
            },
        }
    }
}

/// The text of a record, followed by the enumerations of its folded choices.
pub open spec fn struct_text(g: Generator, s: StructV) -> Result<Seq<char>, ErrorKind> {
    match (attrs(g.struct_gen), attrs(g.struct_field_gen)) {
        (Some(a), Some(fa)) => match nested_text(g, s.fields) {
            Ok(n) => Ok(
                comment_text(s.comment) + a + "pub struct "@ + pascal(s.name) + " {\n"@
                    + fields_text(fa, s.fields) + "}\n\n"@ + n,
            ),
            Err(e) => Err(e),
        },
        _ => Err(ErrorKind::GeneratorNotConfigured),
    }
}

/// The entry of an import table for a namespace.
pub open spec fn lookup_import(t: Seq<(Seq<char>, Seq<char>, Seq<char>)>, ns: Seq<char>) -> Option<
    (Seq<char>, Seq<char>, Seq<char>),
>
    decreases t.len(),
{
    if t.len() == 0 {
        None
    } else if t[0].0 == ns {
        Some(t[0])
    } else {
        lookup_import(t.drop_first(), ns)
    }
}

/// The text of an import of module `location` under the name `name`.
pub open spec fn import_text(a: Seq<char>, name: Seq<char>, location: Seq<char>) -> Seq<char> {
    a + "use "@ + location + " as "@ + name + ";\n"@
}

/// The text of any node of the type model. An import is resolved through
/// the import table of the document it is rendered in, if there is one, and
/// taken literally otherwise.
pub open spec fn entity_text(g: Generator, doc: Option<FileV>, e: EntityV) -> Result<
    Seq<char>,
    ErrorKind,
> {
    match e {
        EntityV::TupleStruct { name, comment, type_ref, modifiers } => match attrs(
            g.tuple_struct_gen,
        ) {
            Some(a) => Ok(
                comment_text(comment) + a + "pub struct "@ + pascal(name) + " (pub "@ + tuple_type(
                    modifiers,
                    type_ref,
                ) + ");\n\nimpl Validate for "@ + pascal(name) + " {}\n"@,
            ),
            None => Err(ErrorKind::GeneratorNotConfigured),
        },
        EntityV::Struct(s) => struct_text(g, s),
        EntityV::StructField(f) => match attrs(g.struct_field_gen) {
            Some(a) => Ok(field_text(a, f)),
            None => Err(ErrorKind::GeneratorNotConfigured),
        },
        EntityV::Enum(en) => enum_text(g, en),
        EntityV::EnumCase(c) => match attrs(g.enum_case_gen) {
            Some(a) => Ok(case_text(a, c)),
            None => Err(ErrorKind::GeneratorNotConfigured),
        },
        EntityV::Alias { name, original, comment } => match attrs(g.alias_gen) {
            Some(a) => Ok(
                comment_text(comment) + a + "pub type "@ + pascal(name) + " = "@ + rust_type(
                    original,
                ) + ";\n\n"@,
            ),
            None => Err(ErrorKind::GeneratorNotConfigured),
        },
        EntityV::Import { name, location, comment } => {
            let target = match doc {
                Some(d) => match lookup_import(d.imports, name) {
                    Some(entry) => Some((entry.1, "super::"@ + entry.2)),
                    None => None,
                },
                None => Some((name, location)),
            };
            match target {
                None => Err(ErrorKind::UnresolvedImport),
                Some((n, l)) => match attrs(g.import_gen) {
                    Some(a) => Ok(import_text(a, n, l)),
                    None => Err(ErrorKind::GeneratorNotConfigured),
                },
            }
        },
    }
}

/// The concatenated texts of the nodes `es`, or the first failure.
pub open spec fn entities_text(g: Generator, doc: FileV, es: Seq<EntityV>) -> Result<
    Seq<char>,
    ErrorKind,
>
    decreases es.len(),
{
    if es.len() == 0 {
        Ok(Seq::empty())
    } else {
        match entities_text(g, doc, es.drop_last()) {
            Err(e) => Err(e),
            Ok(p) => match entity_text(g, Some(doc), es.last()) {
                Ok(t) => Ok(p + t),
                Err(e) => Err(e),
            },
        }
    }
}

/// The namespace a document's module is named after: its target namespace,
/// or else its name.
pub open spec fn module_source(f: FileV) -> Seq<char> {
    match f.target {
        Some(u) => u,
        None => f.name,
    }
}

/// The text of a whole document: one module that opens the shared support
/// namespace and holds the texts of its nodes in document order.
pub open spec fn file_text(g: Generator, f: FileV) -> Result<Seq<char>, ErrorKind> {
    match entities_text(g, f, f.types) {
        Ok(c) => Ok(
            "pub mod "@ + module_name_of(module_source(f)) + " {\nuse super::*;\n\n"@ + c
                + "\n}"@,
        ),
        Err(e) => Err(e),
    }
}

/// The renderer an entity is rendered with first, and its name.
pub open spec fn first_renderer(g: Generator, e: EntityV) -> (Option<Renderer>, Seq<char>) {
    match e {
        EntityV::TupleStruct { .. } => (g.tuple_struct_gen, "tuple struct"@),
        EntityV::Struct(_) => (g.struct_gen, "struct"@),
        EntityV::StructField(_) => (g.struct_field_gen, "struct field"@),
        EntityV::Enum(_) => (g.enum_gen, "enum"@),
        EntityV::EnumCase(_) => (g.enum_case_gen, "enum case"@),
        EntityV::Alias { .. } => (g.alias_gen, "alias"@),
        EntityV::Import { .. } => (g.import_gen, "import"@),
    }
}

/// The view of a rendering result.
pub open spec fn res_text(r: Result<String, ParseError>) -> Result<Seq<char>, ErrorKind> {
    match r {
        Ok(s) => Ok(s@),
        Err(e) => Err(e.kind),
    }
}

/// The name of the module generated for a document.
pub fn get_module_name(schema: &RsFile) -> (r: String)
    ensures
        r@ == module_name_of(module_source(schema@)),
{
    match &schema.target_ns {
        Some(ns) => namespace_to_module_name(ns.uri.as_str()),
        None => namespace_to_module_name(schema.name.as_str()),
    }
}

fn not_configured(kind: &str) -> (r: ParseError)
    ensures
        r.kind == ErrorKind::GeneratorNotConfigured,
        r.tag@ == kind@,
{
    ParseError::named(ErrorKind::GeneratorNotConfigured, kind, "")
}

proof fn lemma_nested_err(g: Generator, fs: Seq<FieldV>, i: int)
    requires
        0 <= i <= fs.len(),
        nested_text(g, fs.subrange(0, i)) is Err,
    ensures
        nested_text(g, fs) == nested_text(g, fs.subrange(0, i)),
    decreases fs.len(),
{
    if i < fs.len() {
        assert(fs.drop_last().subrange(0, i) == fs.subrange(0, i));
        lemma_nested_err(g, fs.drop_last(), i);
    } else {
        assert(fs.subrange(0, i) == fs);
    }
}

proof fn lemma_entities_err(g: Generator, doc: FileV, es: Seq<EntityV>, i: int)
    requires
        0 <= i <= es.len(),
        entities_text(g, doc, es.subrange(0, i)) is Err,
    ensures
        entities_text(g, doc, es) == entities_text(g, doc, es.subrange(0, i)),
    decreases es.len(),
{
    if i < es.len() {
        assert(es.drop_last().subrange(0, i) == es.subrange(0, i));
        lemma_entities_err(g, doc, es.drop_last(), i);
    } else {
        assert(es.subrange(0, i) == es);
    }
}

/// The entry of an import table for the namespace `ns`.
pub fn find_import(schema: &RsFile, ns: &str) -> (r: Option<(String, String)>)
    ensures
        match r {
            Some(x) => lookup_import(schema@.imports, ns@) matches Some(e) && x.0@ == e.1 && x.1@
                == e.2,
            None => lookup_import(schema@.imports, ns@) is None,
        },
{
    let n = schema.imports.len();
    let ghost t = schema@.imports;
    let mut i: usize = 0;
    assert(t.subrange(0, n as int) == t);
    while i < n
        invariant
            n == t.len(),
            t == schema@.imports,
            i <= n,
            lookup_import(t, ns@) == lookup_import(t.subrange(i as int, n as int), ns@),
        decreases n - i,
    {
        let e = &schema.imports[i];
        assert(t.subrange(i as int, n as int).drop_first() == t.subrange(i + 1, n as int));
        assert(t.subrange(i as int, n as int)[0] == e@);
        if str_eq(e.namespace.as_str(), ns) {
            return Some((e.alias.clone(), e.module.clone()));
        }
        i = i + 1;
    }
    None
}

impl Generator {
    /// Renders an enumeration and its cases.
    pub fn render_enum(&self, e: &Enum) -> (r: Result<String, ParseError>)
        ensures
            res_text(r) == enum_text(*self, e@),
            self.enum_gen is None ==> (r matches Err(x) && x.tag@ == "enum"@),
    {
        let a = match &self.enum_gen {
            Some(x) => x,
            None => {
                return Err(not_configured("enum"));
            },
        };
        let ca = match &self.enum_case_gen {
            Some(x) => x,
            None => {
                return Err(not_configured("enum case"));
            },
        };
        let ghost cs = e@.cases;
        let mut body = String::new();
        let mut i: usize = 0;
        while i < e.cases.len()
            invariant
                cs == e@.cases,
                cs.len() == e.cases@.len(),
                i <= cs.len(),
                body@ == cases_text(ca.attributes@, cs.subrange(0, i as int)),
            decreases cs.len() - i,
        {
            assert(cs.subrange(0, i + 1).drop_last() == cs.subrange(0, i as int));
            let t = render_case(ca.attributes.as_str(), &e.cases[i]);
            body.append(t.as_str());
            i = i + 1;
        }
        assert(cs.subrange(0, cs.len() as int) == cs);
        let name = to_pascal_case(e.name.as_str());
        Ok(
            comment_string(&e.comment).concat(a.attributes.as_str()).concat("pub enum ").concat(
                name.as_str(),
            ).concat(" {\n").concat(body.as_str()).concat("}\n\n"),
        )
    }

    /// Renders a record, then the enumerations of its folded choices.
    pub fn render_struct(&self, s: &Struct) -> (r: Result<String, ParseError>)
        ensures
            res_text(r) == struct_text(*self, s@),
            self.struct_gen is None ==> (r matches Err(x) && x.tag@ == "struct"@),
    {
        let a = match &self.struct_gen {
            Some(x) => x,
            None => {
                return Err(not_configured("struct"));
            },
        };
        let fa = match &self.struct_field_gen {
            Some(x) => x,
            None => {
                return Err(not_configured("struct field"));
            },
        };
        let ghost fs = s@.fields;
        let mut body = String::new();
        let mut nested = String::new();
        let mut i: usize = 0;
        while i < s.fields.len()
            invariant
                fs == s@.fields,
                fs.len() == s.fields@.len(),
                self.struct_gen is Some,
                i <= fs.len(),
                body@ == fields_text(fa.attributes@, fs.subrange(0, i as int)),
                nested_text(*self, fs.subrange(0, i as int)) == Ok::<Seq<char>, ErrorKind>(
                    nested@,
                ),
            decreases fs.len() - i,
        {
            assert(fs.subrange(0, i + 1).drop_last() == fs.subrange(0, i as int));
            let f = &s.fields[i];
            let t = render_field(fa.attributes.as_str(), f);
            body.append(t.as_str());
            match &f.choice {
                Some(en) => match self.render_enum(en) {
                    Ok(et) => {
                        nested.append(et.as_str());
                    },
                    Err(err) => {
                        proof {
                            lemma_nested_err(*self, fs, i + 1);
                        }
                        return Err(err);
                    },
                },
                None => {},
            }
            i = i + 1;
        }
        assert(fs.subrange(0, fs.len() as int) == fs);
        let name = to_pascal_case(s.name.as_str());
        Ok(
            comment_string(&s.comment).concat(a.attributes.as_str()).concat("pub struct ").concat(
                name.as_str(),
            ).concat(" {\n").concat(body.as_str()).concat("}\n\n").concat(nested.as_str()),
        )
    }

    /// Renders one node of the type model. An import is resolved through the
    /// import table of `schema` when one is given, and fails with
    /// `UnresolvedImport` when the table has no entry for it.
    pub fn generate(&self, schema: Option<&RsFile>, entity: &RsEntity) -> (r: Result<
        String,
        ParseError,
    >)
        ensures
            res_text(r) == entity_text(
                *self,
                match schema {
                    Some(f) => Some(f@),
                    None => None,
                },
                entity@,
            ),
            first_renderer(*self, entity@).0 is None && !(entity is Import) ==> (r matches Err(e)
                && e.kind == ErrorKind::GeneratorNotConfigured && e.tag@ == first_renderer(
                *self,
                entity@,
            ).1),
            match (schema, entity) {
                (Some(f), RsEntity::Import(im)) => lookup_import(f@.imports, im.name@) is None
                    ==> (r matches Err(e) && e.kind == ErrorKind::UnresolvedImport && e.tag@
                    == im.name@ && e.context@ == f.name@),
                _ => true,
            },
    {
        match entity {
            RsEntity::TupleStruct(ts) => match &self.tuple_struct_gen {
                Some(a) => {
                    let name = to_pascal_case(ts.name.as_str());
                    Ok(
                        comment_string(&ts.comment).concat(a.attributes.as_str()).concat(
                            "pub struct ",
                        ).concat(name.as_str()).concat(" (pub ").concat(
                            render_tuple_type(ts).as_str(),
                        ).concat(");\n\nimpl Validate for ").concat(name.as_str()).concat(
                            " {}\n",
                        ),
                    )
                },
                None => Err(not_configured("tuple struct")),
            },
            RsEntity::Struct(st) => self.render_struct(st),
            RsEntity::StructField(sf) => match &self.struct_field_gen {
                Some(a) => Ok(render_field(a.attributes.as_str(), sf)),
                None => Err(not_configured("struct field")),
            },
            RsEntity::Enum(en) => self.render_enum(en),
            RsEntity::EnumCase(ec) => match &self.enum_case_gen {
                Some(a) => Ok(render_case(a.attributes.as_str(), ec)),
                None => Err(not_configured("enum case")),
            },
            RsEntity::Alias(al) => match &self.alias_gen {
                Some(a) => Ok(
                    comment_string(&al.comment).concat(a.attributes.as_str()).concat(
                        "pub type ",
                    ).concat(to_pascal_case(al.name.as_str()).as_str()).concat(" = ").concat(
                        to_rust_type(al.original.as_str()).as_str(),
                    ).concat(";\n\n"),
                ),
                None => Err(not_configured("alias")),
            },
            RsEntity::Import(im) => {
                let (name, location) = match schema {
                    Some(f) => match find_import(f, im.name.as_str()) {
                        Some((alias, module)) => (
                            alias,
                            String::from_str("super::").concat(module.as_str()),
                        ),
                        None => {
                            return Err(
                                ParseError::named(
                                    ErrorKind::UnresolvedImport,
                                    im.name.as_str(),
                                    f.name.as_str(),
                                ),
                            );
                        },
                    },
                    None => (im.name.clone(), im.location.clone()),
                };
                match &self.import_gen {
                    Some(a) => Ok(
                        a.attributes.clone().concat("use ").concat(location.as_str()).concat(
                            " as ",
                        ).concat(name.as_str()).concat(";\n"),
                    ),
                    None => Err(not_configured("import")),
                }
            },
        }
    }

    /// Renders a whole document as one module named after its namespace,
    /// holding its nodes in document order; fails with the first node that
    /// cannot be rendered, and then renders nothing.
    pub fn generate_rs_file(&self, schema: &RsFile) -> (r: Result<String, ParseError>)
        ensures
            res_text(r) == file_text(*self, schema@),
    {
        let module_name = get_module_name(schema);
        let ghost es = schema@.types;
        let mut content = String::new();
        let mut i: usize = 0;
        while i < schema.types.len()
            invariant
                es == schema@.types,
                es.len() == schema.types@.len(),
                i <= es.len(),
                entities_text(*self, schema@, es.subrange(0, i as int)) == Ok::<
                    Seq<char>,
                    ErrorKind,
                >(content@),
            decreases es.len() - i,
        {
            assert(es.subrange(0, i + 1).drop_last() == es.subrange(0, i as int));
            match self.generate(Some(schema), &schema.types[i]) {
                Ok(t) => {
                    content.append(t.as_str());
                },
                Err(e) => {
                    proof {
                        lemma_entities_err(*self, schema@, es, i + 1);
                    }
                    return Err(e);
                },
            }
            i = i + 1;
        }
        assert(es.subrange(0, es.len() as int) == es);
        Ok(
            String::from_str("pub mod ").concat(module_name.as_str()).concat(
                " {\nuse super::*;\n\n",
            ).concat(content.as_str()).concat("\n}"),
        )
    }
}

} // verus!
