//! The type model produced by the parsers and consumed by the generator,
//! with its mathematical view.
use vstd::prelude::*;
use crate::text::opt_view;

verus! {

/// Flags attached to a field.
#[derive(PartialEq, Eq, Structural, Clone, Copy, Debug)]
pub enum TypeModifier {
    /// The element may be absent.
    Optional,
    /// The element may occur more than once.
    Array,
    /// The field's type is its own enclosing record.
    Recursive,
    /// The element has no content and acts as a marker.
    Empty,
}

/// One case of an enumeration.
#[derive(Clone, Debug)]
pub struct EnumCase {
    pub name: String,
    pub value: String,
    pub type_ref: Option<String>,
    pub comment: Option<String>,
}

/// An enumeration: the model of a `choice` or of an enumerated simple type.
#[derive(Clone, Debug)]
pub struct Enum {
    pub name: String,
    pub comment: Option<String>,
    pub cases: Vec<EnumCase>,
}

/// A field of a record. A field folded from a `choice` carries the
/// enumeration it holds.
#[derive(Clone, Debug)]
pub struct StructField {
    pub name: String,
    pub type_ref: String,
    pub comment: Option<String>,
    pub type_modifiers: Vec<TypeModifier>,
    pub default: Option<String>,
    pub choice: Option<Enum>,
}

/// A record type.
#[derive(Clone, Debug)]
pub struct Struct {
    pub name: String,
    pub comment: Option<String>,
    pub fields: Vec<StructField>,
}

/// A type that wraps a single other type; with `Array`, a list of it.
#[derive(Clone, Debug)]
pub struct TupleStruct {
    pub name: String,
    pub comment: Option<String>,
    pub type_ref: String,
    pub type_modifiers: Vec<TypeModifier>,
}

/// A new name for an existing type.
#[derive(Clone, Debug)]
pub struct Alias {
    pub name: String,
    pub original: String,
    pub comment: Option<String>,
}

/// A reference to the module of another namespace.
#[derive(Clone, Debug)]
pub struct Import {
    pub name: String,
    pub location: String,
    pub comment: Option<String>,
}

/// A node of the type model.
#[derive(Clone, Debug)]
pub enum RsEntity {
    Struct(Struct),
    TupleStruct(TupleStruct),
    StructField(StructField),
    Enum(Enum),
    EnumCase(EnumCase),
    Alias(Alias),
    Import(Import),
}

/// A namespace binding: its prefix, if any, and its URI.
#[derive(Clone, Debug)]
pub struct Namespace {
    pub prefix: Option<String>,
    pub uri: String,
}

/// An entry of a document's import table: the imported namespace, the alias
/// under which it is used here, and the name of the module generated for it.
#[derive(Clone, Debug)]
pub struct ImportEntry {
    pub namespace: String,
    pub alias: String,
    pub module: String,
}

/// One parsed schema document.
#[derive(Clone, Debug)]
pub struct RsFile {
    pub name: String,
    pub target_ns: Option<Namespace>,
    pub types: Vec<RsEntity>,
    pub imports: Vec<ImportEntry>,
}

pub struct CaseV {
    pub name: Seq<char>,
    pub value: Seq<char>,
    pub type_ref: Option<Seq<char>>,
    pub comment: Option<Seq<char>>,
}

pub struct EnumV {
    pub name: Seq<char>,
    pub comment: Option<Seq<char>>,
    pub cases: Seq<CaseV>,
}

pub struct FieldV {
    pub name: Seq<char>,
    pub type_ref: Seq<char>,
    pub comment: Option<Seq<char>>,
    pub modifiers: Seq<TypeModifier>,
    pub default: Option<Seq<char>>,
    pub choice: Option<EnumV>,
}

pub struct StructV {
    pub name: Seq<char>,
    pub comment: Option<Seq<char>>,
    pub fields: Seq<FieldV>,
}

pub enum EntityV {
    Struct(StructV),
    TupleStruct {
        name: Seq<char>,
        comment: Option<Seq<char>>,
        type_ref: Seq<char>,
        modifiers: Seq<TypeModifier>,
    },
    StructField(FieldV),
    Enum(EnumV),
    EnumCase(CaseV),
    Alias { name: Seq<char>, original: Seq<char>, comment: Option<Seq<char>> },
    Import { name: Seq<char>, location: Seq<char>, comment: Option<Seq<char>> },
}

impl View for EnumCase {
    type V = CaseV;

    open spec fn view(&self) -> CaseV {
        CaseV {
            name: self.name@,
            value: self.value@,
            type_ref: opt_view(self.type_ref),
            comment: opt_view(self.comment),
        }
    }
}

impl View for Enum {
    type V = EnumV;

    open spec fn view(&self) -> EnumV {
        EnumV {
            name: self.name@,
            comment: opt_view(self.comment),
            cases: self.cases@.map_values(|c: EnumCase| c@),
        }
    }
}

pub open spec fn opt_enum_view(e: Option<Enum>) -> Option<EnumV> {
    match e {
        Some(x) => Some(x@),
        None => None,
    }
}

impl View for StructField {
    type V = FieldV;

    open spec fn view(&self) -> FieldV {
        FieldV {
            name: self.name@,
            type_ref: self.type_ref@,
            comment: opt_view(self.comment),
            modifiers: self.type_modifiers@,
            default: opt_view(self.default),
            choice: opt_enum_view(self.choice),
        }
    }
}

/// The views of a sequence of fields.
pub open spec fn fields_view(fs: Seq<StructField>) -> Seq<FieldV> {
    fs.map_values(|f: StructField| f@)
}

impl View for Struct {
    type V = StructV;

    open spec fn view(&self) -> StructV {
        StructV { name: self.name@, comment: opt_view(self.comment), fields: fields_view(self.fields@) }
    }
}

impl View for RsEntity {
    type V = EntityV;

    open spec fn view(&self) -> EntityV {
        match self {
            RsEntity::Struct(s) => EntityV::Struct(s@),
            RsEntity::TupleStruct(t) => EntityV::TupleStruct {
                name: t.name@,
                comment: opt_view(t.comment),
                type_ref: t.type_ref@,
                modifiers: t.type_modifiers@,
            },
            RsEntity::StructField(f) => EntityV::StructField(f@),
            RsEntity::Enum(e) => EntityV::Enum(e@),
            RsEntity::EnumCase(c) => EntityV::EnumCase(c@),
            RsEntity::Alias(a) => EntityV::Alias {
                name: a.name@,
                original: a.original@,
                comment: opt_view(a.comment),
            },
            RsEntity::Import(i) => EntityV::Import {
                name: i.name@,
                location: i.location@,
                comment: opt_view(i.comment),
            },
        }
    }
}

impl EntityV {
    /// The name of a node of the type model.
    pub open spec fn name(self) -> Seq<char> {
        match self {
            EntityV::Struct(s) => s.name,
            EntityV::TupleStruct { name, .. } => name,
            EntityV::StructField(f) => f.name,
            EntityV::Enum(e) => e.name,
            EntityV::EnumCase(c) => c.name,
            EntityV::Alias { name, .. } => name,
            EntityV::Import { name, .. } => name,
        }
    }
}

impl RsEntity {
    /// The name of this node.
    pub fn name(&self) -> (r: &String)
        ensures
            r@ == self@.name(),
    {
        match self {
            RsEntity::Struct(s) => &s.name,
            RsEntity::TupleStruct(t) => &t.name,
            RsEntity::StructField(f) => &f.name,
            RsEntity::Enum(e) => &e.name,
            RsEntity::EnumCase(c) => &c.name,
            RsEntity::Alias(a) => &a.name,
            RsEntity::Import(i) => &i.name,
        }
    }
}

} // verus!

verus! {

impl View for ImportEntry {
    type V = (Seq<char>, Seq<char>, Seq<char>);

    open spec fn view(&self) -> (Seq<char>, Seq<char>, Seq<char>) {
        (self.namespace@, self.alias@, self.module@)
    }
}

/// The view of a schema document.
pub struct FileV {
    pub name: Seq<char>,
    pub target: Option<Seq<char>>,
    pub types: Seq<EntityV>,
    pub imports: Seq<(Seq<char>, Seq<char>, Seq<char>)>,
}

impl View for RsFile {
    type V = FileV;

    open spec fn view(&self) -> FileV {
        FileV {
            name: self.name@,
            target: match self.target_ns {
                Some(n) => Some(n.uri@),
                None => None,
            },
            types: self.types@.map_values(|e: RsEntity| e@),
            imports: crate::schema::imports_view(self.imports@),
        }
    }
}

} // verus!

verus! {

/// A copy of a list of modifiers.
fn copy_modifiers(v: &Vec<TypeModifier>) -> (r: Vec<TypeModifier>)
    ensures
        r@ == v@,
{
    let mut out: Vec<TypeModifier> = Vec::new();
    let mut i: usize = 0;
    while i < v.len()
        invariant
            i <= v@.len(),
            out@ == v@.subrange(0, i as int),
        decreases v@.len() - i,
    {
        out.push(v[i]);
        assert(v@.subrange(0, i + 1) == v@.subrange(0, i as int).push(v@[i as int]));
        i = i + 1;
    }
    assert(v@.subrange(0, v@.len() as int) == v@);
    out
}

impl EnumCase {
    /// A copy with the same view.
    pub fn copy(&self) -> (r: EnumCase)
        ensures
            r@ == self@,
    {
        EnumCase {
            name: self.name.clone(),
            value: self.value.clone(),
            type_ref: crate::text::copy_opt(&self.type_ref),
            comment: crate::text::copy_opt(&self.comment),
        }
    }
}

impl Enum {
    /// A copy with the same view.
    pub fn copy(&self) -> (r: Enum)
        ensures
            r@ == self@,
    {
        let mut cases: Vec<EnumCase> = Vec::new();
        let mut i: usize = 0;
        while i < self.cases.len()
            invariant
                i <= self.cases@.len(),
                cases@.len() == i,
                forall|j: int| 0 <= j < i ==> cases@[j]@ == self.cases@[j]@,
            decreases self.cases@.len() - i,
        {
            let c = self.cases[i].copy();
            cases.push(c);
            i = i + 1;
        }
        assert(cases@.map_values(|c: EnumCase| c@) =~= self.cases@.map_values(|c: EnumCase| c@));
        Enum { name: self.name.clone(), comment: crate::text::copy_opt(&self.comment), cases }
    }
}

impl StructField {
    /// A copy with the same view.
    pub fn copy(&self) -> (r: StructField)
        ensures
            r@ == self@,
    {
        StructField {
            name: self.name.clone(),
            type_ref: self.type_ref.clone(),
            comment: crate::text::copy_opt(&self.comment),
            type_modifiers: copy_modifiers(&self.type_modifiers),
            default: crate::text::copy_opt(&self.default),
            choice: match &self.choice {
                Some(e) => Some(e.copy()),
                None => None,
            },
        }
    }
}

} // verus!
