//! Configuration of a generator, one renderer per kind of node.
use vstd::prelude::*;
use crate::error::{ErrorKind, ParseError};
use crate::generator::{attrs, Generator, Renderer};

verus! {

/// The kinds of node that have a renderer of their own.
#[derive(PartialEq, Eq, Structural, Clone, Copy, Debug)]
pub enum NodeKind {
    TupleStruct,
    Struct,
    StructField,
    Enum,
    EnumCase,
    Alias,
    Import,
}

/// Builds a generator. The default builder configures every kind with the
/// renderers of the serde-based output style.
pub struct GeneratorBuilder {
    pub generator: Generator,
}

fn renderer(a: &str) -> (r: Option<Renderer>)
    ensures
        r matches Some(x) && x.attributes@ == a@,
{
    Some(Renderer { attributes: String::from_str(a) })
}

impl Default for GeneratorBuilder {
    fn default() -> (r: GeneratorBuilder)
        ensures
            attrs(r.generator.tuple_struct_gen) == Some(
                "#[derive(Default, PartialEq, Debug, UtilsTupleIo, UtilsDefaultSerde)]\n"@,
            ),
            attrs(r.generator.struct_gen) == Some(
                "#[derive(Default, PartialEq, Debug, YaSerialize, YaDeserialize)]\n"@,
            ),
            attrs(r.generator.struct_field_gen) == Some(""@),
            attrs(r.generator.enum_gen) == Some(
                "#[derive(PartialEq, Debug, YaSerialize, YaDeserialize)]\n"@,
            ),
            attrs(r.generator.enum_case_gen) == Some(""@),
            attrs(r.generator.alias_gen) == Some(""@),
            attrs(r.generator.import_gen) == Some(""@),
    {
        GeneratorBuilder {
            generator: Generator {
                tuple_struct_gen: renderer(
                    "#[derive(Default, PartialEq, Debug, UtilsTupleIo, UtilsDefaultSerde)]\n",
                ),
                struct_gen: renderer(
                    "#[derive(Default, PartialEq, Debug, YaSerialize, YaDeserialize)]\n",
                ),
                struct_field_gen: renderer(""),
                enum_gen: renderer("#[derive(PartialEq, Debug, YaSerialize, YaDeserialize)]\n"),
                enum_case_gen: renderer(""),
                alias_gen: renderer(""),
                import_gen: renderer(""),
            },
        }
    }
}

impl GeneratorBuilder {
    /// A builder with no renderer configured.
    pub fn empty() -> (r: GeneratorBuilder)
        ensures
            r.generator.tuple_struct_gen is None,
            r.generator.struct_gen is None,
            r.generator.struct_field_gen is None,
            r.generator.enum_gen is None,
            r.generator.enum_case_gen is None,
            r.generator.alias_gen is None,
            r.generator.import_gen is None,
    {
        GeneratorBuilder {
            generator: Generator {
                tuple_struct_gen: None,
                struct_gen: None,
                struct_field_gen: None,
                enum_gen: None,
                enum_case_gen: None,
                alias_gen: None,
                import_gen: None,
            },
        }
    }

    /// Sets (or, with `None`, removes) the renderer of one kind of node and
    /// leaves the others as they are.
    pub fn with(self, kind: NodeKind, r: Option<Renderer>) -> (out: GeneratorBuilder)
        ensures
            out.generator == (match kind {
                NodeKind::TupleStruct => Generator { tuple_struct_gen: r, ..self.generator },
                NodeKind::Struct => Generator { struct_gen: r, ..self.generator },
                NodeKind::StructField => Generator { struct_field_gen: r, ..self.generator },
                NodeKind::Enum => Generator { enum_gen: r, ..self.generator },
                NodeKind::EnumCase => Generator { enum_case_gen: r, ..self.generator },
                NodeKind::Alias => Generator { alias_gen: r, ..self.generator },
                NodeKind::Import => Generator { import_gen: r, ..self.generator },
            }),
    {
        let mut g = self.generator;
        match kind {
            NodeKind::TupleStruct => g.tuple_struct_gen = r,
            NodeKind::Struct => g.struct_gen = r,
            NodeKind::StructField => g.struct_field_gen = r,
            NodeKind::Enum => g.enum_gen = r,
            NodeKind::EnumCase => g.enum_case_gen = r,
            NodeKind::Alias => g.alias_gen = r,
            NodeKind::Import => g.import_gen = r,
        }
        GeneratorBuilder { generator: g }
    }

    /// The configured generator.
    pub fn build(self) -> (g: Generator)
        ensures
            g == self.generator,
    {
        self.generator
    }
}

impl Generator {
    /// The renderer of fields, if configured.
    pub fn struct_field_gen(&self) -> (r: Result<&Renderer, ParseError>)
        ensures
            match r {
                Ok(x) => self.struct_field_gen == Some(*x),
                Err(e) => self.struct_field_gen is None && e.kind
                    == ErrorKind::GeneratorNotConfigured,
            },
    {
        match &self.struct_field_gen {
            Some(x) => Ok(x),
            None => Err(ParseError::named(ErrorKind::GeneratorNotConfigured, "struct field", "")),
        }
    }

    /// The renderer of enumeration cases, if configured.
    pub fn enum_case_gen(&self) -> (r: Result<&Renderer, ParseError>)
        ensures
            match r {
                Ok(x) => self.enum_case_gen == Some(*x),
                Err(e) => self.enum_case_gen is None && e.kind == ErrorKind::GeneratorNotConfigured,
            },
    {
        match &self.enum_case_gen {
            Some(x) => Ok(x),
            None => Err(ParseError::named(ErrorKind::GeneratorNotConfigured, "enum case", "")),
        }
    }
}

} // verus!
