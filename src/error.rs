//! Errors reported while compiling a schema document.
use vstd::prelude::*;
use crate::xml::XmlNode;

verus! {

/// The kinds of failure of the compiler.
#[derive(PartialEq, Eq, Structural, Clone, Copy, Debug)]
pub enum ErrorKind {
    /// A node's construct has no parser where it stands.
    UnrecognizedConstruct,
    /// A parser met a child it does not know how to place.
    UnexpectedChildShape,
    /// Two sibling entities have the same name.
    NameCollision,
    /// An import names a namespace with no compiled document.
    UnresolvedImport,
    /// A render was asked of a kind that has no renderer.
    GeneratorNotConfigured,
}

/// A failure, with the tag and position of the offending node (or the
/// offending name) and the name of its enclosing context.
#[derive(Clone, Debug)]
pub struct ParseError {
    pub kind: ErrorKind,
    pub tag: String,
    pub position: usize,
    pub context: String,
}

impl ParseError {
    /// An error of kind `kind` at `node`, inside `context`.
    pub fn at(kind: ErrorKind, node: &XmlNode, context: &str) -> (r: ParseError)
        ensures
            r.kind == kind,
            r.tag@ == node.tag@,
            r.position == node.position,
            r.context@ == context@,
    {
        ParseError {
            kind,
            tag: node.tag.clone(),
            position: node.position,
            context: String::from_str(context),
        }
    }

    /// An error of kind `kind` about `name`, inside `context`.
    pub fn named(kind: ErrorKind, name: &str, context: &str) -> (r: ParseError)
        ensures
            r.kind == kind,
            r.tag@ == name@,
            r.position == 0,
            r.context@ == context@,
    {
        ParseError {
            kind,
            tag: String::from_str(name),
            position: 0,
            context: String::from_str(context),
        }
    }
}

/// The kind of a failed result, or its view.
pub open spec fn res_view<T: View>(r: Result<T, ParseError>) -> Result<T::V, ErrorKind> {
    match r {
        Ok(x) => Ok(x@),
        Err(e) => Err(e.kind),
    }
}

} // verus!
