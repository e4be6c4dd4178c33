//! The schema tree handed to the parsers, and the classification of its nodes.
use vstd::prelude::*;
use crate::text::{opt_view, str_eq};

verus! {

/// One attribute of an element node.
#[derive(Clone, Debug)]
pub struct Attribute {
    pub name: String,
    pub value: String,
}

/// An element node of a schema document: its local tag name, the URI of its
/// namespace, its attributes, its element children in document order, its
/// text content and its position in the source text.
#[derive(Debug)]
pub struct XmlNode {
    pub tag: String,
    pub namespace: String,
    pub attributes: Vec<Attribute>,
    pub children: Vec<XmlNode>,
    pub text: String,
    pub position: usize,
}

/// The constructs of the schema language that nodes are classified into.
#[derive(PartialEq, Eq, Structural, Clone, Copy, Debug)]
pub enum ElementType {
    Schema,
    Sequence,
    Choice,
    Element,
    Attribute,
    ComplexType,
    SimpleType,
    SimpleContent,
    ComplexContent,
    Extension,
    Restriction,
    Enumeration,
    List,
    Import,
    Include,
    Annotation,
    Documentation,
    Unknown,
}

/// The URI of the schema language's own namespace.
pub open spec fn xsd_ns() -> Seq<char> {
    "http://www.w3.org/2001/XMLSchema"@
}

/// The construct named by a tag in the schema namespace.
pub open spec fn kind_of_tag(tag: Seq<char>) -> ElementType {
    if tag == "schema"@ {
        ElementType::Schema
    } else if tag == "sequence"@ {
        ElementType::Sequence
    } else if tag == "choice"@ {
        ElementType::Choice
    } else if tag == "element"@ {
        ElementType::Element
    } else if tag == "attribute"@ {
        ElementType::Attribute
    } else if tag == "complexType"@ {
        ElementType::ComplexType
    } else if tag == "simpleType"@ {
        ElementType::SimpleType
    } else if tag == "simpleContent"@ {
        ElementType::SimpleContent
    } else if tag == "complexContent"@ {
        ElementType::ComplexContent
    } else if tag == "extension"@ {
        ElementType::Extension
    } else if tag == "restriction"@ {
        ElementType::Restriction
    } else if tag == "enumeration"@ {
        ElementType::Enumeration
    } else if tag == "list"@ {
        ElementType::List
    } else if tag == "import"@ {
        ElementType::Import
    } else if tag == "include"@ {
        ElementType::Include
    } else if tag == "annotation"@ {
        ElementType::Annotation
    } else if tag == "documentation"@ {
        ElementType::Documentation
    } else {
        ElementType::Unknown
    }
}

/// The construct a node stands for: nodes outside the schema namespace are
/// `Unknown`.
pub open spec fn kind_of(node: XmlNode) -> ElementType {
    if node.namespace@ == xsd_ns() {
        kind_of_tag(node.tag@)
    } else {
        ElementType::Unknown
    }
}

fn classify_tag(tag: &str) -> (r: ElementType)
    ensures
        r == kind_of_tag(tag@),
{
    if str_eq(tag, "schema") {
        ElementType::Schema
    } else if str_eq(tag, "sequence") {
        ElementType::Sequence
    } else if str_eq(tag, "choice") {
        ElementType::Choice
    } else if str_eq(tag, "element") {
        ElementType::Element
    } else if str_eq(tag, "attribute") {
        ElementType::Attribute
    } else if str_eq(tag, "complexType") {
        ElementType::ComplexType
    } else if str_eq(tag, "simpleType") {
        ElementType::SimpleType
    } else if str_eq(tag, "simpleContent") {
        ElementType::SimpleContent
    } else if str_eq(tag, "complexContent") {
        ElementType::ComplexContent
    } else if str_eq(tag, "extension") {
        ElementType::Extension
    } else if str_eq(tag, "restriction") {
        ElementType::Restriction
    } else if str_eq(tag, "enumeration") {
        ElementType::Enumeration
    } else if str_eq(tag, "list") {
        ElementType::List
    } else if str_eq(tag, "import") {
        ElementType::Import
    } else if str_eq(tag, "include") {
        ElementType::Include
    } else if str_eq(tag, "annotation") {
        ElementType::Annotation
    } else if str_eq(tag, "documentation") {
        ElementType::Documentation
    } else {
        ElementType::Unknown
    }
}

/// The value of the first attribute named `name` among `attrs`.
pub open spec fn attr_in(attrs: Seq<Attribute>, name: Seq<char>) -> Option<Seq<char>>
    decreases attrs.len(),
{
    if attrs.len() == 0 {
        None
    } else if attrs[0].name@ == name {
        Some(attrs[0].value@)
    } else {
        attr_in(attrs.drop_first(), name)
    }
}

/// The value of a node's attribute.
pub open spec fn attr_of(node: XmlNode, name: Seq<char>) -> Option<Seq<char>> {
    attr_in(node.attributes@, name)
}

/// The text of the first `documentation` inside the first `annotation` child.
pub open spec fn doc_of(node: XmlNode) -> Option<Seq<char>> {
    match first_of_kind(node.children@, ElementType::Annotation) {
        Some(i) => match first_of_kind(node.children@[i].children@, ElementType::Documentation) {
            Some(j) => Some(node.children@[i].children@[j].text@),
            None => None,
        },
        None => None,
    }
}

/// The index of the first node of kind `k` in `ch`.
pub open spec fn first_of_kind(ch: Seq<XmlNode>, k: ElementType) -> Option<int>
    decreases ch.len(),
{
    if ch.len() == 0 {
        None
    } else {
        match first_of_kind(ch.drop_last(), k) {
            Some(i) => Some(i),
            None => if kind_of(ch.last()) == k {
                Some(ch.len() - 1)
            } else {
                None
            },
        }
    }
}

impl XmlNode {
    /// The construct this node stands for.
    pub fn classify(&self) -> (r: ElementType)
        ensures
            r == kind_of(*self),
    {
        if str_eq(self.namespace.as_str(), "http://www.w3.org/2001/XMLSchema") {
            classify_tag(self.tag.as_str())
        } else {
            ElementType::Unknown
        }
    }

    /// The value of the attribute `name`, if the node has one.
    pub fn attribute(&self, name: &str) -> (r: Option<String>)
        ensures
            opt_view(r) == attr_of(*self, name@),
    {
        let n = self.attributes.len();
        let mut i: usize = 0;
        assert(self.attributes@.subrange(0, n as int) == self.attributes@);
        while i < n
            invariant
                n == self.attributes@.len(),
                i <= n,
                attr_of(*self, name@) == attr_in(self.attributes@.subrange(i as int, n as int), name@),
            decreases n - i,
        {
            let a = &self.attributes[i];
            let ghost rest = self.attributes@.subrange(i as int, n as int);
            assert(rest.drop_first() == self.attributes@.subrange(i + 1, n as int));
            if str_eq(a.name.as_str(), name) {
                return Some(a.value.clone());
            }
            i = i + 1;
        }
        None
    }

    /// The index of the first child of kind `k`.
    pub fn find_child(&self, k: ElementType) -> (r: Option<usize>)
        ensures
            match r {
                Some(i) => first_of_kind(self.children@, k) == Some(i as int) && i
                    < self.children@.len() && kind_of(self.children@[i as int]) == k,
                None => first_of_kind(self.children@, k) == None::<int>,
            },
    {
        let n = self.children.len();
        let mut i: usize = 0;
        while i < n
            invariant
                n == self.children@.len(),
                i <= n,
                first_of_kind(self.children@.subrange(0, i as int), k) == None::<int>,
            decreases n - i,
        {
            let ghost pre = self.children@.subrange(0, i + 1);
            assert(pre.drop_last() == self.children@.subrange(0, i as int));
            if self.children[i].classify() == k {
                proof {
                    lemma_first_of_kind_prefix(self.children@, k, i as int);
                }
                return Some(i);
            }
            i = i + 1;
        }
        assert(self.children@.subrange(0, n as int) == self.children@);
        None
    }

    /// The documentation text attached to this node, if any.
    pub fn documentation(&self) -> (r: Option<String>)
        ensures
            opt_view(r) == doc_of(*self),
    {
        match self.find_child(ElementType::Annotation) {
            Some(i) => {
                let ann = &self.children[i];
                match ann.find_child(ElementType::Documentation) {
                    Some(j) => Some(ann.children[j].text.clone()),
                    None => None,
                }
            },
            None => None,
        }
    }
}

/// A match found in a prefix is the first match of the whole sequence.
proof fn lemma_first_of_kind_prefix(ch: Seq<XmlNode>, k: ElementType, i: int)
    requires
        0 <= i < ch.len(),
        first_of_kind(ch.subrange(0, i), k) == None::<int>,
        kind_of(ch[i]) == k,
    ensures
        first_of_kind(ch, k) == Some(i),
    decreases ch.len(),
{
    if i == ch.len() - 1 {
        assert(ch.drop_last() == ch.subrange(0, i));
    } else {
        assert(ch.drop_last().subrange(0, i) == ch.subrange(0, i));
        lemma_first_of_kind_prefix(ch.drop_last(), k, i);
    }
}

} // verus!
