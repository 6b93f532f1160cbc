//! A tree of XML elements, modelled with plain values so that the walk over
//! a response document can be specified and verified. The raw bytes of a
//! response are turned into this tree by the outside XML parser, behind a
//! trusted wrapper.

use vstd::prelude::*;
use crate::text::str_eq;

verus! {

/// One XML element: its tag name, its attributes in some order (keys are
/// unique, so lookup order does not matter), its text content (the
/// concatenation of its text nodes, absent when there are none), and its
/// element children in document order.
pub struct XmlNode {
    pub name: String,
    pub attrs: Vec<(String, String)>,
    pub text: Option<String>,
    pub children: Vec<XmlNode>,
}

/// The first node in `s` whose tag name is `name`.
pub open spec fn spec_find_child(s: Seq<XmlNode>, name: Seq<char>) -> Option<XmlNode>
    decreases s.len(),
{
    if s.len() == 0 {
        None
    } else if s[0].name@ == name {
        Some(s[0])
    } else {
        spec_find_child(s.drop_first(), name)
    }
}

/// The first child of `n` whose tag name is `name`.
pub open spec fn spec_child(n: XmlNode, name: Seq<char>) -> Option<XmlNode> {
    spec_find_child(n.children@, name)
}

/// The value of the first attribute in `s` whose key is `key`.
pub open spec fn spec_attr_in(s: Seq<(String, String)>, key: Seq<char>) -> Option<Seq<char>>
    decreases s.len(),
{
    if s.len() == 0 {
        None
    } else if s[0].0@ == key {
        Some(s[0].1@)
    } else {
        spec_attr_in(s.drop_first(), key)
    }
}

/// The value of the attribute of `n` named `key`.
pub open spec fn spec_attr(n: XmlNode, key: Seq<char>) -> Option<Seq<char>> {
    spec_attr_in(n.attrs@, key)
}

/// The text content of `n`.
pub open spec fn spec_text(n: XmlNode) -> Option<Seq<char>> {
    match n.text {
        Some(s) => Some(s@),
        None => None,
    }
}

/// Find the first child of `n` with the given tag name.
pub fn find_child<'a>(n: &'a XmlNode, name: &str) -> (r: Option<&'a XmlNode>)
    ensures
        match r {
            Some(c) => spec_child(*n, name@) == Some(*c),
            None => spec_child(*n, name@) is None,
        },
{
    let len = n.children.len();
    let mut i: usize = 0;
    proof {
        assert(n.children@.skip(0) =~= n.children@);
    }
    while i < len
        invariant
            len == n.children@.len(),
            i <= len,
            spec_find_child(n.children@.skip(i as int), name@) == spec_child(*n, name@),
        decreases len - i,
    {
        let c = &n.children[i];
        proof {
            assert(n.children@.skip(i as int)[0] == n.children@[i as int]);
        }
        if str_eq(c.name.as_str(), name) {
            return Some(c);
        }
        proof {
            assert(n.children@.skip(i as int).drop_first() =~= n.children@.skip(i as int + 1));
        }
        i += 1;
    }
    None
}

/// Look up the value of the attribute of `n` named `key`.
pub fn get_attr<'a>(n: &'a XmlNode, key: &str) -> (r: Option<&'a String>)
    ensures
        match r {
            Some(v) => spec_attr(*n, key@) == Some(v@),
            None => spec_attr(*n, key@) is None,
        },
{
    let len = n.attrs.len();
    let mut i: usize = 0;
    proof {
        assert(n.attrs@.skip(0) =~= n.attrs@);
    }
    while i < len
        invariant
            len == n.attrs@.len(),
            i <= len,
            spec_attr_in(n.attrs@.skip(i as int), key@) == spec_attr(*n, key@),
        decreases len - i,
    {
        let pair = &n.attrs[i];
        proof {
            assert(n.attrs@.skip(i as int)[0] == n.attrs@[i as int]);
        }
        if str_eq(pair.0.as_str(), key) {
            return Some(&pair.1);
        }
        proof {
            assert(n.attrs@.skip(i as int).drop_first() =~= n.attrs@.skip(i as int + 1));
        }
        i += 1;
    }
    None
}

#[verifier::external_type_specification]
#[verifier::external_body]
pub struct ExElement(xmltree::Element);

/// Rebuilds an element of the outside XML tree as an `XmlNode`. Relies on
/// `xmltree::Element`'s public fields `name`, `attributes` and `children`,
/// and on `Element::get_text` (the concatenated text content of the
/// element, `None` when there is none). Child nodes that are not elements
/// carry no record data and have no counterpart in the model.
#[verifier::external_body]
fn node_of_element(e: &xmltree::Element) -> XmlNode {
    let mut attrs: Vec<(String, String)> = Vec::new();
    for (k, v) in &e.attributes {
        attrs.push((k.clone(), v.clone()));
    }
    let text = e.get_text().map(|t| t.into_owned());
    let mut children: Vec<XmlNode> = Vec::new();
    for c in &e.children {
        if let xmltree::XMLNode::Element(el) = c {
            children.push(node_of_element(el));
        }
    }
    XmlNode { name: e.name.clone(), attrs, text, children }
}

/// Whether these bytes read as a well-formed XML document: a fixed
/// property of the bytes alone. (The tree itself gets no name: the order
/// of its attribute lists follows a hash-map walk.)
pub uninterp spec fn spec_xml_parses(body: Seq<u8>) -> bool;

/// Relies on `xmltree::Element::parse`: reads one XML document from the
/// given bytes and returns its root element, or an error message for
/// malformed input — which of the two depends on the bytes alone (the
/// underlying reader rejects documents without a root element).
#[verifier::external_body]
pub(crate) fn parse_xml(body: &[u8]) -> (r: Result<XmlNode, String>)
    ensures
        r is Ok <==> spec_xml_parses(body@),
{
    match xmltree::Element::parse(body) {
        Ok(e) => Ok(node_of_element(&e)),
        Err(e) => Err(format!("{}", e)),
    }
}

} // verus!
