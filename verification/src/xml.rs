//! A plain-value model of an XML element tree, and the one trusted call
//! into the XML parser that produces it.

use vstd::prelude::*;

verus! {

/// One attribute of an XML element.
pub struct XmlAttr {
    pub name: String,
    pub value: String,
}

/// An XML node copied out of a parsed document: its tag name (empty for
/// text and comment nodes), its text content, its attributes and its
/// child nodes in document order.
pub struct XmlNode {
    pub name: String,
    pub text: Option<String>,
    pub attrs: Vec<XmlAttr>,
    pub children: Vec<XmlNode>,
}

/// The mathematical shape of an `XmlAttr`.
pub struct XmlAttrModel {
    pub name: Seq<char>,
    pub value: Seq<char>,
}

/// The mathematical shape of an `XmlNode`.
pub struct XmlTree {
    pub name: Seq<char>,
    pub text: Option<Seq<char>>,
    pub attrs: Seq<XmlAttrModel>,
    pub children: Seq<XmlTree>,
}

impl View for XmlAttr {
    type V = XmlAttrModel;

    open spec fn view(&self) -> XmlAttrModel {
        XmlAttrModel { name: self.name@, value: self.value@ }
    }
}

/// The mathematical shape of an `XmlNode`, taken recursively over its
/// children.
pub open spec fn xml_tree(n: XmlNode) -> XmlTree
    decreases n,
    via xml_tree_decreases
{
    XmlTree {
        name: n.name@,
        text: match n.text {
            Option::Some(t) => Option::Some(t@),
            Option::None => Option::None,
        },
        attrs: Seq::new(n.attrs@.len(), |i: int| n.attrs@[i]@),
        children: xml_forest(n.children@),
    }
}

/// The shapes of a sequence of nodes, element by element.
pub open spec fn xml_forest(s: Seq<XmlNode>) -> Seq<XmlTree>
    decreases s,
    via xml_forest_decreases
{
    if s.len() == 0 {
        Seq::empty()
    } else {
        seq![xml_tree(s[0])] + xml_forest(s.drop_first())
    }
}

#[via_fn]
proof fn xml_tree_decreases(n: XmlNode) {
    assert(decreases_to!(n => n.children));
    assert(decreases_to!(n.children => n.children@));
}

#[via_fn]
proof fn xml_forest_decreases(s: Seq<XmlNode>) {
    if s.len() > 0 {
        assert(s.drop_first() == s.subrange(1, s.len() as int));
        vstd::seq::axiom_seq_subrange_decreases(s, 1, s.len() as int);
    }
}

impl View for XmlNode {
    type V = XmlTree;

    open spec fn view(&self) -> XmlTree {
        xml_tree(*self)
    }
}

pub proof fn lemma_xml_forest_len(s: Seq<XmlNode>)
    ensures
        xml_forest(s).len() == s.len(),
    decreases s.len(),
{
    if s.len() > 0 {
        lemma_xml_forest_len(s.drop_first());
    }
}

pub proof fn lemma_xml_forest_index(s: Seq<XmlNode>, i: int)
    requires
        0 <= i < s.len(),
    ensures
        xml_forest(s).len() == s.len(),
        xml_forest(s)[i] == xml_tree(s[i]),
    decreases i,
{
    lemma_xml_forest_len(s);
    if i > 0 {
        lemma_xml_forest_index(s.drop_first(), i - 1);
    }
}

/// The first node of the sequence with the given tag name.
pub open spec fn first_child_named(children: Seq<XmlTree>, name: Seq<char>) -> Option<XmlTree>
    decreases children.len(),
{
    if children.len() == 0 {
        Option::None
    } else if children[0].name == name {
        Option::Some(children[0])
    } else {
        first_child_named(children.drop_first(), name)
    }
}

/// The value of the first attribute with the given name.
pub open spec fn attr_value(attrs: Seq<XmlAttrModel>, name: Seq<char>) -> Option<Seq<char>>
    decreases attrs.len(),
{
    if attrs.len() == 0 {
        Option::None
    } else if attrs[0].name == name {
        Option::Some(attrs[0].value)
    } else {
        attr_value(attrs.drop_first(), name)
    }
}

impl XmlNode {
    /// The first child with the given tag name, in document order.
    pub fn find_child(&self, name: &str) -> (r: Option<&XmlNode>)
        ensures
            match r {
                Option::Some(c) => first_child_named(self@.children, name@) == Option::Some(c@),
                Option::None => first_child_named(self@.children, name@) is None,
            },
    {
        let ghost forest = xml_forest(self.children@);
        proof {
            lemma_xml_forest_len(self.children@);
        }
        let mut i: usize = 0;
        proof {
            assert(forest.skip(0) =~= forest);
        }
        while i < self.children.len()
            invariant
                i <= self.children@.len(),
                forest == xml_forest(self.children@),
                forest.len() == self.children@.len(),
                first_child_named(forest, name@) == first_child_named(
                    forest.skip(i as int),
                    name@,
                ),
            decreases self.children@.len() - i,
        {
            proof {
                lemma_xml_forest_index(self.children@, i as int);
                assert(forest.skip(i as int)[0] == forest[i as int]);
            }
            if crate::strutil::str_eq(self.children[i].name.as_str(), name) {
                proof {
                    assert(first_child_named(forest.skip(i as int), name@) == Option::Some(
                        forest[i as int],
                    ));
                }
                return Some(&self.children[i]);
            }
            proof {
                assert(forest.skip(i as int).drop_first() =~= forest.skip(i as int + 1));
            }
            i = i + 1;
        }
        proof {
            assert(forest.skip(i as int) =~= Seq::<XmlTree>::empty());
        }
        None
    }

    /// The value of the first attribute with the given name.
    pub fn find_attr(&self, name: &str) -> (r: Option<&String>)
        ensures
            match r {
                Option::Some(v) => attr_value(self@.attrs, name@) == Option::Some(v@),
                Option::None => attr_value(self@.attrs, name@) is None,
            },
    {
        let ghost attrs = self@.attrs;
        let mut i: usize = 0;
        proof {
            assert(attrs.skip(0) =~= attrs);
        }
        while i < self.attrs.len()
            invariant
                i <= self.attrs@.len(),
                attrs == self@.attrs,
                attrs.len() == self.attrs@.len(),
                attr_value(attrs, name@) == attr_value(attrs.skip(i as int), name@),
            decreases self.attrs@.len() - i,
        {
            proof {
                assert(attrs.skip(i as int)[0] == attrs[i as int]);
            }
            if crate::strutil::str_eq(self.attrs[i].name.as_str(), name) {
                return Some(&self.attrs[i].value);
            }
            proof {
                assert(attrs.skip(i as int).drop_first() =~= attrs.skip(i as int + 1));
            }
            i = i + 1;
        }
        proof {
            assert(attrs.skip(i as int) =~= Seq::<XmlAttrModel>::empty());
        }
        None
    }
}

/// The first element with the given tag name, in document order, of the
/// XML document held in `text`, as copied out by `first_element`; `None`
/// when the text is not well-formed XML or holds no such element.
pub uninterp spec fn first_element_of(text: Seq<char>, tag: Seq<char>) -> Option<XmlTree>;

/// Relies on roxmltree: `Document::parse` returns `Err` on malformed input
/// rather than panicking, and the parsed node tree, searched in document
/// order by `Descendants` and read through `tag_name`, `text`, `attributes`
/// and `children`, depends on the input text alone.
#[verifier::external_body]
pub fn first_element(text: &str, tag: &str) -> (r: Option<XmlNode>)
    ensures
        match r {
            Option::Some(node) => first_element_of(text@, tag@) == Option::Some(node@),
            Option::None => first_element_of(text@, tag@) is None,
        },
{
    let doc = match roxmltree::Document::parse(text) {
        Ok(d) => d,
        Err(_) => {
            return None;
        },
    };
    doc.descendants().find(|n| n.has_tag_name(tag)).map(copy_node)
}

#[verifier::external_type_specification]
#[verifier::external_body]
pub struct ExXmlDocNode<'a, 'input>(roxmltree::Node<'a, 'input>)
where
    'input: 'a,
;

/// Relies on roxmltree's node accessors: copies one node of a parsed
/// document, and below it the whole subtree, into plain values.
#[verifier::external_body]
fn copy_node(node: roxmltree::Node<'_, '_>) -> (r: XmlNode)
{
    XmlNode {
        name: node.tag_name().name().to_string(),
        text: node.text().map(|t| t.to_string()),
        attrs: node.attributes().map(
            |a| XmlAttr { name: a.name().to_string(), value: a.value().to_string() },
        ).collect(),
        children: node.children().map(copy_node).collect(),
    }
}

} // verus!
