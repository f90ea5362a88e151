//! The elements of an XML document, as far as the adapters read them.

use vstd::prelude::*;

use crate::text::{lemma_views_push, same_text, views};

verus! {

/// An attribute of an element: its local name and its value.
#[derive(Debug, Clone, PartialEq)]
pub struct XmlAttribute {
    pub name: String,
    pub value: String,
}

/// The start of an element: its local name and its attributes, in the order
/// in which they are written.
#[derive(Debug, Clone, PartialEq)]
pub struct XmlElement {
    pub name: String,
    pub attributes: Vec<XmlAttribute>,
}

/// One event of reading a document.
#[derive(Debug, Clone, PartialEq)]
pub enum XmlNode {
    /// An element starts.
    Start(XmlElement),
    /// Any other part of the document.
    Other,
    /// The document is not well formed here; reading ends.
    Broken,
}

pub struct XmlAttributeView {
    pub name: Seq<char>,
    pub value: Seq<char>,
}

pub struct XmlElementView {
    pub name: Seq<char>,
    pub attributes: Seq<XmlAttributeView>,
}

pub enum XmlNodeView {
    Start(XmlElementView),
    Other,
    Broken,
}

impl View for XmlAttribute {
    type V = XmlAttributeView;

    open spec fn view(&self) -> XmlAttributeView {
        XmlAttributeView { name: self.name@, value: self.value@ }
    }
}

/// The attributes of a list, each by what it says.
pub open spec fn attribute_views(attributes: Seq<XmlAttribute>) -> Seq<XmlAttributeView> {
    Seq::new(attributes.len(), |i: int| attributes[i]@)
}

impl View for XmlElement {
    type V = XmlElementView;

    open spec fn view(&self) -> XmlElementView {
        XmlElementView { name: self.name@, attributes: attribute_views(self.attributes@) }
    }
}

impl View for XmlNode {
    type V = XmlNodeView;

    open spec fn view(&self) -> XmlNodeView {
        match self {
            XmlNode::Start(element) => XmlNodeView::Start(element@),
            XmlNode::Other => XmlNodeView::Other,
            XmlNode::Broken => XmlNodeView::Broken,
        }
    }
}

/// The nodes of a list, each by what it says.
pub open spec fn node_views(nodes: Seq<XmlNode>) -> Seq<XmlNodeView> {
    Seq::new(nodes.len(), |i: int| nodes[i]@)
}

/// The events that `xml-rs` reads from the document `text`, one node for
/// each, up to and including the end of the document or the first error.
pub uninterp spec fn xml_nodes(text: Seq<char>) -> Seq<XmlNodeView>;

/// `xml::reader::EventReader::new` on the bytes of `text`, iterated to its
/// end. Each event becomes one node: the start of an element with the local
/// names and values that the reader reports, `Other` for any other event,
/// `Broken` for an error. The reader yields the end of the document or an
/// error once and then stops.
#[verifier::external_body]
pub(crate) fn read_nodes(text: &str) -> (nodes: Vec<XmlNode>)
    ensures
        node_views(nodes@) == xml_nodes(text@),
{
    xml::reader::EventReader::new(text.as_bytes()).into_iter().map(|event| match event {
        Ok(xml::reader::XmlEvent::StartElement { name, attributes, .. }) => XmlNode::Start(XmlElement {
            name: name.local_name,
            attributes: attributes.into_iter().map(|a| XmlAttribute { name: a.name.local_name, value: a.value }).collect(),
        }),
        Ok(_) => XmlNode::Other,
        Err(_) => XmlNode::Broken,
    }).collect()
}

/// The values of the attributes named `attribute`, in their order.
pub open spec fn attribute_values(attributes: Seq<XmlAttributeView>, attribute: Seq<char>) -> Seq<
    Seq<char>,
>
    decreases attributes.len(),
{
    if attributes.len() == 0 {
        seq![]
    } else {
        let before = attribute_values(attributes.drop_last(), attribute);
        if attributes.last().name == attribute {
            before.push(attributes.last().value)
        } else {
            before
        }
    }
}

/// The values of the attributes named `attribute` on the elements named
/// `element`, in the order of the document.
pub open spec fn element_attribute_values(
    nodes: Seq<XmlNodeView>,
    element: Seq<char>,
    attribute: Seq<char>,
) -> Seq<Seq<char>>
    decreases nodes.len(),
{
    if nodes.len() == 0 {
        seq![]
    } else {
        let before = element_attribute_values(nodes.drop_last(), element, attribute);
        match nodes.last() {
            XmlNodeView::Start(start) => if start.name == element {
                before + attribute_values(start.attributes, attribute)
            } else {
                before
            },
            _ => before,
        }
    }
}

/// Collects the values of the attributes named `attribute` from the
/// elements named `element`, in the order of the document.
pub fn collect_attribute_values(nodes: &Vec<XmlNode>, element: &str, attribute: &str) -> (values:
    Vec<String>)
    ensures
        views(values@) == element_attribute_values(node_views(nodes@), element@, attribute@),
{
    let mut values: Vec<String> = Vec::new();
    let mut at: usize = 0;
    assert(node_views(nodes@).take(0) =~= seq![]);
    assert(views(values@) =~= seq![]);
    while at < nodes.len()
        invariant
            at <= nodes.len(),
            views(values@) == element_attribute_values(
                node_views(nodes@).take(at as int),
                element@,
                attribute@,
            ),
        decreases nodes.len() - at,
    {
        let ghost upto = node_views(nodes@).take(at + 1);
        let ghost before = views(values@);
        proof {
            assert(upto.drop_last() =~= node_views(nodes@).take(at as int));
            assert(upto.last() == nodes@[at as int]@);
        }
        match &nodes[at] {
            XmlNode::Start(start) => {
                if same_text(start.name.as_str(), element) {
                    let ghost all = attribute_views(start.attributes@);
                    let mut k: usize = 0;
                    assert(all.take(0) =~= seq![]);
                    assert(before + seq![] =~= before);
                    while k < start.attributes.len()
                        invariant
                            k <= start.attributes.len(),
                            all == attribute_views(start.attributes@),
                            views(values@) == before + attribute_values(
                                all.take(k as int),
                                attribute@,
                            ),
                        decreases start.attributes.len() - k,
                    {
                        let ghost next = all.take(k + 1);
                        proof {
                            assert(next.drop_last() =~= all.take(k as int));
                            assert(next.last() == start.attributes@[k as int]@);
                        }
                        let item = &start.attributes[k];
                        if same_text(item.name.as_str(), attribute) {
                            let value = item.value.clone();
                            proof {
                                lemma_views_push(values@, value);
                                assert(before + attribute_values(next, attribute@) =~= (before
                                    + attribute_values(all.take(k as int), attribute@)).push(
                                    value@,
                                ));
                            }
                            values.push(value);
                        }
                        k += 1;
                    }
                    assert(all.take(k as int) =~= all);
                }
            },
            _ => {},
        }
        at += 1;
    }
    assert(node_views(nodes@).take(at as int) =~= node_views(nodes@));
    values
}

} // verus!
