//! The flat XML shape the wire protocol uses: a root whose child elements
//! each hold named text-only children. Documents are modelled as plain
//! values; only the steps between those values and XML text are entrusted
//! to the XML library.

use vstd::prelude::*;
use crate::error::ListError;
use crate::text::str_eq;

verus! {

/// One named child element holding only text.
pub struct XmlChild {
    pub name: String,
    pub text: String,
}

impl View for XmlChild {
    type V = (Seq<char>, Seq<char>);

    open spec fn view(&self) -> (Seq<char>, Seq<char>) {
        (self.name@, self.text@)
    }
}

/// The views of a sequence of children.
pub open spec fn children_views(q: Seq<XmlChild>) -> Seq<(Seq<char>, Seq<char>)> {
    Seq::new(q.len(), |i: int| q[i]@)
}

/// One flat element: its named text-only children, in document order.
pub struct XmlElement {
    pub children: Vec<XmlChild>,
}

impl View for XmlElement {
    type V = Seq<(Seq<char>, Seq<char>)>;

    open spec fn view(&self) -> Seq<(Seq<char>, Seq<char>)> {
        children_views(self.children@)
    }
}

/// A parsed response document: the root's child elements, in document order.
pub struct XmlDocument {
    pub elements: Vec<XmlElement>,
}

impl View for XmlDocument {
    type V = Seq<Seq<(Seq<char>, Seq<char>)>>;

    open spec fn view(&self) -> Seq<Seq<(Seq<char>, Seq<char>)>> {
        Seq::new(self.elements@.len(), |i: int| self.elements@[i]@)
    }
}

#[verifier::external_type_specification]
#[verifier::external_body]
pub struct ExMinidomError(minidom::Error);

/// Whether a response text parses as an XML document, as a function of the
/// text alone.
pub uninterp spec fn xml_parses(text: Seq<char>) -> bool;

/// What parsing a response text yields: the flat content of the document,
/// as a function of the text alone.
pub uninterp spec fn xml_document_content(text: Seq<char>) -> Seq<Seq<(Seq<char>, Seq<char>)>>;

/// Whether an `entry` element with the given text-only children
/// serializes, as a function of the children alone.
pub uninterp spec fn entry_render_ok(children: Seq<(Seq<char>, Seq<char>)>) -> bool;

/// The XML rendering of an `entry` element with the given text-only
/// children, as a function of the children alone.
pub uninterp spec fn xml_entry_rendering(children: Seq<(Seq<char>, Seq<char>)>) -> Seq<char>;

/// Parses a response text into the flat document model.
///
/// Relies on minidom's `Element::from_reader_with_prefixes` (with the empty
/// default namespace, so that the service's namespace-less documents are
/// accepted) to parse the text, and on `Element::children`, `Element::name`
/// and `Element::texts` to read, for each child of the root, its named
/// children with their first text node, in document order. Whether parsing
/// succeeds, like what it yields, depends on the text alone.
#[verifier::external_body]
pub(crate) fn parse_xml_document(text: &str) -> (r: Result<XmlDocument, minidom::Error>)
    ensures
        r is Ok == xml_parses(text@),
        r matches Ok(doc) ==> doc@ == xml_document_content(text@),
{
    let root = minidom::Element::from_reader_with_prefixes(text.as_bytes(), String::new())?;
    let mut elements = Vec::new();
    for child in root.children() {
        let mut children = Vec::new();
        for f in child.children() {
            let name = f.name().to_string();
            let text = f.texts().next().unwrap_or("").to_string();
            children.push(XmlChild { name, text });
        }
        elements.push(XmlElement { children });
    }
    Ok(XmlDocument { elements })
}

/// Serializes an `entry` element with the given text-only children.
///
/// Relies on minidom's `Element::bare`, `Element::append_text_node` and
/// `Element::append_child` to build the element (with no namespace) and on
/// `Element::write_to` to render it; whether serialization succeeds, like
/// its rendering, depends on the children alone.
#[verifier::external_body]
pub(crate) fn render_entry_element(children: &Vec<XmlChild>) -> (r: Result<String, ListError>)
    ensures
        r is Ok == entry_render_ok(children_views(children@)),
        r matches Ok(s) ==> s@ == xml_entry_rendering(children_views(children@)),
{
    let mut entry = minidom::Element::bare("entry", "");
    for c in children.iter() {
        let mut child = minidom::Element::bare(c.name.as_str(), "");
        child.append_text_node(c.text.as_str());
        entry.append_child(child);
    }
    let mut buffer: Vec<u8> = Vec::new();
    if let Err(e) = entry.write_to(&mut buffer) {
        return Err(ListError::Minidom(e));
    }
    match String::from_utf8(buffer) {
        Ok(s) => Ok(s),
        Err(e) => Err(ListError::Utf8(e.to_string())),
    }
}

/// Appending a child appends its view.
pub proof fn lemma_children_views_push(q: Seq<XmlChild>, c: XmlChild)
    ensures
        children_views(q.push(c)) == children_views(q).push(c@),
{
    assert(children_views(q.push(c)) =~= children_views(q).push(c@));
}

/// Whether some child carries the given name.
pub open spec fn has_tag(children: Seq<(Seq<char>, Seq<char>)>, tag: Seq<char>) -> bool {
    exists|i: int| 0 <= i < children.len() && #[trigger] children[i].0 == tag
}

/// A tag occurs in a concatenation exactly when it occurs in one of the
/// parts.
pub proof fn lemma_has_tag_concat(
    a: Seq<(Seq<char>, Seq<char>)>,
    b: Seq<(Seq<char>, Seq<char>)>,
    tag: Seq<char>,
)
    ensures
        has_tag(a + b, tag) == (has_tag(a, tag) || has_tag(b, tag)),
{
    if has_tag(a, tag) {
        let i = choose|i: int| 0 <= i < a.len() && #[trigger] a[i].0 == tag;
        assert((a + b)[i].0 == tag);
    }
    if has_tag(b, tag) {
        let i = choose|i: int| 0 <= i < b.len() && #[trigger] b[i].0 == tag;
        assert((a + b)[a.len() + i].0 == tag);
    }
    if has_tag(a + b, tag) {
        let i = choose|i: int| 0 <= i < (a + b).len() && #[trigger] (a + b)[i].0 == tag;
        if i < a.len() {
            assert(a[i].0 == tag);
        } else {
            assert(b[i - a.len()].0 == tag);
        }
    }
}

/// The text of the first child with the given name, if any.
pub open spec fn spec_find_child(
    children: Seq<(Seq<char>, Seq<char>)>,
    name: Seq<char>,
) -> Option<Seq<char>>
    decreases children.len(),
{
    if children.len() == 0 {
        None
    } else if children[0].0 == name {
        Some(children[0].1)
    } else {
        spec_find_child(children.skip(1), name)
    }
}

/// Looks up the first child with the given name and returns its text.
pub fn find_child_text<'a>(elem: &'a XmlElement, name: &str) -> (r: Option<&'a String>)
    ensures
        match r {
            Some(t) => spec_find_child(elem@, name@) == Some(t@),
            None => spec_find_child(elem@, name@) is None,
        },
{
    let n = elem.children.len();
    let mut i: usize = 0;
    proof {
        assert(elem@.skip(0) =~= elem@);
    }
    while i < n
        invariant
            n == elem.children@.len(),
            i <= n,
            spec_find_child(elem@, name@) == spec_find_child(elem@.skip(i as int), name@),
        decreases n - i,
    {
        if str_eq(elem.children[i].name.as_str(), name) {
            proof {
                assert(elem@.skip(i as int)[0] == elem@[i as int]);
            }
            return Some(&elem.children[i].text);
        }
        proof {
            assert(elem@.skip(i as int)[0] == elem@[i as int]);
            assert(elem@.skip(i as int).skip(1) =~= elem@.skip(i as int + 1));
        }
        i += 1;
    }
    proof {
        assert(elem@.skip(n as int) =~= Seq::<(Seq<char>, Seq<char>)>::empty());
    }
    None
}

} // verus!
