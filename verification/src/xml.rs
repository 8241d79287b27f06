//! A namespace-aware XML element tree as plain data.
//!
//! The parser (minidom) produces an opaque element tree; this module copies
//! that tree once into [`XmlNode`], whose fields are plain values that every
//! contract in this crate can speak of. Lookup follows the parser's
//! semantics: an attribute is matched by name among the element's
//! unnamespaced attributes, a child element by local name plus namespace,
//! in document order.

use vstd::prelude::*;
use vstd::string::StrSliceExecFns;
use crate::error::{InvoiceError, SpecError};
use crate::strutil::str_eq;

verus! {

/// One attribute of an element. `ns` is the attribute's own namespace, empty
/// for the ordinary unprefixed attributes that the invoice schema uses.
#[derive(Debug, PartialEq)]
pub struct XmlAttr {
    pub ns: String,
    pub name: String,
    pub value: String,
}

/// One element of the tree: its local name, its namespace, its attributes,
/// and its child elements in document order.
#[derive(Debug, PartialEq)]
pub struct XmlNode {
    pub name: String,
    pub ns: String,
    pub attrs: Vec<XmlAttr>,
    pub children: Vec<XmlNode>,
}

/// The value of the first unnamespaced attribute called `name`, if any.
pub open spec fn find_attr(attrs: Seq<XmlAttr>, name: Seq<char>) -> Option<Seq<char>>
    decreases attrs.len(),
{
    if attrs.len() == 0 {
        None
    } else if attrs[0].ns@.len() == 0 && attrs[0].name@ == name {
        Some(attrs[0].value@)
    } else {
        find_attr(attrs.drop_first(), name)
    }
}

/// The first element of `children` with the given local name and namespace,
/// if any.
pub open spec fn find_child(children: Seq<XmlNode>, name: Seq<char>, ns: Seq<char>) -> Option<
    XmlNode,
>
    decreases children.len(),
{
    if children.len() == 0 {
        None
    } else if children[0].name@ == name && children[0].ns@ == ns {
        Some(children[0])
    } else {
        find_child(children.drop_first(), name, ns)
    }
}

/// The elements of `children` with the given local name, in document order,
/// whatever their namespace.
pub open spec fn children_named(children: Seq<XmlNode>, name: Seq<char>) -> Seq<XmlNode> {
    children.filter(|c: XmlNode| c.name@ == name)
}

impl XmlNode {
    /// The value of this element's attribute called `name`, if present.
    pub open spec fn spec_attr(self, name: Seq<char>) -> Option<Seq<char>> {
        find_attr(self.attrs@, name)
    }

    /// The value of the attribute called `name`, or the empty string when it
    /// is absent.
    pub open spec fn attr_or_empty(self, name: Seq<char>) -> Seq<char> {
        match self.spec_attr(name) {
            Some(v) => v,
            None => Seq::empty(),
        }
    }

    /// The first direct child with the given local name and namespace.
    pub open spec fn spec_child(self, name: Seq<char>, ns: Seq<char>) -> Option<XmlNode> {
        find_child(self.children@, name, ns)
    }

    /// Looks up an attribute by name, as [`XmlNode::spec_attr`] describes.
    pub fn attr<'a>(&'a self, name: &str) -> (r: Option<&'a String>)
        ensures
            match r {
                Some(v) => self.spec_attr(name@) == Some(v@),
                None => self.spec_attr(name@) is None,
            },
    {
        let n = self.attrs.len();
        let mut i: usize = 0;
        proof {
            assert(self.attrs@.skip(0) =~= self.attrs@);
        }
        while i < n
            invariant
                i <= n,
                n == self.attrs@.len(),
                find_attr(self.attrs@, name@) == find_attr(self.attrs@.skip(i as int), name@),
            decreases n - i,
        {
            let a = &self.attrs[i];
            if a.ns.as_str().is_empty() && str_eq(a.name.as_str(), name) {
                proof {
                    assert(self.attrs@.skip(i as int)[0] == self.attrs@[i as int]);
                }
                return Some(&a.value);
            }
            proof {
                assert(self.attrs@.skip(i as int).drop_first() =~= self.attrs@.skip(i + 1));
            }
            i += 1;
        }
        proof {
            assert(self.attrs@.skip(n as int) =~= Seq::<XmlAttr>::empty());
        }
        None
    }

    /// Looks up the first child with the given local name and namespace, as
    /// [`XmlNode::spec_child`] describes.
    pub fn get_child<'a>(&'a self, name: &str, ns: &str) -> (r: Option<&'a XmlNode>)
        ensures
            match r {
                Some(c) => self.spec_child(name@, ns@) == Some(*c),
                None => self.spec_child(name@, ns@) is None,
            },
    {
        let n = self.children.len();
        let mut i: usize = 0;
        proof {
            assert(self.children@.skip(0) =~= self.children@);
        }
        while i < n
            invariant
                i <= n,
                n == self.children@.len(),
                find_child(self.children@, name@, ns@) == find_child(
                    self.children@.skip(i as int),
                    name@,
                    ns@,
                ),
            decreases n - i,
        {
            let c = &self.children[i];
            if str_eq(c.name.as_str(), name) && str_eq(c.ns.as_str(), ns) {
                proof {
                    assert(self.children@.skip(i as int)[0] == self.children@[i as int]);
                }
                return Some(c);
            }
            proof {
                assert(self.children@.skip(i as int).drop_first() =~= self.children@.skip(i + 1));
            }
            i += 1;
        }
        proof {
            assert(self.children@.skip(n as int) =~= Seq::<XmlNode>::empty());
        }
        None
    }
}

/// A character that counts as leading whitespace in a document.
pub open spec fn spec_is_space(c: char) -> bool {
    c == ' ' || c == '\t' || c == '\r' || c == '\n'
}

/// `s` with one leading byte-order mark removed, if it carries one.
pub open spec fn spec_after_bom(s: Seq<char>) -> Seq<char> {
    if s.len() > 0 && s[0] == '\u{feff}' {
        s.drop_first()
    } else {
        s
    }
}

/// `s` with all leading whitespace removed.
pub open spec fn spec_trim_start(s: Seq<char>) -> Seq<char>
    decreases s.len(),
{
    if s.len() > 0 && spec_is_space(s[0]) {
        spec_trim_start(s.drop_first())
    } else {
        s
    }
}

/// Document text ready for the parser: one optional leading byte-order mark
/// removed, then leading whitespace trimmed.
pub open spec fn spec_clean(s: Seq<char>) -> Seq<char> {
    spec_trim_start(spec_after_bom(s))
}

fn is_space(c: char) -> (r: bool)
    ensures
        r == spec_is_space(c),
{
    c == ' ' || c == '\t' || c == '\r' || c == '\n'
}

/// Removes one optional leading byte-order mark, then leading whitespace.
pub fn clean_text<'a>(s: &'a str) -> (r: &'a str)
    ensures
        r@ == spec_clean(s@),
{
    let n = s.unicode_len();
    let mut i: usize = 0;
    if n > 0 && s.get_char(0) == '\u{feff}' {
        i = 1;
        proof {
            assert(s@.skip(1) =~= spec_after_bom(s@));
        }
    } else {
        proof {
            assert(s@.skip(0) =~= spec_after_bom(s@));
        }
    }
    while i < n && is_space(s.get_char(i))
        invariant
            i <= n,
            n == s@.len(),
            spec_trim_start(s@.skip(i as int)) == spec_clean(s@),
        decreases n - i,
    {
        proof {
            assert(s@.skip(i as int)[0] == s@[i as int]);
            assert(s@.skip(i as int).drop_first() =~= s@.skip(i + 1));
        }
        i += 1;
    }
    proof {
        if i < n {
            assert(s@.skip(i as int)[0] == s@[i as int]);
        } else {
            assert(s@.skip(i as int) =~= Seq::<char>::empty());
        }
        assert(spec_trim_start(s@.skip(i as int)) == s@.skip(i as int));
    }
    let r = s.substring_char(i, n);
    proof {
        assert(r@ =~= s@.skip(i as int));
    }
    r
}

#[verifier::external_type_specification]
#[verifier::external_body]
pub struct ExElement(minidom::Element);

/// What the XML parser yields for given text: the element tree as an
/// [`XmlNode`], or nothing when the text is not a well-formed namespaced
/// document. The parse depends on the text alone, so its result carries a
/// name; what the tree holds for given text is not stated, only that equal
/// texts parse to equal trees.
pub uninterp spec fn parse_of(s: Seq<char>) -> Option<XmlNode>;

/// Relies on minidom's `Element` accessors — `name`, `ns`, `attrs` and
/// `children` — to copy an element tree into the crate's own [`XmlNode`],
/// one element, one attribute and one child element at a time.
#[verifier::external_body]
fn node_of_element(e: &minidom::Element) -> XmlNode {
    XmlNode {
        name: e.name().to_string(),
        ns: e.ns(),
        attrs: e.attrs().iter().map(
            |((ns, name), value)| XmlAttr {
                ns: ns.as_str().to_string(),
                name: name.as_str().to_string(),
                value: value.clone(),
            },
        ).collect(),
        children: e.children().map(node_of_element).collect(),
    }
}

/// Relies on minidom's `FromStr` for `Element`: parses namespace-aware XML
/// text into an element tree, which [`node_of_element`] copies into an
/// [`XmlNode`], or fails when the text is not a well-formed namespaced
/// document. The parse is a function of the text alone; its result is
/// named [`parse_of`].
#[verifier::external_body]
fn parse_node(text: &str) -> (r: Option<XmlNode>)
    ensures
        r == parse_of(text@),
{
    match text.parse::<minidom::Element>() {
        Ok(e) => Some(node_of_element(&e)),
        Err(_) => None,
    }
}

/// Parses one document's text into an element tree: the text is cleaned as
/// [`spec_clean`] describes and handed to the XML parser. The call succeeds
/// with the parsed tree exactly when the cleaned text is well-formed, and
/// every failure is a parse failure.
pub fn parse_document(text: &str) -> (r: Result<XmlNode, InvoiceError>)
    ensures
        match r {
            Ok(n) => parse_of(spec_clean(text@)) == Some(n),
            Err(e) => parse_of(spec_clean(text@)) is None && e.deep_view() == SpecError::Parse,
        },
{
    let cleaned = clean_text(text);
    match parse_node(cleaned) {
        Some(n) => Ok(n),
        None => Err(InvoiceError::Parse),
    }
}

proof fn lemma_trim_start_all_space(ws: Seq<char>, s: Seq<char>)
    requires
        forall|i: int| 0 <= i < ws.len() ==> spec_is_space(#[trigger] ws[i]),
        s.len() > 0 ==> !spec_is_space(s[0]),
    ensures
        spec_trim_start(ws + s) == s,
    decreases ws.len(),
{
    if ws.len() == 0 {
        assert(ws + s =~= s);
    } else {
        assert((ws + s)[0] == ws[0]);
        assert((ws + s).drop_first() =~= ws.drop_first() + s);
        lemma_trim_start_all_space(ws.drop_first(), s);
    }
}

/// Law: one leading byte-order mark and any run of leading whitespace are
/// removed by cleaning and never reach the parser — a document parses to
/// the same tree with or without them.
pub proof fn lemma_bom_whitespace_same_parse(ws: Seq<char>, s: Seq<char>)
    requires
        forall|i: int| 0 <= i < ws.len() ==> spec_is_space(#[trigger] ws[i]),
        s.len() > 0 ==> (!spec_is_space(s[0]) && s[0] != '\u{feff}'),
    ensures
        spec_clean(seq!['\u{feff}'] + ws + s) == s,
        spec_clean(ws + s) == s,
        spec_clean(s) == s,
        parse_of(spec_clean(seq!['\u{feff}'] + ws + s)) == parse_of(spec_clean(s)),
        parse_of(spec_clean(ws + s)) == parse_of(spec_clean(s)),
{
    let marked = seq!['\u{feff}'] + ws + s;
    assert(marked[0] == '\u{feff}');
    assert(marked.drop_first() =~= ws + s);
    assert(spec_after_bom(marked) == ws + s);
    if ws.len() == 0 {
        assert(ws + s =~= s);
    } else {
        assert((ws + s)[0] == ws[0]);
    }
    assert(spec_after_bom(ws + s) == ws + s);
    lemma_trim_start_all_space(ws, s);
    assert(spec_after_bom(s) == s);
    lemma_trim_start_all_space(Seq::empty(), s);
    assert(Seq::<char>::empty() + s =~= s);
}

} // verus!
