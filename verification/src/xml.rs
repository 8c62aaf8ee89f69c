//! A decoder for the XML subset used by bundle manifests.
//!
//! A manifest is a tree of elements carrying attributes; text content is
//! never meaningful and is skipped. The decoder handles the document
//! prolog, comments, processing instructions, start/end and self-closing
//! tags, single- and double-quoted attribute values, and the five
//! predefined entities in attribute values. Anything else is rejected with
//! the position of the offending character; nothing is silently defaulted.

use vstd::prelude::*;

use crate::text::chars_eq;

verus! {

/// One attribute of an element, with its value already entity-decoded.
#[derive(Debug, Clone, PartialEq)]
pub struct XmlAttribute {
    pub name: Vec<char>,
    pub value: Vec<char>,
}

/// One element: its tag name, attributes in document order, and child
/// elements in document order.
#[derive(Debug)]
pub struct XmlElement {
    pub name: Vec<char>,
    pub attributes: Vec<XmlAttribute>,
    pub children: Vec<XmlElement>,
}

/// A malformed document, reported with the position (in characters) at
/// which decoding could not continue.
#[derive(Debug, Clone, Copy, PartialEq, Eq, Structural)]
pub struct XmlError {
    pub position: usize,
}

/// The mathematical form of an attribute: name and decoded value as
/// character sequences.
pub struct SpecXmlAttribute {
    pub name: Seq<char>,
    pub value: Seq<char>,
}

/// The mathematical form of an element: what the grammar derives from
/// the document text. The decoder's contracts state that the tree it
/// builds is exactly this.
pub struct SpecXmlElement {
    pub name: Seq<char>,
    pub attributes: Seq<SpecXmlAttribute>,
    pub children: Seq<SpecXmlElement>,
}

/// The mathematical form of a decoded attribute list.
pub open spec fn attrs_view(s: Seq<XmlAttribute>) -> Seq<SpecXmlAttribute> {
    s.map_values(|a: XmlAttribute| SpecXmlAttribute { name: a.name@, value: a.value@ })
}

/// The mathematical form of a decoded element.
pub open spec fn elem_view(e: XmlElement) -> SpecXmlElement
    decreases e,
{
    SpecXmlElement {
        name: e.name@,
        attributes: attrs_view(e.attributes@),
        children: Seq::new(
            e.children@.len(),
            |k: int|
                if 0 <= k < e.children@.len() {
                    elem_view(e.children@[k])
                } else {
                    SpecXmlElement {
                        name: Seq::empty(),
                        attributes: Seq::empty(),
                        children: Seq::empty(),
                    }
                },
        ),
    }
}

/// The mathematical form of a decoded element list.
pub open spec fn children_views(cs: Seq<XmlElement>) -> Seq<SpecXmlElement> {
    cs.map_values(|c: XmlElement| elem_view(c))
}

/// Whether a character is XML whitespace.
pub open spec fn spec_is_ws(c: char) -> bool {
    c == ' ' || c == '\t' || c == '\r' || c == '\n'
}

fn is_ws(c: char) -> (r: bool)
    ensures
        r == spec_is_ws(c),
{
    c == ' ' || c == '\t' || c == '\r' || c == '\n'
}

/// Whether a character may stand in a tag or attribute name.
pub open spec fn spec_is_name_char(c: char) -> bool {
    ('a' <= c <= 'z') || ('A' <= c <= 'Z') || ('0' <= c <= '9') || c == '_' || c == '-' || c == '.'
        || c == ':'
}

fn is_name_char(c: char) -> (r: bool)
    ensures
        r == spec_is_name_char(c),
{
    ('a' <= c && c <= 'z') || ('A' <= c && c <= 'Z') || ('0' <= c && c <= '9') || c == '_' || c
        == '-' || c == '.' || c == ':'
}

/// The first position at or after `i` holding no whitespace.
pub open spec fn spec_skip_ws(doc: Seq<char>, i: int) -> int
    decreases doc.len() - i,
{
    if 0 <= i < doc.len() && spec_is_ws(doc[i]) {
        spec_skip_ws(doc, i + 1)
    } else {
        i
    }
}

/// The end of the run of name characters starting at `i`.
pub open spec fn spec_name_end(doc: Seq<char>, i: int) -> int
    decreases doc.len() - i,
{
    if 0 <= i < doc.len() && spec_is_name_char(doc[i]) {
        spec_name_end(doc, i + 1)
    } else {
        i
    }
}

/// The decoded attribute value starting at `i` and the position after
/// its closing `quote`, or nothing where the run is unterminated, holds
/// a raw `<`, or holds an unknown entity.
pub open spec fn spec_attr_value(doc: Seq<char>, i: int, quote: char) -> Option<(Seq<char>, int)>
    decreases doc.len() - i,
{
    if !(0 <= i < doc.len()) {
        None
    } else {
        let c = doc[i];
        if c == quote {
            Some((Seq::empty(), i + 1))
        } else if c == '<' {
            None
        } else if c == '&' {
            if i + 5 <= doc.len() && doc.subrange(i, i + 5) == "&amp;"@ {
                match spec_attr_value(doc, i + 5, quote) {
                    Some((v, j)) => Some((seq!['&'] + v, j)),
                    None => None,
                }
            } else if i + 4 <= doc.len() && doc.subrange(i, i + 4) == "&lt;"@ {
                match spec_attr_value(doc, i + 4, quote) {
                    Some((v, j)) => Some((seq!['<'] + v, j)),
                    None => None,
                }
            } else if i + 4 <= doc.len() && doc.subrange(i, i + 4) == "&gt;"@ {
                match spec_attr_value(doc, i + 4, quote) {
                    Some((v, j)) => Some((seq!['>'] + v, j)),
                    None => None,
                }
            } else if i + 6 <= doc.len() && doc.subrange(i, i + 6) == "&quot;"@ {
                match spec_attr_value(doc, i + 6, quote) {
                    Some((v, j)) => Some((seq!['"'] + v, j)),
                    None => None,
                }
            } else if i + 6 <= doc.len() && doc.subrange(i, i + 6) == "&apos;"@ {
                match spec_attr_value(doc, i + 6, quote) {
                    Some((v, j)) => Some((seq!['\''] + v, j)),
                    None => None,
                }
            } else {
                None
            }
        } else {
            match spec_attr_value(doc, i + 1, quote) {
                Some((v, j)) => Some((seq![c] + v, j)),
                None => None,
            }
        }
    }
}

/// The position after the `-->` closing the comment scanned from `j`.
pub open spec fn spec_comment_end(doc: Seq<char>, j: int) -> Option<int>
    decreases doc.len() - j,
{
    if !(0 <= j < doc.len()) {
        None
    } else if j + 3 <= doc.len() && doc.subrange(j, j + 3) == "-->"@ {
        Some(j + 3)
    } else {
        spec_comment_end(doc, j + 1)
    }
}

/// The position after the first `>` at or after `j`.
pub open spec fn spec_gt_end(doc: Seq<char>, j: int) -> Option<int>
    decreases doc.len() - j,
{
    if !(0 <= j < doc.len()) {
        None
    } else if doc[j] == '>' {
        Some(j + 1)
    } else {
        spec_gt_end(doc, j + 1)
    }
}

/// The position after the comment, processing instruction or declaration
/// starting at `i`.
pub open spec fn spec_skip_misc(doc: Seq<char>, i: int) -> Option<int> {
    if !(0 <= i < doc.len()) {
        None
    } else if i + 4 <= doc.len() && doc.subrange(i, i + 4) == "<!--"@ {
        spec_comment_end(doc, i + 4)
    } else {
        spec_gt_end(doc, i + 1)
    }
}

/// The attribute list read from `i` (just after the tag name) up to the
/// tag's closing marker: the attributes, whether the tag closed itself,
/// and the position after `>` or `/>`.
pub open spec fn spec_attrs(doc: Seq<char>, i: int) -> Option<(Seq<SpecXmlAttribute>, bool, int)>
    decreases doc.len() - i,
{
    if !(0 <= i <= doc.len()) {
        None
    } else {
        let p = spec_skip_ws(doc, i);
        if !(i <= p < doc.len()) {
            None
        } else if doc[p] == '>' {
            Some((Seq::empty(), false, p + 1))
        } else if doc[p] == '/' {
            if p + 2 <= doc.len() && doc.subrange(p, p + 2) == "/>"@ {
                Some((Seq::empty(), true, p + 2))
            } else {
                None
            }
        } else {
            let ne = spec_name_end(doc, p);
            if !(p < ne <= doc.len()) {
                None
            } else {
                let eq = spec_skip_ws(doc, ne);
                if !(ne <= eq < doc.len() && doc[eq] == '=') {
                    None
                } else {
                    let vq = spec_skip_ws(doc, eq + 1);
                    if !(eq < vq < doc.len() && (doc[vq] == '"' || doc[vq] == '\'')) {
                        None
                    } else {
                        match spec_attr_value(doc, vq + 1, doc[vq]) {
                            Some((val, after)) => {
                                if i < after <= doc.len() {
                                    match spec_attrs(doc, after) {
                                        Some((rest, sc, j)) => Some(
                                            (
                                                seq![
                                                    SpecXmlAttribute {
                                                        name: doc.subrange(p, ne),
                                                        value: val,
                                                    },
                                                ] + rest,
                                                sc,
                                                j,
                                            ),
                                        ),
                                        None => None,
                                    }
                                } else {
                                    None
                                }
                            },
                            None => None,
                        }
                    }
                }
            }
        }
    }
}

/// The element derived from `i` (which must hold `<`) and the position
/// after its closing tag, or nothing where the grammar rejects the text.
pub open spec fn spec_element(doc: Seq<char>, i: int) -> Option<(SpecXmlElement, int)>
    decreases doc.len() - i, 0int,
{
    if !(0 <= i < doc.len() && doc[i] == '<') {
        None
    } else {
        let ne = spec_name_end(doc, i + 1);
        if !(i + 1 < ne <= doc.len()) {
            None
        } else {
            match spec_attrs(doc, ne) {
                Some((attrs, selfclosing, body)) => {
                    if selfclosing {
                        Some(
                            (
                                SpecXmlElement {
                                    name: doc.subrange(i + 1, ne),
                                    attributes: attrs,
                                    children: Seq::empty(),
                                },
                                body,
                            ),
                        )
                    } else if i < body <= doc.len() {
                        match spec_content(doc, body) {
                            Some((cs, close)) => {
                                if close + 2 <= doc.len() && doc.subrange(close, close + 2)
                                    == "</"@ {
                                    let cne = spec_name_end(doc, close + 2);
                                    if doc.subrange(close + 2, cne) == doc.subrange(i + 1, ne) {
                                        let end = spec_skip_ws(doc, cne);
                                        if 0 <= end < doc.len() && doc[end] == '>' {
                                            Some(
                                                (
                                                    SpecXmlElement {
                                                        name: doc.subrange(i + 1, ne),
                                                        attributes: attrs,
                                                        children: cs,
                                                    },
                                                    end + 1,
                                                ),
                                            )
                                        } else {
                                            None
                                        }
                                    } else {
                                        None
                                    }
                                } else {
                                    None
                                }
                            },
                            None => None,
                        }
                    } else {
                        None
                    }
                },
                None => None,
            }
        }
    }
}

/// The run of child elements derived from `i` up to (not including) the
/// `</` of the enclosing close tag, skipping text, comments and
/// processing instructions.
pub open spec fn spec_content(doc: Seq<char>, i: int) -> Option<(Seq<SpecXmlElement>, int)>
    decreases doc.len() - i, 1int,
{
    if !(0 <= i < doc.len()) {
        None
    } else if doc[i] != '<' {
        spec_content(doc, i + 1)
    } else if i + 2 <= doc.len() && doc.subrange(i, i + 2) == "</"@ {
        Some((Seq::empty(), i))
    } else if i + 1 < doc.len() && (doc[i + 1] == '!' || doc[i + 1] == '?') {
        match spec_skip_misc(doc, i) {
            Some(j) => if i < j <= doc.len() {
                spec_content(doc, j)
            } else {
                None
            },
            None => None,
        }
    } else {
        match spec_element(doc, i) {
            Some((e, j)) => {
                if i < j <= doc.len() {
                    match spec_content(doc, j) {
                        Some((cs, k)) => Some((seq![e] + cs, k)),
                        None => None,
                    }
                } else {
                    None
                }
            },
            None => None,
        }
    }
}

/// The position of the root element: whitespace, comments, processing
/// instructions and declarations before it are skipped.
pub open spec fn spec_prolog_end(doc: Seq<char>, i: int) -> Option<int>
    decreases doc.len() - i,
{
    if !(0 <= i <= doc.len()) {
        None
    } else {
        let p = spec_skip_ws(doc, i);
        if p + 2 <= doc.len() && (doc.subrange(p, p + 2) == "<?"@ || doc.subrange(p, p + 2)
            == "<!"@) {
            match spec_skip_misc(doc, p) {
                Some(j) => if i < j <= doc.len() {
                    spec_prolog_end(doc, j)
                } else {
                    None
                },
                None => None,
            }
        } else {
            Some(p)
        }
    }
}

/// Whether everything from `i` to the end of the document is whitespace,
/// comments and processing instructions.
pub open spec fn spec_epilog_ok(doc: Seq<char>, i: int) -> bool
    decreases doc.len() - i,
{
    if !(0 <= i <= doc.len()) {
        false
    } else {
        let p = spec_skip_ws(doc, i);
        if p >= doc.len() {
            true
        } else if (p + 4 <= doc.len() && doc.subrange(p, p + 4) == "<!--"@) || (p + 2 <= doc.len()
            && doc.subrange(p, p + 2) == "<?"@) {
            match spec_skip_misc(doc, p) {
                Some(j) => if i < j <= doc.len() {
                    spec_epilog_ok(doc, j)
                } else {
                    false
                },
                None => false,
            }
        } else {
            false
        }
    }
}

/// The root element the grammar derives from a whole document: optional
/// prolog, exactly one element, then only whitespace and comments.
pub open spec fn spec_document(doc: Seq<char>) -> Option<SpecXmlElement> {
    match spec_prolog_end(doc, 0) {
        Some(p) => match spec_element(doc, p) {
            Some((root, j)) => if spec_epilog_ok(doc, j) {
                Some(root)
            } else {
                None
            },
            None => None,
        },
        None => None,
    }
}

/// First position at or after `i` holding a non-whitespace character.
#[verifier::loop_isolation(false)]
fn skip_ws(doc: &[char], i: usize) -> (j: usize)
    requires
        i <= doc@.len(),
    ensures
        i <= j <= doc@.len(),
        j == spec_skip_ws(doc@, i as int),
        j < doc@.len() ==> !spec_is_ws(doc@[j as int]),
{
    let mut j = i;
    while j < doc.len() && is_ws(doc[j])
        invariant
            i <= j <= doc@.len(),
            spec_skip_ws(doc@, i as int) == spec_skip_ws(doc@, j as int),
        decreases doc@.len() - j,
    {
        j += 1;
    }
    j
}

/// Whether the characters of `s` stand in `doc` at position `i`.
#[verifier::loop_isolation(false)]
pub fn match_at(doc: &[char], i: usize, s: &str) -> (r: bool)
    requires
        i <= doc@.len(),
    ensures
        r == (i + s@.len() <= doc@.len() && doc@.subrange(i as int, i + s@.len()) == s@),
{
    let n = s.unicode_len();
    if n > doc.len() - i {
        return false;
    }
    let mut k: usize = 0;
    while k < n
        invariant
            0 <= k <= n,
            n == s@.len(),
            i + n <= doc@.len(),
            forall|m: int| 0 <= m < k ==> doc@[i + m] == s@[m],
        decreases n - k,
    {
        if doc[i + k] != s.get_char(k) {
            proof {
                assert(doc@.subrange(i as int, i + s@.len())[k as int] != s@[k as int]);
            }
            return false;
        }
        k += 1;
    }
    proof {
        assert(doc@.subrange(i as int, i + s@.len()) =~= s@);
    }
    true
}

/// Read the longest run of name characters starting at `i`.
#[verifier::loop_isolation(false)]
fn parse_name(doc: &[char], i: usize) -> (r: (Vec<char>, usize))
    requires
        i <= doc@.len(),
    ensures
        i <= r.1 <= doc@.len(),
        r.1 == spec_name_end(doc@, i as int),
        r.0@ == doc@.subrange(i as int, r.1 as int),
{
    let mut out: Vec<char> = Vec::new();
    let mut j = i;
    while j < doc.len() && is_name_char(doc[j])
        invariant
            i <= j <= doc@.len(),
            out@ == doc@.subrange(i as int, j as int),
            spec_name_end(doc@, i as int) == spec_name_end(doc@, j as int),
        decreases doc@.len() - j,
    {
        out.push(doc[j]);
        proof {
            assert(out@ =~= doc@.subrange(i as int, j + 1));
        }
        j += 1;
    }
    (out, j)
}

/// The decoded run so far, prepended to what the rest of the value
/// decodes to.
pub open spec fn spec_av_prepend(pre: Seq<char>, r: Option<(Seq<char>, int)>) -> Option<
    (Seq<char>, int),
> {
    match r {
        Some((v, j)) => Some((pre + v, j)),
        None => None,
    }
}

/// Decode an attribute value that runs from `i` up to the closing `quote`.
/// Returns exactly the value and end position the grammar derives
/// ([`spec_attr_value`]), and fails exactly where the grammar rejects.
#[verifier::loop_isolation(false)]
fn parse_attr_value(doc: &[char], i: usize, quote: char) -> (r: Result<(Vec<char>, usize), XmlError>)
    requires
        i <= doc@.len(),
    ensures
        match r {
            Ok((v, j)) => {
                &&& i < j <= doc@.len()
                &&& spec_attr_value(doc@, i as int, quote) == Some((v@, j as int))
            },
            Err(e) => spec_attr_value(doc@, i as int, quote) is None,
        },
{
    let mut out: Vec<char> = Vec::new();
    let mut j = i;
    proof {
        let r0 = spec_attr_value(doc@, i as int, quote);
        match r0 {
            Some((v, jj)) => {
                assert(Seq::<char>::empty() + v =~= v);
            },
            None => {},
        }
    }
    while j < doc.len()
        invariant
            i <= j <= doc@.len(),
            spec_attr_value(doc@, i as int, quote) == spec_av_prepend(
                out@,
                spec_attr_value(doc@, j as int, quote),
            ),
        decreases doc@.len() - j,
    {
        let c = doc[j];
        if c == quote {
            proof {
                assert(out@ + Seq::<char>::empty() =~= out@);
            }
            return Ok((out, j + 1));
        }
        if c == '<' {
            return Err(XmlError { position: j });
        }
        if c == '&' {
            proof {
                reveal_strlit("&amp;");
                reveal_strlit("&lt;");
                reveal_strlit("&gt;");
                reveal_strlit("&quot;");
                reveal_strlit("&apos;");
            }
            let ghost prev = out@;
            let ghost decoded: char;
            if match_at(doc, j, "&amp;") {
                out.push('&');
                j += 5;
                proof {
                    decoded = '&';
                }
            } else if match_at(doc, j, "&lt;") {
                out.push('<');
                j += 4;
                proof {
                    decoded = '<';
                }
            } else if match_at(doc, j, "&gt;") {
                out.push('>');
                j += 4;
                proof {
                    decoded = '>';
                }
            } else if match_at(doc, j, "&quot;") {
                out.push('"');
                j += 6;
                proof {
                    decoded = '"';
                }
            } else if match_at(doc, j, "&apos;") {
                out.push('\'');
                j += 6;
                proof {
                    decoded = '\'';
                }
            } else {
                return Err(XmlError { position: j });
            }
            proof {
                match spec_attr_value(doc@, j as int, quote) {
                    Some((v, jj)) => {
                        assert(prev + (seq![decoded] + v) =~= out@ + v);
                    },
                    None => {},
                }
            }
        } else {
            let ghost prev = out@;
            out.push(c);
            j += 1;
            proof {
                match spec_attr_value(doc@, j as int, quote) {
                    Some((v, jj)) => {
                        assert(prev + (seq![c] + v) =~= out@ + v);
                    },
                    None => {},
                }
            }
        }
    }
    Err(XmlError { position: j })
}

/// Skip one comment, processing instruction or declaration starting at `i`.
/// Returns exactly the position after its terminator that the grammar
/// derives ([`spec_skip_misc`]), and fails exactly where it has none.
#[verifier::loop_isolation(false)]
fn skip_misc(doc: &[char], i: usize) -> (r: Result<usize, XmlError>)
    requires
        i < doc@.len(),
    ensures
        match r {
            Ok(j) => i < j <= doc@.len() && spec_skip_misc(doc@, i as int) == Some(j as int),
            Err(e) => spec_skip_misc(doc@, i as int) is None,
        },
{
    let n = doc.len();
    proof {
        reveal_strlit("<!--");
        reveal_strlit("-->");
        assert(doc@.len() <= usize::MAX);
    }
    if match_at(doc, i, "<!--") {
        let mut j = i + 4;
        while j < n
            invariant
                i < j <= doc@.len(),
                n == doc@.len(),
                spec_comment_end(doc@, i + 4) == spec_comment_end(doc@, j as int),
            decreases doc@.len() - j,
        {
            if match_at(doc, j, "-->") {
                return Ok(j + 3);
            }
            j += 1;
        }
        Err(XmlError { position: j })
    } else {
        // A processing instruction (`<?...?>`) or a declaration (`<!...>`):
        // both end at the first `>`.
        let mut j = i + 1;
        while j < n
            invariant
                i < j <= doc@.len(),
                n == doc@.len(),
                spec_gt_end(doc@, i + 1) == spec_gt_end(doc@, j as int),
            decreases doc@.len() - j,
        {
            if doc[j] == '>' {
                return Ok(j + 1);
            }
            j += 1;
        }
        Err(XmlError { position: j })
    }
}

/// The attributes decoded so far, prepended to what the rest of the tag
/// decodes to.
pub open spec fn spec_attrs_prepend(
    pre: Seq<SpecXmlAttribute>,
    r: Option<(Seq<SpecXmlAttribute>, bool, int)>,
) -> Option<(Seq<SpecXmlAttribute>, bool, int)> {
    match r {
        Some((a, sc, j)) => Some((pre + a, sc, j)),
        None => None,
    }
}

/// The children decoded so far, prepended to what the rest of the
/// content decodes to.
pub open spec fn spec_content_prepend(
    pre: Seq<SpecXmlElement>,
    r: Option<(Seq<SpecXmlElement>, int)>,
) -> Option<(Seq<SpecXmlElement>, int)> {
    match r {
        Some((cs, j)) => Some((pre + cs, j)),
        None => None,
    }
}

/// Decode the attribute list of an open tag, from just after the tag
/// name up to and including the tag's closing marker. Returns exactly
/// the attributes, self-closing flag and end position the grammar
/// derives ([`spec_attrs`]), and fails exactly where the grammar
/// rejects.
#[verifier::loop_isolation(false)]
fn parse_attrs(doc: &[char], i: usize) -> (r: Result<(Vec<XmlAttribute>, bool, usize), XmlError>)
    requires
        i <= doc@.len(),
    ensures
        match r {
            Ok((attrs, sc, j)) => i < j <= doc@.len() && spec_attrs(doc@, i as int) == Some(
                (attrs_view(attrs@), sc, j as int),
            ),
            Err(e) => spec_attrs(doc@, i as int) is None,
        },
{
    let mut attributes: Vec<XmlAttribute> = Vec::new();
    let mut pos = i;
    proof {
        match spec_attrs(doc@, i as int) {
            Some((a, sc, j)) => {
                assert(attrs_view(attributes@) =~= Seq::<SpecXmlAttribute>::empty());
                assert(Seq::<SpecXmlAttribute>::empty() + a =~= a);
            },
            None => {},
        }
    }
    loop
        invariant
            i <= pos <= doc@.len(),
            spec_attrs(doc@, i as int) == spec_attrs_prepend(
                attrs_view(attributes@),
                spec_attrs(doc@, pos as int),
            ),
        decreases doc@.len() - pos,
    {
        let p = skip_ws(doc, pos);
        if p >= doc.len() {
            proof {
                assert(spec_attrs(doc@, pos as int) is None);
            }
            return Err(XmlError { position: p });
        }
        let c = doc[p];
        if c == '>' {
            proof {
                assert(attrs_view(attributes@) + Seq::<SpecXmlAttribute>::empty() =~= attrs_view(
                    attributes@,
                ));
            }
            return Ok((attributes, false, p + 1));
        }
        if c == '/' {
            proof {
                reveal_strlit("/>");
            }
            if match_at(doc, p, "/>") {
                proof {
                    assert(attrs_view(attributes@) + Seq::<SpecXmlAttribute>::empty()
                        =~= attrs_view(attributes@));
                }
                return Ok((attributes, true, p + 2));
            }
            proof {
                assert(spec_attrs(doc@, pos as int) is None);
            }
            return Err(XmlError { position: p });
        }
        let (attr_name, after_name) = parse_name(doc, p);
        if attr_name.len() == 0 {
            proof {
                assert(spec_attrs(doc@, pos as int) is None);
            }
            return Err(XmlError { position: p });
        }
        let eq_pos = skip_ws(doc, after_name);
        if eq_pos >= doc.len() || doc[eq_pos] != '=' {
            proof {
                assert(spec_attrs(doc@, pos as int) is None);
            }
            return Err(XmlError { position: eq_pos });
        }
        let val_pos = skip_ws(doc, eq_pos + 1);
        if val_pos >= doc.len() {
            proof {
                assert(spec_attrs(doc@, pos as int) is None);
            }
            return Err(XmlError { position: val_pos });
        }
        let quote = doc[val_pos];
        if quote != '"' && quote != '\'' {
            proof {
                assert(spec_attrs(doc@, pos as int) is None);
            }
            return Err(XmlError { position: val_pos });
        }
        let (value, after_value) = match parse_attr_value(doc, val_pos + 1, quote) {
            Ok(v) => v,
            Err(e) => {
                proof {
                    assert(spec_attrs(doc@, pos as int) is None);
                }
                return Err(e);
            },
        };
        let ghost prev = attrs_view(attributes@);
        let ghost added = SpecXmlAttribute {
            name: doc@.subrange(p as int, after_name as int),
            value: value@,
        };
        attributes.push(XmlAttribute { name: attr_name, value });
        proof {
            assert(attrs_view(attributes@) =~= prev.push(added));
            match spec_attrs(doc@, after_value as int) {
                Some((rest, sc, j)) => {
                    assert(prev + (seq![added] + rest) =~= attrs_view(attributes@) + rest);
                },
                None => {},
            }
        }
        pos = after_value;
    }
}

/// Decode the element starting at `i` (which must hold `<`), including all
/// its attributes and children, up to and including its closing tag.
/// Returns exactly the element and end position the grammar derives
/// ([`spec_element`]), and fails exactly where the grammar rejects.
#[verifier::loop_isolation(false)]
#[verifier::rlimit(60)]
pub fn parse_element(doc: &[char], i: usize) -> (r: Result<(XmlElement, usize), XmlError>)
    requires
        i <= doc@.len(),
    ensures
        match r {
            Ok((e, j)) => i < j <= doc@.len() && spec_element(doc@, i as int) == Some(
                (elem_view(e), j as int),
            ),
            Err(e) => spec_element(doc@, i as int) is None,
        },
    decreases doc@.len() - i, 0int,
{
    if i >= doc.len() || doc[i] != '<' {
        return Err(XmlError { position: i });
    }
    let (name, name_end) = parse_name(doc, i + 1);
    if name.len() == 0 {
        return Err(XmlError { position: i + 1 });
    }
    let (attributes, selfclosing, body_pos) = match parse_attrs(doc, name_end) {
        Ok(v) => v,
        Err(e) => {
            return Err(e);
        },
    };
    if selfclosing {
        let e = XmlElement { name, attributes, children: Vec::new() };
        proof {
            assert(elem_view(e).children =~= Seq::<SpecXmlElement>::empty());
            assert(elem_view(e) == SpecXmlElement {
                name: doc@.subrange(i + 1, name_end as int),
                attributes: attrs_view(e.attributes@),
                children: Seq::empty(),
            });
        }
        return Ok((e, body_pos));
    }
    // An open tag: decode children up to the matching close tag.
    let (children, close_pos) = match parse_content(doc, body_pos) {
        Ok(v) => v,
        Err(e) => {
            return Err(e);
        },
    };
    proof {
        reveal_strlit("</");
    }
    if !match_at(doc, close_pos, "</") {
        return Err(XmlError { position: close_pos });
    }
    let (close_name, after_close_name) = parse_name(doc, close_pos + 2);
    if !chars_eq(close_name.as_slice(), name.as_slice()) {
        return Err(XmlError { position: close_pos + 2 });
    }
    let end_pos = skip_ws(doc, after_close_name);
    if end_pos >= doc.len() || doc[end_pos] != '>' {
        return Err(XmlError { position: end_pos });
    }
    let e = XmlElement { name, attributes, children };
    proof {
        assert(elem_view(e).children =~= children_views(e.children@));
        assert(elem_view(e) == SpecXmlElement {
            name: doc@.subrange(i + 1, name_end as int),
            attributes: attrs_view(e.attributes@),
            children: children_views(e.children@),
        });
    }
    Ok((e, end_pos + 1))
}

/// Decode the run of child elements starting at `i`, skipping text,
/// comments and processing instructions, up to (not including) the `</` of
/// the enclosing close tag. Returns exactly the children and stop
/// position the grammar derives ([`spec_content`]), and fails exactly
/// where the grammar rejects.
#[verifier::loop_isolation(false)]
fn parse_content(doc: &[char], i: usize) -> (r: Result<(Vec<XmlElement>, usize), XmlError>)
    requires
        i <= doc@.len(),
    ensures
        match r {
            Ok((cs, j)) => i <= j <= doc@.len() && spec_content(doc@, i as int) == Some(
                (children_views(cs@), j as int),
            ),
            Err(e) => spec_content(doc@, i as int) is None,
        },
    decreases doc@.len() - i, 1int,
{
    proof {
        reveal_strlit("</");
    }
    let mut children: Vec<XmlElement> = Vec::new();
    let mut pos = i;
    proof {
        match spec_content(doc@, i as int) {
            Some((cs, j)) => {
                assert(children_views(children@) =~= Seq::<SpecXmlElement>::empty());
                assert(Seq::<SpecXmlElement>::empty() + cs =~= cs);
            },
            None => {},
        }
    }
    while pos < doc.len()
        invariant
            i <= pos <= doc@.len(),
            spec_content(doc@, i as int) == spec_content_prepend(
                children_views(children@),
                spec_content(doc@, pos as int),
            ),
        decreases doc@.len() - pos,
    {
        let c = doc[pos];
        if c != '<' {
            // Text content and whitespace carry nothing the manifest needs.
            pos += 1;
        } else if match_at(doc, pos, "</") {
            proof {
                assert(children_views(children@) + Seq::<SpecXmlElement>::empty()
                    =~= children_views(children@));
            }
            return Ok((children, pos));
        } else if pos + 1 < doc.len() && (doc[pos + 1] == '!' || doc[pos + 1] == '?') {
            pos = match skip_misc(doc, pos) {
                Ok(j) => j,
                Err(e) => {
                    return Err(e);
                },
            };
        } else {
            let (child, j) = match parse_element(doc, pos) {
                Ok(v) => v,
                Err(e) => {
                    return Err(e);
                },
            };
            let ghost prev = children_views(children@);
            children.push(child);
            proof {
                assert(children_views(children@) =~= prev.push(elem_view(child)));
                match spec_content(doc@, j as int) {
                    Some((cs, k)) => {
                        assert(prev + (seq![elem_view(child)] + cs) =~= children_views(children@)
                            + cs);
                    },
                    None => {},
                }
            }
            pos = j;
        }
    }
    Err(XmlError { position: pos })
}

/// Decode a whole document: optional prolog, comments and declarations,
/// then exactly one root element, then trailing whitespace and comments.
/// Returns exactly the root element the grammar derives from the text
/// ([`spec_document`]), and fails exactly where the grammar rejects.
#[verifier::loop_isolation(false)]
pub fn parse_document(doc: &[char]) -> (r: Result<XmlElement, XmlError>)
    ensures
        match r {
            Ok(e) => spec_document(doc@) == Some(elem_view(e)),
            Err(e) => spec_document(doc@) is None,
        },
{
    proof {
        reveal_strlit("<?");
        reveal_strlit("<!");
        reveal_strlit("<!--");
    }
    let ghost mut anchor: int = 0;
    let mut pos = skip_ws(doc, 0);
    while pos < doc.len() && (match_at(doc, pos, "<?") || match_at(doc, pos, "<!"))
        invariant
            0 <= anchor <= doc@.len(),
            anchor <= pos <= doc@.len(),
            pos == spec_skip_ws(doc@, anchor),
            spec_prolog_end(doc@, 0) == spec_prolog_end(doc@, anchor),
        decreases doc@.len() - pos,
    {
        pos = match skip_misc(doc, pos) {
            Ok(j) => j,
            Err(e) => {
                return Err(e);
            },
        };
        proof {
            anchor = pos as int;
        }
        pos = skip_ws(doc, pos);
    }
    proof {
        assert(spec_prolog_end(doc@, 0) == Some(pos as int));
    }
    let (root, after_root) = match parse_element(doc, pos) {
        Ok(v) => v,
        Err(e) => {
            return Err(e);
        },
    };
    let ghost mut tail_anchor: int = after_root as int;
    let mut tail = skip_ws(doc, after_root);
    while tail < doc.len()
        invariant
            0 <= tail_anchor <= doc@.len(),
            tail_anchor <= tail <= doc@.len(),
            tail == spec_skip_ws(doc@, tail_anchor),
            spec_epilog_ok(doc@, after_root as int) == spec_epilog_ok(doc@, tail_anchor),
        decreases doc@.len() - tail,
    {
        if match_at(doc, tail, "<!--") || match_at(doc, tail, "<?") {
            tail = match skip_misc(doc, tail) {
                Ok(j) => j,
                Err(e) => {
                    return Err(e);
                },
            };
            proof {
                tail_anchor = tail as int;
            }
            tail = skip_ws(doc, tail);
        } else {
            return Err(XmlError { position: tail });
        }
    }
    proof {
        assert(spec_epilog_ok(doc@, after_root as int));
    }
    Ok(root)
}

} // verus!

