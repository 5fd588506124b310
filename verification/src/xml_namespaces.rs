//! The XML namespace declarations on the start tag of a model part's `model` element,
//! and the removal of the declarations whose namespace the model does not use.

use vstd::prelude::*;

use crate::namespaces::{namespace_uri, ThreemfNamespace, XmlNamespace};
use crate::text::{opt_chars, str_eq};

verus! {

/// Where the scan of a start tag's attributes stands: the attributes found so far, the
/// one being read, whether a `"` is open, and whether the closing `>` was reached.
pub struct ScanState {
    pub attrs: Seq<Seq<char>>,
    pub current: Seq<char>,
    pub in_quotes: bool,
    pub done: bool,
}

/// The scan after one more character: a `"` opens or closes a quoted value and is kept,
/// a space outside quotes ends the current attribute, `>` ends the scan (and the current
/// attribute), any other character extends the current attribute.
pub open spec fn scan_step(st: ScanState, c: char) -> ScanState {
    if st.done {
        st
    } else if c == '"' {
        ScanState { current: st.current.push(c), in_quotes: !st.in_quotes, ..st }
    } else if c == ' ' && !st.in_quotes {
        if st.current.len() > 0 {
            ScanState { attrs: st.attrs.push(st.current), current: Seq::empty(), ..st }
        } else {
            st
        }
    } else if c == '>' {
        ScanState {
            attrs: if st.current.len() > 0 {
                st.attrs.push(st.current)
            } else {
                st.attrs
            },
            current: Seq::empty(),
            done: true,
            ..st
        }
    } else {
        ScanState { current: st.current.push(c), ..st }
    }
}

/// The scan of the characters `s`.
pub open spec fn scan(s: Seq<char>) -> ScanState
    decreases s.len(),
{
    if s.len() == 0 {
        ScanState { attrs: Seq::empty(), current: Seq::empty(), in_quotes: false, done: false }
    } else {
        scan_step(scan(s.drop_last()), s.last())
    }
}

/// The attributes of a start tag, as the scan finds them up to its closing `>`; an
/// attribute still open where the text ends without `>` is dropped.
pub open spec fn attribute_tokens(s: Seq<char>) -> Seq<Seq<char>> {
    scan(s).attrs
}

/// The first position at or after `i` where `s` holds `c`.
pub open spec fn find_char_from(s: Seq<char>, c: char, i: int) -> Option<int>
    decreases s.len() - i,
{
    if i < 0 || i >= s.len() {
        None
    } else if s[i] == c {
        Some(i)
    } else {
        find_char_from(s, c, i + 1)
    }
}

/// The first position at or after `i` where `needle` occurs in `hay`.
pub open spec fn find_seq_from(hay: Seq<char>, needle: Seq<char>, i: int) -> Option<int>
    decreases hay.len() + 1 - i,
{
    if i < 0 || i + needle.len() > hay.len() {
        None
    } else if hay.subrange(i, i + needle.len()) == needle {
        Some(i)
    } else {
        find_seq_from(hay, needle, i + 1)
    }
}

/// `t` begins with `p`.
pub open spec fn starts_with(t: Seq<char>, p: Seq<char>) -> bool {
    t.len() >= p.len() && t.subrange(0, p.len() as int) == p
}

/// The namespace that attribute `t` declares, as its prefix and URI: `t` is
/// `xmlns="URI"` (no prefix) or `xmlns:PREFIX="URI"` with a non-empty prefix, split at
/// its first `=`.
pub open spec fn xmlns_decl(t: Seq<char>) -> Option<(Option<Seq<char>>, Seq<char>)> {
    match find_char_from(t, '=', 0) {
        None => None,
        Some(k) => {
            let name = t.subrange(0, k);
            let rest = t.subrange(k + 1, t.len() as int);
            if rest.len() >= 2 && rest[0] == '"' && rest.last() == '"' {
                let value = rest.subrange(1, rest.len() - 1);
                if name == "xmlns"@ {
                    Some((None, value))
                } else if name.len() > 6 && starts_with(name, "xmlns:"@) {
                    Some((Some(name.subrange(6, name.len() as int)), value))
                } else {
                    None
                }
            } else {
                None
            }
        },
    }
}

/// The namespaces that the attributes `ts` declare, in order.
pub open spec fn xmlns_decls(ts: Seq<Seq<char>>) -> Seq<(Option<Seq<char>>, Seq<char>)>
    decreases ts.len(),
{
    if ts.len() == 0 {
        Seq::empty()
    } else {
        match xmlns_decl(ts.last()) {
            Some(d) => xmlns_decls(ts.drop_last()).push(d),
            None => xmlns_decls(ts.drop_last()),
        }
    }
}

/// A namespace declaration as its prefix and URI.
pub open spec fn xml_namespace_view(n: XmlNamespace) -> (Option<Seq<char>>, Seq<char>) {
    (opt_chars(n.prefix), n.uri@)
}

/// The text of a namespace declaration, after a space.
pub open spec fn decl_text(d: (Option<Seq<char>>, Seq<char>)) -> Seq<char> {
    " "@ + match d.0 {
        Some(p) => "xmlns:"@ + p,
        None => "xmlns"@,
    } + "=\""@ + d.1 + "\""@
}

/// The declarations among `ds` whose URI is among `uris`, as text.
pub open spec fn kept_decls_text(ds: Seq<(Option<Seq<char>>, Seq<char>)>, uris: Seq<Seq<char>>) -> Seq<char>
    decreases ds.len(),
{
    if ds.len() == 0 {
        Seq::empty()
    } else {
        kept_decls_text(ds.drop_last(), uris) + if uris.contains(ds.last().1) {
            decl_text(ds.last())
        } else {
            Seq::empty()
        }
    }
}

/// The attributes among `ts` that do not begin with `xmlns`, each after a space.
pub open spec fn plain_attrs_text(ts: Seq<Seq<char>>) -> Seq<char>
    decreases ts.len(),
{
    if ts.len() == 0 {
        Seq::empty()
    } else {
        plain_attrs_text(ts.drop_last()) + if !starts_with(ts.last(), "xmlns"@) {
            " "@ + ts.last()
        } else {
            Seq::empty()
        }
    }
}

/// The URIs of the namespaces `keep`.
pub open spec fn keep_uris(keep: Seq<ThreemfNamespace>) -> Seq<Seq<char>> {
    keep.map_values(|k: ThreemfNamespace| namespace_uri(k))
}

/// The `model` start tag `tag` rewritten: the declarations of the namespaces in `uris`
/// first, then the attributes that are not namespace declarations.
pub open spec fn rewritten_model_tag(tag: Seq<char>, uris: Seq<Seq<char>>) -> Seq<char> {
    "<model"@ + kept_decls_text(xmlns_decls(attribute_tokens(tag)), uris) + plain_attrs_text(
        attribute_tokens(tag.subrange(6, tag.len() as int)),
    ) + ">"@
}

/// The start and the closing `>` of the first `<model` start tag of `xml`.
pub open spec fn model_start_tag(xml: Seq<char>) -> Option<(int, int)> {
    match find_seq_from(xml, "<model"@, 0) {
        None => None,
        Some(p) => match find_char_from(xml, '>', p) {
            None => None,
            Some(e) => Some((p, e)),
        },
    }
}

/// The part of `xml` whose namespace declarations are read: its first `<model` start
/// tag, or the whole text where it has none.
pub open spec fn namespace_scope(xml: Seq<char>) -> Seq<char> {
    match model_start_tag(xml) {
        Some((p, e)) => xml.subrange(p, e + 1),
        None => xml,
    }
}

/// The XML text `xml` with its first `<model` start tag (up to the first `>` after it)
/// rewritten to declare only the namespaces `keep`; unchanged where there is no such tag.
pub open spec fn filtered_model_xml(xml: Seq<char>, keep: Seq<ThreemfNamespace>) -> Seq<char> {
    match model_start_tag(xml) {
        None => xml,
        Some((p, e)) => xml.subrange(0, p) + rewritten_model_tag(xml.subrange(p, e + 1), keep_uris(keep))
            + xml.subrange(e + 1, xml.len() as int),
    }
}

/// The views of a list of strings.
pub open spec fn strings_view(v: Seq<String>) -> Seq<Seq<char>> {
    v.map_values(|t: String| t@)
}

/// The attributes of the start tag `s`.
pub fn scan_attributes(s: &str) -> (r: Vec<String>)
    ensures
        strings_view(r@) == attribute_tokens(s@),
{
    let n = s.unicode_len();
    let mut attrs: Vec<String> = Vec::new();
    let mut current = String::new();
    let mut in_quotes = false;
    let mut done = false;
    proof {
        assert(s@.take(0) =~= Seq::<char>::empty());
        assert(strings_view(attrs@) =~= Seq::<Seq<char>>::empty());
    }
    for i in 0..n
        invariant
            n == s@.len(),
            scan(s@.take(i as int)) == (ScanState {
                attrs: strings_view(attrs@),
                current: current@,
                in_quotes,
                done,
            }),
    {
        let c = s.get_char(i);
        let ghost before = ScanState { attrs: strings_view(attrs@), current: current@, in_quotes, done };
        proof {
            assert(s@.take(i + 1).drop_last() =~= s@.take(i as int));
            assert(s@.take(i + 1).last() == c);
        }
        if done {
        } else if c == '"' {
            current.append(s.substring_char(i, i + 1));
            in_quotes = !in_quotes;
            proof {
                assert(current@ =~= before.current.push(c));
            }
        } else if c == ' ' && !in_quotes {
            if current.unicode_len() > 0 {
                let mut t = String::new();
                std::mem::swap(&mut t, &mut current);
                attrs.push(t);
                proof {
                    assert(strings_view(attrs@) =~= before.attrs.push(before.current));
                }
            }
        } else if c == '>' {
            if current.unicode_len() > 0 {
                let mut t = String::new();
                std::mem::swap(&mut t, &mut current);
                attrs.push(t);
                proof {
                    assert(strings_view(attrs@) =~= before.attrs.push(before.current));
                }
            } else {
                current = String::new();
            }
            done = true;
        } else {
            current.append(s.substring_char(i, i + 1));
            proof {
                assert(current@ =~= before.current.push(c));
            }
        }
    }
    proof {
        assert(s@.take(n as int) =~= s@);
    }
    attrs
}

/// The first position at or after `from` where `s` holds `c`.
pub fn find_char(s: &str, c: char, from: usize) -> (r: Option<usize>)
    requires
        from <= s@.len(),
    ensures
        match r {
            Some(i) => find_char_from(s@, c, from as int) == Some(i as int),
            None => find_char_from(s@, c, from as int) is None,
        },
{
    let n = s.unicode_len();
    let mut i = from;
    while i < n
        invariant
            n == s@.len(),
            from <= i <= n,
            find_char_from(s@, c, from as int) == find_char_from(s@, c, i as int),
        decreases n - i,
    {
        if s.get_char(i) == c {
            return Some(i);
        }
        i = i + 1;
    }
    None
}

/// The first position where `needle` occurs in `hay`.
pub fn find_str(hay: &str, needle: &str) -> (r: Option<usize>)
    ensures
        match r {
            Some(i) => find_seq_from(hay@, needle@, 0) == Some(i as int),
            None => find_seq_from(hay@, needle@, 0) is None,
        },
{
    let n = hay.unicode_len();
    let m = needle.unicode_len();
    if m > n {
        return None;
    }
    let last = n - m;
    let mut i: usize = 0;
    while i <= last
        invariant
            n == hay@.len(),
            m == needle@.len(),
            m <= n,
            last == n - m,
            i <= last,
            find_seq_from(hay@, needle@, 0) == find_seq_from(hay@, needle@, i as int),
        decreases last - i,
    {
        if str_eq(hay.substring_char(i, i + m), needle) {
            return Some(i);
        }
        if i == last {
            return None;
        }
        i = i + 1;
    }
    None
}

/// `t` begins with `p`.
pub fn str_starts_with(t: &str, p: &str) -> (r: bool)
    ensures
        r == starts_with(t@, p@),
{
    let n = t.unicode_len();
    let m = p.unicode_len();
    if n < m {
        false
    } else {
        str_eq(t.substring_char(0, m), p)
    }
}

/// The namespace that attribute `t` declares, if it is a namespace declaration.
pub fn xmlns_declaration(t: &str) -> (r: Option<XmlNamespace>)
    ensures
        match r {
            Some(ns) => xmlns_decl(t@) == Some(xml_namespace_view(ns)),
            None => xmlns_decl(t@) is None,
        },
{
    let n = t.unicode_len();
    match find_char(t, '=', 0) {
        None => None,
        Some(k) => {
            proof {
                lemma_find_char_found(t@, '=', 0);
            }
            let name = t.substring_char(0, k);
            let rest = t.substring_char(k + 1, n);
            let rn = rest.unicode_len();
            if rn >= 2 && rest.get_char(0) == '"' && rest.get_char(rn - 1) == '"' {
                let value = rest.substring_char(1, rn - 1);
                proof {
                    reveal_strlit("xmlns");
                    reveal_strlit("xmlns:");
                }
                if str_eq(name, "xmlns") {
                    Some(XmlNamespace { prefix: None, uri: String::from_str(value) })
                } else if name.unicode_len() > 6 && str_starts_with(name, "xmlns:") {
                    let p = name.substring_char(6, name.unicode_len());
                    Some(XmlNamespace { prefix: Some(String::from_str(p)), uri: String::from_str(value) })
                } else {
                    None
                }
            } else {
                None
            }
        },
    }
}

/// The namespaces declared on the start tag `tag`, in order: its attributes of the form
/// `xmlns="URI"` or `xmlns:PREFIX="URI"`.
pub fn tag_xmlns_declarations(tag: &str) -> (r: Vec<XmlNamespace>)
    ensures
        r@.map_values(|n: XmlNamespace| xml_namespace_view(n)) == xmlns_decls(attribute_tokens(tag@)),
{
    let tokens = scan_attributes(tag);
    let ghost ts = attribute_tokens(tag@);
    let mut out: Vec<XmlNamespace> = Vec::new();
    let n = tokens.len();
    for i in 0..n
        invariant
            n == tokens@.len(),
            strings_view(tokens@) == ts,
            out@.map_values(|x: XmlNamespace| xml_namespace_view(x)) == xmlns_decls(ts.take(i as int)),
    {
        proof {
            assert(ts.take(i + 1).drop_last() =~= ts.take(i as int));
            assert(ts.take(i + 1).last() == ts[i as int]);
            assert(ts[i as int] == tokens@[i as int]@);
        }
        let ghost before = out@;
        match xmlns_declaration(tokens[i].as_str()) {
            Some(ns) => {
                out.push(ns);
                proof {
                    assert(out@.map_values(|x: XmlNamespace| xml_namespace_view(x)) =~= before.map_values(
                        |x: XmlNamespace| xml_namespace_view(x),
                    ).push(xml_namespace_view(out@.last())));
                }
            },
            None => {},
        }
    }
    proof {
        assert(ts.take(n as int) =~= ts);
    }
    out
}

/// The start and the closing `>` of the first `<model` start tag of `xml`.
fn find_model_start_tag(xml: &str) -> (r: Option<(usize, usize)>)
    ensures
        match r {
            Some((p, e)) => model_start_tag(xml@) == Some((p as int, e as int)) && p + 6 <= e < xml@.len(),
            None => model_start_tag(xml@) is None,
        },
{
    proof {
        reveal_strlit("<model");
    }
    match find_str(xml, "<model") {
        None => None,
        Some(p) => {
            proof {
                lemma_find_seq_found(xml@, "<model"@, 0);
            }
            match find_char(xml, '>', p) {
                None => None,
                Some(e) => {
                    proof {
                        lemma_tag_end_after_name(xml@, p as int, e as int);
                    }
                    Some((p, e))
                },
            }
        },
    }
}

/// The namespaces declared in the XML text `xml`, in order: on its first `<model`
/// start tag, or, where it has none, on the text read as one start tag.
pub fn parse_xmlns_attributes(xml: &str) -> (r: Vec<XmlNamespace>)
    ensures
        r@.map_values(|n: XmlNamespace| xml_namespace_view(n)) == xmlns_decls(attribute_tokens(namespace_scope(xml@))),
{
    let n = xml.unicode_len();
    match find_model_start_tag(xml) {
        Some((p, e)) => {
            proof {
                assert(e < n);
            }
            tag_xmlns_declarations(xml.substring_char(p, e + 1))
        },
        None => tag_xmlns_declarations(xml),
    }
}

/// True where `uri` is the URI of one of the namespaces `keep`.
fn keeps_uri(keep: &[ThreemfNamespace], uri: &str) -> (r: bool)
    ensures
        r == keep_uris(keep@).contains(uri@),
{
    let n = keep.len();
    for i in 0..n
        invariant
            n == keep@.len(),
            forall|j: int| 0 <= j < i ==> namespace_uri(#[trigger] keep@[j]) != uri@,
    {
        if str_eq(keep[i].uri(), uri) {
            proof {
                assert(keep_uris(keep@)[i as int] == uri@);
            }
            return true;
        }
    }
    proof {
        if keep_uris(keep@).contains(uri@) {
            let j = choose|j: int| 0 <= j < keep_uris(keep@).len() && keep_uris(keep@)[j] == uri@;
            assert(namespace_uri(keep@[j]) == uri@);
        }
    }
    false
}

/// The `model` start tag `tag` rewritten to declare only the namespaces `keep`.
fn rewrite_model_tag(tag: &str, keep: &[ThreemfNamespace]) -> (r: String)
    requires
        tag@.len() >= 6,
    ensures
        r@ == rewritten_model_tag(tag@, keep_uris(keep@)),
{
    let decls = tag_xmlns_declarations(tag);
    let ghost ds = xmlns_decls(attribute_tokens(tag@));
    let mut out = String::from_str("<model");
    proof {
        reveal_strlit("<model");
        reveal_strlit(" ");
        reveal_strlit("xmlns:");
        reveal_strlit("xmlns");
        reveal_strlit("=\"");
        reveal_strlit("\"");
        reveal_strlit(">");
        assert(ds.take(0) =~= Seq::empty());
        assert(out@ =~= "<model"@ + kept_decls_text(ds.take(0), keep_uris(keep@)));
    }
    let nd = decls.len();
    for i in 0..nd
        invariant
            nd == decls@.len(),
            decls@.map_values(|x: XmlNamespace| xml_namespace_view(x)) == ds,
            out@ == "<model"@ + kept_decls_text(ds.take(i as int), keep_uris(keep@)),
    {
        let d = &decls[i];
        proof {
            assert(ds.take(i + 1).drop_last() =~= ds.take(i as int));
            assert(ds.take(i + 1).last() == ds[i as int]);
            assert(ds[i as int] == xml_namespace_view(*d));
        }
        let ghost before = out@;
        if keeps_uri(keep, d.uri.as_str()) {
            out.append(" ");
            match &d.prefix {
                Some(p) => {
                    out.append("xmlns:");
                    out.append(p.as_str());
                },
                None => {
                    out.append("xmlns");
                },
            }
            out.append("=\"");
            out.append(d.uri.as_str());
            out.append("\"");
            proof {
                assert(out@ =~= before + decl_text(ds[i as int]));
            }
        } else {
            proof {
                assert(out@ =~= before + Seq::<char>::empty());
            }
        }
    }
    proof {
        assert(ds.take(nd as int) =~= ds);
    }
    let ghost mid = out@;
    let inner = tag.substring_char(6, tag.unicode_len());
    let tokens = scan_attributes(inner);
    let ghost ts = attribute_tokens(inner@);
    proof {
        assert(ts.take(0) =~= Seq::<Seq<char>>::empty());
        assert(out@ =~= mid + plain_attrs_text(ts.take(0)));
    }
    let nt = tokens.len();
    for i in 0..nt
        invariant
            nt == tokens@.len(),
            strings_view(tokens@) == ts,
            out@ == mid + plain_attrs_text(ts.take(i as int)),
    {
        proof {
            assert(ts.take(i + 1).drop_last() =~= ts.take(i as int));
            assert(ts.take(i + 1).last() == ts[i as int]);
            assert(ts[i as int] == tokens@[i as int]@);
        }
        let ghost before = out@;
        if !str_starts_with(tokens[i].as_str(), "xmlns") {
            out.append(" ");
            out.append(tokens[i].as_str());
            proof {
                assert(out@ =~= before + (" "@ + ts[i as int]));
            }
        } else {
            proof {
                assert(out@ =~= before + Seq::<char>::empty());
            }
        }
    }
    proof {
        assert(ts.take(nt as int) =~= ts);
    }
    out.append(">");
    proof {
        assert(out@ =~= rewritten_model_tag(tag@, keep_uris(keep@)));
    }
    out
}

/// Rewrites the first `<model` start tag of the XML text `xml` (up to the first `>`
/// after it) so that it declares only the namespaces `keep`, followed by its attributes
/// that are not namespace declarations; leaves `xml` as it is where it has no such tag.
pub fn filter_unused_namespaces(xml: &mut String, keep: &[ThreemfNamespace])
    ensures
        final(xml)@ == filtered_model_xml(old(xml)@, keep@),
{
    let text = xml.as_str();
    let n = text.unicode_len();
    match find_model_start_tag(text) {
        None => {},
        Some((p, e)) => {
            let tag = text.substring_char(p, e + 1);
            let new_tag = rewrite_model_tag(tag, keep);
            let mut out = String::from_str(text.substring_char(0, p));
            out.append(new_tag.as_str());
            out.append(text.substring_char(e + 1, n));
            *xml = out;
        },
    }
}

/// The first `>` after an occurrence of `<model` lies past its six characters.
pub proof fn lemma_tag_end_after_name(s: Seq<char>, p: int, e: int)
    requires
        find_seq_from(s, "<model"@, 0) == Some(p),
        find_char_from(s, '>', p) == Some(e),
    ensures
        p + 6 <= e < s.len(),
{
    reveal_strlit("<model");
    lemma_find_seq_found(s, "<model"@, 0);
    lemma_find_char_found(s, '>', p);
    assert(s.subrange(p, p + 6) == "<model"@);
    assert forall|j: int| p <= j < p + 6 implies s[j] != '>' by {
        assert(s[j] == s.subrange(p, p + 6)[j - p]);
    }
}

/// A found position holds the needle and lies within the text.
pub proof fn lemma_find_seq_found(hay: Seq<char>, needle: Seq<char>, i: int)
    requires
        find_seq_from(hay, needle, i) is Some,
    ensures
        ({
            let k = find_seq_from(hay, needle, i)->Some_0;
            &&& i <= k
            &&& k + needle.len() <= hay.len()
            &&& hay.subrange(k, k + needle.len()) == needle
        }),
    decreases hay.len() + 1 - i,
{
    if !(i < 0 || i + needle.len() > hay.len()) && hay.subrange(i, i + needle.len()) != needle {
        lemma_find_seq_found(hay, needle, i + 1);
    }
}

/// A found position holds the character, and no position between the start and it does.
pub proof fn lemma_find_char_found(s: Seq<char>, c: char, i: int)
    requires
        find_char_from(s, c, i) is Some,
    ensures
        ({
            let k = find_char_from(s, c, i)->Some_0;
            &&& i <= k < s.len()
            &&& s[k] == c
            &&& forall|j: int| i <= j < k ==> s[j] != c
        }),
    decreases s.len() - i,
{
    if !(i < 0 || i >= s.len()) && s[i] != c {
        lemma_find_char_found(s, c, i + 1);
    }
}

/// `needle` occurs in `hay` at `q`.
pub open spec fn occurs_at(hay: Seq<char>, needle: Seq<char>, q: int) -> bool {
    hay.subrange(q, q + needle.len()) == needle
}

/// The first occurrence of `needle` at or after `i` is at `k`: it occurs there and not
/// between `i` and `k`.
pub proof fn lemma_find_seq_at(hay: Seq<char>, needle: Seq<char>, i: int, k: int)
    requires
        0 <= i <= k,
        k + needle.len() <= hay.len(),
        hay.subrange(k, k + needle.len()) == needle,
        forall|q: int| i <= q < k ==> !#[trigger] occurs_at(hay, needle, q),
    ensures
        find_seq_from(hay, needle, i) == Some(k),
    decreases k - i,
{
    if i < k {
        assert(!occurs_at(hay, needle, i));
        lemma_find_seq_at(hay, needle, i + 1, k);
    }
}

/// Before the first occurrence of `needle` found from `i`, there is none.
pub proof fn lemma_find_seq_first(hay: Seq<char>, needle: Seq<char>, i: int)
    requires
        find_seq_from(hay, needle, i) is Some,
    ensures
        forall|q: int| i <= q < find_seq_from(hay, needle, i)->Some_0 ==> !#[trigger] occurs_at(hay, needle, q),
    decreases hay.len() + 1 - i,
{
    if !(i < 0 || i + needle.len() > hay.len()) && hay.subrange(i, i + needle.len()) != needle {
        lemma_find_seq_first(hay, needle, i + 1);
    }
}

} // verus!
