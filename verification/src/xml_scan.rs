//! Facts about the scan of a start tag's attributes: how it runs over joined text, which
//! attributes read back as themselves, and what the declarations of a rewritten `model`
//! tag read back as.

use vstd::prelude::*;

use crate::xml_namespaces::{
    decl_text, find_char_from, kept_decls_text, plain_attrs_text, scan,
    scan_step, starts_with, xmlns_decl, xmlns_decls, ScanState,
};

verus! {

/// The scan state with the attributes `attrs` and nothing pending.
pub open spec fn fresh(attrs: Seq<Seq<char>>) -> ScanState {
    ScanState { attrs, current: Seq::empty(), in_quotes: false, done: false }
}

/// The scan of the characters `s` from state `st`.
pub open spec fn scan_from(st: ScanState, s: Seq<char>) -> ScanState
    decreases s.len(),
{
    if s.len() == 0 {
        st
    } else {
        scan_step(scan_from(st, s.drop_last()), s.last())
    }
}

/// Every `"` that `s` opens is closed again by its end.
pub open spec fn quotes_closed(s: Seq<char>) -> bool {
    !scan(s).in_quotes
}

/// Scanned alone, `w` is one whole attribute still pending, with no `"` left open.
pub open spec fn clean_word(w: Seq<char>) -> bool {
    w.len() > 0 && scan_from(fresh(Seq::empty()), w) == (ScanState {
        attrs: Seq::empty(),
        current: w,
        in_quotes: false,
        done: false,
    })
}

/// The words `ws`, each after a space.
pub open spec fn spaced(ws: Seq<Seq<char>>) -> Seq<char>
    decreases ws.len(),
{
    if ws.len() == 0 {
        Seq::empty()
    } else {
        spaced(ws.drop_last()) + " "@ + ws.last()
    }
}

/// The attribute that declares `d`.
pub open spec fn decl_word(d: (Option<Seq<char>>, Seq<char>)) -> Seq<char> {
    (match d.0 {
        Some(p) => "xmlns:"@ + p,
        None => "xmlns"@,
    }) + "=\""@ + d.1 + "\""@
}

/// The attributes that declare those of `ds` whose URI is among `uris`.
pub open spec fn kept_decl_words(ds: Seq<(Option<Seq<char>>, Seq<char>)>, uris: Seq<Seq<char>>) -> Seq<Seq<char>> {
    ds.filter(|d: (Option<Seq<char>>, Seq<char>)| uris.contains(d.1)).map_values(
        |d: (Option<Seq<char>>, Seq<char>)| decl_word(d),
    )
}

/// The attributes among `ts` that do not begin with `xmlns`.
pub open spec fn plain_words(ts: Seq<Seq<char>>) -> Seq<Seq<char>> {
    ts.filter(|t: Seq<char>| !starts_with(t, "xmlns"@))
}

/// A declaration as the scan reads it: a non-empty prefix without `=`, and an attribute
/// that declares it and reads back as one whole attribute.
pub open spec fn decl_ok(d: (Option<Seq<char>>, Seq<char>)) -> bool {
    &&& d.0 matches Some(p) ==> p.len() > 0 && !p.contains('=')
    &&& clean_word(decl_word(d))
}

/// `scan` is `scan_from` the empty state.
pub proof fn lemma_scan_is_scan_from(s: Seq<char>)
    ensures
        scan(s) == scan_from(fresh(Seq::empty()), s),
    decreases s.len(),
{
    if s.len() > 0 {
        lemma_scan_is_scan_from(s.drop_last());
    }
}

/// Scanning joined text scans the first part, then the second.
pub proof fn lemma_scan_from_concat(st: ScanState, s: Seq<char>, t: Seq<char>)
    ensures
        scan_from(st, s + t) == scan_from(scan_from(st, s), t),
    decreases t.len(),
{
    if t.len() == 0 {
        assert(s + t =~= s);
    } else {
        assert((s + t).drop_last() =~= s + t.drop_last());
        assert((s + t).last() == t.last());
        lemma_scan_from_concat(st, s, t.drop_last());
    }
}

/// The attributes already found do not change what the scan does next.
pub proof fn lemma_scan_from_attrs(st: ScanState, a: Seq<Seq<char>>, s: Seq<char>)
    ensures
        scan_from(ScanState { attrs: a + st.attrs, ..st }, s) == ({
            let r = scan_from(st, s);
            ScanState { attrs: a + r.attrs, ..r }
        }),
    decreases s.len(),
{
    if s.len() > 0 {
        lemma_scan_from_attrs(st, a, s.drop_last());
        let r = scan_from(st, s.drop_last());
        assert((a + r.attrs).push(r.current) =~= a + r.attrs.push(r.current));
    }
}

/// Whether a `"` is open, and whether the scan has ended, do not depend on the
/// attributes found or pending.
pub proof fn lemma_scan_from_quotes(st1: ScanState, st2: ScanState, s: Seq<char>)
    requires
        st1.in_quotes == st2.in_quotes,
        st1.done == st2.done,
    ensures
        scan_from(st1, s).in_quotes == scan_from(st2, s).in_quotes,
        scan_from(st1, s).done == scan_from(st2, s).done,
    decreases s.len(),
{
    if s.len() > 0 {
        lemma_scan_from_quotes(st1, st2, s.drop_last());
    }
}

/// A clean word scanned after a space leaves the attributes found as they are and is
/// pending.
pub proof fn lemma_clean_word_after(a: Seq<Seq<char>>, w: Seq<char>)
    requires
        clean_word(w),
    ensures
        scan_from(fresh(a), w) == (ScanState { attrs: a, current: w, in_quotes: false, done: false }),
{
    lemma_scan_from_attrs(fresh(Seq::empty()), a, w);
    assert(a + Seq::<Seq<char>>::empty() =~= a);
}

/// Words joined by spaces, after a pending attribute `c`, are found one by one, the last
/// one still pending.
pub proof fn lemma_scan_spaced(a: Seq<Seq<char>>, c: Seq<char>, ws: Seq<Seq<char>>)
    requires
        c.len() > 0,
        forall|i: int| 0 <= i < ws.len() ==> clean_word(#[trigger] ws[i]),
    ensures
        scan_from(ScanState { attrs: a, current: c, in_quotes: false, done: false }, spaced(ws)) == if ws.len()
            == 0 {
            ScanState { attrs: a, current: c, in_quotes: false, done: false }
        } else {
            ScanState { attrs: a.push(c) + ws.drop_last(), current: ws.last(), in_quotes: false, done: false }
        },
    decreases ws.len(),
{
    reveal_strlit(" ");
    let s0 = ScanState { attrs: a, current: c, in_quotes: false, done: false };
    if ws.len() > 0 {
        let prev = ws.drop_last();
        let w = ws.last();
        assert forall|i: int| 0 <= i < prev.len() implies clean_word(#[trigger] prev[i]) by {
            assert(prev[i] == ws[i]);
        }
        lemma_scan_spaced(a, c, prev);
        let s1 = scan_from(s0, spaced(prev));
        lemma_scan_from_concat(s0, spaced(prev), " "@);
        lemma_scan_from_concat(s0, spaced(prev) + " "@, w);
        assert(" "@.drop_last() =~= Seq::<char>::empty());
        assert(" "@.last() == ' ');
        let a2 = s1.attrs.push(s1.current);
        assert(s1.current.len() > 0) by {
            if prev.len() > 0 {
                assert(clean_word(prev[prev.len() - 1]));
            }
        }
        assert(scan_from(s1, Seq::<char>::empty()) == s1);
        assert(scan_from(s1, " "@) == fresh(a2));
        assert(clean_word(ws[ws.len() - 1]));
        lemma_clean_word_after(a2, w);
        if prev.len() == 0 {
            assert(a2 =~= a.push(c) + ws.drop_last());
        } else {
            assert(a2 =~= a.push(c) + ws.drop_last());
        }
    }
}

/// Joining two lists of words joins their texts.
pub proof fn lemma_spaced_concat(x: Seq<Seq<char>>, y: Seq<Seq<char>>)
    ensures
        spaced(x + y) == spaced(x) + spaced(y),
    decreases y.len(),
{
    if y.len() == 0 {
        assert(x + y =~= x);
        assert(spaced(x) + spaced(y) =~= spaced(x));
    } else {
        assert((x + y).drop_last() =~= x + y.drop_last());
        assert((x + y).last() == y.last());
        lemma_spaced_concat(x, y.drop_last());
        assert(spaced(x + y) =~= spaced(x) + spaced(y));
    }
}

/// The text of the kept declarations is their attributes, each after a space.
pub proof fn lemma_kept_decls_text(ds: Seq<(Option<Seq<char>>, Seq<char>)>, uris: Seq<Seq<char>>)
    ensures
        kept_decls_text(ds, uris) == spaced(kept_decl_words(ds, uris)),
    decreases ds.len(),
{
    reveal(Seq::filter);
    reveal_strlit(" ");
    let pred = |d: (Option<Seq<char>>, Seq<char>)| uris.contains(d.1);
    let f = |d: (Option<Seq<char>>, Seq<char>)| decl_word(d);
    if ds.len() == 0 {
        assert(kept_decl_words(ds, uris) =~= Seq::<Seq<char>>::empty());
    } else {
        lemma_kept_decls_text(ds.drop_last(), uris);
        let sub = ds.drop_last().filter(pred);
        assert(ds.filter(pred) == if pred(ds.last()) {
            sub.push(ds.last())
        } else {
            sub
        });
        if pred(ds.last()) {
            let kw = kept_decl_words(ds, uris);
            assert(kw =~= sub.map_values(f).push(decl_word(ds.last())));
            assert(kw.drop_last() =~= sub.map_values(f));
            assert(kw.last() == decl_word(ds.last()));
            assert(decl_text(ds.last()) =~= " "@ + decl_word(ds.last()));
            assert(spaced(kw) == spaced(kw.drop_last()) + " "@ + kw.last());
            assert(kept_decls_text(ds, uris) == kept_decls_text(ds.drop_last(), uris) + decl_text(ds.last()));
            assert(kept_decls_text(ds, uris) =~= spaced(kept_decl_words(ds, uris)));
        } else {
            assert(kept_decls_text(ds, uris) =~= spaced(kept_decl_words(ds, uris)));
        }
    }
}

/// The text of the plain attributes is those attributes, each after a space.
pub proof fn lemma_plain_attrs_text(ts: Seq<Seq<char>>)
    ensures
        plain_attrs_text(ts) == spaced(plain_words(ts)),
    decreases ts.len(),
{
    reveal(Seq::filter);
    let pred = |t: Seq<char>| !starts_with(t, "xmlns"@);
    if ts.len() > 0 {
        lemma_plain_attrs_text(ts.drop_last());
        assert(ts.filter(pred) == if pred(ts.last()) {
            ts.drop_last().filter(pred).push(ts.last())
        } else {
            ts.drop_last().filter(pred)
        });
        let sub = ts.drop_last().filter(pred);
        if pred(ts.last()) {
            let pw = plain_words(ts);
            assert(pw =~= sub.push(ts.last()));
            assert(pw.drop_last() =~= sub);
            assert(spaced(pw) == spaced(pw.drop_last()) + " "@ + pw.last());
            assert(plain_attrs_text(ts) == plain_attrs_text(ts.drop_last()) + (" "@ + ts.last()));
            assert(plain_attrs_text(ts) =~= spaced(plain_words(ts)));
        } else {
            assert(plain_attrs_text(ts) =~= plain_attrs_text(ts.drop_last()));
        }
    }
}

/// A text without `c` has no `c` at or after any position.
pub proof fn lemma_find_char_absent(s: Seq<char>, c: char, i: int)
    requires
        !s.contains(c),
    ensures
        find_char_from(s, c, i) is None,
    decreases s.len() - i,
{
    if 0 <= i < s.len() {
        assert(s[i] != c);
        lemma_find_char_absent(s, c, i + 1);
    }
}

/// In a text without `c` before position `k`, where `c` stands, `c` is first found at
/// `k`.
pub proof fn lemma_find_char_at(s: Seq<char>, c: char, i: int, k: int)
    requires
        0 <= i <= k < s.len(),
        s[k] == c,
        forall|j: int| i <= j < k ==> s[j] != c,
    ensures
        find_char_from(s, c, i) == Some(k),
    decreases k - i,
{
    if i < k {
        lemma_find_char_at(s, c, i + 1, k);
    }
}

/// The attribute that declares a declaration read from the attribute `t` is `t`.
pub proof fn lemma_decl_word_of_attribute(t: Seq<char>)
    requires
        xmlns_decl(t) is Some,
    ensures
        decl_word(xmlns_decl(t)->Some_0) == t,
        xmlns_decl(t)->Some_0.0 matches Some(p) ==> p.len() > 0 && !p.contains('='),
{
    reveal_strlit("xmlns");
    reveal_strlit("xmlns:");
    reveal_strlit("=\"");
    reveal_strlit("\"");
    let k = find_char_from(t, '=', 0)->Some_0;
    crate::xml_namespaces::lemma_find_char_found(t, '=', 0);
    let name = t.subrange(0, k);
    let rest = t.subrange(k + 1, t.len() as int);
    let value = rest.subrange(1, rest.len() - 1);
    assert(t =~= name + seq!['='] + seq!['"'] + value + seq!['"']) by {
        assert(rest =~= seq!['"'] + value + seq!['"']);
        assert(t =~= name + seq!['='] + rest);
    }
    let d = xmlns_decl(t)->Some_0;
    if name == "xmlns"@ {
        assert(decl_word(d) =~= t);
    } else {
        let p = name.subrange(6, name.len() as int);
        assert(name =~= "xmlns:"@ + p);
        assert(decl_word(d) =~= t);
        assert(!p.contains('=')) by {
            if p.contains('=') {
                let j = choose|j: int| 0 <= j < p.len() && p[j] == '=';
                assert(t[6 + j] == '=');
            }
        }
    }
}

/// The attribute that declares a declaration the scan reads reads back as that
/// declaration.
pub proof fn lemma_xmlns_decl_of_word(d: (Option<Seq<char>>, Seq<char>))
    requires
        d.0 matches Some(p) ==> p.len() > 0 && !p.contains('='),
    ensures
        xmlns_decl(decl_word(d)) == Some(d),
{
    reveal_strlit("xmlns");
    reveal_strlit("xmlns:");
    reveal_strlit("=\"");
    reveal_strlit("\"");
    let w = decl_word(d);
    let name = match d.0 {
        Some(p) => "xmlns:"@ + p,
        None => "xmlns"@,
    };
    assert(w =~= name + seq!['='] + seq!['"'] + d.1 + seq!['"']);
    assert forall|j: int| 0 <= j < name.len() implies w[j] != '=' by {
        assert(w[j] == name[j]);
        if j >= 6 {
            let p = d.0->Some_0;
            assert(name[j] == p[j - 6]);
            assert(p.contains(p[j - 6]) ==> p[j - 6] != '=');
        }
    }
    lemma_find_char_at(w, '=', 0, name.len() as int);
    let rest = w.subrange(name.len() as int + 1, w.len() as int);
    assert(rest =~= seq!['"'] + d.1 + seq!['"']);
    assert(rest.subrange(1, rest.len() - 1) =~= d.1);
    assert(w.subrange(0, name.len() as int) =~= name);
    match d.0 {
        Some(p) => {
            assert(name.len() > 6);
            assert(name.subrange(0, 6) =~= "xmlns:"@);
            assert(name.subrange(6, name.len() as int) =~= p);
            assert(name != "xmlns"@) by {
                assert(name.len() != "xmlns"@.len());
            }
        },
        None => {},
    }
}

/// An attribute that does not begin with `xmlns` declares no namespace.
pub proof fn lemma_plain_word_declares_nothing(t: Seq<char>)
    requires
        !starts_with(t, "xmlns"@),
    ensures
        xmlns_decl(t) is None,
{
    reveal_strlit("xmlns");
    reveal_strlit("xmlns:");
    match find_char_from(t, '=', 0) {
        None => {},
        Some(k) => {
            crate::xml_namespaces::lemma_find_char_found(t, '=', 0);
            let name = t.subrange(0, k);
            if name == "xmlns"@ {
                assert(t.subrange(0, 5) =~= name);
            }
            if name.len() > 6 && starts_with(name, "xmlns:"@) {
                assert(t.subrange(0, 5) =~= name.subrange(0, 6).subrange(0, 5));
                assert("xmlns:"@.subrange(0, 5) =~= "xmlns"@);
            }
        },
    }
}

/// The declarations of joined attribute lists are those of each list, joined.
pub proof fn lemma_xmlns_decls_concat(x: Seq<Seq<char>>, y: Seq<Seq<char>>)
    ensures
        xmlns_decls(x + y) == xmlns_decls(x) + xmlns_decls(y),
    decreases y.len(),
{
    if y.len() == 0 {
        assert(x + y =~= x);
        assert(xmlns_decls(x) + xmlns_decls(y) =~= xmlns_decls(x));
    } else {
        assert((x + y).drop_last() =~= x + y.drop_last());
        assert((x + y).last() == y.last());
        lemma_xmlns_decls_concat(x, y.drop_last());
        match xmlns_decl(y.last()) {
            Some(d) => {
                assert(xmlns_decls(x + y) =~= xmlns_decls(x) + xmlns_decls(y));
            },
            None => {},
        }
    }
}

/// Plain attributes declare nothing.
pub proof fn lemma_plain_words_declare_nothing(ts: Seq<Seq<char>>)
    ensures
        xmlns_decls(plain_words(ts)) == Seq::<(Option<Seq<char>>, Seq<char>)>::empty(),
    decreases ts.len(),
{
    reveal(Seq::filter);
    let pred = |t: Seq<char>| !starts_with(t, "xmlns"@);
    if ts.len() > 0 {
        lemma_plain_words_declare_nothing(ts.drop_last());
        let sub = ts.drop_last().filter(pred);
        assert(ts.filter(pred) == if pred(ts.last()) {
            sub.push(ts.last())
        } else {
            sub
        });
        if pred(ts.last()) {
            lemma_plain_word_declares_nothing(ts.last());
            assert(sub.push(ts.last()).drop_last() =~= sub);
        }
    }
}

/// The kept declarations' attributes read back as the kept declarations.
pub proof fn lemma_kept_words_declare_kept(ds: Seq<(Option<Seq<char>>, Seq<char>)>, uris: Seq<Seq<char>>)
    requires
        forall|i: int| 0 <= i < ds.len() ==> decl_ok(#[trigger] ds[i]),
    ensures
        xmlns_decls(kept_decl_words(ds, uris)) == ds.filter(|d: (Option<Seq<char>>, Seq<char>)| uris.contains(d.1)),
    decreases ds.len(),
{
    reveal(Seq::filter);
    let pred = |d: (Option<Seq<char>>, Seq<char>)| uris.contains(d.1);
    let f = |d: (Option<Seq<char>>, Seq<char>)| decl_word(d);
    if ds.len() > 0 {
        let prev = ds.drop_last();
        assert forall|i: int| 0 <= i < prev.len() implies decl_ok(#[trigger] prev[i]) by {
            assert(prev[i] == ds[i]);
        }
        lemma_kept_words_declare_kept(prev, uris);
        let sub = prev.filter(pred);
        assert(ds.filter(pred) == if pred(ds.last()) {
            sub.push(ds.last())
        } else {
            sub
        });
        if pred(ds.last()) {
            assert(decl_ok(ds[ds.len() - 1]));
            lemma_xmlns_decl_of_word(ds.last());
            let words = sub.push(ds.last()).map_values(f);
            assert(words.drop_last() =~= sub.map_values(f));
            assert(words.last() == decl_word(ds.last()));
        }
    }
}

/// The words kept among clean words are clean.
pub proof fn lemma_kept_words_clean(ds: Seq<(Option<Seq<char>>, Seq<char>)>, uris: Seq<Seq<char>>)
    requires
        forall|i: int| 0 <= i < ds.len() ==> decl_ok(#[trigger] ds[i]),
    ensures
        forall|i: int| 0 <= i < kept_decl_words(ds, uris).len() ==> clean_word(#[trigger] kept_decl_words(ds, uris)[i]),
{
    let pred = |d: (Option<Seq<char>>, Seq<char>)| uris.contains(d.1);
    let kept = ds.filter(pred);
    assert forall|i: int| 0 <= i < kept.len() implies decl_ok(#[trigger] kept[i]) by {
        assert(kept.contains(kept[i]));
        ds.lemma_filter_contains_rev(pred, kept[i]);
        let j = choose|j: int| 0 <= j < ds.len() && ds[j] == kept[i];
        assert(decl_ok(ds[j]));
    }
}

/// The plain words among clean words are clean.
pub proof fn lemma_plain_words_clean(ts: Seq<Seq<char>>)
    requires
        forall|i: int| 0 <= i < ts.len() ==> clean_word(#[trigger] ts[i]),
    ensures
        forall|i: int| 0 <= i < plain_words(ts).len() ==> clean_word(#[trigger] plain_words(ts)[i]),
{
    let pred = |t: Seq<char>| !starts_with(t, "xmlns"@);
    assert forall|i: int| 0 <= i < plain_words(ts).len() implies clean_word(#[trigger] plain_words(ts)[i]) by {
        assert(plain_words(ts).contains(plain_words(ts)[i]));
        ts.lemma_filter_contains_rev(pred, plain_words(ts)[i]);
        let j = choose|j: int| 0 <= j < ts.len() && ts[j] == plain_words(ts)[i];
        assert(clean_word(ts[j]));
    }
}

/// The declarations that clean attributes make are read back through their attributes.
pub proof fn lemma_decls_of_clean_words(ts: Seq<Seq<char>>)
    requires
        forall|i: int| 0 <= i < ts.len() ==> clean_word(#[trigger] ts[i]),
    ensures
        forall|i: int| 0 <= i < xmlns_decls(ts).len() ==> decl_ok(#[trigger] xmlns_decls(ts)[i]),
    decreases ts.len(),
{
    if ts.len() > 0 {
        let prev = ts.drop_last();
        assert forall|i: int| 0 <= i < prev.len() implies clean_word(#[trigger] prev[i]) by {
            assert(prev[i] == ts[i]);
        }
        lemma_decls_of_clean_words(prev);
        match xmlns_decl(ts.last()) {
            Some(d) => {
                lemma_decl_word_of_attribute(ts.last());
                assert(clean_word(ts[ts.len() - 1]));
                let all = xmlns_decls(prev).push(d);
                assert forall|i: int| 0 <= i < all.len() implies decl_ok(#[trigger] all[i]) by {
                    if i < all.len() - 1 {
                        assert(all[i] == xmlns_decls(prev)[i]);
                    }
                }
            },
            None => {},
        }
    }
}

/// What is pending in a scan that has not ended reads, scanned alone, as pending with
/// the same quotes open.
pub open spec fn pending_ok(st: ScanState) -> bool {
    !st.done ==> scan_from(fresh(Seq::empty()), st.current) == (ScanState {
        attrs: Seq::empty(),
        current: st.current,
        in_quotes: st.in_quotes,
        done: false,
    })
}

/// Where no `"` is open at any `>` of `s`, every attribute the scan of `s` finds is
/// clean.
pub proof fn lemma_scan_words_clean(s: Seq<char>)
    requires
        forall|i: int| 0 <= i < s.len() && s[i] == '>' ==> !scan(#[trigger] s.take(i)).in_quotes,
    ensures
        forall|k: int| 0 <= k < scan(s).attrs.len() ==> clean_word(#[trigger] scan(s).attrs[k]),
        pending_ok(scan(s)),
    decreases s.len(),
{
    if s.len() > 0 {
        let p = s.drop_last();
        assert forall|i: int| 0 <= i < p.len() && p[i] == '>' implies !scan(#[trigger] p.take(i)).in_quotes by {
            assert(p.take(i) =~= s.take(i));
            assert(s[i] == p[i]);
        }
        lemma_scan_words_clean(p);
        let st = scan(p);
        let c = s.last();
        let cur = st.current;
        if !st.done {
            let st0 = scan_from(fresh(Seq::empty()), cur);
            if cur.len() > 0 {
                assert(cur.push(c).drop_last() =~= cur);
            }
            assert(scan_from(fresh(Seq::empty()), cur.push(c)) == scan_step(st0, c)) by {
                assert(cur.push(c).drop_last() =~= cur);
                assert(cur.push(c).last() == c);
            }
            if c == '>' {
                assert(s.take(s.len() - 1) =~= p);
                assert(!st.in_quotes);
            }
        }
    }
}

/// The scan of `<model`: one pending attribute, no quotes.
pub proof fn lemma_scan_model_name()
    ensures
        scan("<model"@) == (ScanState { attrs: Seq::empty(), current: "<model"@, in_quotes: false, done: false }),
        clean_word("<model"@),
{
    reveal_strlit("<model");
    let m = "<model"@;
    let e = Seq::<Seq<char>>::empty();
    assert(scan(Seq::<char>::empty()) == fresh(e));
    assert(m.take(1).drop_last() =~= Seq::<char>::empty());
    assert(scan(m.take(1)) == (ScanState { attrs: e, current: m.take(1), in_quotes: false, done: false })) by {
        assert(seq!['<'] =~= Seq::<char>::empty().push('<'));
        assert(m.take(1) =~= seq!['<']);
    }
    assert(m.take(2).drop_last() =~= m.take(1));
    assert(scan(m.take(2)) == (ScanState { attrs: e, current: m.take(2), in_quotes: false, done: false })) by {
        assert(m.take(2) =~= m.take(1).push('m'));
    }
    assert(m.take(3).drop_last() =~= m.take(2));
    assert(scan(m.take(3)) == (ScanState { attrs: e, current: m.take(3), in_quotes: false, done: false })) by {
        assert(m.take(3) =~= m.take(2).push('o'));
    }
    assert(m.take(4).drop_last() =~= m.take(3));
    assert(scan(m.take(4)) == (ScanState { attrs: e, current: m.take(4), in_quotes: false, done: false })) by {
        assert(m.take(4) =~= m.take(3).push('d'));
    }
    assert(m.take(5).drop_last() =~= m.take(4));
    assert(scan(m.take(5)) == (ScanState { attrs: e, current: m.take(5), in_quotes: false, done: false })) by {
        assert(m.take(5) =~= m.take(4).push('e'));
    }
    assert(m.drop_last() =~= m.take(5));
    assert(scan(m) == (ScanState { attrs: e, current: m, in_quotes: false, done: false })) by {
        assert(m =~= m.take(5).push('l'));
    }
    lemma_scan_is_scan_from(m);
}

/// Once the scan has ended, more text changes nothing.
pub proof fn lemma_scan_from_done(st: ScanState, t: Seq<char>)
    requires
        st.done,
    ensures
        scan_from(st, t) == st,
    decreases t.len(),
{
    if t.len() > 0 {
        lemma_scan_from_done(st, t.drop_last());
    }
}

/// A clean word holds no `>`.
pub proof fn lemma_clean_word_no_gt(w: Seq<char>)
    requires
        clean_word(w),
    ensures
        !w.contains('>'),
{
    if w.contains('>') {
        let j = choose|j: int| 0 <= j < w.len() && w[j] == '>';
        let u = w.take(j + 1);
        let rest = w.skip(j + 1);
        assert(w =~= u + rest);
        lemma_scan_from_concat(fresh(Seq::empty()), u, rest);
        assert(u.drop_last() =~= w.take(j));
        assert(u.last() == '>');
        let su = scan_from(fresh(Seq::empty()), u);
        assert(su.done);
        lemma_scan_from_done(su, rest);
    }
}

/// Words without `>`, spaced, hold no `>`.
pub proof fn lemma_spaced_no_gt(ws: Seq<Seq<char>>)
    requires
        forall|i: int| 0 <= i < ws.len() ==> !(#[trigger] ws[i]).contains('>'),
    ensures
        !spaced(ws).contains('>'),
    decreases ws.len(),
{
    reveal_strlit(" ");
    if ws.len() > 0 {
        let prev = ws.drop_last();
        assert forall|i: int| 0 <= i < prev.len() implies !(#[trigger] prev[i]).contains('>') by {
            assert(prev[i] == ws[i]);
        }
        lemma_spaced_no_gt(prev);
        let s = spaced(ws);
        let a = spaced(prev);
        let w = ws.last();
        assert(!ws[ws.len() - 1].contains('>'));
        assert(s =~= a + " "@ + w);
        if s.contains('>') {
            let j = choose|j: int| 0 <= j < s.len() && s[j] == '>';
            if j < a.len() {
                assert(a[j] == s[j]);
            } else if j == a.len() {
                assert(s[j] == ' ');
            } else {
                assert(w[j - a.len() - 1] == s[j]);
            }
        }
    }
}

} // verus!
