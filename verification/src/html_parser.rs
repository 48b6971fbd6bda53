//! URL normalization and base-URL derivation, and the HTML transducer's
//! executable entry points.

use vstd::prelude::*;
use crate::html_model::{
    anchor_output, base_of_spec, close_a, close_script, close_style, count_char,
    display_text, extract_href_spec, host_root, http_prefix, https_prefix, is_allowed_tag,
    is_anchor_open, is_script_open, is_style_open, is_tag_name_char, lemma_count_nonneg,
    lemma_count_snoc, lemma_count_split_at, lemma_prefix3_at, lemma_prefix3_none, name_chars,
    normalize_spec, prefix_upto3_rec, resolve_spec, rfind_char, scan_anchor, skip_tagged,
    tag_name, token_end, transduce,
};
use crate::escape::{html_escape_minimal, percent_encode};
use crate::text::{
    char_lower, chars_to_string, find_char, find_char_from, lemma_add_assoc, lower_char,
    lower_seq, lower_vec, push_all, push_str_chars, seq_contains, str_to_chars, subvec,
    trim_chars,
};
use vstd::utf8::encode_utf8;

verus! {

/// Prepends `"https://"` to an address whose first eight characters
/// show no explicit scheme; empty input yields empty output.
pub fn normalize_url(name: &str) -> (r: String)
    ensures
        r@ == normalize_spec(name@),
{
    if name.is_empty() {
        return String::new();
    }
    let v = str_to_chars(name);
    let k: usize = if v.len() >= 8 {
        8
    } else {
        v.len()
    };
    let first = subvec(&v, 0, k);
    assert(first@ =~= name@.take(k as int));
    let http = str_to_chars("http://");
    let https = str_to_chars("https://");
    proof {
        reveal_strlit("http://");
        reveal_strlit("https://");
        assert(http@ =~= http_prefix());
        assert(https@ =~= https_prefix());
    }
    if seq_contains(&first, &http) || seq_contains(&first, &https) {
        String::from_str(name)
    } else {
        let mut r = String::from_str("https://");
        r.append(name);
        proof {
            reveal_strlit("https://");
            assert(("https://")@ =~= https_prefix());
        }
        r
    }
}

/// Index of the third `'/'` of `v`, if `v` holds three slashes.
fn find_third_slash(v: &Vec<char>) -> (r: Option<usize>)
    ensures
        match r {
            Some(i) => i < v.len() && v@[i as int] == '/' && count_char(v@.take(i as int), '/')
                == 2,
            None => count_char(v@, '/') <= 2,
        },
{
    let mut i: usize = 0;
    let mut seen: usize = 0;
    assert(v@.take(0) =~= Seq::<char>::empty());
    while i < v.len()
        invariant
            i <= v.len(),
            seen == count_char(v@.take(i as int), '/'),
            seen <= 2,
        decreases v.len() - i,
    {
        proof {
            assert(v@.take(i + 1) =~= v@.take(i as int).push(v@[i as int]));
            lemma_count_snoc(v@.take(i as int), v@[i as int], '/');
        }
        if v[i] == '/' {
            if seen == 2 {
                return Some(i);
            }
            seen = seen + 1;
        }
        i = i + 1;
    }
    assert(v@.take(v.len() as int) =~= v@);
    None
}

/// Index of the last `'/'` of `v` at or after `from`, if any.
fn rfind_slash(v: &Vec<char>, from: usize) -> (r: Option<usize>)
    requires
        from <= v.len(),
    ensures
        match r {
            Some(j) => from <= j < v.len() && rfind_char(v@.skip(from as int), '/') == j - from,
            None => rfind_char(v@.skip(from as int), '/') == -1,
        },
{
    let ghost rem = v@.skip(from as int);
    let mut m: usize = v.len();
    assert(rem.take(v.len() - from) =~= rem);
    while m > from
        invariant
            from <= m <= v.len(),
            rem == v@.skip(from as int),
            rfind_char(rem, '/') == rfind_char(rem.take(m - from), '/'),
        decreases m,
    {
        if v[m - 1] == '/' {
            assert(rem.take(m - from).last() == v@[m - 1]);
            return Some(m - 1);
        }
        assert(rem.take(m - from).len() > 0);
        assert(rem.take(m - from).last() == v@[m - 1]);
        assert(rem.take(m - from).drop_last() =~= rem.take(m - 1 - from));
        m = m - 1;
    }
    assert(rem.take(0) =~= Seq::<char>::empty());
    None
}

/// The base URL of a page: its address through the third `'/'`,
/// extended through the last `'/'` of what follows.
pub fn get_base_url(url: &str) -> (r: String)
    ensures
        r@ == base_of_spec(url@),
{
    let v = str_to_chars(url);
    match find_third_slash(&v) {
        None => {
            proof {
                lemma_prefix3_none(v@, 0);
            }
            String::from_str(url)
        },
        Some(i) => {
            proof {
                lemma_prefix3_at(v@, i as int, 0);
                lemma_count_split_at(v@, i as int);
            }
            assert(count_char(v@, '/') >= 3) by {
                assert(v@.skip(i as int)[0] == '/');
                lemma_count_nonneg(v@.skip(i as int).drop_first(), '/');
            }
            let p_len: usize = i + 1;
            assert(prefix_upto3_rec(v@, 0).len() == p_len);
            if p_len == v.len() {
                assert(v@.take(p_len as int) =~= v@);
                String::from_str(url)
            } else {
                match rfind_slash(&v, p_len) {
                    Some(j) => {
                        let r = subvec(&v, 0, j + 1);
                        assert(r@ =~= v@.take(i + 1) + v@.skip(p_len as int).take(
                            j + 1 - p_len,
                        ));
                        chars_to_string(&r)
                    },
                    None => {
                        let r = subvec(&v, 0, p_len);
                        assert(r@ =~= v@.take(p_len as int));
                        chars_to_string(&r)
                    },
                }
            }
        },
    }
}

/// Scheme and host of `cur`: everything before its third `'/'`.
fn host_root_of(cur: &Vec<char>) -> (r: Vec<char>)
    ensures
        r@ == host_root(cur@),
{
    match find_third_slash(cur) {
        None => {
            proof {
                lemma_prefix3_none(cur@, 0);
            }
            let r = subvec(cur, 0, cur.len());
            assert(r@ =~= cur@);
            r
        },
        Some(i) => {
            proof {
                lemma_prefix3_at(cur@, i as int, 0);
            }
            subvec(cur, 0, i)
        },
    }
}

/// Resolves an anchor target against the page's base URL and final URL.
pub fn resolve_relative_url(href: &Vec<char>, base: &Vec<char>, cur: &Vec<char>) -> (r: Vec<
    char,
>)
    ensures
        r@ == resolve_spec(href@, base@, cur@),
{
    let http = str_to_chars("http");
    proof {
        reveal_strlit("http");
        assert(http@ =~= seq!['h', 't', 't', 'p']);
    }
    if seq_contains(href, &http) {
        let r = subvec(href, 0, href.len());
        assert(r@ =~= href@);
        r
    } else if href.len() > 0 && href[0] == '/' {
        let mut r = host_root_of(cur);
        push_all(&mut r, href);
        r
    } else if base.len() > 0 && base[base.len() - 1] == '/' {
        let mut r = subvec(base, 0, base.len());
        assert(r@ =~= base@);
        push_all(&mut r, href);
        r
    } else {
        let mut r = subvec(base, 0, base.len());
        assert(r@ =~= base@);
        r.push('/');
        push_all(&mut r, href);
        assert(r@ =~= base@ + seq!['/'] + href@);
        r
    }
}

// ===== The HTML transducer =====
/// Whether two character vectors hold the same characters.
fn chars_eq(a: &Vec<char>, b: &Vec<char>) -> (r: bool)
    ensures
        r == (a@ == b@),
{
    if a.len() != b.len() {
        return false;
    }
    let mut j: usize = 0;
    while j < a.len()
        invariant
            a.len() == b.len(),
            j <= a.len(),
            forall|m: int| 0 <= m < j ==> a@[m] == b@[m],
        decreases a.len() - j,
    {
        if a[j] != b[j] {
            return false;
        }
        j = j + 1;
    }
    assert(a@ =~= b@);
    true
}

/// Whether the lowercased `t` starts with `p`.
fn is_prefix_lower(t: &Vec<char>, p: &Vec<char>) -> (r: bool)
    ensures
        r == (t.len() >= p.len() && lower_seq(t@).take(p@.len() as int) == p@),
{
    if t.len() < p.len() {
        return false;
    }
    let mut j: usize = 0;
    while j < p.len()
        invariant
            t.len() >= p.len(),
            j <= p.len(),
            forall|m: int| 0 <= m < j ==> lower_seq(t@)[m] == p@[m],
        decreases p.len() - j,
    {
        if char_lower(t[j]) != p[j] {
            proof {
                assert(lower_seq(t@)[j as int] == lower_char(t@[j as int]));
                if lower_seq(t@).take(p@.len() as int) == p@ {
                    assert(lower_seq(t@).take(p@.len() as int)[j as int] == p@[j as int]);
                }
            }
            return false;
        }
        j = j + 1;
    }
    assert(lower_seq(t@).take(p@.len() as int) =~= p@);
    true
}

/// Classifies an anchor-opening token, matching `is_anchor_open`.
fn is_anchor_open_tag(t: &Vec<char>) -> (r: bool)
    ensures
        r == is_anchor_open(t@),
{
    let pa = str_to_chars("<a ");
    proof {
        reveal_strlit("<a ");
        assert(pa@ =~= seq!['<', 'a', ' ']);
    }
    if is_prefix_lower(t, &pa) {
        return true;
    }
    let ea = str_to_chars("<a>");
    proof {
        reveal_strlit("<a>");
        assert(ea@ =~= seq!['<', 'a', '>']);
    }
    let lt = lower_vec(t);
    chars_eq(&lt, &ea)
}

/// Classifies a script-opening token, matching `is_script_open`.
fn is_script_open_tag(t: &Vec<char>) -> (r: bool)
    ensures
        r == is_script_open(t@),
{
    let p = str_to_chars("<script");
    proof {
        reveal_strlit("<script");
        assert(p@ =~= seq!['<', 's', 'c', 'r', 'i', 'p', 't']);
    }
    is_prefix_lower(t, &p)
}

/// Classifies a style-opening token, matching `is_style_open`.
fn is_style_open_tag(t: &Vec<char>) -> (r: bool)
    ensures
        r == is_style_open(t@),
{
    let p = str_to_chars("<style");
    proof {
        reveal_strlit("<style");
        assert(p@ =~= seq!['<', 's', 't', 'y', 'l', 'e']);
    }
    is_prefix_lower(t, &p)
}

/// Tests for a tag-name character, matching `is_tag_name_char`.
fn is_name_char(c: char) -> (r: bool)
    ensures
        r == is_tag_name_char(c),
{
    let n: u32 = c as u32;
    (97 <= n && n <= 122) || (65 <= n && n <= 90) || (48 <= n && n <= 57)
}

/// The lowercased name of a tag token, matching `tag_name`.
fn tag_name_of(t: &Vec<char>) -> (r: Vec<char>)
    requires
        t.len() >= 1,
    ensures
        r@ == tag_name(t@),
{
    let start: usize = if t.len() >= 2 && t[1] == '/' {
        2
    } else {
        1
    };
    proof {
        let body = t@.skip(1);
        if body.len() > 0 && body[0] == '/' {
            assert(body.skip(1) =~= t@.skip(start as int));
        } else {
            assert(body =~= t@.skip(start as int));
        }
    }
    let mut r: Vec<char> = Vec::new();
    let mut j: usize = start;
    while j < t.len() && is_name_char(t[j])
        invariant
            start <= j <= t.len(),
            lower_seq(name_chars(t@.skip(start as int))) == r@ + lower_seq(
                name_chars(t@.skip(j as int)),
            ),
        decreases t.len() - j,
    {
        proof {
            assert(t@.skip(j as int)[0] == t@[j as int]);
            assert(t@.skip(j as int).drop_first() =~= t@.skip(j + 1));
            assert(lower_seq(seq![t@[j as int]] + name_chars(t@.skip(j + 1))) =~= seq![
                lower_char(t@[j as int]),
            ] + lower_seq(name_chars(t@.skip(j + 1))));
            lemma_add_assoc(
                r@,
                seq![lower_char(t@[j as int])],
                lower_seq(name_chars(t@.skip(j + 1))),
            );
            assert(r@ + seq![lower_char(t@[j as int])] =~= r@.push(lower_char(t@[j as int])));
        }
        r.push(char_lower(t[j]));
        j = j + 1;
    }
    proof {
        if j < t.len() {
            assert(t@.skip(j as int)[0] == t@[j as int]);
        }
        assert(name_chars(t@.skip(j as int)) =~= Seq::<char>::empty());
        assert(lower_seq(Seq::<char>::empty()) =~= Seq::<char>::empty());
        assert(r@ + Seq::<char>::empty() =~= r@);
    }
    r
}

/// Whether `a` holds the characters of `s`.
fn chars_eq_str(a: &Vec<char>, s: &str) -> (r: bool)
    ensures
        r == (a@ == s@),
{
    let v = str_to_chars(s);
    chars_eq(a, &v)
}

/// Whether the token's name is in the allow-list, matching
/// `is_allowed_tag`.
fn is_allowed_tag_token(t: &Vec<char>) -> (r: bool)
    requires
        t.len() >= 1,
    ensures
        r == is_allowed_tag(t@),
{
    let n = tag_name_of(t);
    proof {
        reveal_strlit("title");
        reveal_strlit("br");
        reveal_strlit("h1");
        reveal_strlit("h2");
        reveal_strlit("h3");
        reveal_strlit("h4");
        reveal_strlit("h5");
        reveal_strlit("h6");
        reveal_strlit("b");
        reveal_strlit("i");
        reveal_strlit("li");
        reveal_strlit("ul");
        reveal_strlit("ol");
        reveal_strlit("code");
        reveal_strlit("pre");
        assert(("title")@ =~= seq!['t', 'i', 't', 'l', 'e']);
        assert(("br")@ =~= seq!['b', 'r']);
        assert(("h1")@ =~= seq!['h', '1']);
        assert(("h2")@ =~= seq!['h', '2']);
        assert(("h3")@ =~= seq!['h', '3']);
        assert(("h4")@ =~= seq!['h', '4']);
        assert(("h5")@ =~= seq!['h', '5']);
        assert(("h6")@ =~= seq!['h', '6']);
        assert(("b")@ =~= seq!['b']);
        assert(("i")@ =~= seq!['i']);
        assert(("li")@ =~= seq!['l', 'i']);
        assert(("ul")@ =~= seq!['u', 'l']);
        assert(("ol")@ =~= seq!['o', 'l']);
        assert(("code")@ =~= seq!['c', 'o', 'd', 'e']);
        assert(("pre")@ =~= seq!['p', 'r', 'e']);
    }
    chars_eq_str(&n, "title") || chars_eq_str(&n, "br") || chars_eq_str(&n, "h1")
        || chars_eq_str(&n, "h2") || chars_eq_str(&n, "h3") || chars_eq_str(&n, "h4")
        || chars_eq_str(&n, "h5") || chars_eq_str(&n, "h6") || chars_eq_str(&n, "b")
        || chars_eq_str(&n, "i") || chars_eq_str(&n, "li") || chars_eq_str(&n, "ul")
        || chars_eq_str(&n, "ol") || chars_eq_str(&n, "code") || chars_eq_str(&n, "pre")
}

/// End of the tag token that starts at `i`, matching `token_end`.
fn token_end_from(v: &Vec<char>, i: usize) -> (e: usize)
    requires
        i < v.len(),
    ensures
        i < e <= v.len(),
        e - i == token_end(v@.skip(i as int)),
{
    let g = find_char_from(v, i, '>');
    if g < v.len() {
        g + 1
    } else {
        v.len()
    }
}

/// The first quoted string inside a tag token, matching
/// `extract_href_spec`.
pub fn extract_href(tag: &Vec<char>) -> (r: Vec<char>)
    requires
        tag.len() >= 1,
    ensures
        r@ == extract_href_spec(tag@),
{
    let q = find_char_from(tag, 1, '"');
    assert(find_char(tag@.skip(1), '"') == q - 1);
    if q == tag.len() {
        let r: Vec<char> = Vec::new();
        return r;
    }
    let q2 = find_char_from(tag, q + 1, '"');
    let r = subvec(tag, q + 1, q2);
    proof {
        let rest = tag@.skip(1);
        let after = rest.skip(q - 1 + 1);
        assert(after =~= tag@.skip(q + 1));
        assert(find_char(after, '"') == q2 - (q + 1));
        assert(after.take(q2 - (q + 1)) =~= tag@.subrange(q + 1, q2 as int));
    }
    r
}

/// Discards input through the first token containing `close`, matching
/// `skip_tagged`; returns the index where the remainder starts.
fn skip_tagged_from(v: &Vec<char>, from: usize, close: &Vec<char>) -> (r: usize)
    requires
        from <= v.len(),
    ensures
        from <= r <= v.len(),
        v@.skip(r as int) == skip_tagged(v@.skip(from as int), close@),
{
    let mut i: usize = from;
    while i < v.len()
        invariant
            from <= i <= v.len(),
            skip_tagged(v@.skip(from as int), close@) == skip_tagged(
                v@.skip(i as int),
                close@,
            ),
        decreases v.len() - i,
    {
        if v[i] != '<' {
            proof {
                assert(v@.skip(i as int)[0] == v@[i as int]);
                assert(v@.skip(i as int).drop_first() =~= v@.skip(i + 1));
            }
            i = i + 1;
        } else {
            let e = token_end_from(v, i);
            let tok = subvec(v, i, e);
            assert(tok@ =~= v@.skip(i as int).take(e - i));
            let lt = lower_vec(&tok);
            if seq_contains(&lt, close) {
                assert(v@.skip(e as int) =~= v@.skip(i as int).skip(e - i));
                return e;
            }
            assert(v@.skip(e as int) =~= v@.skip(i as int).skip(e - i));
            i = e;
        }
    }
    assert(v@.skip(i as int) =~= Seq::<char>::empty());
    i
}

/// Walks an anchor's interior, matching `scan_anchor`: collects the
/// text outside tags and stops past the first token containing
/// `"</a>"`; returns the collected label and the index where the
/// remainder starts.
fn scan_anchor_from(v: &Vec<char>, from: usize) -> (r: (Vec<char>, usize))
    requires
        from <= v.len(),
    ensures
        ({
            let sc = scan_anchor(v@.skip(from as int));
            &&& r.0@ == sc.0
            &&& from <= r.1 <= v.len()
            &&& v@.skip(r.1 as int) == sc.1
        }),
{
    let ca = str_to_chars("</a>");
    proof {
        reveal_strlit("</a>");
        assert(ca@ =~= close_a());
    }
    let mut label: Vec<char> = Vec::new();
    let mut i: usize = from;
    while i < v.len()
        invariant
            from <= i <= v.len(),
            ca@ == close_a(),
            scan_anchor(v@.skip(from as int)).0 == label@ + scan_anchor(
                v@.skip(i as int),
            ).0,
            scan_anchor(v@.skip(from as int)).1 == scan_anchor(v@.skip(i as int)).1,
        decreases v.len() - i,
    {
        if v[i] != '<' {
            proof {
                assert(v@.skip(i as int)[0] == v@[i as int]);
                assert(v@.skip(i as int).drop_first() =~= v@.skip(i + 1));
                lemma_add_assoc(
                    label@,
                    seq![v@[i as int]],
                    scan_anchor(v@.skip(i + 1)).0,
                );
                assert(label@ + seq![v@[i as int]] =~= label@.push(v@[i as int]));
            }
            label.push(v[i]);
            i = i + 1;
        } else {
            let e = token_end_from(v, i);
            let tok = subvec(v, i, e);
            assert(tok@ =~= v@.skip(i as int).take(e - i));
            let lt = lower_vec(&tok);
            if seq_contains(&lt, &ca) {
                assert(v@.skip(e as int) =~= v@.skip(i as int).skip(e - i));
                assert(label@ + Seq::<char>::empty() =~= label@);
                return (label, e);
            }
            assert(v@.skip(e as int) =~= v@.skip(i as int).skip(e - i));
            i = e;
        }
    }
    assert(v@.skip(i as int) =~= Seq::<char>::empty());
    assert(label@ + Seq::<char>::empty() =~= label@);
    (label, v.len())
}

/// Rewrites one anchor: resolves its quoted target, consumes the
/// interior through the matching close tag, and emits the proxy-routed
/// replacement; an anchor without a quoted target is consumed silently.
pub fn process_link_tag(
    tag: &Vec<char>,
    contents: &Vec<char>,
    i: &mut usize,
    base_url: &Vec<char>,
    current_url: &Vec<char>,
) -> (out: Vec<char>)
    requires
        *old(i) <= contents.len(),
        tag.len() >= 1,
    ensures
        ({
            let sc = scan_anchor(contents@.skip(*old(i) as int));
            &&& *old(i) <= *final(i) <= contents.len()
            &&& contents@.skip(*final(i) as int) == sc.1
            &&& out@ == (if extract_href_spec(tag@).len() == 0 {
                Seq::<char>::empty()
            } else {
                anchor_output(extract_href_spec(tag@), sc.0, base_url@, current_url@)
            })
        }),
{
    let href = extract_href(tag);
    let scanned = scan_anchor_from(contents, *i);
    let label = scanned.0;
    *i = scanned.1;
    if href.len() == 0 {
        let r: Vec<char> = Vec::new();
        return r;
    }
    let resolved = resolve_relative_url(&href, base_url, current_url);
    let trimmed = trim_chars(&label);
    let display0 = if trimmed.len() == 0 {
        let d = subvec(&resolved, 0, resolved.len());
        assert(d@ =~= resolved@);
        d
    } else {
        trimmed
    };
    let display = if display0.len() > 50 {
        let mut d = subvec(&display0, 0, 47);
        d.push('.');
        d.push('.');
        d.push('.');
        assert(d@ =~= display0@.take(47) + seq!['.', '.', '.']);
        d
    } else {
        display0
    };
    assert(display@ == display_text(resolved@, label@));
    let resolved_s = chars_to_string(&resolved);
    let display_s = chars_to_string(&display);
    let enc = percent_encode(resolved_s.as_str());
    let esc_resolved = html_escape_minimal(resolved_s.as_str());
    let esc_display = html_escape_minimal(display_s.as_str());
    let mut out: Vec<char> = Vec::new();
    push_str_chars(&mut out, "<a href=\"/proxy?url=");
    push_str_chars(&mut out, enc.as_str());
    push_str_chars(&mut out, "\" title=\"");
    push_str_chars(&mut out, esc_resolved.as_str());
    push_str_chars(&mut out, "\">");
    push_str_chars(&mut out, esc_display.as_str());
    push_str_chars(&mut out, "</a>");
    assert(out@ =~= anchor_output(href@, label@, base_url@, current_url@));
    out
}

/// The fixed opening of every simplified document.
pub open spec fn doc_header() -> Seq<char> {
    (
    "<!DOCTYPE html><html><head><meta charset=\"UTF-8\"><style>body{font-family:'Segoe UI',Tahoma,Geneva,Verdana,sans-serif;line-height:1.6;margin:20px;color:#333;background-color:#fafafa;max-width:100%;overflow-x:auto;} a{color:#666;text-decoration:underline;margin-right:8px;word-break:break-word;max-width:100%;display:inline-block;} a:hover{color:#333;}</style></head><body>")@
}

/// The fixed closing of every simplified document.
pub open spec fn doc_footer() -> Seq<char> {
    ("</body></html>")@
}

/// One forward pass over the page: emits the fixed header, transduces
/// the body — keeping text, rewriting anchors, dropping script and
/// style content, filtering tags through the allow-list — and emits the
/// fixed footer.
pub fn parse_html_to_text(html: &str, base_url: &str, current_url: &str) -> (r: String)
    ensures
        r@ == doc_header() + transduce(html@, base_url@, current_url@) + doc_footer(),
{
    let v = str_to_chars(html);
    let bv = str_to_chars(base_url);
    let cv = str_to_chars(current_url);
    let cs = str_to_chars("</script>");
    let cy = str_to_chars("</style>");
    proof {
        reveal_strlit("</script>");
        reveal_strlit("</style>");
        assert(cs@ =~= close_script());
        assert(cy@ =~= close_style());
    }
    let mut out: Vec<char> = Vec::new();
    push_str_chars(
        &mut out,
        "<!DOCTYPE html><html><head><meta charset=\"UTF-8\"><style>body{font-family:'Segoe UI',Tahoma,Geneva,Verdana,sans-serif;line-height:1.6;margin:20px;color:#333;background-color:#fafafa;max-width:100%;overflow-x:auto;} a{color:#666;text-decoration:underline;margin-right:8px;word-break:break-word;max-width:100%;display:inline-block;} a:hover{color:#333;}</style></head><body>",
    );
    assert(out@ == doc_header());
    let mut i: usize = 0;
    assert(v@.skip(0) =~= v@);
    while i < v.len()
        invariant
            i <= v.len(),
            v@ == html@,
            bv@ == base_url@,
            cv@ == current_url@,
            cs@ == close_script(),
            cy@ == close_style(),
            out@ + transduce(v@.skip(i as int), bv@, cv@) == doc_header() + transduce(
                v@,
                bv@,
                cv@,
            ),
        decreases v.len() - i,
    {
        let ghost pre = out@;
        let ghost s_i = v@.skip(i as int);
        if v[i] != '<' {
            proof {
                assert(s_i[0] == v@[i as int]);
                assert(s_i.drop_first() =~= v@.skip(i + 1));
                lemma_add_assoc(
                    pre,
                    seq![v@[i as int]],
                    transduce(v@.skip(i + 1), bv@, cv@),
                );
                assert(pre + seq![v@[i as int]] =~= pre.push(v@[i as int]));
            }
            out.push(v[i]);
            i = i + 1;
        } else {
            let e = token_end_from(&v, i);
            let tok = subvec(&v, i, e);
            proof {
                assert(tok@ =~= s_i.take(e - i));
                assert(v@.skip(e as int) =~= s_i.skip(e - i));
            }
            if is_anchor_open_tag(&tok) {
                let mut cursor: usize = e;
                let frag = process_link_tag(&tok, &v, &mut cursor, &bv, &cv);
                proof {
                    lemma_add_assoc(
                        pre,
                        frag@,
                        transduce(v@.skip(cursor as int), bv@, cv@),
                    );
                    if extract_href_spec(tok@).len() == 0 {
                        assert(pre + Seq::<char>::empty() =~= pre);
                    }
                }
                push_all(&mut out, &frag);
                i = cursor;
            } else if is_script_open_tag(&tok) {
                let j = skip_tagged_from(&v, e, &cs);
                i = j;
            } else if is_style_open_tag(&tok) {
                let j = skip_tagged_from(&v, e, &cy);
                i = j;
            } else if is_allowed_tag_token(&tok) {
                proof {
                    lemma_add_assoc(pre, tok@, transduce(v@.skip(e as int), bv@, cv@));
                }
                push_all(&mut out, &tok);
                i = e;
            } else {
                i = e;
            }
        }
    }
    proof {
        assert(v@.skip(v@.len() as int) =~= Seq::<char>::empty());
        assert(out@ + Seq::<char>::empty() =~= out@);
    }
    push_str_chars(&mut out, "</body></html>");
    chars_to_string(&out)
}

/// Turns a fetched page into the simplified document and reports the
/// byte sizes before and after.  `final_url` must be the URL actually
/// reached after redirects: the base URL for every relative link is
/// derived from it, never from the originally requested address.
pub fn process_fetched_page(html: &str, final_url: &str) -> (r: (String, u64, u64))
    ensures
        r.0@ == doc_header() + transduce(html@, base_of_spec(final_url@), final_url@)
            + doc_footer(),
        r.1 == (encode_utf8(html@).len() as usize) as u64,
        r.2 == (encode_utf8(r.0@).len() as usize) as u64,
{
    let base = get_base_url(final_url);
    let original_size: u64 = html.len() as u64;
    let processed = parse_html_to_text(html, base.as_str(), final_url);
    let processed_size: u64 = processed.as_str().len() as u64;
    (processed, original_size, processed_size)
}

} // verus!
