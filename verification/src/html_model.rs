//! The mathematical model of the pipeline: URL normalization, base-URL
//! derivation, relative-link resolution, and the single-pass HTML
//! transducer, all as character-sequence functions.

use vstd::prelude::*;
use vstd::utf8::encode_utf8;
use crate::escape::{escape_min, percent_encode_bytes};
use crate::text::{contains_seq, find_char, lemma_find_char_bounds, lower_seq, trim};

verus! {

/// The characters of `"http://"`.
pub open spec fn http_prefix() -> Seq<char> {
    seq!['h', 't', 't', 'p', ':', '/', '/']
}

/// The characters of `"https://"`.
pub open spec fn https_prefix() -> Seq<char> {
    seq!['h', 't', 't', 'p', 's', ':', '/', '/']
}

/// An explicit scheme is visible in the first eight characters.
pub open spec fn has_scheme_hint(s: Seq<char>) -> bool {
    let k = if s.len() >= 8 {
        8int
    } else {
        s.len() as int
    };
    contains_seq(s.take(k), http_prefix()) || contains_seq(s.take(k), https_prefix())
}

/// URL normalization: empty input stays empty; input without a scheme
/// hint in its first eight characters gets `"https://"` prepended; any
/// other input is returned unchanged.
pub open spec fn normalize_spec(s: Seq<char>) -> Seq<char> {
    if s.len() == 0 {
        Seq::empty()
    } else if has_scheme_hint(s) {
        s
    } else {
        https_prefix() + s
    }
}

/// Number of occurrences of `c` in `s`.
pub open spec fn count_char(s: Seq<char>, c: char) -> int
    decreases s.len(),
{
    if s.len() == 0 {
        0
    } else {
        (if s[0] == c {
            1int
        } else {
            0int
        }) + count_char(s.drop_first(), c)
    }
}

/// The prefix of `s` through its third `'/'`, or all of `s` when fewer
/// than `3 - seen` slashes remain.
pub open spec fn prefix_upto3_rec(s: Seq<char>, seen: int) -> Seq<char>
    decreases s.len(),
{
    if s.len() == 0 {
        Seq::empty()
    } else if s[0] == '/' && seen == 2 {
        seq!['/']
    } else if s[0] == '/' {
        seq!['/'] + prefix_upto3_rec(s.drop_first(), seen + 1)
    } else {
        seq![s[0]] + prefix_upto3_rec(s.drop_first(), seen)
    }
}

/// The prefix of `s` up to but excluding its third `'/'`, or all of `s`
/// when it has fewer than three slashes.
pub open spec fn host_root_rec(s: Seq<char>, seen: int) -> Seq<char>
    decreases s.len(),
{
    if s.len() == 0 {
        Seq::empty()
    } else if s[0] == '/' && seen == 2 {
        Seq::empty()
    } else if s[0] == '/' {
        seq!['/'] + host_root_rec(s.drop_first(), seen + 1)
    } else {
        seq![s[0]] + host_root_rec(s.drop_first(), seen)
    }
}

/// Scheme and host of a URL: everything before the third `'/'`.
pub open spec fn host_root(cur: Seq<char>) -> Seq<char> {
    host_root_rec(cur, 0)
}

/// Index of the last occurrence of `c` in `s`, or `-1` if absent.
pub open spec fn rfind_char(s: Seq<char>, c: char) -> int
    decreases s.len(),
{
    if s.len() == 0 {
        -1
    } else if s.last() == c {
        s.len() - 1
    } else {
        rfind_char(s.drop_last(), c)
    }
}

/// The base URL of a page: the prefix through the third `'/'` extended
/// through the last `'/'` of the remainder, when either exists.
pub open spec fn base_of_spec(url: Seq<char>) -> Seq<char> {
    let p = prefix_upto3_rec(url, 0);
    if count_char(url, '/') >= 3 && url.len() > p.len() {
        let rem = url.skip(p.len() as int);
        let j = rfind_char(rem, '/');
        if j >= 0 {
            p + rem.take(j + 1)
        } else {
            p
        }
    } else {
        p
    }
}

/// Resolution of an anchor's `href` against the page: a target that
/// mentions `"http"` anywhere is taken as absolute; a target starting
/// with `'/'` is joined to the page's scheme and host; anything else is
/// joined to the base URL with exactly one `'/'` between.
pub open spec fn resolve_spec(href: Seq<char>, base: Seq<char>, cur: Seq<char>) -> Seq<
    char,
> {
    if contains_seq(href, seq!['h', 't', 't', 'p']) {
        href
    } else if href.len() > 0 && href[0] == '/' {
        host_root(cur) + href
    } else if base.len() > 0 && base.last() == '/' {
        base + href
    } else {
        base + seq!['/'] + href
    }
}

pub proof fn lemma_count_nonneg(s: Seq<char>, c: char)
    ensures
        count_char(s, c) >= 0,
    decreases s.len(),
{
    if s.len() > 0 {
        lemma_count_nonneg(s.drop_first(), c);
    }
}

pub proof fn lemma_count_snoc(s: Seq<char>, x: char, c: char)
    ensures
        count_char(s.push(x), c) == count_char(s, c) + (if x == c {
            1int
        } else {
            0int
        }),
    decreases s.len(),
{
    assert(s.push(x).len() == s.len() + 1);
    assert(count_char(s.push(x), c) == (if s.push(x)[0] == c {
        1int
    } else {
        0int
    }) + count_char(s.push(x).drop_first(), c));
    if s.len() == 0 {
        assert(s.push(x)[0] == x);
        assert(s.push(x).drop_first() =~= Seq::<char>::empty());
        assert(count_char(s.push(x).drop_first(), c) == 0);
    } else {
        assert(s.push(x)[0] == s[0]);
        assert(s.push(x).drop_first() =~= s.drop_first().push(x));
        lemma_count_snoc(s.drop_first(), x, c);
        assert(count_char(s.push(x).drop_first(), c) == count_char(s.drop_first(), c) + (if x
            == c {
            1int
        } else {
            0int
        }));
    }
}

/// At a position `i` holding `'/'` with exactly `2 - seen` slashes
/// before it, the scan stops: the inclusive prefix ends just after `i`
/// and the exclusive prefix just before it.
pub proof fn lemma_prefix3_at(s: Seq<char>, i: int, seen: int)
    requires
        0 <= i < s.len(),
        s[i] == '/',
        0 <= seen <= 2,
        count_char(s.take(i), '/') == 2 - seen,
    ensures
        prefix_upto3_rec(s, seen) == s.take(i + 1),
        host_root_rec(s, seen) == s.take(i),
    decreases i,
{
    if i == 0 {
        assert(s.take(0) =~= Seq::<char>::empty());
        assert(count_char(s.take(0), '/') == 0);
        assert(seen == 2);
        assert(prefix_upto3_rec(s, seen) =~= s.take(1));
        assert(host_root_rec(s, seen) =~= s.take(0));
    } else {
        let t = s.drop_first();
        assert(s.take(i).drop_first() =~= t.take(i - 1));
        proof_count_take_shift(s, i, '/');
        if s[0] == '/' {
            lemma_count_nonneg(t.take(i - 1), '/');
            assert(count_char(t.take(i - 1), '/') == 1 - seen);
            assert(seen < 2);
            lemma_prefix3_at(t, i - 1, seen + 1);
            assert(prefix_upto3_rec(s, seen) =~= s.take(i + 1));
            assert(host_root_rec(s, seen) =~= s.take(i));
        } else {
            lemma_prefix3_at(t, i - 1, seen);
            assert(prefix_upto3_rec(s, seen) =~= s.take(i + 1));
            assert(host_root_rec(s, seen) =~= s.take(i));
        }
    }
}

/// Unfolding step: the slash count of a prefix decomposes through the
/// first character.
proof fn proof_count_take_shift(s: Seq<char>, i: int, c: char)
    requires
        1 <= i <= s.len(),
    ensures
        count_char(s.take(i), c) == (if s[0] == c {
            1int
        } else {
            0int
        }) + count_char(s.drop_first().take(i - 1), c),
{
    assert(s.take(i).len() > 0);
    assert(s.take(i)[0] == s[0]);
    assert(s.take(i).drop_first() =~= s.drop_first().take(i - 1));
}

/// The slash count splits at any cut point.
pub proof fn lemma_count_split_at(s: Seq<char>, k: int)
    requires
        0 <= k <= s.len(),
    ensures
        count_char(s, '/') == count_char(s.take(k), '/') + count_char(s.skip(k), '/'),
    decreases k,
{
    if k == 0 {
        assert(s.take(0) =~= Seq::<char>::empty());
        assert(s.skip(0) =~= s);
    } else {
        let t = s.drop_first();
        assert(s.take(k).len() > 0);
        assert(s.take(k)[0] == s[0]);
        assert(s.take(k).drop_first() =~= t.take(k - 1));
        assert(s.skip(k) =~= t.skip(k - 1));
        lemma_count_split_at(t, k - 1);
    }
}

/// With at most `2 - seen` slashes in `s`, the scan keeps everything.
pub proof fn lemma_prefix3_none(s: Seq<char>, seen: int)
    requires
        0 <= seen <= 2,
        count_char(s, '/') <= 2 - seen,
    ensures
        prefix_upto3_rec(s, seen) == s,
        host_root_rec(s, seen) == s,
    decreases s.len(),
{
    if s.len() > 0 {
        lemma_count_nonneg(s.drop_first(), '/');
        if s[0] == '/' {
            lemma_prefix3_none(s.drop_first(), seen + 1);
        } else {
            lemma_prefix3_none(s.drop_first(), seen);
        }
        assert(prefix_upto3_rec(s, seen) =~= s);
        assert(host_root_rec(s, seen) =~= s);
    }
}

// ===== The HTML transducer =====
/// End of the tag token that starts at the head of `s`: one past the
/// first `'>'`, or the end of input for an unterminated tag.
pub open spec fn token_end(s: Seq<char>) -> int {
    if find_char(s, '>') == s.len() {
        s.len() as int
    } else {
        find_char(s, '>') + 1
    }
}

/// The token opens an anchor: `"<a "` as a prefix, or exactly `"<a>"`,
/// case-insensitively.
pub open spec fn is_anchor_open(t: Seq<char>) -> bool {
    ||| (t.len() >= 3 && lower_seq(t).take(3) == seq!['<', 'a', ' '])
    ||| lower_seq(t) == seq!['<', 'a', '>']
}

/// The token opens a script element: prefix `"<script"`.
pub open spec fn is_script_open(t: Seq<char>) -> bool {
    t.len() >= 7 && lower_seq(t).take(7) == seq!['<', 's', 'c', 'r', 'i', 'p', 't']
}

/// The token opens a style element: prefix `"<style"`.
pub open spec fn is_style_open(t: Seq<char>) -> bool {
    t.len() >= 6 && lower_seq(t).take(6) == seq!['<', 's', 't', 'y', 'l', 'e']
}

/// A character that can be part of a tag name.
pub open spec fn is_tag_name_char(c: char) -> bool {
    ||| (97 <= c as u32 && c as u32 <= 122)
    ||| (65 <= c as u32 && c as u32 <= 90)
    ||| (48 <= c as u32 && c as u32 <= 57)
}

/// The longest prefix of name characters.
pub open spec fn name_chars(s: Seq<char>) -> Seq<char>
    decreases s.len(),
{
    if s.len() > 0 && is_tag_name_char(s[0]) {
        seq![s[0]] + name_chars(s.drop_first())
    } else {
        Seq::empty()
    }
}

/// The lowercased name of a tag token, with a leading `'/'` ignored.
pub open spec fn tag_name(t: Seq<char>) -> Seq<char> {
    let body = t.skip(1);
    let body2 = if body.len() > 0 && body[0] == '/' {
        body.skip(1)
    } else {
        body
    };
    lower_seq(name_chars(body2))
}

/// The allow-list: tag names whose tokens pass through unchanged.
pub open spec fn allowed_name(n: Seq<char>) -> bool {
    ||| n == seq!['t', 'i', 't', 'l', 'e']
    ||| n == seq!['b', 'r']
    ||| n == seq!['h', '1']
    ||| n == seq!['h', '2']
    ||| n == seq!['h', '3']
    ||| n == seq!['h', '4']
    ||| n == seq!['h', '5']
    ||| n == seq!['h', '6']
    ||| n == seq!['b']
    ||| n == seq!['i']
    ||| n == seq!['l', 'i']
    ||| n == seq!['u', 'l']
    ||| n == seq!['o', 'l']
    ||| n == seq!['c', 'o', 'd', 'e']
    ||| n == seq!['p', 'r', 'e']
}

/// The token (opening or closing) is in the allow-list.
pub open spec fn is_allowed_tag(t: Seq<char>) -> bool {
    allowed_name(tag_name(t))
}

/// The characters of `"</a>"`.
pub open spec fn close_a() -> Seq<char> {
    seq!['<', '/', 'a', '>']
}

/// The characters of `"</script>"`.
pub open spec fn close_script() -> Seq<char> {
    seq!['<', '/', 's', 'c', 'r', 'i', 'p', 't', '>']
}

/// The characters of `"</style>"`.
pub open spec fn close_style() -> Seq<char> {
    seq!['<', '/', 's', 't', 'y', 'l', 'e', '>']
}

/// Input remaining after discarding everything up to and including the
/// first tag token whose lowercase form contains `close`.
pub open spec fn skip_tagged(s: Seq<char>, close: Seq<char>) -> Seq<char>
    decreases s.len(),
    via skip_tagged_dec
{
    if s.len() == 0 {
        Seq::empty()
    } else if s[0] != '<' {
        skip_tagged(s.drop_first(), close)
    } else {
        let e = token_end(s);
        if contains_seq(lower_seq(s.take(e)), close) {
            s.skip(e)
        } else {
            skip_tagged(s.skip(e), close)
        }
    }
}

#[via_fn]
proof fn skip_tagged_dec(s: Seq<char>, close: Seq<char>) {
    if s.len() > 0 && s[0] == '<' {
        lemma_find_char_bounds(s, '>');
    }
}

/// Scan of an anchor's interior: the text collected outside tags, and
/// the input remaining after the first token containing `"</a>"`.
pub open spec fn scan_anchor(s: Seq<char>) -> (Seq<char>, Seq<char>)
    decreases s.len(),
    via scan_anchor_dec
{
    if s.len() == 0 {
        (Seq::<char>::empty(), Seq::<char>::empty())
    } else if s[0] != '<' {
        let r = scan_anchor(s.drop_first());
        (seq![s[0]] + r.0, r.1)
    } else {
        let e = token_end(s);
        if contains_seq(lower_seq(s.take(e)), close_a()) {
            (Seq::<char>::empty(), s.skip(e))
        } else {
            scan_anchor(s.skip(e))
        }
    }
}

#[via_fn]
proof fn scan_anchor_dec(s: Seq<char>) {
    if s.len() > 0 && s[0] == '<' {
        lemma_find_char_bounds(s, '>');
    }
}

/// The first double-quoted string inside a tag token, or empty when
/// the token holds no quote.
pub open spec fn extract_href_spec(t: Seq<char>) -> Seq<char> {
    let rest = t.skip(1);
    let q = find_char(rest, '"');
    if q == rest.len() {
        Seq::empty()
    } else {
        let after = rest.skip(q + 1);
        after.take(find_char(after, '"'))
    }
}

/// The characters of the rewritten anchor's fixed parts.
pub open spec fn link_prefix() -> Seq<char> {
    ("<a href=\"/proxy?url=")@
}

pub open spec fn link_mid1() -> Seq<char> {
    ("\" title=\"")@
}

pub open spec fn link_mid2() -> Seq<char> {
    ("\">")@
}

pub open spec fn link_close() -> Seq<char> {
    ("</a>")@
}

/// The visible text of a rewritten anchor: the trimmed collected label,
/// or the resolved URL when that is empty, shortened to 47 characters
/// plus `"..."` when longer than 50.
pub open spec fn display_text(resolved: Seq<char>, label_raw: Seq<char>) -> Seq<char> {
    let t = trim(label_raw);
    let d = if t.len() == 0 {
        resolved
    } else {
        t
    };
    if d.len() > 50 {
        d.take(47) + seq!['.', '.', '.']
    } else {
        d
    }
}

/// The replacement anchor emitted for a link: a proxy-routed `href`
/// carrying the percent-encoded resolved URL, a `title` with the
/// entity-escaped resolved URL, and the entity-escaped display text.
pub open spec fn anchor_output(
    href: Seq<char>,
    label_raw: Seq<char>,
    base: Seq<char>,
    cur: Seq<char>,
) -> Seq<char> {
    let resolved = resolve_spec(href, base, cur);
    link_prefix() + percent_encode_bytes(encode_utf8(resolved)) + link_mid1() + escape_min(
        resolved,
    ) + link_mid2() + escape_min(display_text(resolved, label_raw)) + link_close()
}

pub proof fn lemma_skip_tagged_len(s: Seq<char>, close: Seq<char>)
    ensures
        skip_tagged(s, close).len() <= s.len(),
    decreases s.len(),
{
    if s.len() > 0 {
        if s[0] != '<' {
            lemma_skip_tagged_len(s.drop_first(), close);
        } else {
            lemma_find_char_bounds(s, '>');
            let e = token_end(s);
            if !contains_seq(lower_seq(s.take(e)), close) {
                lemma_skip_tagged_len(s.skip(e), close);
            }
        }
    }
}

pub proof fn lemma_scan_anchor_len(s: Seq<char>)
    ensures
        scan_anchor(s).1.len() <= s.len(),
    decreases s.len(),
{
    if s.len() > 0 {
        if s[0] != '<' {
            lemma_scan_anchor_len(s.drop_first());
        } else {
            lemma_find_char_bounds(s, '>');
            let e = token_end(s);
            if !contains_seq(lower_seq(s.take(e)), close_a()) {
                lemma_scan_anchor_len(s.skip(e));
            }
        }
    }
}

/// The transducer's single pass over the page body: text outside tags
/// is kept; anchors are rewritten through the proxy (or consumed
/// silently when they carry no quoted target); script and style content
/// is dropped through the matching close token; other tags survive
/// exactly when their name is in the allow-list.
pub open spec fn transduce(s: Seq<char>, base: Seq<char>, cur: Seq<char>) -> Seq<char>
    decreases s.len(),
    via transduce_dec
{
    if s.len() == 0 {
        Seq::empty()
    } else if s[0] != '<' {
        seq![s[0]] + transduce(s.drop_first(), base, cur)
    } else {
        let e = token_end(s);
        let tok = s.take(e);
        let rest = s.skip(e);
        if is_anchor_open(tok) {
            let href = extract_href_spec(tok);
            if href.len() == 0 {
                transduce(scan_anchor(rest).1, base, cur)
            } else {
                anchor_output(href, scan_anchor(rest).0, base, cur) + transduce(
                    scan_anchor(rest).1,
                    base,
                    cur,
                )
            }
        } else if is_script_open(tok) {
            transduce(skip_tagged(rest, close_script()), base, cur)
        } else if is_style_open(tok) {
            transduce(skip_tagged(rest, close_style()), base, cur)
        } else if is_allowed_tag(tok) {
            tok + transduce(rest, base, cur)
        } else {
            transduce(rest, base, cur)
        }
    }
}

#[via_fn]
proof fn transduce_dec(s: Seq<char>, base: Seq<char>, cur: Seq<char>) {
    if s.len() > 0 && s[0] == '<' {
        lemma_find_char_bounds(s, '>');
        let e = token_end(s);
        lemma_scan_anchor_len(s.skip(e));
        lemma_skip_tagged_len(s.skip(e), close_script());
        lemma_skip_tagged_len(s.skip(e), close_style());
    }
}

} // verus!
