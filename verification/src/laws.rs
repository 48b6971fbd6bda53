//! Proved laws of the transducer: inputs made only of allow-listed
//! markup pass through unchanged (so a second pass is a no-op), a
//! well-formed script or style block leaves no trace in the output,
//! and an over-long link label is always shortened the same way.

use vstd::prelude::*;
use crate::html_model::{
    close_script, close_style, display_text, is_allowed_tag, is_anchor_open, is_script_open, is_style_open,
    skip_tagged, token_end, transduce,
};
use crate::text::{
    contains_seq, find_char, lemma_find_char_bounds, lower_char, lower_seq, trim,
};

verus! {

/// Every tag of `s` is an allow-listed one: no anchor, script or style
/// opener anywhere, and nothing that the transducer would drop.
pub open spec fn allowlisted_only(s: Seq<char>) -> bool
    decreases s.len(),
    via allowlisted_only_dec
{
    if s.len() == 0 {
        true
    } else if s[0] != '<' {
        allowlisted_only(s.drop_first())
    } else {
        let e = token_end(s);
        let tok = s.take(e);
        &&& !is_anchor_open(tok)
        &&& !is_script_open(tok)
        &&& !is_style_open(tok)
        &&& is_allowed_tag(tok)
        &&& allowlisted_only(s.skip(e))
    }
}

#[via_fn]
proof fn allowlisted_only_dec(s: Seq<char>) {
    if s.len() > 0 && s[0] == '<' {
        lemma_find_char_bounds(s, '>');
    }
}

/// On input whose every tag is allow-listed, the transducer is the
/// identity on the body.
pub proof fn lemma_transduce_identity(s: Seq<char>, base: Seq<char>, cur: Seq<char>)
    requires
        allowlisted_only(s),
    ensures
        transduce(s, base, cur) == s,
    decreases s.len(),
{
    if s.len() == 0 {
    } else if s[0] != '<' {
        lemma_transduce_identity(s.drop_first(), base, cur);
        assert(seq![s[0]] + s.drop_first() =~= s);
    } else {
        lemma_find_char_bounds(s, '>');
        let e = token_end(s);
        lemma_transduce_identity(s.skip(e), base, cur);
        assert(s.take(e) + s.skip(e) =~= s);
    }
}

/// Idempotence: when the transducer's output contains no further
/// recognized anchor, script or style form — every tag it holds is
/// already in the allow-list — running the transducer again changes
/// nothing, whatever base and final URLs the second run is given.
pub proof fn lemma_transduce_idempotent(
    s: Seq<char>,
    base: Seq<char>,
    cur: Seq<char>,
    base2: Seq<char>,
    cur2: Seq<char>,
)
    requires
        allowlisted_only(transduce(s, base, cur)),
    ensures
        transduce(transduce(s, base, cur), base2, cur2) == transduce(s, base, cur),
{
    lemma_transduce_identity(transduce(s, base, cur), base2, cur2);
}

/// One complete tag token: from `'<'` to the first `'>'`, which is its
/// last character.
pub open spec fn is_token(t: Seq<char>) -> bool {
    &&& t.len() >= 2
    &&& t[0] == '<'
    &&& t.last() == '>'
    &&& forall|j: int| 0 <= j < t.len() - 1 ==> t[j] != '>'
}

/// The interior of a well-formed script or style block: every tag in
/// it is terminated and none contains the closing form, however many
/// stray `'<'` characters the text holds.
pub open spec fn block_interior(s: Seq<char>, close: Seq<char>) -> bool
    decreases s.len(),
    via block_interior_dec
{
    if s.len() == 0 {
        true
    } else if s[0] != '<' {
        block_interior(s.drop_first(), close)
    } else {
        let e = token_end(s);
        &&& find_char(s, '>') < s.len()
        &&& !contains_seq(lower_seq(s.take(e)), close)
        &&& block_interior(s.skip(e), close)
    }
}

#[via_fn]
proof fn block_interior_dec(s: Seq<char>, close: Seq<char>) {
    if s.len() > 0 && s[0] == '<' {
        lemma_find_char_bounds(s, '>');
    }
}

/// A character found at `p`, with none before it, is the first.
proof fn lemma_find_char_at(s: Seq<char>, c: char, p: int)
    requires
        0 <= p < s.len(),
        s[p] == c,
        forall|j: int| 0 <= j < p ==> s[j] != c,
    ensures
        find_char(s, c) == p,
    decreases p,
{
    if p > 0 {
        lemma_find_char_at(s.drop_first(), c, p - 1);
    }
}

/// Finding a character in the left part of a concatenation.
proof fn lemma_find_char_concat_left(s: Seq<char>, t: Seq<char>, c: char)
    requires
        find_char(s, c) < s.len(),
    ensures
        find_char(s + t, c) == find_char(s, c),
{
    lemma_find_char_bounds(s, c);
    let p = find_char(s, c);
    assert((s + t)[p] == c);
    assert(forall|j: int| 0 <= j < p ==> (s + t)[j] == s[j]);
    lemma_find_char_at(s + t, c, p);
}

/// The skip over a block interior passes it entirely.
proof fn lemma_skip_tagged_concat(s: Seq<char>, t: Seq<char>, close: Seq<char>)
    requires
        block_interior(s, close),
    ensures
        skip_tagged(s + t, close) == skip_tagged(t, close),
    decreases s.len(),
{
    if s.len() == 0 {
        assert(s + t =~= t);
    } else if s[0] != '<' {
        assert((s + t)[0] == s[0]);
        if (s + t).len() > 0 {
            assert((s + t).drop_first() =~= s.drop_first() + t);
        }
        lemma_skip_tagged_concat(s.drop_first(), t, close);
    } else {
        lemma_find_char_bounds(s, '>');
        let g = find_char(s, '>');
        let e = token_end(s);
        lemma_find_char_concat_left(s, t, '>');
        assert((s + t)[0] == '<');
        assert(token_end(s + t) == e);
        assert((s + t).take(e) =~= s.take(e));
        assert((s + t).skip(e) =~= s.skip(e) + t);
        lemma_skip_tagged_concat(s.skip(e), t, close);
    }
}

/// The skip stops exactly at a closing token and hands back what
/// follows it.
proof fn lemma_skip_tagged_close(closing: Seq<char>, rest: Seq<char>, close: Seq<char>)
    requires
        is_token(closing),
        contains_seq(lower_seq(closing), close),
    ensures
        skip_tagged(closing + rest, close) == rest,
{
    let s = closing + rest;
    assert(s[0] == '<');
    assert(s[closing.len() - 1] == '>');
    assert(forall|j: int| 0 <= j < closing.len() - 1 ==> s[j] == closing[j]);
    lemma_find_char_at(s, '>', closing.len() - 1);
    assert(token_end(s) == closing.len());
    assert(s.take(closing.len() as int) =~= closing);
    assert(s.skip(closing.len() as int) =~= rest);
}

/// A well-formed script block vanishes: for any opening script token,
/// any interior whose tags are all terminated and free of the closing
/// form — stray `'<'` characters included — and any closing token
/// containing `"</script>"`, the output is exactly the output for the
/// input with the whole block removed.  No interior character reaches
/// the output.
pub proof fn lemma_script_block_dropped(
    opening: Seq<char>,
    body: Seq<char>,
    closing: Seq<char>,
    rest: Seq<char>,
    base: Seq<char>,
    cur: Seq<char>,
)
    requires
        is_token(opening),
        is_script_open(opening),
        block_interior(body, close_script()),
        is_token(closing),
        contains_seq(lower_seq(closing), close_script()),
    ensures
        transduce(opening + body + closing + rest, base, cur) == transduce(rest, base, cur),
{
    let s = opening + body + closing + rest;
    assert(s[0] == opening[0]);
    assert(lower_seq(opening)[0] == lower_char(opening[0]));
    assert(opening[0] == '<');
    assert(s[opening.len() - 1] == '>');
    assert(forall|j: int| 0 <= j < opening.len() - 1 ==> s[j] == opening[j]);
    lemma_find_char_at(s, '>', opening.len() - 1);
    assert(token_end(s) == opening.len());
    let tok = s.take(opening.len() as int);
    assert(tok =~= opening);
    // a script opener is no anchor opener: its second lowercased
    // character is 's'
    assert(lower_seq(opening).take(7)[1] == lower_seq(opening)[1]);
    assert(lower_seq(opening)[1] == 's') by {
        assert(lower_seq(opening).take(7) =~= seq!['<', 's', 'c', 'r', 'i', 'p', 't']);
    }
    assert(!is_anchor_open(tok)) by {
        if tok.len() >= 3 && lower_seq(tok).take(3) == seq!['<', 'a', ' '] {
            assert(lower_seq(tok).take(3)[1] == 'a');
        }
        if lower_seq(tok) == seq!['<', 'a', '>'] {
            assert(lower_seq(tok)[1] == 'a');
        }
    }
    assert(transduce(s, base, cur) == transduce(
        skip_tagged(s.skip(opening.len() as int), close_script()),
        base,
        cur,
    ));
    assert(s.skip(opening.len() as int) =~= body + (closing + rest));
    lemma_skip_tagged_concat(body, closing + rest, close_script());
    lemma_skip_tagged_close(closing, rest, close_script());
}

/// A well-formed style block vanishes exactly as a script block does.
pub proof fn lemma_style_block_dropped(
    opening: Seq<char>,
    body: Seq<char>,
    closing: Seq<char>,
    rest: Seq<char>,
    base: Seq<char>,
    cur: Seq<char>,
)
    requires
        is_token(opening),
        is_style_open(opening),
        block_interior(body, close_style()),
        is_token(closing),
        contains_seq(lower_seq(closing), close_style()),
    ensures
        transduce(opening + body + closing + rest, base, cur) == transduce(rest, base, cur),
{
    let s = opening + body + closing + rest;
    assert(s[0] == opening[0]);
    assert(lower_seq(opening)[0] == lower_char(opening[0]));
    assert(opening[0] == '<');
    assert(s[opening.len() - 1] == '>');
    assert(forall|j: int| 0 <= j < opening.len() - 1 ==> s[j] == opening[j]);
    lemma_find_char_at(s, '>', opening.len() - 1);
    assert(token_end(s) == opening.len());
    let tok = s.take(opening.len() as int);
    assert(tok =~= opening);
    // a style opener is neither an anchor opener nor a script opener:
    // its lowercased second and third characters are 't' and 'y'
    assert(lower_seq(opening).take(6)[1] == lower_seq(opening)[1]);
    assert(lower_seq(opening).take(6)[2] == lower_seq(opening)[2]);
    assert(lower_seq(opening)[1] == 's' && lower_seq(opening)[2] == 't') by {
        assert(lower_seq(opening).take(6) =~= seq!['<', 's', 't', 'y', 'l', 'e']);
    }
    assert(!is_anchor_open(tok)) by {
        if tok.len() >= 3 && lower_seq(tok).take(3) == seq!['<', 'a', ' '] {
            assert(lower_seq(tok).take(3)[1] == 'a');
        }
        if lower_seq(tok) == seq!['<', 'a', '>'] {
            assert(lower_seq(tok)[1] == 'a');
        }
    }
    assert(!is_script_open(tok)) by {
        if tok.len() >= 7 && lower_seq(tok).take(7) == seq!['<', 's', 'c', 'r', 'i', 'p', 't'] {
            assert(lower_seq(tok).take(7)[2] == 'c');
        }
    }
    assert(transduce(s, base, cur) == transduce(
        skip_tagged(s.skip(opening.len() as int), close_style()),
        base,
        cur,
    ));
    assert(s.skip(opening.len() as int) =~= body + (closing + rest));
    lemma_skip_tagged_concat(body, closing + rest, close_style());
    lemma_skip_tagged_close(closing, rest, close_style());
}

/// A link label longer than fifty characters is always shortened to
/// its first forty-seven characters plus the ellipsis marker.
pub proof fn lemma_long_label_shortened(resolved: Seq<char>, label_raw: Seq<char>)
    requires
        trim(label_raw).len() > 50,
    ensures
        display_text(resolved, label_raw) == trim(label_raw).take(47) + seq!['.', '.', '.'],
{
}

} // verus!
