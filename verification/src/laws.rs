//! Proved properties of pattern composition: paren pairing under chained
//! alternation, and the purity of rendering.

use vstd::prelude::*;

use crate::builder::{contains_char, spec_or, spec_render, VerexView};

verus! {

/// The paren-nesting delta of a single character.
pub open spec fn paren_delta(c: char) -> int {
    if c == '(' {
        1
    } else if c == ')' {
        -1
    } else {
        0
    }
}

/// Opening minus closing parens over the whole of `s`.
pub open spec fn paren_depth(s: Seq<char>) -> int
    decreases s.len(),
{
    if s.len() == 0 {
        0
    } else {
        paren_depth(s.drop_last()) + paren_delta(s.last())
    }
}

/// The parens of `s` pair up: as many open as close, and no prefix of `s`
/// closes a paren it has not opened.
pub open spec fn parens_balanced(s: Seq<char>) -> bool {
    paren_depth(s) == 0 && forall|i: int| 0 <= i <= s.len() ==> paren_depth(#[trigger] s.take(i)) >= 0
}

/// No paren of either kind occurs in `s`.
pub open spec fn paren_free(s: Seq<char>) -> bool {
    !contains_char(s, '(') && !contains_char(s, ')')
}

proof fn lemma_paren_depth_concat(a: Seq<char>, b: Seq<char>)
    ensures
        paren_depth(a + b) == paren_depth(a) + paren_depth(b),
    decreases b.len(),
{
    if b.len() == 0 {
        assert(a + b =~= a);
    } else {
        lemma_paren_depth_concat(a, b.drop_last());
        assert((a + b).drop_last() =~= a + b.drop_last());
        assert((a + b).last() == b.last());
    }
}

proof fn lemma_paren_free_sub(s: Seq<char>, t: Seq<char>)
    requires
        paren_free(s),
        t.len() <= s.len(),
        forall|i: int| 0 <= i < t.len() ==> t[i] == s[i],
    ensures
        paren_free(t),
{
    if contains_char(t, '(') {
        let i = choose|i: int| 0 <= i < t.len() && t[i] == '(';
        assert(s[i] == '(');
    }
    if contains_char(t, ')') {
        let i = choose|i: int| 0 <= i < t.len() && t[i] == ')';
        assert(s[i] == ')');
    }
}

proof fn lemma_paren_free_depth(s: Seq<char>)
    requires
        paren_free(s),
    ensures
        paren_depth(s) == 0,
    decreases s.len(),
{
    if s.len() > 0 {
        assert(paren_delta(s.last()) == 0) by {
            assert(s[s.len() - 1] == s.last());
        }
        lemma_paren_free_sub(s, s.drop_last());
        lemma_paren_free_depth(s.drop_last());
    }
}

proof fn lemma_paren_free_balanced(s: Seq<char>)
    requires
        paren_free(s),
    ensures
        parens_balanced(s),
{
    lemma_paren_free_depth(s);
    assert forall|i: int| 0 <= i <= s.len() implies paren_depth(#[trigger] s.take(i)) >= 0 by {
        lemma_paren_free_sub(s, s.take(i));
        lemma_paren_free_depth(s.take(i));
    }
}

proof fn lemma_balanced_concat(a: Seq<char>, b: Seq<char>)
    requires
        parens_balanced(a),
        parens_balanced(b),
    ensures
        parens_balanced(a + b),
{
    lemma_paren_depth_concat(a, b);
    assert forall|i: int| 0 <= i <= (a + b).len() implies paren_depth(#[trigger] (a + b).take(i))
        >= 0 by {
        if i <= a.len() {
            assert((a + b).take(i) =~= a.take(i));
        } else {
            assert((a + b).take(i) =~= a + b.take(i - a.len()));
            lemma_paren_depth_concat(a, b.take(i - a.len()));
        }
    }
}

proof fn lemma_depth_single(c: char)
    ensures
        paren_depth(seq![c]) == paren_delta(c),
{
    assert(seq![c].drop_last() =~= Seq::<char>::empty());
    assert(paren_depth(Seq::<char>::empty()) == 0);
    assert(seq![c].last() == c);
}

proof fn lemma_wrap_balanced(s: Seq<char>)
    requires
        parens_balanced(s),
    ensures
        parens_balanced(seq!['('] + s + seq![')']),
{
    let w = seq!['('] + s + seq![')'];
    lemma_depth_single('(');
    lemma_depth_single(')');
    lemma_paren_depth_concat(seq!['('] + s, seq![')']);
    lemma_paren_depth_concat(seq!['('], s);
    assert forall|i: int| 0 <= i <= w.len() implies paren_depth(#[trigger] w.take(i)) >= 0 by {
        if i == 0 {
            assert(w.take(0) =~= Seq::<char>::empty());
        } else if i <= 1 + s.len() {
            assert(w.take(i) =~= seq!['('] + s.take(i - 1));
            lemma_paren_depth_concat(seq!['('], s.take(i - 1));
        } else {
            assert(w.take(i) =~= w);
        }
    }
}

/// Chaining `or` twice still renders a pattern whose parens pair up, as long
/// as no paren pre-exists in the prefix or the suffix, the parens already in
/// the body pair up, and neither alternated literal brings a paren of its
/// own.  (A right-hand literal such as a lone `)` breaks the pairing, which
/// is the builder's documented sharp edge, so those inputs stay outside this
/// law.)
pub proof fn lemma_or_twice_balanced(b: VerexView, v1: Seq<char>, v2: Seq<char>)
    requires
        paren_free(b.prefix),
        paren_free(b.suffix),
        parens_balanced(b.source),
        paren_free(v1),
        paren_free(v2),
    ensures
        parens_balanced(spec_render(spec_or(spec_or(b, v1), v2))),
{
    reveal_strlit("(");
    reveal_strlit(")");
    reveal_strlit(")|(");
    reveal_strlit("(?:");
    let b1 = spec_or(b, v1);
    let b2 = spec_or(b1, v2);
    assert(b1.prefix == b.prefix + "("@);
    assert(b1.suffix == b.suffix + ")"@);
    assert(contains_char(b1.prefix, '(')) by {
        assert(b1.prefix[b.prefix.len() as int] == '(');
    }
    assert(contains_char(b1.suffix, ')')) by {
        assert(b1.suffix[b.suffix.len() as int] == ')');
    }
    let r = spec_render(b2);
    let bar = seq!['|'];
    let inner1 = seq!['?', ':'] + v1;
    let inner2 = seq!['?', ':'] + v2;
    let g1 = seq!['('] + inner1 + seq![')'];
    let g2 = seq!['('] + inner2 + seq![')'];
    let p1 = seq!['('] + b.source + seq![')'];
    let p2 = seq!['('] + g1 + seq![')'];
    let p3 = seq!['('] + (g2 + b.suffix) + seq![')'];
    assert(r =~= b.prefix + (p1 + (bar + (p2 + (bar + p3)))));
    assert(paren_free(bar)) by {
        if contains_char(bar, '(') {
            let i = choose|i: int| 0 <= i < bar.len() && bar[i] == '(';
        }
        if contains_char(bar, ')') {
            let i = choose|i: int| 0 <= i < bar.len() && bar[i] == ')';
        }
    }
    assert(paren_free(inner1)) by {
        if contains_char(inner1, '(') {
            let i = choose|i: int| 0 <= i < inner1.len() && inner1[i] == '(';
            assert(v1[i - 2] == '(');
        }
        if contains_char(inner1, ')') {
            let i = choose|i: int| 0 <= i < inner1.len() && inner1[i] == ')';
            assert(v1[i - 2] == ')');
        }
    }
    assert(paren_free(inner2)) by {
        if contains_char(inner2, '(') {
            let i = choose|i: int| 0 <= i < inner2.len() && inner2[i] == '(';
            assert(v2[i - 2] == '(');
        }
        if contains_char(inner2, ')') {
            let i = choose|i: int| 0 <= i < inner2.len() && inner2[i] == ')';
            assert(v2[i - 2] == ')');
        }
    }
    lemma_paren_free_balanced(bar);
    lemma_paren_free_balanced(b.prefix);
    lemma_paren_free_balanced(b.suffix);
    lemma_paren_free_balanced(inner1);
    lemma_paren_free_balanced(inner2);
    lemma_wrap_balanced(b.source);
    lemma_wrap_balanced(inner1);
    lemma_wrap_balanced(inner2);
    lemma_wrap_balanced(g1);
    lemma_balanced_concat(g2, b.suffix);
    lemma_wrap_balanced(g2 + b.suffix);
    lemma_balanced_concat(bar, p3);
    lemma_balanced_concat(p2, bar + p3);
    lemma_balanced_concat(bar, p2 + (bar + p3));
    lemma_balanced_concat(p1, bar + (p2 + (bar + p3)));
    lemma_balanced_concat(b.prefix, p1 + (bar + (p2 + (bar + p3))));
}

/// Rendering has no hidden state: the pattern is a function of the three
/// segments alone, so rendering a builder twice, with no mutation in
/// between, gives identical strings.
pub proof fn lemma_render_idempotent(a: VerexView, b: VerexView)
    requires
        a.prefix == b.prefix,
        a.source == b.source,
        a.suffix == b.suffix,
    ensures
        spec_render(a) == spec_render(b),
{
}

} // verus!

