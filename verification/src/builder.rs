//! The pattern builder and its segment-composition operations.

use vstd::prelude::*;

use crate::decimal::{dec_int, push_decimal};

verus! {

/// A regular-expression pattern under construction, held as three string
/// segments.  The rendered pattern is always `prefix + source + suffix`.
pub struct Verex {
    prefix: String,
    source: String,
    suffix: String,
}

/// The mathematical abstraction of a [`Verex`]: the three segments as
/// sequences of characters.
#[verifier::ext_equal]
pub ghost struct VerexView {
    pub prefix: Seq<char>,
    pub source: Seq<char>,
    pub suffix: Seq<char>,
}

impl View for Verex {
    type V = VerexView;

    closed spec fn view(&self) -> VerexView {
        VerexView { prefix: self.prefix@, source: self.source@, suffix: self.suffix@ }
    }
}

/// The pattern a builder renders: the three segments concatenated.
pub open spec fn spec_render(b: VerexView) -> Seq<char> {
    b.prefix + b.source + b.suffix
}

/// Appending a raw fragment touches the `source` segment alone.
pub open spec fn spec_add(b: VerexView, fragment: Seq<char>) -> VerexView {
    VerexView { source: b.source + fragment, ..b }
}

/// The non-capturing group wrapped around a caller-supplied literal:
/// `(?:` + `v` + `)`.
pub open spec fn lit_group(v: Seq<char>) -> Seq<char> {
    "(?:"@ + v + ")"@
}

/// The fragment appended by a literal match of `v`.
pub open spec fn spec_find(b: VerexView, v: Seq<char>) -> VerexView {
    spec_add(b, lit_group(v))
}

/// Whether the character `c` occurs anywhere in `s`.
pub open spec fn contains_char(s: Seq<char>, c: char) -> bool {
    exists|i: int| 0 <= i < s.len() && s[i] == c
}

/// The fixed count quantifier fragment `{n}`.
pub open spec fn spec_count(b: VerexView, n: int) -> VerexView {
    spec_add(b, "{"@ + dec_int(n) + "}"@)
}

/// The bounded range quantifier fragment `{from,to}`.
pub open spec fn spec_count_range(b: VerexView, from: int, to: int) -> VerexView {
    spec_add(b, "{"@ + dec_int(from) + ","@ + dec_int(to) + "}"@)
}

/// The open-ended quantifier fragment `{from,}`.
pub open spec fn spec_at_least(b: VerexView, from: int) -> VerexView {
    spec_add(b, "{"@ + dec_int(from) + ",}"@)
}

/// The dispatch of `multiple`: no count means one-or-more, one count a fixed
/// count, and two or more counts a count range over the first two.
pub open spec fn spec_multiple(b: VerexView, v: Seq<char>, counts: Seq<i32>) -> VerexView {
    if counts.len() == 0 {
        spec_add(spec_find(b, v), "+"@)
    } else if counts.len() == 1 {
        spec_count(spec_find(b, v), counts[0] as int)
    } else {
        spec_count_range(spec_find(b, v), counts[0] as int, counts[1] as int)
    }
}

/// What `or` does to the three segments: one alternation paren is added to
/// `prefix` and `suffix`, each only if that segment holds none of its kind yet
/// (a substring-presence test, not a balance count), and the body grows by
/// `)|(` and the grouped right-hand literal.
pub open spec fn spec_or(b: VerexView, v: Seq<char>) -> VerexView {
    VerexView {
        prefix: if contains_char(b.prefix, '(') {
            b.prefix
        } else {
            b.prefix + "("@
        },
        source: b.source + ")|("@ + lit_group(v),
        suffix: if contains_char(b.suffix, ')') {
            b.suffix
        } else {
            b.suffix + ")"@
        },
    }
}

/// The character-range class body: `from-to` for each pair, in order.
pub open spec fn ranges_body(pairs: Seq<(Seq<char>, Seq<char>)>) -> Seq<char>
    decreases pairs.len(),
{
    if pairs.len() == 0 {
        Seq::empty()
    } else {
        ranges_body(pairs.drop_last()) + pairs.last().0 + "-"@ + pairs.last().1
    }
}

fn str_contains_char(s: &str, c: char) -> (r: bool)
    ensures
        r == contains_char(s@, c),
{
    let n = s.unicode_len();
    let mut i: usize = 0;
    while i < n
        invariant
            n == s@.len(),
            i <= n,
            forall|j: int| 0 <= j < i ==> s@[j] != c,
        decreases n - i,
    {
        if s.get_char(i) == c {
            return true;
        }
        i += 1;
    }
    false
}

impl Verex {
    fn from(prefix: String, source: String, suffix: String) -> (r: Verex)
        ensures
            r@ == (VerexView { prefix: prefix@, source: source@, suffix: suffix@ }),
    {
        Verex { prefix, source, suffix }
    }

    /// An empty builder: all three segments are empty.
    pub fn new() -> (r: Verex)
        ensures
            r@.prefix == Seq::<char>::empty(),
            r@.source == Seq::<char>::empty(),
            r@.suffix == Seq::<char>::empty(),
    {
        Verex::from(String::new(), String::new(), String::new())
    }

    /// Anchor the pattern at the start of a line: appends `^` to the prefix.
    pub fn start_of_line(self) -> (r: Self)
        ensures
            r@ == (VerexView { prefix: self@.prefix + "^"@, ..self@ }),
    {
        let mut r = self;
        r.prefix.append("^");
        r
    }

    /// Anchor the pattern at the end of a line: appends `$` to the suffix.
    pub fn end_of_line(self) -> (r: Self)
        ensures
            r@ == (VerexView { suffix: self@.suffix + "$"@, ..self@ }),
    {
        let mut r = self;
        r.suffix.append("$");
        r
    }

    /// Append a raw fragment to the `source` segment, unchanged.
    pub fn add(self, value: &str) -> (r: Self)
        ensures
            r@ == spec_add(self@, value@),
    {
        let mut r = self;
        r.source.append(value);
        r
    }

    /// Match the literal `value`, wrapped in a non-capturing group.
    pub fn find(self, value: &str) -> (r: Self)
        ensures
            r@ == spec_find(self@, value@),
    {
        let ghost b = self@;
        let mut frag = String::new();
        frag.append("(?:");
        frag.append(value);
        frag.append(")");
        let r = self.add(frag.as_str());
        proof {
            assert(r@ =~= spec_find(b, value@));
        }
        r
    }

    /// Match the literal `value` next; the same as `find`.
    pub fn and_then(self, value: &str) -> (r: Self)
        ensures
            r@ == spec_find(self@, value@),
    {
        self.find(value)
    }

    /// Optionally match the literal `value`: `(?:value)?`.
    pub fn maybe(self, value: &str) -> (r: Self)
        ensures
            r@ == spec_add(self@, "(?:"@ + value@ + ")?"@),
    {
        let ghost b = self@;
        let mut frag = String::new();
        frag.append("(?:");
        frag.append(value);
        frag.append(")?");
        let r = self.add(frag.as_str());
        proof {
            assert(r@ =~= spec_add(b, "(?:"@ + value@ + ")?"@));
        }
        r
    }

    /// Match zero or more of any character: `(?:.*)`.
    pub fn anything(self) -> (r: Self)
        ensures
            r@ == spec_add(self@, "(?:.*)"@),
    {
        self.add("(?:.*)")
    }

    /// Match zero or more characters outside the set `value`: `(?:[^value]*)`.
    pub fn anything_but_not(self, value: &str) -> (r: Verex)
        ensures
            r@ == spec_add(self@, "(?:[^"@ + value@ + "]*)"@),
    {
        let ghost b = self@;
        let mut frag = String::new();
        frag.append("(?:[^");
        frag.append(value);
        frag.append("]*)");
        let r = self.add(frag.as_str());
        proof {
            assert(r@ =~= spec_add(b, "(?:[^"@ + value@ + "]*)"@));
        }
        r
    }

    /// Match one or more of any character: `(?:.+)`.
    pub fn something(self) -> (r: Verex)
        ensures
            r@ == spec_add(self@, "(?:.+)"@),
    {
        self.add("(?:.+)")
    }

    /// Match one or more characters outside the set `value`: `(?:[^value]+)`.
    pub fn something_but_not(self, value: &str) -> (r: Verex)
        ensures
            r@ == spec_add(self@, "(?:[^"@ + value@ + "]+)"@),
    {
        let ghost b = self@;
        let mut frag = String::new();
        frag.append("(?:[^");
        frag.append(value);
        frag.append("]+)");
        let r = self.add(frag.as_str());
        proof {
            assert(r@ =~= spec_add(b, "(?:[^"@ + value@ + "]+)"@));
        }
        r
    }

    /// Match a line break, Unix or Windows style.
    pub fn line_break(self) -> (r: Verex)
        ensures
            r@ == spec_add(self@, "(?:(?:\\n)|(?:\\r\\n))"@),
    {
        self.add("(?:(?:\\n)|(?:\\r\\n))")
    }

    /// Match a line break; the same as `line_break`.
    pub fn br(self) -> (r: Verex)
        ensures
            r@ == spec_add(self@, "(?:(?:\\n)|(?:\\r\\n))"@),
    {
        self.line_break()
    }

    /// Match a tab character: `(?:\t)`.
    pub fn tab(self) -> (r: Verex)
        ensures
            r@ == spec_add(self@, "(?:\\t)"@),
    {
        self.add("(?:\\t)")
    }

    /// Match one or more word characters: `(?:\w+)`.
    pub fn word(self) -> (r: Verex)
        ensures
            r@ == spec_add(self@, "(?:\\w+)"@),
    {
        self.add("(?:\\w+)")
    }

    /// Match one or more non-word characters: `(?:\W+)`.
    pub fn non_word(self) -> (r: Verex)
        ensures
            r@ == spec_add(self@, "(?:\\W+)"@),
    {
        self.add("(?:\\W+)")
    }

    /// Match a digit: `(?:\d)`.
    pub fn digit(self) -> (r: Verex)
        ensures
            r@ == spec_add(self@, "(?:\\d)"@),
    {
        self.add("(?:\\d)")
    }

    /// Match a non-digit: `(?:\D)`.
    pub fn non_digit(self) -> (r: Verex)
        ensures
            r@ == spec_add(self@, "(?:\\D)"@),
    {
        self.add("(?:\\D)")
    }

    /// Match a whitespace character: `(?:\s)`.
    pub fn space(self) -> (r: Verex)
        ensures
            r@ == spec_add(self@, "(?:\\s)"@),
    {
        self.add("(?:\\s)")
    }

    /// Match a non-whitespace character: `(?:\S)`.
    pub fn non_space(self) -> (r: Verex)
        ensures
            r@ == spec_add(self@, "(?:\\S)"@),
    {
        self.add("(?:\\S)")
    }

    /// Match any character of the class `value`: `[value]`.
    pub fn any_of(self, value: &str) -> (r: Verex)
        ensures
            r@ == spec_add(self@, "["@ + value@ + "]"@),
    {
        let ghost b = self@;
        let mut frag = String::new();
        frag.append("[");
        frag.append(value);
        frag.append("]");
        let r = self.add(frag.as_str());
        proof {
            assert(r@ =~= spec_add(b, "["@ + value@ + "]"@));
        }
        r
    }

    /// Match any character of the class `value`; the same as `any_of`.
    pub fn any(self, value: &str) -> (r: Verex)
        ensures
            r@ == spec_add(self@, "["@ + value@ + "]"@),
    {
        self.any_of(value)
    }

    /// Match any character of the ranges given as `(from, to)` pairs:
    /// `[from-to...]`.
    pub fn range(self, pairs: &[(&str, &str)]) -> (r: Verex)
        ensures
            r@ == spec_add(self@, "["@ + ranges_body(pairs.deep_view()) + "]"@),
    {
        let ghost b = self@;
        let ghost pv = pairs.deep_view();
        let mut frag = String::new();
        frag.append("[");
        let mut i: usize = 0;
        while i < pairs.len()
            invariant
                i <= pairs.len(),
                pv.len() == pairs@.len(),
                forall|j: int|
                    0 <= j < pairs@.len() ==> pv[j] == (pairs@[j].0@, pairs@[j].1@),
                frag@ =~= "["@ + ranges_body(pv.take(i as int)),
            decreases pairs.len() - i,
        {
            let pair = pairs[i];
            frag.append(pair.0);
            frag.append("-");
            frag.append(pair.1);
            proof {
                assert(pv.take(i + 1 as int).drop_last() =~= pv.take(i as int));
                assert(frag@ =~= "["@ + ranges_body(pv.take(i + 1 as int)));
            }
            i += 1;
        }
        proof {
            assert(pv.take(pairs@.len() as int) =~= pv);
        }
        frag.append("]");
        let r = self.add(frag.as_str());
        proof {
            assert(r@ =~= spec_add(b, "["@ + ranges_body(pv) + "]"@));
        }
        r
    }

    /// Turn the inline modifiers `modifier` on: `(?modifier)`.
    pub fn add_modifier(self, modifier: &str) -> (r: Verex)
        ensures
            r@ == spec_add(self@, "(?"@ + modifier@ + ")"@),
    {
        let ghost b = self@;
        let mut frag = String::new();
        frag.append("(?");
        frag.append(modifier);
        frag.append(")");
        let r = self.add(frag.as_str());
        proof {
            assert(r@ =~= spec_add(b, "(?"@ + modifier@ + ")"@));
        }
        r
    }

    /// Turn the inline modifiers `modifier` off: `(?-modifier)`.
    pub fn remove_modifier(self, modifier: &str) -> (r: Verex)
        ensures
            r@ == spec_add(self@, "(?-"@ + modifier@ + ")"@),
    {
        let ghost b = self@;
        let mut frag = String::new();
        frag.append("(?-");
        frag.append(modifier);
        frag.append(")");
        let r = self.add(frag.as_str());
        proof {
            assert(r@ =~= spec_add(b, "(?-"@ + modifier@ + ")"@));
        }
        r
    }

    /// Make matching case-insensitive: `(?i)`.
    pub fn with_any_case(self) -> (r: Verex)
        ensures
            r@ == spec_add(self@, "(?"@ + "i"@ + ")"@),
    {
        self.add_modifier("i")
    }

    /// Make matching case-sensitive again: `(?-i)`.
    pub fn with_specific_case(self) -> (r: Verex)
        ensures
            r@ == spec_add(self@, "(?-"@ + "i"@ + ")"@),
    {
        self.remove_modifier("i")
    }

    /// Let `^` and `$` match at line breaks: `(?m)`.
    pub fn search_multiline(self) -> (r: Verex)
        ensures
            r@ == spec_add(self@, "(?"@ + "m"@ + ")"@),
    {
        self.add_modifier("m")
    }

    /// Let `^` and `$` match only at the text's ends again: `(?-m)`.
    pub fn search_oneline(self) -> (r: Verex)
        ensures
            r@ == spec_add(self@, "(?-"@ + "m"@ + ")"@),
    {
        self.remove_modifier("m")
    }

    /// Match `value` one or more times, a fixed number of times, or a range
    /// of times, depending on how many counts are supplied.
    pub fn multiple(self, value: &str, counts: &[i32]) -> (r: Verex)
        ensures
            r@ == spec_multiple(self@, value@, counts@),
    {
        if counts.len() == 0 {
            self.find(value).one_or_more()
        } else if counts.len() == 1 {
            self.find(value).count(counts[0])
        } else {
            self.find(value).count_range(counts[0], counts[1])
        }
    }

    /// Repeat the preceding group one or more times: `+`.
    pub fn one_or_more(self) -> (r: Verex)
        ensures
            r@ == spec_add(self@, "+"@),
    {
        self.add("+")
    }

    /// Repeat the preceding group zero or more times: `*`.
    pub fn zero_or_more(self) -> (r: Verex)
        ensures
            r@ == spec_add(self@, "*"@),
    {
        self.add("*")
    }

    /// Repeat the preceding group exactly `count` times: `{count}`.
    pub fn count(self, count: i32) -> (r: Verex)
        ensures
            r@ == spec_count(self@, count as int),
    {
        let ghost b = self@;
        let mut frag = String::new();
        frag.append("{");
        push_decimal(&mut frag, count);
        frag.append("}");
        let r = self.add(frag.as_str());
        proof {
            assert(r@ =~= spec_count(b, count as int));
        }
        r
    }

    /// Repeat the preceding group between `from` and `to` times: `{from,to}`.
    pub fn count_range(self, from: i32, to: i32) -> (r: Verex)
        ensures
            r@ == spec_count_range(self@, from as int, to as int),
    {
        let ghost b = self@;
        let mut frag = String::new();
        frag.append("{");
        push_decimal(&mut frag, from);
        frag.append(",");
        push_decimal(&mut frag, to);
        frag.append("}");
        let r = self.add(frag.as_str());
        proof {
            assert(r@ =~= spec_count_range(b, from as int, to as int));
        }
        r
    }

    /// Repeat the preceding group at least `from` times: `{from,}`.
    pub fn at_least(self, from: i32) -> (r: Verex)
        ensures
            r@ == spec_at_least(self@, from as int),
    {
        let ghost b = self@;
        let mut frag = String::new();
        frag.append("{");
        push_decimal(&mut frag, from);
        frag.append(",}");
        let r = self.add(frag.as_str());
        proof {
            assert(r@ =~= spec_at_least(b, from as int));
        }
        r
    }

    /// Alternation: everything assembled so far, or `value`.  One wrapping
    /// paren is added to `prefix` and to `suffix` only if that segment holds
    /// none yet — a substring-presence test, not a balance count, kept as the
    /// established (and knowingly sharp-edged) behaviour.
    pub fn or(self, value: &str) -> (r: Self)
        ensures
            r@ == spec_or(self@, value@),
    {
        let ghost b = self@;
        let mut v = self;
        if !str_contains_char(v.prefix.as_str(), '(') {
            v.prefix.append("(");
        }
        if !str_contains_char(v.suffix.as_str(), ')') {
            v.suffix.append(")");
        }
        let r = v.add(")|(").find(value);
        proof {
            assert(r@ =~= spec_or(b, value@));
        }
        r
    }

    /// Open a capture group: `(` goes to the body, and the matching `)` is
    /// reserved at the end of the suffix.
    pub fn begin_capture(self) -> (r: Self)
        ensures
            r@ == (VerexView {
                source: self@.source + "("@,
                suffix: self@.suffix + ")"@,
                ..self@
            }),
    {
        let mut v = self;
        v.suffix.append(")");
        v.add("(")
    }

    /// Close the most recently opened capture group: the reserved `)` is
    /// removed from the end of the suffix and appended to the body instead.
    /// Calling this with nothing reserved in the suffix is a caller error;
    /// the suffix must not be empty.
    pub fn end_capture(self) -> (r: Verex)
        requires
            self@.suffix.len() >= 1,
        ensures
            r@ == (VerexView {
                source: self@.source + ")"@,
                suffix: self@.suffix.drop_last(),
                ..self@
            }),
    {
        let Verex { prefix, source, suffix } = self;
        let n = suffix.as_str().unicode_len();
        let shortened = suffix.as_str().substring_char(0, n - 1).to_owned();
        Verex::from(prefix, source, shortened).add(")")
    }

    /// The rendered pattern of this builder: `prefix + source + suffix`.
    pub fn pattern(&self) -> (r: String)
        ensures
            r@ == spec_render(self@),
    {
        let mut r = String::new();
        r.append(self.prefix.as_str());
        r.append(self.source.as_str());
        r.append(self.suffix.as_str());
        proof {
            assert(r@ =~= spec_render(self@));
        }
        r
    }

    /// Consume the builder and return its rendered pattern.
    pub fn as_string(self) -> (r: String)
        ensures
            r@ == spec_render(self@),
    {
        self.pattern()
    }
}

} // verus!
