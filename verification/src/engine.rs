//! The terminal operations: delegation of matching, capturing, splitting and
//! replacing to the regex engine.
//!
//! The builder's own contract ends at the rendered pattern string.  What the
//! engine makes of that string is out of the builder's scope, so the engine's
//! verdicts are named, not restated: each is a fixed function of the pattern
//! and the haystack alone.

use vstd::prelude::*;

use vstd::pervasive::unreached;

use crate::builder::{spec_render, Verex};

verus! {

#[verifier::external_type_specification]
#[verifier::external_body]
pub struct ExRegex(regex::Regex);

#[verifier::external_type_specification]
#[verifier::external_body]
pub struct ExRegexError(regex::Error);

/// Whether the engine accepts `p` as a pattern: exactly when
/// `regex::Regex::new` returns `Ok`.  Compilation is a deterministic
/// function of the pattern string (and the engine's fixed default limits).
pub uninterp spec fn pattern_ok(p: Seq<char>) -> bool;

/// The pattern a compiled `regex::Regex` holds, the one it was built from:
/// what `regex::Regex::as_str` returns.
pub uninterp spec fn regex_source(re: regex::Regex) -> Seq<char>;

/// The engine's match verdict for pattern `p` on haystack `t`: what
/// `regex::Regex::is_match` returns for a regex compiled from `p`.
pub uninterp spec fn engine_match(p: Seq<char>, t: Seq<char>) -> bool;

/// The engine's capture groups for the first match of `p` in `t`: `None`
/// where `p` does not match `t` at all, otherwise one entry per group (the
/// whole match first), each `Some` text or `None` for a group that took no
/// part in the match.  What `regex::Regex::captures` returns for a regex
/// compiled from `p`.
pub uninterp spec fn engine_captures(p: Seq<char>, t: Seq<char>) -> Option<Seq<Option<Seq<char>>>>;

/// The engine's split of `t` around the matches of `p`: what
/// `regex::Regex::split` yields for a regex compiled from `p`.
pub uninterp spec fn engine_split(p: Seq<char>, t: Seq<char>) -> Seq<Seq<char>>;

/// `t` with the first match of `p` replaced by `rep` (with the engine's
/// group-reference expansion): what `regex::Regex::replace` returns for a
/// regex compiled from `p`.
pub uninterp spec fn engine_replace(p: Seq<char>, t: Seq<char>, rep: Seq<char>) -> Seq<char>;

/// Whether every capture group took part wherever the pattern matched at all.
pub open spec fn captures_complete(c: Option<Seq<Option<Seq<char>>>>) -> bool {
    c matches Some(gs) ==> forall|i: int| 0 <= i < gs.len() ==> gs[i] is Some
}

/// The capture texts as `captures` hands them out: empty when there was no
/// match, otherwise every group's text in order.
pub open spec fn captures_texts(c: Option<Seq<Option<Seq<char>>>>) -> Seq<Seq<char>> {
    match c {
        Some(gs) => Seq::new(gs.len(), |i: int| gs[i]->0),
        None => Seq::empty(),
    }
}

/// Relies on `regex::Regex::new`: it returns `Ok` exactly on the patterns the
/// engine accepts, and the compiled regex keeps the pattern it was built from
/// (`regex::Regex::as_str` returns the original string).
#[verifier::external_body]
fn regex_new(p: &str) -> (r: Result<regex::Regex, regex::Error>)
    ensures
        r is Ok <==> pattern_ok(p@),
        r matches Ok(re) ==> regex_source(re) == p@,
{
    regex::Regex::new(p)
}

/// Relies on `regex::Regex::is_match`: the verdict depends on the compiled
/// pattern and the haystack alone.
#[verifier::external_body]
fn regex_is_match(re: &regex::Regex, text: &str) -> (r: bool)
    ensures
        r == engine_match(regex_source(*re), text@),
{
    re.is_match(text)
}

/// Relies on `regex::Regex::captures`: the capture groups of the first match
/// depend on the compiled pattern and the haystack alone; a group that took
/// no part in the match is reported as `None`.
#[verifier::external_body]
fn regex_captures(re: &regex::Regex, text: &str) -> (r: Option<Vec<Option<String>>>)
    ensures
        r.deep_view() == engine_captures(regex_source(*re), text@),
{
    re.captures(text).map(|caps| caps.iter().map(|g| g.map(|m| m.as_str().to_string())).collect())
}

/// Relies on `regex::Regex::split`: the pieces of the haystack between the
/// matches depend on the compiled pattern and the haystack alone.
#[verifier::external_body]
fn regex_split_all(re: &regex::Regex, text: &str) -> (r: Vec<String>)
    ensures
        r.deep_view() == engine_split(regex_source(*re), text@),
{
    re.split(text).map(|part| part.to_string()).collect()
}

/// Relies on `regex::Regex::replace`: the result of replacing the first match
/// depends on the compiled pattern, the haystack and the replacement alone.
#[verifier::external_body]
fn regex_replace_first(re: &regex::Regex, text: &str, rep: &str) -> (r: String)
    ensures
        r@ == engine_replace(regex_source(*re), text@, rep@),
{
    re.replace(text, rep).into_owned()
}

impl Verex {
    /// Compile the rendered pattern, which the caller must know the engine
    /// accepts; `compile` is the door that finds that out first.
    pub fn as_regex(self) -> (r: regex::Regex)
        requires
            pattern_ok(spec_render(self@)),
        ensures
            regex_source(r) == spec_render(self@),
    {
        let p = self.as_string();
        match regex_new(p.as_str()) {
            Ok(re) => re,
            Err(_) => unreached(),
        }
    }

    /// Render and compile the pattern, handing the engine's diagnostic back
    /// unchanged when the engine does not accept it.
    pub fn compile(self) -> (r: Result<regex::Regex, regex::Error>)
        ensures
            r is Ok <==> pattern_ok(spec_render(self@)),
            r matches Ok(re) ==> regex_source(re) == spec_render(self@),
    {
        let p = self.pattern();
        match regex_new(p.as_str()) {
            Ok(_) => Ok(self.as_regex()),
            Err(e) => Err(e),
        }
    }

    /// Whether the rendered pattern matches anywhere in `text`.  The caller
    /// must know the pattern to be one the engine accepts; `try_is_match`
    /// needs no such knowledge.
    pub fn is_match(self, text: &str) -> (r: bool)
        requires
            pattern_ok(spec_render(self@)),
        ensures
            r == engine_match(spec_render(self@), text@),
    {
        let ghost b = self@;
        let re = self.as_regex();
        regex_is_match(&re, text)
    }

    /// Compile the rendered pattern and test `text` against it: `None` when
    /// the engine does not accept the pattern.
    pub fn try_is_match(self, text: &str) -> (r: Option<bool>)
        ensures
            r is Some <==> pattern_ok(spec_render(self@)),
            r matches Some(m) ==> m == engine_match(spec_render(self@), text@),
    {
        let p = self.pattern();
        match regex_new(p.as_str()) {
            Ok(_) => Some(self.is_match(text)),
            Err(_) => None,
        }
    }

    /// The capture texts of the first match of the rendered pattern in
    /// `text`: empty when the pattern does not match.  The caller must know
    /// that the engine accepts the pattern and that every group takes part
    /// wherever the pattern matches; `try_captures` needs no such knowledge.
    pub fn captures(self, text: &str) -> (r: Vec<String>)
        requires
            pattern_ok(spec_render(self@)),
            captures_complete(engine_captures(spec_render(self@), text@)),
        ensures
            r.deep_view() == captures_texts(engine_captures(spec_render(self@), text@)),
    {
        let ghost b = self@;
        let ghost c = engine_captures(spec_render(b), text@);
        let re = self.as_regex();
        match regex_captures(&re, text) {
            None => {
                let r: Vec<String> = Vec::new();
                proof {
                    assert(r.deep_view() =~= captures_texts(c));
                }
                r
            },
            Some(groups) => {
                let ghost gs = c->0;
                let mut out: Vec<String> = Vec::new();
                let mut i: usize = 0;
                while i < groups.len()
                    invariant
                        groups.deep_view() == gs,
                        captures_complete(c),
                        c == Some(gs),
                        i <= groups.len(),
                        out.deep_view() =~= captures_texts(c).take(i as int),
                    decreases groups.len() - i,
                {
                    proof {
                        assert(groups@[i as int].deep_view() == gs[i as int]);
                    }
                    let ghost prev = out.deep_view();
                    let g: &String = match &groups[i] {
                        Some(s) => {
                            proof {
                                assert(gs[i as int] == Some(s@));
                            }
                            s
                        },
                        None => unreached(),
                    };
                    out.push(g.clone());
                    proof {
                        assert(out.deep_view() =~= prev.push(g@));
                        assert(captures_texts(c).take((i + 1) as int) =~= prev.push(g@));
                    }
                    i += 1;
                }
                proof {
                    assert(out.deep_view() =~= captures_texts(c));
                }
                out
            },
        }
    }

    /// Compile the rendered pattern and capture on `text`: `None` when the
    /// engine does not accept the pattern, or when some group took no part in
    /// the match (there `captures` has nothing it could hand out).
    pub fn try_captures(self, text: &str) -> (r: Option<Vec<String>>)
        ensures
            r is Some <==> pattern_ok(spec_render(self@)) && captures_complete(
                engine_captures(spec_render(self@), text@),
            ),
            r matches Some(v) ==> v.deep_view() == captures_texts(
                engine_captures(spec_render(self@), text@),
            ),
    {
        let ghost b = self@;
        let ghost c = engine_captures(spec_render(b), text@);
        let p = self.pattern();
        match regex_new(p.as_str()) {
            Err(_) => None,
            Ok(re) => {
                match regex_captures(&re, text) {
                    None => Some(self.captures(text)),
                    Some(groups) => {
                        let ghost gs = c->0;
                        let mut i: usize = 0;
                        while i < groups.len()
                            invariant
                                groups.deep_view() == gs,
                                c == Some(gs),
                                c == engine_captures(spec_render(self@), text@),
                                i <= groups.len(),
                                forall|j: int| 0 <= j < i ==> gs[j] is Some,
                            decreases groups.len() - i,
                        {
                            proof {
                                assert(groups@[i as int].deep_view() == gs[i as int]);
                            }
                            let gi = &groups[i];
                            if gi.is_none() {
                                proof {
                                    assert(gs[i as int] is None);
                                    assert(!captures_complete(c));
                                }
                                return None;
                            }
                            i += 1;
                        }
                        Some(self.captures(text))
                    },
                }
            },
        }
    }

    /// The pieces of `text` between the matches of the rendered pattern.  The
    /// caller must know the pattern to be one the engine accepts; `try_split`
    /// needs no such knowledge.
    pub fn split(self, text: &str) -> (r: Vec<String>)
        requires
            pattern_ok(spec_render(self@)),
        ensures
            r.deep_view() == engine_split(spec_render(self@), text@),
    {
        let ghost b = self@;
        let re = self.as_regex();
        regex_split_all(&re, text)
    }

    /// Compile the rendered pattern and split `text` around its matches:
    /// `None` when the engine does not accept the pattern.
    pub fn try_split(self, text: &str) -> (r: Option<Vec<String>>)
        ensures
            r is Some <==> pattern_ok(spec_render(self@)),
            r matches Some(v) ==> v.deep_view() == engine_split(spec_render(self@), text@),
    {
        let p = self.pattern();
        match regex_new(p.as_str()) {
            Ok(_) => Some(self.split(text)),
            Err(_) => None,
        }
    }

    /// `text` with the first match of the rendered pattern replaced by `rep`.
    /// The caller must know the pattern to be one the engine accepts;
    /// `try_replace` needs no such knowledge.
    pub fn replace(self, text: &str, rep: &str) -> (r: String)
        requires
            pattern_ok(spec_render(self@)),
        ensures
            r@ == engine_replace(spec_render(self@), text@, rep@),
    {
        let ghost b = self@;
        let re = self.as_regex();
        regex_replace_first(&re, text, rep)
    }

    /// Compile the rendered pattern and replace its first match in `text` by
    /// `rep`: `None` when the engine does not accept the pattern.
    pub fn try_replace(self, text: &str, rep: &str) -> (r: Option<String>)
        ensures
            r is Some <==> pattern_ok(spec_render(self@)),
            r matches Some(s) ==> s@ == engine_replace(spec_render(self@), text@, rep@),
    {
        let p = self.pattern();
        match regex_new(p.as_str()) {
            Ok(_) => Some(self.replace(text, rep)),
            Err(_) => None,
        }
    }
}

} // verus!
