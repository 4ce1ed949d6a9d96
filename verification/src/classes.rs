//! Tailwind class lists: splitting whitespace-separated class strings into
//! individual tokens, and the inputs that can contribute tokens to a list.

use vstd::prelude::*;
use vstd::string::StrSliceExecFns;
use vstd::string::StringExecFns;

verus! {

/// A whitespace-split Tailwind class list.
pub type TailwindClasses = Vec<String>;

/// Whether `c` separates class tokens: the Unicode white-space characters.
pub open spec fn is_tw_whitespace(c: char) -> bool {
    c == ' ' || c == '\t' || c == '\n' || c == '\u{b}' || c == '\u{c}' || c == '\r' || c
        == '\u{85}' || c == '\u{a0}' || c == '\u{1680}' || c == '\u{2000}' || c == '\u{2001}' || c
        == '\u{2002}' || c == '\u{2003}' || c == '\u{2004}' || c == '\u{2005}' || c == '\u{2006}'
        || c == '\u{2007}' || c == '\u{2008}' || c == '\u{2009}' || c == '\u{200a}' || c
        == '\u{2028}' || c == '\u{2029}' || c == '\u{202f}' || c == '\u{205f}' || c == '\u{3000}'
}

/// Whether `c` separates class tokens.
pub fn is_whitespace_char(c: char) -> (r: bool)
    ensures
        r == is_tw_whitespace(c),
{
    c == ' ' || c == '\t' || c == '\n' || c == '\u{b}' || c == '\u{c}' || c == '\r' || c
        == '\u{85}' || c == '\u{a0}' || c == '\u{1680}' || c == '\u{2000}' || c == '\u{2001}' || c
        == '\u{2002}' || c == '\u{2003}' || c == '\u{2004}' || c == '\u{2005}' || c == '\u{2006}'
        || c == '\u{2007}' || c == '\u{2008}' || c == '\u{2009}' || c == '\u{200a}' || c
        == '\u{2028}' || c == '\u{2029}' || c == '\u{202f}' || c == '\u{205f}' || c == '\u{3000}'
}

/// End of the token starting at `i`: the first whitespace position at or
/// after `i`, or the end of the string.
pub open spec fn token_end(s: Seq<char>, i: int) -> int
    decreases s.len() - i,
{
    if i < 0 || i >= s.len() || is_tw_whitespace(s[i]) {
        i
    } else {
        token_end(s, i + 1)
    }
}

proof fn lemma_token_end(s: Seq<char>, i: int)
    requires
        0 <= i <= s.len(),
    ensures
        i <= token_end(s, i) <= s.len(),
        forall|k: int| i <= k < token_end(s, i) ==> !is_tw_whitespace(s[k]),
        i < s.len() && !is_tw_whitespace(s[i]) ==> token_end(s, i) > i,
    decreases s.len() - i,
{
    if i < s.len() && !is_tw_whitespace(s[i]) {
        lemma_token_end(s, i + 1);
    }
}

/// A stretch of non-whitespace characters that ends at the string's end or
/// at a whitespace character is exactly one token.
proof fn lemma_token_end_at(s: Seq<char>, i: int, j: int)
    requires
        0 <= i <= j <= s.len(),
        forall|k: int| i <= k < j ==> !is_tw_whitespace(s[k]),
        j == s.len() || is_tw_whitespace(s[j]),
    ensures
        token_end(s, i) == j,
    decreases j - i,
{
    if i < j {
        lemma_token_end_at(s, i + 1, j);
    }
}

/// The whitespace-separated tokens of `s` from position `i` on: maximal
/// stretches of non-whitespace characters, in order.
pub open spec fn split_ws_from(s: Seq<char>, i: int) -> Seq<Seq<char>>
    decreases s.len() - i,
    via split_ws_from_decreases
{
    if i < 0 || i >= s.len() {
        Seq::empty()
    } else if is_tw_whitespace(s[i]) {
        split_ws_from(s, i + 1)
    } else {
        seq![s.subrange(i, token_end(s, i))] + split_ws_from(s, token_end(s, i))
    }
}

#[via_fn]
proof fn split_ws_from_decreases(s: Seq<char>, i: int) {
    if 0 <= i < s.len() && !is_tw_whitespace(s[i]) {
        lemma_token_end(s, i);
    }
}

/// The whitespace-separated tokens of `s`.
pub open spec fn split_ws(s: Seq<char>) -> Seq<Seq<char>> {
    split_ws_from(s, 0)
}

/// Split `s` into its whitespace-separated tokens, in order.
pub fn split_whitespace_tokens(s: &str) -> (r: Vec<String>)
    ensures
        r.deep_view() == split_ws(s@),
{
    let n = s.unicode_len();
    let mut r: Vec<String> = Vec::new();
    let mut i: usize = 0;
    while i < n
        invariant
            0 <= i <= n,
            n == s@.len(),
            r.deep_view() + split_ws_from(s@, i as int) == split_ws(s@),
        decreases n - i,
    {
        let c = s.get_char(i);
        if is_whitespace_char(c) {
            proof {
                assert(split_ws_from(s@, i as int) == split_ws_from(s@, i as int + 1));
            }
            i += 1;
        } else {
            let mut j: usize = i + 1;
            let mut inside = true;
            while inside && j < n
                invariant
                    0 <= i < j <= n,
                    n == s@.len(),
                    forall|k: int| i <= k < j ==> !is_tw_whitespace(s@[k]),
                    !inside ==> j < n && is_tw_whitespace(s@[j as int]),
                decreases n - j, (if inside {
                    1int
                } else {
                    0int
                }),
            {
                let cj = s.get_char(j);
                if is_whitespace_char(cj) {
                    inside = false;
                } else {
                    j += 1;
                }
            }
            proof {
                lemma_token_end_at(s@, i as int, j as int);
            }
            let tok = s.substring_char(i, j);
            let ghost pre = r.deep_view();
            r.push(String::from_str(tok));
            proof {
                assert(r.deep_view() =~= pre.push(tok@));
                assert(split_ws_from(s@, i as int) == seq![s@.subrange(i as int, j as int)]
                    + split_ws_from(s@, j as int));
                assert(r.deep_view() + split_ws_from(s@, j as int) =~= split_ws(s@));
            }
            i = j;
        }
    }
    proof {
        assert(r.deep_view() =~= split_ws(s@));
    }
    r
}

/// Append the whitespace-split tokens of `input` to `classes`, in order.
pub fn push_classes(classes: &mut Vec<String>, input: &str)
    ensures
        final(classes).deep_view() == old(classes).deep_view() + split_ws(input@),
{
    let toks = split_whitespace_tokens(input);
    let mut i: usize = 0;
    while i < toks.len()
        invariant
            0 <= i <= toks.len(),
            toks.deep_view() == split_ws(input@),
            classes.deep_view() == old(classes).deep_view() + toks.deep_view().take(i as int),
        decreases toks.len() - i,
    {
        let ghost pre = classes.deep_view();
        classes.push(toks[i].clone());
        proof {
            assert(classes.deep_view() =~= pre.push(toks.deep_view()[i as int]));
            assert(toks.deep_view().take(i as int + 1) =~= toks.deep_view().take(i as int).push(
                toks.deep_view()[i as int],
            ));
            assert(classes.deep_view() =~= old(classes).deep_view() + toks.deep_view().take(
                i as int + 1,
            ));
        }
        i += 1;
    }
    proof {
        assert(toks.deep_view().take(toks.deep_view().len() as int) =~= toks.deep_view());
        assert(classes.deep_view() =~= old(classes).deep_view() + split_ws(input@));
    }
}

/// Inputs that can be appended to a Tailwind class list.
pub trait TwInput {
    /// The class tokens this input contributes.
    spec fn tokens_spec(&self) -> Seq<Seq<char>>;

    /// Append this input's tokens to an existing class list.
    fn append_to(self, classes: &mut Vec<String>)
        ensures
            final(classes).deep_view() == old(classes).deep_view() + self.tokens_spec(),
    ;
}

impl TwInput for &str {
    open spec fn tokens_spec(&self) -> Seq<Seq<char>> {
        split_ws(self@)
    }

    fn append_to(self, classes: &mut Vec<String>) {
        push_classes(classes, self);
    }
}

impl TwInput for String {
    open spec fn tokens_spec(&self) -> Seq<Seq<char>> {
        split_ws(self@)
    }

    fn append_to(self, classes: &mut Vec<String>) {
        push_classes(classes, self.as_str());
    }
}

impl TwInput for &Vec<String> {
    /// An already-split class list contributes its tokens verbatim.
    open spec fn tokens_spec(&self) -> Seq<Seq<char>> {
        (*self).deep_view()
    }

    fn append_to(self, classes: &mut Vec<String>) {
        let mut i: usize = 0;
        while i < self.len()
            invariant
                0 <= i <= self.len(),
                classes.deep_view() == old(classes).deep_view() + self.deep_view().take(i as int),
            decreases self.len() - i,
        {
            let ghost pre = classes.deep_view();
            classes.push(self[i].clone());
            proof {
                assert(classes.deep_view() =~= pre.push(self.deep_view()[i as int]));
                assert(self.deep_view().take(i as int + 1) =~= self.deep_view().take(
                    i as int,
                ).push(self.deep_view()[i as int]));
                assert(classes.deep_view() =~= old(classes).deep_view() + self.deep_view().take(
                    i as int + 1,
                ));
            }
            i += 1;
        }
        proof {
            assert(self.deep_view().take(self@.len() as int) =~= self.deep_view());
            assert(TwInput::tokens_spec(&self) =~= self.deep_view());
            assert(classes.deep_view() =~= old(classes).deep_view() + TwInput::tokens_spec(
                &self,
            ));
        }
    }
}

impl<T: TwInput> TwInput for Option<T> {
    open spec fn tokens_spec(&self) -> Seq<Seq<char>> {
        match self {
            Option::Some(v) => v.tokens_spec(),
            Option::None => Seq::empty(),
        }
    }

    fn append_to(self, classes: &mut Vec<String>) {
        match self {
            Option::Some(v) => {
                v.append_to(classes);
            },
            Option::None => {
                proof {
                    assert(classes.deep_view() =~= old(classes).deep_view()
                        + self.tokens_spec());
                }
            },
        }
    }
}

impl<T: TwInput> TwInput for Vec<T> {
    open spec fn tokens_spec(&self) -> Seq<Seq<char>> {
        self@.map_values(|t: T| t.tokens_spec()).flatten()
    }

    fn append_to(self, classes: &mut Vec<String>) {
        let ghost goal = self.tokens_spec();
        let mut rest = self;
        while rest.len() > 0
            invariant
                classes.deep_view() + rest@.map_values(|t: T| t.tokens_spec()).flatten()
                    == old(classes).deep_view() + goal,
            decreases rest.len(),
        {
            let ghost rest_tokens = rest@.map_values(|t: T| t.tokens_spec());
            let head = rest.remove(0);
            head.append_to(classes);
            proof {
                assert(rest_tokens =~= seq![head.tokens_spec()] + rest@.map_values(
                    |t: T| t.tokens_spec(),
                ));
                assert(rest_tokens.flatten() == head.tokens_spec() + rest@.map_values(
                    |t: T| t.tokens_spec(),
                ).flatten()) by {
                    rest_tokens.lemma_flatten_and_flatten_alt_are_equivalent();
                    assert(rest_tokens.drop_first() =~= rest@.map_values(
                        |t: T| t.tokens_spec(),
                    ));
                };
            }
        }
        proof {
            assert(rest@.map_values(|t: T| t.tokens_spec()).flatten() =~= Seq::<
                Seq<char>,
            >::empty());
            assert(classes.deep_view() =~= old(classes).deep_view() + goal);
        }
    }
}

/// Relies on `Vec::from`: the vector holds the array's elements in order.
#[verifier::external_body]
fn array_to_vec<T, const N: usize>(a: [T; N]) -> (r: Vec<T>)
    ensures
        r@ == a@,
{
    Vec::from(a)
}

impl<T: TwInput, const N: usize> TwInput for [T; N] {
    open spec fn tokens_spec(&self) -> Seq<Seq<char>> {
        self@.map_values(|t: T| t.tokens_spec()).flatten()
    }

    fn append_to(self, classes: &mut Vec<String>) {
        let v = array_to_vec(self);
        proof {
            assert(v@.map_values(|t: T| t.tokens_spec()).flatten() == self@.map_values(
                |t: T| t.tokens_spec(),
            ).flatten());
        }
        v.append_to(classes);
    }
}

/// Build a Tailwind class list from a single input.
pub fn tw<T: TwInput>(input: T) -> (r: TailwindClasses)
    ensures
        r.deep_view() == input.tokens_spec(),
{
    let ghost goal = input.tokens_spec();
    let mut classes: Vec<String> = Vec::new();
    input.append_to(&mut classes);
    proof {
        assert(classes.deep_view() =~= goal);
    }
    classes
}

} // verus!
