//! Framing of the text that the language model returns.
//!
//! The model is asked for a JSON object, but it may wrap it in white space,
//! in a Markdown code fence, or in prose. This module finds the text to
//! decode: the answer with its fence removed, and within it the outermost
//! JSON object, from the first `{` to the last `}`.

use vstd::prelude::*;
use crate::text::{chars_of, string_from_chars, trim, trimmed};

verus! {

/// Why the model's answer could not be framed.
#[derive(Debug, Clone, Copy, PartialEq, Eq, Structural)]
pub enum LlmOutputError {
    /// The answer held nothing but white space.
    Empty,
}

impl LlmOutputError {
    /// The message that reports this error.
    pub fn message(&self) -> (msg: String)
        ensures
            msg@ == "LLM returned empty output, expected a ConveyorSpec JSON object"@,
    {
        String::from_str("LLM returned empty output, expected a ConveyorSpec JSON object")
    }
}

/// The opening and closing Markdown code fence.
pub open spec fn fence() -> Seq<char> {
    seq!['`', '`', '`']
}

/// The opening fence of a JSON code block.
pub open spec fn json_fence() -> Seq<char> {
    seq!['`', '`', '`', 'j', 's', 'o', 'n']
}

/// `s` without the prefix `p`, when `s` starts with `p`.
pub open spec fn strip_prefix(s: Seq<char>, p: Seq<char>) -> Option<Seq<char>> {
    if p.len() <= s.len() && s.take(p.len() as int) == p {
        Some(s.skip(p.len() as int))
    } else {
        None
    }
}

/// `s` without the suffix `p`, when `s` ends with `p`.
pub open spec fn strip_suffix(s: Seq<char>, p: Seq<char>) -> Option<Seq<char>> {
    if p.len() <= s.len() && s.skip(s.len() - p.len()) == p {
        Some(s.take(s.len() - p.len()))
    } else {
        None
    }
}

/// The answer `t` with its code fence removed: when `t` opens with
/// "```json" (or else with "```") and what follows closes with "```", the
/// text between the fences without surrounding white space; otherwise `t`
/// as it is.
pub open spec fn unfenced(t: Seq<char>) -> Seq<char> {
    let opened = match strip_prefix(t, json_fence()) {
        Some(rest) => Some(rest),
        None => strip_prefix(t, fence()),
    };
    match opened {
        Some(rest) => match strip_suffix(rest, fence()) {
            Some(body) => trimmed(body),
            None => t,
        },
        None => t,
    }
}

/// `i` is the first position of `c` in `s`.
pub open spec fn is_first_index(s: Seq<char>, c: char, i: int) -> bool {
    &&& 0 <= i < s.len()
    &&& s[i] == c
    &&& forall|j: int| 0 <= j < i ==> s[j] != c
}

/// `i` is the last position of `c` in `s`.
pub open spec fn is_last_index(s: Seq<char>, c: char, i: int) -> bool {
    &&& 0 <= i < s.len()
    &&& s[i] == c
    &&& forall|j: int| i < j < s.len() ==> s[j] != c
}

/// The first position of `c` in `s`, if `c` occurs.
pub open spec fn first_index_of(s: Seq<char>, c: char) -> Option<int> {
    if s.contains(c) {
        Some(choose|i: int| is_first_index(s, c, i))
    } else {
        None
    }
}

/// The last position of `c` in `s`, if `c` occurs.
pub open spec fn last_index_of(s: Seq<char>, c: char) -> Option<int> {
    if s.contains(c) {
        Some(choose|i: int| is_last_index(s, c, i))
    } else {
        None
    }
}

/// The first `{` of `s` stands more than one place after its last `}`:
/// there is no object between them, and the slice from one to the other
/// does not exist.
pub open spec fn braces_reversed(s: Seq<char>) -> bool {
    match (first_index_of(s, '{'), last_index_of(s, '}')) {
        (Some(a), Some(b)) => a > b && a - b > 1,
        _ => false,
    }
}

/// The outermost JSON object of `s`: from its first `{` to its last `}`,
/// both included, when `s` holds both.
pub open spec fn json_object_span(s: Seq<char>) -> Option<Seq<char>> {
    match (first_index_of(s, '{'), last_index_of(s, '}')) {
        (Some(a), Some(b)) => Some(s.subrange(a, b + 1)),
        _ => None,
    }
}

proof fn lemma_first_index_exists(s: Seq<char>, c: char)
    requires
        s.contains(c),
    ensures
        exists|i: int| is_first_index(s, c, i),
    decreases s.len(),
{
    if s[0] == c {
        assert(is_first_index(s, c, 0));
    } else {
        let j = choose|j: int| 0 <= j < s.len() && s[j] == c;
        let t = s.drop_first();
        assert(t[j - 1] == c);
        lemma_first_index_exists(t, c);
        let i = choose|i: int| is_first_index(t, c, i);
        assert forall|k: int| 0 <= k < i + 1 implies s[k] != c by {
            if k > 0 {
                assert(s[k] == t[k - 1]);
            }
        }
        assert(is_first_index(s, c, i + 1));
    }
}

proof fn lemma_last_index_exists(s: Seq<char>, c: char)
    requires
        s.contains(c),
    ensures
        exists|i: int| is_last_index(s, c, i),
    decreases s.len(),
{
    if s.last() == c {
        assert(is_last_index(s, c, s.len() - 1));
    } else {
        let j = choose|j: int| 0 <= j < s.len() && s[j] == c;
        let t = s.drop_last();
        assert(t[j] == c);
        lemma_last_index_exists(t, c);
        let i = choose|i: int| is_last_index(t, c, i);
        assert forall|k: int| i < k < s.len() implies s[k] != c by {
            if k < s.len() - 1 {
                assert(s[k] == t[k]);
            }
        }
        assert(is_last_index(s, c, i));
    }
}

proof fn lemma_first_index_unique(s: Seq<char>, c: char, i: int)
    requires
        is_first_index(s, c, i),
    ensures
        first_index_of(s, c) == Some(i),
{
    assert(s.contains(c));
    let k = choose|k: int| is_first_index(s, c, k);
    assert(is_first_index(s, c, k));
    if k < i {
        assert(s[k] != c);
    }
    if i < k {
        assert(s[i] != c);
    }
}

proof fn lemma_last_index_unique(s: Seq<char>, c: char, i: int)
    requires
        is_last_index(s, c, i),
    ensures
        last_index_of(s, c) == Some(i),
{
    assert(s.contains(c));
    let k = choose|k: int| is_last_index(s, c, k);
    assert(is_last_index(s, c, k));
    if k < i {
        assert(s[i] != c);
    }
    if i < k {
        assert(s[k] != c);
    }
}

/// The object found in a text opens with `{` and closes with `}`, and no
/// `{` comes before it nor `}` after it; when the last `}` stands just
/// before the first `{`, what is found is empty.
pub proof fn lemma_json_object_span_bounds(s: Seq<char>)
    requires
        !braces_reversed(s),
        json_object_span(s) is Some,
    ensures
        ({
            let obj = json_object_span(s).unwrap();
            let a = first_index_of(s, '{').unwrap();
            let b = last_index_of(s, '}').unwrap();
            &&& a <= b ==> obj.len() > 0 && obj[0] == '{' && obj.last() == '}'
            &&& a == b + 1 ==> obj.len() == 0
            &&& obj == s.subrange(a, b + 1)
            &&& forall|j: int| 0 <= j < a ==> s[j] != '{'
            &&& forall|j: int| b < j < s.len() ==> s[j] != '}'
        }),
{
    let a = first_index_of(s, '{').unwrap();
    let b = last_index_of(s, '}').unwrap();
    assert(s.contains('{'));
    assert(s.contains('}'));
    lemma_first_index_exists(s, '{');
    lemma_last_index_exists(s, '}');
    assert(is_first_index(s, '{', a));
    assert(is_last_index(s, '}', b));
}

/// A text holds an object exactly when it holds a `{` and a `}`, and the
/// object then runs from the first `{` to the last `}`, both included,
/// wherever in the text they stand.
pub proof fn lemma_json_object_found(s: Seq<char>, a: int, b: int)
    requires
        0 <= a < s.len(),
        s[a] == '{',
        forall|j: int| 0 <= j < a ==> s[j] != '{',
        0 <= b < s.len(),
        s[b] == '}',
        forall|j: int| b < j < s.len() ==> s[j] != '}',
    ensures
        json_object_span(s) == Some(s.subrange(a, b + 1)),
{
    assert(is_first_index(s, '{', a));
    assert(is_last_index(s, '}', b));
    lemma_first_index_unique(s, '{', a);
    lemma_last_index_unique(s, '}', b);
}

/// A text without a `{`, or without a `}`, holds no object.
pub proof fn lemma_json_object_absent(s: Seq<char>)
    requires
        !s.contains('{') || !s.contains('}'),
    ensures
        json_object_span(s) is None,
{
}

/// An answer fenced as a JSON code block, "```json" then `body` then
/// "```", comes out as `body` without surrounding white space, whatever
/// `body` holds.
pub proof fn lemma_unfenced_json_block(body: Seq<char>)
    ensures
        unfenced(seq!['`', '`', '`', 'j', 's', 'o', 'n'] + body + seq!['`', '`', '`'])
            == trimmed(body),
{
    let t = json_fence() + body + fence();
    assert(seq!['`', '`', '`', 'j', 's', 'o', 'n'] + body + seq!['`', '`', '`'] =~= t);
    assert(t.take(7) =~= json_fence());
    let rest = t.skip(7);
    assert(rest =~= body + fence());
    assert(rest.skip(rest.len() - 3) =~= fence());
    assert(rest.take(rest.len() - 3) =~= body);
}

/// An answer fenced as a plain code block, "```" then `body` then "```",
/// where `body` does not open with "json", comes out as `body` without
/// surrounding white space, whatever else `body` holds.
pub proof fn lemma_unfenced_plain_block(body: Seq<char>)
    requires
        !(body.len() >= 4 && body.take(4) == seq!['j', 's', 'o', 'n']),
    ensures
        unfenced(seq!['`', '`', '`'] + body + seq!['`', '`', '`']) == trimmed(body),
{
    let t = fence() + body + fence();
    assert(seq!['`', '`', '`'] + body + seq!['`', '`', '`'] =~= t);
    if t.len() >= 7 && t.take(7) == json_fence() {
        assert(body.take(4) =~= t.take(7).skip(3));
        assert(json_fence().skip(3) =~= seq!['j', 's', 'o', 'n']);
    }
    assert(t.take(3) =~= fence());
    let rest = t.skip(3);
    assert(rest =~= body + fence());
    assert(rest.skip(rest.len() - 3) =~= fence());
    assert(rest.take(rest.len() - 3) =~= body);
}

/// An answer that does not open with "```" is left as it is.
pub proof fn lemma_unfenced_without_fence(t: Seq<char>)
    requires
        !(t.len() >= 3 && t.take(3) == seq!['`', '`', '`']),
    ensures
        unfenced(t) == t,
{
    if t.len() >= 7 && t.take(7) == json_fence() {
        assert(t.take(3) =~= t.take(7).take(3));
        assert(json_fence().take(3) =~= seq!['`', '`', '`']);
    }
}

fn find_first(v: &Vec<char>, c: char) -> (r: Option<usize>)
    ensures
        match r {
            Some(i) => first_index_of(v@, c) == Some(i as int) && i < v.len(),
            None => first_index_of(v@, c) is None,
        },
{
    let mut i: usize = 0;
    while i < v.len()
        invariant
            i <= v@.len(),
            forall|j: int| 0 <= j < i ==> v@[j] != c,
        decreases v.len() - i,
    {
        if v[i] == c {
            proof {
                lemma_first_index_unique(v@, c, i as int);
            }
            return Some(i);
        }
        i = i + 1;
    }
    None
}

fn find_last(v: &Vec<char>, c: char) -> (r: Option<usize>)
    ensures
        match r {
            Some(i) => last_index_of(v@, c) == Some(i as int) && i < v.len(),
            None => last_index_of(v@, c) is None,
        },
{
    let mut i: usize = v.len();
    while i > 0
        invariant
            i <= v@.len(),
            forall|j: int| i <= j < v@.len() ==> v@[j] != c,
        decreases i,
    {
        if v[i - 1] == c {
            proof {
                lemma_last_index_unique(v@, c, i - 1);
            }
            return Some(i - 1);
        }
        i = i - 1;
    }
    None
}

fn starts_with(v: &Vec<char>, p: &Vec<char>) -> (r: bool)
    ensures
        r == (p@.len() <= v@.len() && v@.take(p@.len() as int) == p@),
{
    if p.len() > v.len() {
        return false;
    }
    let mut i: usize = 0;
    while i < p.len()
        invariant
            p@.len() <= v@.len(),
            i <= p@.len(),
            forall|j: int| 0 <= j < i ==> v@[j] == p@[j],
        decreases p.len() - i,
    {
        if v[i] != p[i] {
            assert(v@.take(p@.len() as int)[i as int] != p@[i as int]);
            return false;
        }
        i = i + 1;
    }
    assert(v@.take(p@.len() as int) =~= p@);
    true
}

fn ends_with(v: &Vec<char>, p: &Vec<char>) -> (r: bool)
    ensures
        r == (p@.len() <= v@.len() && v@.skip(v@.len() - p@.len()) == p@),
{
    if p.len() > v.len() {
        return false;
    }
    let off = v.len() - p.len();
    let mut i: usize = 0;
    while i < p.len()
        invariant
            p@.len() <= v@.len(),
            off + p@.len() == v@.len(),
            v@.len() == v.len(),
            i <= p@.len(),
            forall|j: int| 0 <= j < i ==> v@[off + j] == p@[j],
        decreases p.len() - i,
    {
        if v[off + i] != p[i] {
            assert(v@.skip(off as int)[i as int] != p@[i as int]);
            return false;
        }
        i = i + 1;
    }
    assert(v@.skip(off as int) =~= p@);
    true
}

/// The answer of the model, ready to be decoded: the text without
/// surrounding white space and without its code fence. An answer of
/// nothing but white space is refused.
pub fn clean_llm_output(text: &str) -> (r: Result<String, LlmOutputError>)
    ensures
        match r {
            Ok(s) => trimmed(text@).len() > 0 && s@ == unfenced(trimmed(text@)),
            Err(e) => trimmed(text@).len() == 0 && e == LlmOutputError::Empty,
        },
{
    let t = trim(text);
    let v = chars_of(t);
    if v.len() == 0 {
        return Err(LlmOutputError::Empty);
    }
    let fence_chars: Vec<char> = vec!['`', '`', '`'];
    let json_fence_chars: Vec<char> = vec!['`', '`', '`', 'j', 's', 'o', 'n'];
    assert(fence_chars@ =~= fence());
    assert(json_fence_chars@ =~= json_fence());
    let body_start: Option<usize> = if starts_with(&v, &json_fence_chars) {
        Some(7)
    } else if starts_with(&v, &fence_chars) {
        Some(3)
    } else {
        None
    };
    let ghost t_view = v@;
    match body_start {
        Some(start) => {
            let ghost rest = t_view.skip(start as int);
            if v.len() - start >= 3 && ends_with(&v, &fence_chars) {
                assert(rest.skip(rest.len() - 3) =~= t_view.skip(t_view.len() - 3));
                let body = string_from_chars(&v, start, v.len() - 3);
                assert(body@ =~= rest.take(rest.len() - 3));
                let inner = trim(body.as_str());
                Ok(inner.to_owned())
            } else {
                proof {
                    if 3 <= rest.len() {
                        assert(rest.skip(rest.len() - 3) =~= t_view.skip(t_view.len() - 3));
                    }
                }
                Ok(t.to_owned())
            }
        },
        None => Ok(t.to_owned()),
    }
}

/// Whether the first `{` of `text` stands more than one place after its
/// last `}`, so that there is no slice from the one to the other.
pub fn braces_out_of_order(text: &str) -> (r: bool)
    ensures
        r == braces_reversed(text@),
{
    let v = chars_of(text);
    match (find_first(&v, '{'), find_last(&v, '}')) {
        (Some(a), Some(b)) => a > b && a - b > 1,
        _ => false,
    }
}

/// The outermost JSON object of `text`, from its first `{` to its last
/// `}`, when `text` holds both.
pub fn json_candidate(text: &str) -> (r: Option<String>)
    requires
        !braces_reversed(text@),
    ensures
        match r {
            Some(c) => json_object_span(text@) == Some(c@),
            None => json_object_span(text@) is None,
        },
{
    let v = chars_of(text);
    match (find_first(&v, '{'), find_last(&v, '}')) {
        (Some(a), Some(b)) => Some(string_from_chars(&v, a, b + 1)),
        _ => None,
    }
}

} // verus!
