//! Text as sequences of characters: white space, and the division of a text
//! into parts.
use vstd::prelude::*;

verus! {

/// Whether `c` is white space, that is, has the Unicode property `White_Space`.
pub open spec fn is_white_space(c: char) -> bool {
    let u = c as u32;
    ||| 0x09 <= u <= 0x0D
    ||| u == 0x20
    ||| u == 0x85
    ||| u == 0xA0
    ||| u == 0x1680
    ||| 0x2000 <= u <= 0x200A
    ||| u == 0x2028
    ||| u == 0x2029
    ||| u == 0x202F
    ||| u == 0x205F
    ||| u == 0x3000
}

/// Tells whether `c` is white space.
pub fn white_space(c: char) -> (b: bool)
    ensures
        b == is_white_space(c),
{
    let u: u32 = c as u32;
    (0x09 <= u && u <= 0x0D) || u == 0x20 || u == 0x85 || u == 0xA0 || u == 0x1680 || (0x2000 <= u
        && u <= 0x200A) || u == 0x2028 || u == 0x2029 || u == 0x202F || u == 0x205F || u == 0x3000
}

/// The characters of `text`.
pub fn chars_of(text: &str) -> (chars: Vec<char>)
    ensures
        chars@ == text@,
{
    let mut chars: Vec<char> = Vec::new();
    for c in it: text.chars()
        invariant
            chars@ == it.seq().take(it.index() as int),
    {
        chars.push(c);
    }
    chars
}

/// What divides a text into parts.
#[derive(Clone, Copy, Debug)]
pub enum Delimiter {
    /// Any white space character.
    WhiteSpace,
    /// One given character.
    Char(char),
}

impl Delimiter {
    /// Whether `c` is a delimiter of this kind.
    pub open spec fn matches(self, c: char) -> bool {
        match self {
            Delimiter::WhiteSpace => is_white_space(c),
            Delimiter::Char(d) => c == d,
        }
    }

    /// Tells whether `c` is a delimiter of this kind.
    pub fn is_match(&self, c: char) -> (b: bool)
        ensures
            b == self.matches(c),
    {
        match self {
            Delimiter::WhiteSpace => white_space(c),
            Delimiter::Char(d) => c == *d,
        }
    }
}

/// The parts that the delimiters divide `text` into, in order. Every delimiter
/// ends one part and begins the next, so a text with `n` delimiters has `n + 1`
/// parts, of which any may be empty.
pub open spec fn split(text: Seq<char>, at: Delimiter) -> Seq<Seq<char>>
    decreases text.len(),
{
    if text.len() == 0 {
        seq![Seq::empty()]
    } else {
        let parts = split(text.drop_last(), at);
        if at.matches(text.last()) {
            parts.push(Seq::empty())
        } else {
            parts.drop_last().push(parts.last().push(text.last()))
        }
    }
}

/// The number of delimiters in `text`.
pub open spec fn delimiters(text: Seq<char>, at: Delimiter) -> nat
    decreases text.len(),
{
    if text.len() == 0 {
        0
    } else if at.matches(text.last()) {
        delimiters(text.drop_last(), at) + 1
    } else {
        delimiters(text.drop_last(), at)
    }
}

/// The test that a part has at least one character.
pub open spec fn nonempty() -> spec_fn(Seq<char>) -> bool {
    |part: Seq<char>| part.len() > 0
}

/// The tokens of `text`: what lies between its white space, in order. Every
/// token is a run of characters that are not white space, as long as it can be.
pub open spec fn tokens(text: Seq<char>) -> Seq<Seq<char>> {
    split(text, Delimiter::WhiteSpace).filter(nonempty())
}

/// The contents of each vector of `parts`.
pub open spec fn contents(parts: Seq<Vec<char>>) -> Seq<Seq<char>> {
    parts.map_values(|part: Vec<char>| part@)
}

/// Divides `text` at each delimiter.
pub fn split_at(text: &Vec<char>, at: Delimiter) -> (parts: Vec<Vec<char>>)
    ensures
        contents(parts@) == split(text@, at),
{
    let mut parts: Vec<Vec<char>> = Vec::new();
    let mut last: Vec<char> = Vec::new();
    let mut i: usize = 0;
    while i < text.len()
        invariant
            i <= text.len(),
            contents(parts@).push(last@) == split(text@.take(i as int), at),
        decreases text.len() - i,
    {
        let c = text[i];
        assert(text@.take(i + 1).drop_last() == text@.take(i as int));
        if at.is_match(c) {
            parts.push(last);
            last = Vec::new();
        } else {
            last.push(c);
        }
        i += 1;
    }
    assert(text@.take(text.len() as int) == text@);
    parts.push(last);
    parts
}

/// A text has one part more than it has delimiters: at least one, be it empty.
pub proof fn lemma_split_len(text: Seq<char>, at: Delimiter)
    ensures
        split(text, at).len() == delimiters(text, at) + 1,
    decreases text.len(),
{
    if text.len() > 0 {
        lemma_split_len(text.drop_last(), at);
    }
}

/// A text without a delimiter is its own single part.
pub proof fn lemma_split_in_one(text: Seq<char>, at: Delimiter)
    requires
        forall|j: int| 0 <= j < text.len() ==> !at.matches(text[j]),
    ensures
        split(text, at) == seq![text],
    decreases text.len(),
{
    if text.len() > 0 {
        lemma_split_in_one(text.drop_last(), at);
    }
    assert(split(text, at) =~~= seq![text]);
}

/// A text with a delimiter at `i` and nowhere else has two parts: what stands
/// before `i`, and what stands after it.
pub proof fn lemma_split_in_two(text: Seq<char>, at: Delimiter, i: int)
    requires
        0 <= i < text.len(),
        at.matches(text[i]),
        forall|j: int| 0 <= j < text.len() && j != i ==> !at.matches(text[j]),
    ensures
        split(text, at) == seq![text.take(i), text.skip(i + 1)],
    decreases text.len(),
{
    if i == text.len() - 1 {
        lemma_split_in_one(text.drop_last(), at);
    } else {
        lemma_split_in_two(text.drop_last(), at, i);
    }
    assert(split(text, at) =~~= seq![text.take(i), text.skip(i + 1)]);
}

/// Filtering a sequence that ends in `part` filters what comes before it and
/// then keeps `part` or not.
proof fn lemma_filter_push(parts: Seq<Seq<char>>, part: Seq<char>)
    ensures
        parts.push(part).filter(nonempty()) == if part.len() > 0 {
            parts.filter(nonempty()).push(part)
        } else {
            parts.filter(nonempty())
        },
{
    reveal(Seq::filter);
    assert(parts.push(part).drop_last() == parts);
}

/// Divides `text` into its tokens.
pub fn tokenize(text: &Vec<char>) -> (toks: Vec<Vec<char>>)
    ensures
        contents(toks@) == tokens(text@),
{
    let mut toks: Vec<Vec<char>> = Vec::new();
    let mut last: Vec<char> = Vec::new();
    let mut i: usize = 0;
    while i < text.len()
        invariant
            i <= text.len(),
            split(text@.take(i as int), Delimiter::WhiteSpace).len() > 0,
            contents(toks@) == split(text@.take(i as int), Delimiter::WhiteSpace).drop_last().filter(
                nonempty(),
            ),
            last@ == split(text@.take(i as int), Delimiter::WhiteSpace).last(),
        decreases text.len() - i,
    {
        let c = text[i];
        let ghost before = split(text@.take(i as int), Delimiter::WhiteSpace);
        assert(text@.take(i + 1).drop_last() == text@.take(i as int));
        if white_space(c) {
            proof {
                assert(before.push(Seq::empty()).drop_last() == before);
                assert(before == before.drop_last().push(before.last()));
                lemma_filter_push(before.drop_last(), before.last());
            }
            if last.len() > 0 {
                toks.push(last);
                last = Vec::new();
            }
        } else {
            assert(before.drop_last().push(before.last().push(c)).drop_last()
                == before.drop_last());
            last.push(c);
        }
        i += 1;
    }
    proof {
        let all = split(text@, Delimiter::WhiteSpace);
        assert(text@.take(text.len() as int) == text@);
        assert(all == all.drop_last().push(all.last()));
        lemma_filter_push(all.drop_last(), all.last());
    }
    if last.len() > 0 {
        toks.push(last);
    }
    toks
}

} // verus!
