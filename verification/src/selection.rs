//! From what the picker wrote to the identifier that was chosen.
//!
//! The picker writes the chosen line of the listing. The identifier is the
//! first token of the first line of that output: it ends before the first
//! space, or before the line's end. Nothing that follows it on the line, and
//! no later line, belongs to it.

use vstd::prelude::*;
use vstd::string::*;

verus! {

/// `text` as far as the first `stop`, which is left out; all of `text` where
/// it holds no `stop`.
pub open spec fn before_first(text: Seq<char>, stop: char) -> Seq<char> {
    match text.index_of_first(stop) {
        Some(at) => text.take(at),
        None => text,
    }
}

/// The first line of `output`, without the newline that ends it.
pub open spec fn first_line(output: Seq<char>) -> Seq<char> {
    before_first(output, '\n')
}

/// The first token of `line`: what stands before its first space.
pub open spec fn first_token(line: Seq<char>) -> Seq<char> {
    before_first(line, ' ')
}

/// The identifier that the picker's `output` names; empty where nothing was
/// chosen.
pub open spec fn identifier_in(output: Seq<char>) -> Seq<char> {
    first_token(first_line(output))
}

/// What singles out `before_first(text, stop)` among the prefixes of `text`:
/// it holds no `stop`, and it ends at a `stop` or at the end of `text`.
pub proof fn lemma_before_first(text: Seq<char>, stop: char)
    ensures
        before_first(text, stop).len() <= text.len(),
        before_first(text, stop) == text.take(before_first(text, stop).len() as int),
        !before_first(text, stop).contains(stop),
        before_first(text, stop).len() < text.len() ==> text[before_first(text, stop).len() as int]
            == stop,
{
    text.index_of_first_ensures(stop);
    match text.index_of_first(stop) {
        Some(at) => {
            assert forall|i: int| 0 <= i < at implies text.take(at)[i] != stop by {
                assert(text.take(at)[i] == text[i]);
            }
        },
        None => {
            assert(text.take(text.len() as int) =~= text);
        },
    }
}

/// Where `text` holds `stop` at `at` and nowhere before, `before_first` ends
/// there; where it holds none, `before_first` is all of `text`.
pub proof fn lemma_before_first_at(text: Seq<char>, stop: char, at: int)
    requires
        0 <= at <= text.len(),
        forall|i: int| 0 <= i < at ==> text[i] != stop,
        at < text.len() ==> text[at] == stop,
    ensures
        before_first(text, stop) == text.take(at),
{
    text.index_of_first_ensures(stop);
    match text.index_of_first(stop) {
        Some(found) => {
            assert(found == at);
        },
        None => {
            assert(at == text.len());
            assert(text.take(at) =~= text);
        },
    }
}

/// The identifier is the longest start of the output that holds neither a
/// space nor a newline: no text that follows the token leaks into it.
pub proof fn lemma_identifier_is_leading_token(output: Seq<char>)
    ensures
        identifier_in(output).len() <= output.len(),
        identifier_in(output) == output.take(identifier_in(output).len() as int),
        !identifier_in(output).contains(' '),
        !identifier_in(output).contains('\n'),
        identifier_in(output).len() < output.len() ==> {
            ||| output[identifier_in(output).len() as int] == ' '
            ||| output[identifier_in(output).len() as int] == '\n'
        },
{
    let line = first_line(output);
    let token = identifier_in(output);
    lemma_before_first(output, '\n');
    lemma_before_first(line, ' ');
    assert(token =~= output.take(token.len() as int));
    assert forall|i: int| 0 <= i < token.len() implies token[i] != '\n' by {
        assert(token[i] == line[i]);
    }
}

/// Cuts `text` off before its first `stop`.
pub fn cut_before(text: &str, stop: char) -> (head: &str)
    ensures
        head@ == before_first(text@, stop),
{
    let length: usize = text.unicode_len();
    let mut at: usize = 0;
    while at < length && text.get_char(at) != stop
        invariant
            length == text@.len(),
            at <= length,
            forall|i: int| 0 <= i < at ==> text@[i] != stop,
        decreases length - at,
    {
        at = at + 1;
    }
    proof {
        lemma_before_first_at(text@, stop, at as int);
    }
    text.substring_char(0, at)
}

/// Reads the picker's output: the identifier that was chosen, or `None` where
/// the output names none (the user left the picker without choosing).
pub fn chosen_identifier(output: &str) -> (choice: Option<String>)
    ensures
        choice is None <==> identifier_in(output@).len() == 0,
        choice matches Some(id) ==> id@ == identifier_in(output@),
{
    let token = cut_before(cut_before(output, '\n'), ' ');
    if token.is_empty() {
        None
    } else {
        Some(token.to_owned())
    }
}

} // verus!
