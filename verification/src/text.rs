//! Text as sequences of characters: containment, comparison and joining.

use vstd::prelude::*;

verus! {

/// `needle` stands in `hay`, starting at position `at`.
pub open spec fn occurs_at(hay: Seq<char>, needle: Seq<char>, at: int) -> bool {
    &&& 0 <= at
    &&& at + needle.len() <= hay.len()
    &&& hay.subrange(at, at + needle.len()) == needle
}

/// `needle` stands somewhere in `hay`.
pub open spec fn contains_text(hay: Seq<char>, needle: Seq<char>) -> bool {
    exists|at: int| occurs_at(hay, needle, at)
}

/// A text is found again in whatever is built around it.
pub proof fn lemma_contains_middle(before: Seq<char>, middle: Seq<char>, after: Seq<char>)
    ensures
        contains_text(before + middle + after, middle),
{
    let hay = before + middle + after;
    let at = before.len() as int;
    assert(hay.subrange(at, at + middle.len()) =~= middle);
    assert(occurs_at(hay, middle, at));
}

/// Containment carries over to any text built around the containing one.
pub proof fn lemma_contains_wrapped(
    before: Seq<char>,
    hay: Seq<char>,
    after: Seq<char>,
    needle: Seq<char>,
)
    requires
        contains_text(hay, needle),
    ensures
        contains_text(before + hay + after, needle),
{
    let at = choose|at: int| occurs_at(hay, needle, at);
    let whole = before + hay + after;
    let shifted = before.len() + at;
    assert(whole.subrange(shifted, shifted + needle.len()) =~= hay.subrange(
        at,
        at + needle.len(),
    ));
    assert(occurs_at(whole, needle, shifted));
}

/// Whether two texts are the same, character for character.
pub fn same_text(left: &str, right: &str) -> (same: bool)
    ensures
        same == (left@ == right@),
{
    let a = String::from_str(left);
    let b = String::from_str(right);
    a == b
}

pub const QUOTE: &'static str = "\"";

pub const NOTHING: &'static str = "None";

pub const SOMETHING_OPENING: &'static str = "Some(";

pub const SOMETHING_CLOSING: &'static str = ")";

pub const LIST_OPENING: &'static str = "[";

pub const LIST_SEPARATOR: &'static str = ", ";

pub const LIST_CLOSING: &'static str = "]";

/// A text between double quotes. Nothing inside it is escaped.
pub open spec fn quoted(text: Seq<char>) -> Seq<char> {
    QUOTE@ + text + QUOTE@
}

/// An optional text: `None`, or the quoted text inside `Some(..)`.
pub open spec fn optional_text(text: Option<Seq<char>>) -> Seq<char> {
    match text {
        None => NOTHING@,
        Some(inner) => SOMETHING_OPENING@ + quoted(inner) + SOMETHING_CLOSING@,
    }
}

/// The parts one after another, with `", "` between neighbours.
pub open spec fn joined(parts: Seq<Seq<char>>) -> Seq<char>
    decreases parts.len(),
{
    if parts.len() == 0 {
        Seq::empty()
    } else if parts.len() == 1 {
        parts[0]
    } else {
        joined(parts.drop_last()) + LIST_SEPARATOR@ + parts.last()
    }
}

/// A list of parts: the joined parts between square brackets.
pub open spec fn listed(parts: Seq<Seq<char>>) -> Seq<char> {
    LIST_OPENING@ + joined(parts) + LIST_CLOSING@
}

/// Appends a text between double quotes.
pub fn append_quoted(out: &mut String, text: &str)
    ensures
        final(out)@ == old(out)@ + quoted(text@),
{
    out.append(QUOTE);
    out.append(text);
    out.append(QUOTE);
    assert(out@ =~= old(out)@ + quoted(text@));
}

/// Appends an optional text as [`optional_text`] writes it.
pub fn append_optional_text(out: &mut String, text: &Option<String>)
    ensures
        final(out)@ == old(out)@ + optional_text(text.deep_view()),
{
    match text {
        None => {
            out.append(NOTHING);
        },
        Some(inner) => {
            out.append(SOMETHING_OPENING);
            append_quoted(out, inner.as_str());
            out.append(SOMETHING_CLOSING);
            assert(out@ =~= old(out)@ + optional_text(text.deep_view()));
        },
    }
}

/// How a joined list grows by one part at its end.
pub proof fn lemma_joined_push(before: Seq<Seq<char>>, part: Seq<char>)
    ensures
        joined(before.push(part)) == if before.len() == 0 {
            part
        } else {
            joined(before) + LIST_SEPARATOR@ + part
        },
{
    assert(before.push(part).drop_last() =~= before);
}

/// Appends a list of texts, each between double quotes.
pub fn append_quoted_list(out: &mut String, texts: &Vec<String>)
    ensures
        final(out)@ == old(out)@ + listed(texts.deep_view().map_values(|t: Seq<char>| quoted(t))),
{
    let ghost parts = texts.deep_view().map_values(|t: Seq<char>| quoted(t));
    out.append(LIST_OPENING);
    let mut index: usize = 0;
    while index < texts.len()
        invariant
            index <= texts.len(),
            parts == texts.deep_view().map_values(|t: Seq<char>| quoted(t)),
            out@ == old(out)@ + LIST_OPENING@ + joined(parts.take(index as int)),
        decreases texts.len() - index,
    {
        if index > 0 {
            out.append(LIST_SEPARATOR);
        }
        append_quoted(out, texts[index].as_str());
        proof {
            let before = parts.take(index as int);
            lemma_joined_push(before, parts[index as int]);
            assert(parts.take(index + 1) =~= before.push(parts[index as int]));
            assert(out@ =~= old(out)@ + LIST_OPENING@ + joined(parts.take(index + 1)));
        }
        index += 1;
    }
    out.append(LIST_CLOSING);
    proof {
        assert(parts.take(index as int) =~= parts);
        assert(out@ =~= old(out)@ + listed(parts));
    }
}

} // verus!
