//! One line of text for each collection of a listing.

use vstd::prelude::*;
use vstd::string::*;
use vstd::utf8::*;

use crate::model::{Gist, User};
use crate::text::{append_optional, text_or_empty};

verus! {

/// A text in which every `from` has become `to`.
pub open spec fn swap_char(text: Seq<char>, from: char, to: char) -> Seq<char> {
    Seq::new(
        text.len(),
        |i: int|
            if text[i] == from {
                to
            } else {
                text[i]
            },
    )
}

/// `str::replace` with a pattern and a replacement of one character each:
/// the text with every occurrence of the one turned into the other.
#[verifier::external_body]
fn replace_char(text: &str, from: &str, to: &str) -> (replaced: String)
    requires
        from@.len() == 1,
        to@.len() == 1,
    ensures
        replaced@ == swap_char(text@, from@[0], to@[0]),
{
    text.replace(from, to)
}

/// How many bytes of a description a line shows of a terminal with these
/// dimensions, columns first: a third of the columns, or 40 where the
/// dimensions are unknown.
pub open spec fn limit_for(dimensions: Option<(usize, usize)>) -> usize {
    match dimensions {
        Some((columns, _)) => columns / 3,
        None => 40,
    }
}

/// The number of bytes of a description that a line shows.
pub fn description_limit(dimensions: Option<(usize, usize)>) -> (limit: usize)
    ensures
        limit == limit_for(dimensions),
{
    match dimensions {
        Some((columns, _)) => columns / 3,
        None => 40,
    }
}

/// A description on one line: each line break has become a space.
pub open spec fn one_line(text: Seq<char>) -> Seq<char> {
    swap_char(text, '\n', ' ')
}

/// Whether a description can be shown within `limit` bytes: it is short
/// enough as it is, or the limit does not fall inside a character.
pub open spec fn can_summarize(text: Seq<char>, limit: usize) -> bool {
    let bytes = encode_utf8(one_line(text));
    bytes.len() <= limit || is_char_boundary(bytes, limit as int)
}

/// What a line shows of a description: all of it on one line if that takes
/// at most `limit` bytes, else its first `limit` bytes and three dots.
pub open spec fn summary(text: Seq<char>, limit: usize) -> Seq<char> {
    let bytes = encode_utf8(one_line(text));
    if bytes.len() <= limit {
        one_line(text)
    } else {
        decode_utf8(bytes.subrange(0, limit as int)) + "..."@
    }
}

/// Tells whether `summarize` may be called on a description.
pub fn summarizable(description: &str, limit: usize) -> (ok: bool)
    ensures
        ok == can_summarize(description@, limit),
{
    proof {
        reveal_strlit("\n");
        reveal_strlit(" ");
        assert("\n"@[0] == '\n' && " "@[0] == ' ');
    }
    let flat = replace_char(description, "\n", " ");
    flat.as_str().as_bytes().len() <= limit || flat.as_str().is_char_boundary(limit)
}

/// Shortens a description for a listing: puts it on one line and, where that
/// takes more than `limit` bytes, cuts it there and adds three dots.
pub fn summarize(description: &str, limit: usize) -> (shown: String)
    requires
        can_summarize(description@, limit),
    ensures
        shown@ == summary(description@, limit),
{
    proof {
        reveal_strlit("\n");
        reveal_strlit(" ");
        assert("\n"@[0] == '\n' && " "@[0] == ' ');
    }
    let flat = replace_char(description, "\n", " ");
    if flat.as_str().as_bytes().len() > limit {
        let (head, _) = flat.as_str().split_at(limit);
        proof {
            encode_utf8_decode_utf8(head@);
        }
        let mut shown = String::from_str(head);
        shown.append("...");
        shown
    } else {
        flat
    }
}

/// The name of the account that owns a collection, or nothing where the
/// collection has no owner or the owner no name.
pub open spec fn owner_text(owner: Option<User>) -> Seq<char> {
    match owner {
        Some(user) => text_or_empty(user.login),
        None => Seq::empty(),
    }
}

/// What a line shows of the description of a collection.
pub open spec fn description_text(description: Option<String>, limit: usize) -> Seq<char> {
    match description {
        Some(text) => summary(text@, limit),
        None => Seq::empty(),
    }
}

/// The line of a collection: when it was created, its owner's name, its
/// identifier and its description, with a space between each two. What is
/// absent shows as nothing.
pub open spec fn line_text(gist: Gist, limit: usize) -> Seq<char> {
    text_or_empty(gist.created_at) + seq![' '] + owner_text(gist.owner) + seq![' ']
        + text_or_empty(gist.id) + seq![' '] + description_text(gist.description, limit)
}

/// The name of the account that owns a collection, empty where there is none.
pub fn owner_name(gist: &Gist) -> (name: String)
    ensures
        name@ == owner_text(gist.owner),
{
    let mut name = String::new();
    match &gist.owner {
        Some(user) => {
            append_optional(&mut name, &user.login);
            assert(Seq::<char>::empty() + text_or_empty(user.login) =~= text_or_empty(user.login));
        },
        None => {},
    }
    name
}

/// Writes the line of a collection for a listing.
pub fn listing_line(gist: &Gist, limit: usize) -> (line: String)
    requires
        gist.description matches Some(text) ==> can_summarize(text@, limit),
    ensures
        line@ == line_text(*gist, limit),
{
    proof {
        reveal_strlit(" ");
        assert(" "@ =~= seq![' ']);
    }
    let mut line = String::new();
    append_optional(&mut line, &gist.created_at);
    assert(line@ =~= text_or_empty(gist.created_at));
    line.append(" ");
    let owner = owner_name(gist);
    line.append(owner.as_str());
    line.append(" ");
    append_optional(&mut line, &gist.id);
    line.append(" ");
    match &gist.description {
        Some(text) => {
            let shown = summarize(text.as_str(), limit);
            line.append(shown.as_str());
        },
        None => {
            assert(line@ + Seq::<char>::empty() =~= line@);
        },
    }
    line
}

} // verus!
