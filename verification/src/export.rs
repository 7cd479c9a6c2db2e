//! The text that leaves the program: the picture saved as braille text, and
//! the context handed to the assistant with a question.

use vstd::prelude::*;
use crate::text::{push_char, push_trimmed, trim_end};
use crate::view::{View, title};
#[allow(unused_imports)]
use vstd::view::View as _;

verus! {

/// The rows of a picture, each less its trailing white space and ended by a
/// newline.
pub open spec fn lines(rows: Seq<Vec<char>>) -> Seq<char>
    decreases rows.len(),
{
    if rows.len() == 0 {
        Seq::empty()
    } else {
        lines(rows.drop_last()) + trim_end(rows.last()@) + seq!['\n']
    }
}

/// The saved picture: the name of the view, a blank line, then the rows.
pub open spec fn saved(view: View, rows: Seq<Vec<char>>) -> Seq<char> {
    title(view) + "\n\n"@ + lines(rows)
}

/// The earlier questions and answers, each as a `User:` and a `You:` line
/// followed by a blank line.
pub open spec fn history(chat: Seq<(String, String)>) -> Seq<char>
    decreases chat.len(),
{
    if chat.len() == 0 {
        Seq::empty()
    } else {
        history(chat.drop_last()) + "User: "@ + chat.last().0@ + "\nYou: "@ + chat.last().1@
            + "\n\n"@
    }
}

/// What the assistant is told: the picture on show, what is known of it
/// (`detail`), the conversation so far if there is one, and the question.
pub open spec fn context(view: View, detail: Seq<char>, chat: Seq<(String, String)>, question: Seq<
    char,
>) -> Seq<char> {
    "On screen: "@ + title(view) + ".\n"@ + detail + (if chat.len() == 0 {
        Seq::empty()
    } else {
        "\nEarlier in this conversation:\n"@ + history(chat)
    }) + "\nQuestion: "@ + question + "\n"@
}

/// The picture as it stands, in braille, without the colour: the view's
/// name, a blank line, and each row of cells less its trailing blanks.
pub fn export_text(view: View, rows: &Vec<Vec<char>>) -> (out: String)
    ensures
        out@ == saved(view, rows@),
{
    let mut out = String::from_str(view.name());
    out.append("\n\n");
    let ghost head = out@;
    let mut i: usize = 0;
    while i < rows.len()
        invariant
            i <= rows@.len(),
            out@ == head + lines(rows@.subrange(0, i as int)),
        decreases rows@.len() - i,
    {
        let ghost before = out@;
        push_trimmed(&mut out, &rows[i]);
        push_char(&mut out, '\n');
        proof {
            let s = rows@.subrange(0, i + 1);
            assert(s.drop_last() =~= rows@.subrange(0, i as int));
            assert(s.last() == rows@[i as int]);
            assert(out@ =~= head + lines(s));
        }
        i = i + 1;
    }
    assert(rows@.subrange(0, rows@.len() as int) =~= rows@);
    out
}

/// The conversation so far, as `history` lays it out.
pub fn history_text(chat: &Vec<(String, String)>) -> (out: String)
    ensures
        out@ == history(chat@),
{
    let mut out = String::new();
    let mut i: usize = 0;
    while i < chat.len()
        invariant
            i <= chat@.len(),
            out@ == history(chat@.subrange(0, i as int)),
        decreases chat@.len() - i,
    {
        out.append("User: ");
        out.append(chat[i].0.as_str());
        out.append("\nYou: ");
        out.append(chat[i].1.as_str());
        out.append("\n\n");
        proof {
            let s = chat@.subrange(0, i + 1);
            assert(s.drop_last() =~= chat@.subrange(0, i as int));
            assert(s.last() == chat@[i as int]);
            assert(out@ =~= history(s));
        }
        i = i + 1;
    }
    assert(chat@.subrange(0, chat@.len() as int) =~= chat@);
    out
}

/// What the assistant is told with a question about the picture on show.
pub fn context_text(view: View, detail: &str, chat: &Vec<(String, String)>, question: &str) -> (out:
    String)
    ensures
        out@ == context(view, detail@, chat@, question@),
{
    let mut out = String::from_str("On screen: ");
    out.append(view.name());
    out.append(".\n");
    out.append(detail);
    if chat.len() != 0 {
        out.append("\nEarlier in this conversation:\n");
        let h = history_text(chat);
        out.append(h.as_str());
    }
    out.append("\nQuestion: ");
    out.append(question);
    out.append("\n");
    proof {
        assert(out@ =~= context(view, detail@, chat@, question@));
    }
    out
}

} // verus!
