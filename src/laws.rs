use vstd::prelude::*;

use crate::input::{concat_lines, resolved_message, InputSource};
use crate::priority::{priority_name, NtfyPriority};
use crate::request::{default_title, headers_for, title_for};

verus! {

/// Piped lines make the message, whatever the flag says: the message is the
/// lines concatenated with no separator, so its length is the sum of theirs.
pub proof fn piped_lines_make_the_message(lines: Vec<String>, message: Option<String>)
    ensures
        resolved_message(InputSource::Piped(lines), message) == Some(concat_lines(lines@)),
        concat_lines(lines@).len() == total_len(lines@),
{
    lemma_concat_len(lines@);
}

/// The sum of the lengths of the lines.
pub open spec fn total_len(lines: Seq<String>) -> nat
    decreases lines.len(),
{
    if lines.len() == 0 {
        0
    } else {
        total_len(lines.drop_last()) + lines.last()@.len()
    }
}

proof fn lemma_concat_len(lines: Seq<String>)
    ensures
        concat_lines(lines).len() == total_len(lines),
    decreases lines.len(),
{
    if lines.len() > 0 {
        lemma_concat_len(lines.drop_last());
    }
}

/// Appending one more line to the stream appends exactly that line to the message.
pub proof fn one_more_line_appends_it(lines: Seq<String>, line: String)
    ensures
        concat_lines(lines.push(line)) == concat_lines(lines) + line@,
{
    assert(lines.push(line).drop_last() =~= lines);
}

/// With a terminal on standard input the message is exactly the flag's
/// value, and there is none when the flag is absent.
pub proof fn terminal_defers_to_flag(message: Option<String>)
    ensures
        message is Some ==> resolved_message(InputSource::Terminal, message) == Some(
            message->Some_0@,
        ),
        resolved_message(InputSource::Terminal, message) is None <==> message is None,
{
}

/// For every priority the `Priority` header carries its lowercase name, and
/// an absent title becomes "New {priority} priority notification".
pub proof fn priority_header_and_default_title(p: NtfyPriority, tags: Seq<char>)
    ensures
        headers_for(title_for(None, p), p, tags)[0] == ("Priority"@, priority_name(p)),
        headers_for(title_for(None, p), p, tags)[1] == (
            "Title"@,
            "New "@ + priority_name(p) + " priority notification"@,
        ),
        title_for(None, p) == default_title(p),
{
}

/// Each priority's name is non-empty and made of lowercase ASCII letters, and
/// no two priorities share a name.
pub proof fn priority_names_lowercase_and_distinct(p: NtfyPriority, q: NtfyPriority)
    ensures
        priority_name(p).len() > 0,
        forall|i: int| 0 <= i < priority_name(p).len() ==> 'a' <= #[trigger] priority_name(p)[i] <= 'z',
        priority_name(p) == priority_name(q) ==> p == q,
{
    reveal_strlit("min");
    reveal_strlit("low");
    reveal_strlit("default");
    reveal_strlit("high");
    reveal_strlit("max");
    if priority_name(p) == priority_name(q) && p != q {
        assert(priority_name(p)[0] != priority_name(q)[0] || priority_name(p)[1] != priority_name(
            q,
        )[1]);
    }
}

} // verus!
