use vstd::prelude::*;
use vstd::string::StringExecFns;

verus! {

/// Where the message body can come from: an interactive terminal, which
/// supplies nothing, or a non-interactive stream, read as its lines.
pub enum InputSource {
    Terminal,
    Piped(Vec<String>),
}

/// Why no notification could be prepared.
#[derive(Clone, Copy, Debug, PartialEq, Eq, Structural)]
pub enum NotifyError {
    /// Standard input is a terminal and no message was given as a flag.
    MissingMessage,
}

/// The lines joined one after another, with nothing between them.
pub open spec fn concat_lines(lines: Seq<String>) -> Seq<char>
    decreases lines.len(),
{
    if lines.len() == 0 {
        Seq::empty()
    } else {
        concat_lines(lines.drop_last()) + lines.last()@
    }
}

/// The message body that a source and an optional flag value give, if any:
/// piped lines win over the flag; a terminal defers to the flag.
pub open spec fn resolved_message(source: InputSource, message: Option<String>) -> Option<Seq<char>> {
    match source {
        InputSource::Piped(lines) => Some(concat_lines(lines@)),
        InputSource::Terminal => match message {
            Some(m) => Some(m@),
            None => None,
        },
    }
}

/// Joins lines read from a stream into one message, inserting no separator.
pub fn join_lines(lines: &Vec<String>) -> (r: String)
    ensures
        r@ == concat_lines(lines@),
{
    let mut acc = String::new();
    let mut i: usize = 0;
    while i < lines.len()
        invariant
            i <= lines@.len(),
            acc@ == concat_lines(lines@.subrange(0, i as int)),
        decreases lines@.len() - i,
    {
        acc.append(lines[i].as_str());
        proof {
            let next = lines@.subrange(0, i + 1);
            assert(next.drop_last() =~= lines@.subrange(0, i as int));
        }
        i = i + 1;
    }
    assert(lines@.subrange(0, i as int) =~= lines@);
    acc
}

/// Chooses the message body: the joined piped lines when standard input is a
/// stream (the flag is then ignored), else the flag's value; fails when
/// standard input is a terminal and no flag value was given.
pub fn resolve_message(source: &InputSource, message: &Option<String>) -> (r: Result<String, NotifyError>)
    ensures
        r is Err <==> resolved_message(*source, *message) is None,
        r is Err ==> r == Err::<String, NotifyError>(NotifyError::MissingMessage),
        r is Ok ==> resolved_message(*source, *message) == Some(r->Ok_0@),
{
    match source {
        InputSource::Piped(lines) => Ok(join_lines(lines)),
        InputSource::Terminal => match message {
            Some(m) => Ok(m.clone()),
            None => Err(NotifyError::MissingMessage),
        },
    }
}

} // verus!
