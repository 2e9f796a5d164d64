//! The command dispatcher: turns one inbound chat message into at most one
//! outbound reply.
//!
//! A message is handled only when its author is not a bot, it starts with
//! the command prefix `!`, and its first whitespace-delimited token,
//! lowercased, is the trigger word `yp`. The first argument then selects the
//! reply: none for the year-progress report, `ping` for the latency line,
//! `help` for the help text, and anything else for the unknown-arguments
//! error. Every other message is silently ignored.

use vstd::prelude::*;
use vstd::string::StrSliceExecFns;
use vstd::string::StringExecFns;

use crate::instant::Instant;
use crate::progress::progress_message;
use crate::progress::spec_progress_message;
use crate::text::push_i64_decimal;
use crate::text::spec_idec;
use crate::text::str_eq;

verus! {

/// What `str::to_lowercase` returns for a given character sequence.
pub uninterp spec fn lower_of(s: Seq<char>) -> Seq<char>;

/// Relies on `str::to_lowercase`: the lowercase equivalent of the string,
/// a function of its characters alone.
#[verifier::external_body]
fn lowercase(s: &str) -> (r: String)
    ensures
        r@ == lower_of(s@),
{
    s.to_lowercase()
}

/// Index of the first space at or after `from`, or the sequence's length
/// when no space follows.
pub open spec fn spec_token_end(s: Seq<char>, from: int) -> int
    decreases s.len() - from,
{
    if from >= s.len() {
        s.len() as int
    } else if s[from] == ' ' {
        from
    } else {
        spec_token_end(s, from + 1)
    }
}

/// The token boundary lies between `from` and the end, no space stands
/// before it, and a space stands at it unless it is the end.
pub proof fn lemma_token_end(s: Seq<char>, from: int)
    requires
        0 <= from <= s.len(),
    ensures
        from <= spec_token_end(s, from) <= s.len(),
        forall|j: int| from <= j < spec_token_end(s, from) ==> s[j] != ' ',
        spec_token_end(s, from) < s.len() ==> s[spec_token_end(s, from)] == ' ',
    decreases s.len() - from,
{
    if from < s.len() && s[from] != ' ' {
        lemma_token_end(s, from + 1);
    }
}

/// Finds the end of the token that starts at `from`: the index of the next
/// space, or the string's length when no space follows.
fn token_end(s: &str, from: usize) -> (r: usize)
    requires
        from <= s@.len(),
    ensures
        r == spec_token_end(s@, from as int),
        from <= r <= s@.len(),
{
    let len = s.unicode_len();
    let mut i: usize = from;
    while i < len
        invariant
            from <= i <= len,
            len == s@.len(),
            spec_token_end(s@, from as int) == spec_token_end(s@, i as int),
        decreases len - i,
    {
        if s.get_char(i) == ' ' {
            proof {
                lemma_token_end(s@, from as int);
            }
            return i;
        }
        i = i + 1;
    }
    proof {
        lemma_token_end(s@, from as int);
    }
    i
}

/// The first whitespace-delimited token of a sequence.
pub open spec fn spec_first_token(s: Seq<char>) -> Seq<char> {
    s.subrange(0, spec_token_end(s, 0))
}

/// Whether any argument follows the first token.
pub open spec fn spec_has_args(s: Seq<char>) -> bool {
    spec_token_end(s, 0) < s.len()
}

/// The first argument: the token after the space that ends the first token.
pub open spec fn spec_first_arg(s: Seq<char>) -> Seq<char> {
    let e = spec_token_end(s, 0);
    s.subrange(e + 1, spec_token_end(s, e + 1))
}

/// The reply a handled message calls for.
#[derive(Clone, Copy, PartialEq, Eq, Structural, Debug)]
pub enum Action {
    /// No reply: a bot author, a missing prefix, or a foreign command.
    Ignore,
    /// Reply with the year-progress report.
    ReportProgress,
    /// Reply with the latency line.
    Ping,
    /// Reply with the help text.
    Help,
    /// Reply with the unknown-arguments error.
    UnknownArguments,
}

/// The action an inbound message calls for, given whether its author is a
/// bot and its raw text.
pub open spec fn spec_action(author_is_bot: bool, content: Seq<char>) -> Action {
    if author_is_bot {
        Action::Ignore
    } else if content.len() == 0 || content[0] != '!' {
        Action::Ignore
    } else {
        let body = content.subrange(1, content.len() as int);
        if lower_of(spec_first_token(body)) != "yp"@ {
            Action::Ignore
        } else if !spec_has_args(body) {
            Action::ReportProgress
        } else if spec_first_arg(body) == "ping"@ {
            Action::Ping
        } else if spec_first_arg(body) == "help"@ {
            Action::Help
        } else {
            Action::UnknownArguments
        }
    }
}

/// Decides which reply, if any, an inbound message calls for.
pub fn decide(author_is_bot: bool, content: &str) -> (a: Action)
    ensures
        a == spec_action(author_is_bot, content@),
{
    if author_is_bot {
        return Action::Ignore;
    }
    let len = content.unicode_len();
    if len == 0 {
        return Action::Ignore;
    }
    if content.get_char(0) != '!' {
        return Action::Ignore;
    }
    let body = content.substring_char(1, len);
    proof {
        lemma_token_end(body@, 0);
    }
    let body_len = body.unicode_len();
    let e0 = token_end(body, 0);
    let command = body.substring_char(0, e0);
    let lowered = lowercase(command);
    if !str_eq(lowered.as_str(), "yp") {
        return Action::Ignore;
    }
    if e0 == body_len {
        return Action::ReportProgress;
    }
    proof {
        lemma_token_end(body@, e0 as int + 1);
    }
    let e1 = token_end(body, e0 + 1);
    let arg = body.substring_char(e0 + 1, e1);
    if str_eq(arg, "ping") {
        Action::Ping
    } else if str_eq(arg, "help") {
        Action::Help
    } else {
        Action::UnknownArguments
    }
}

/// The fixed help text enumerating the supported sub-commands.
pub open spec fn spec_help_message() -> Seq<char> {
    "Available commands:\n1. !yp\n2. !yp ping\n-> !yp help"@
}

/// The fixed error text for unrecognized arguments.
pub open spec fn spec_unknown_message() -> Seq<char> {
    "Unknown arguments. Try '!yp help' for more information."@
}

/// The latency line for a measured round-trip time in milliseconds.
pub open spec fn spec_ping_message(latency_ms: int) -> Seq<char> {
    "Pong! This message had a latency of "@ + spec_idec(latency_ms) + "ms."@
}

/// The fixed help text.
pub fn help_message() -> (s: String)
    ensures
        s@ == spec_help_message(),
{
    String::from_str("Available commands:\n1. !yp\n2. !yp ping\n-> !yp help")
}

/// The fixed error text for unrecognized arguments.
pub fn unknown_message() -> (s: String)
    ensures
        s@ == spec_unknown_message(),
{
    String::from_str("Unknown arguments. Try '!yp help' for more information.")
}

/// The latency line for a measured round-trip time in milliseconds.
pub fn ping_message(latency_ms: i64) -> (s: String)
    ensures
        s@ == spec_ping_message(latency_ms as int),
{
    let mut s = String::from_str("Pong! This message had a latency of ");
    push_i64_decimal(&mut s, latency_ms);
    s.append("ms.");
    proof {
        assert(s@ =~= spec_ping_message(latency_ms as int));
    }
    s
}

/// The reply text each action calls for, or `None` where the message is
/// ignored.
pub open spec fn spec_reply(action: Action, now: Instant, latency_ms: int) -> Option<Seq<char>> {
    match action {
        Action::Ignore => None,
        Action::ReportProgress => Some(spec_progress_message(now)),
        Action::Ping => Some(spec_ping_message(latency_ms)),
        Action::Help => Some(spec_help_message()),
        Action::UnknownArguments => Some(spec_unknown_message()),
    }
}

/// Handles one inbound message: given whether the author is a bot, the raw
/// text, the current instant, and the message's measured latency in
/// milliseconds, produces the single reply the message calls for, or `None`
/// where it is to be ignored.
pub fn handle_message(author_is_bot: bool, content: &str, now: &Instant, latency_ms: i64) -> (r:
    Option<String>)
    requires
        now.wf(),
    ensures
        r is Some <==> spec_action(author_is_bot, content@) != Action::Ignore,
        r matches Some(s) ==> Some(s@) == spec_reply(
            spec_action(author_is_bot, content@),
            *now,
            latency_ms as int,
        ),
{
    match decide(author_is_bot, content) {
        Action::Ignore => None,
        Action::ReportProgress => Some(progress_message(now)),
        Action::Ping => Some(ping_message(latency_ms)),
        Action::Help => Some(help_message()),
        Action::UnknownArguments => Some(unknown_message()),
    }
}

} // verus!
