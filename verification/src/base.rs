//! The diagnostics handler unit: an echo/health check, a static identity
//! reply, and a file/line-count report of the working directory tree.
//!
//! The unit only decides; the caller performs the filesystem walk for the
//! count report and builds the reply with `files_reply` from the two totals.

use crate::cogs::Cog;
use crate::digits::dec_digits;
use crate::digits::u64_to_string;
use crate::events::Action;
use crate::events::ActionView;
use crate::events::MessageEvent;
use crate::events::MessageView;
use crate::text::seq_starts_with;
use crate::text::split_whitespace_tokens;
use crate::text::str_eq;
use crate::text::str_starts_with;
use crate::text::tokens;
use crate::text::trim_str;
use crate::text::trimmed;
use crate::text::views_of;
use vstd::prelude::*;

verus! {

/// Diagnostics unit; holds its own copy of the default command prefix and
/// never consults per-guild overrides.
pub struct BaseCog {
    prefix: String,
}

/// The diagnostics unit's reaction to a message: nothing for bot authors,
/// nothing without the prefix, `Pong!` for `ping`, a static identity line for
/// `about`, a file/line-count request for `files`, and silence for anything
/// else (unknown commands are not an error).
pub open spec fn base_decision(prefix: Seq<char>, m: MessageView) -> Option<ActionView> {
    if m.author_is_bot {
        Option::None
    } else {
        let c = trimmed(m.content);
        if !seq_starts_with(c, prefix) {
            Option::None
        } else {
            let toks = tokens(c.skip(prefix.len() as int));
            if toks.len() == 0 {
                Option::None
            } else if toks[0] == "ping"@ {
                Option::Some(ActionView::Reply("Pong!"@))
            } else if toks[0] == "about"@ {
                Option::Some(ActionView::Reply("Benny-rs bot (scaffold)"@))
            } else if toks[0] == "files"@ {
                Option::Some(ActionView::CountFiles)
            } else {
                Option::None
            }
        }
    }
}

impl BaseCog {
    /// The default command prefix this unit was built with.
    pub closed spec fn default_prefix(&self) -> Seq<char> {
        self.prefix@
    }

    /// Creates the unit with its copy of the default prefix.
    pub fn new(prefix: String) -> (r: BaseCog)
        ensures
            r.default_prefix() == prefix@,
    {
        BaseCog { prefix }
    }
}

impl Cog for BaseCog {
    open spec fn ready_decision(&self) -> Option<ActionView> {
        Option::None
    }

    open spec fn message_decision(&self, m: MessageView) -> Option<ActionView> {
        base_decision(self.default_prefix(), m)
    }

    fn on_ready(&self) -> (r: Option<Action>) {
        None
    }

    fn on_message(&self, m: &MessageEvent) -> (r: Option<Action>) {
        if m.author_is_bot {
            return None;
        }
        let t = trim_str(m.content.as_str());
        if !str_starts_with(t.as_str(), self.prefix.as_str()) {
            return None;
        }
        let tn = t.as_str().unicode_len();
        let pn = self.prefix.as_str().unicode_len();
        let rest = t.as_str().substring_char(pn, tn);
        proof {
            assert(rest@ =~= trimmed(m.content@).skip(self.prefix@.len() as int));
        }
        let toks = split_whitespace_tokens(rest);
        proof {
            assert(views_of(toks@) == tokens(rest@));
        }
        if toks.len() == 0 {
            return None;
        }
        proof {
            assert(toks@[0]@ == views_of(toks@)[0]);
        }
        let cmd = &toks[0];
        if str_eq(cmd.as_str(), "ping") {
            Some(Action::Reply(String::from_str("Pong!")))
        } else if str_eq(cmd.as_str(), "about") {
            Some(Action::Reply(String::from_str("Benny-rs bot (scaffold)")))
        } else if str_eq(cmd.as_str(), "files") {
            Some(Action::CountFiles)
        } else {
            None
        }
    }
}

/// The number of newline characters in the sequence.
pub open spec fn newline_count(s: Seq<char>) -> nat
    decreases s.len(),
{
    if s.len() == 0 {
        0nat
    } else {
        newline_count(s.drop_last()) + (if s.last() == '\n' {
            1nat
        } else {
            0nat
        })
    }
}

/// What `str::lines().count()` returns: one line per newline character, plus
/// a final line when the text does not end with a newline; zero for empty
/// text.
pub open spec fn line_count_spec(s: Seq<char>) -> nat {
    if s.len() == 0 {
        0nat
    } else if s.last() == '\n' {
        newline_count(s)
    } else {
        newline_count(s) + 1
    }
}

proof fn lemma_newline_count_le(s: Seq<char>)
    ensures
        newline_count(s) <= s.len(),
    decreases s.len(),
{
    if s.len() > 0 {
        lemma_newline_count_le(s.drop_last());
    }
}

/// Counts the text lines of one file's contents, as `str::lines` yields them.
pub fn line_count(text: &str) -> (n: u64)
    ensures
        n as nat == line_count_spec(text@),
{
    let len = text.unicode_len();
    let mut cnt: u64 = 0;
    let mut i: usize = 0;
    while i < len
        invariant
            len == text@.len(),
            i <= len,
            cnt as nat == newline_count(text@.take(i as int)),
            cnt <= i,
        decreases len - i,
    {
        let c = text.get_char(i);
        proof {
            assert(text@.take(i as int + 1).drop_last() =~= text@.take(i as int));
            assert(text@.take(i as int + 1).last() == text@[i as int]);
        }
        if c == '\n' {
            cnt = cnt + 1;
        }
        i += 1;
    }
    proof {
        assert(text@.take(len as int) =~= text@);
    }
    if len == 0 {
        0
    } else {
        let last = text.get_char(len - 1);
        if last == '\n' {
            cnt
        } else {
            proof {
                lemma_newline_count_le(text@.drop_last());
                assert(newline_count(text@) == newline_count(text@.drop_last()));
            }
            cnt + 1
        }
    }
}

/// The report text for the file/line-count command, exactly
/// `Files: <files>, Lines: <lines>` with both totals in decimal.
pub fn files_reply(files: u64, lines: u64) -> (r: String)
    ensures
        r@ == "Files: "@ + dec_digits(files as nat) + ", Lines: "@ + dec_digits(lines as nat),
{
    let mut r = String::from_str("Files: ");
    let f = u64_to_string(files);
    r.append(f.as_str());
    r.append(", Lines: ");
    let l = u64_to_string(lines);
    r.append(l.as_str());
    r
}

} // verus!
