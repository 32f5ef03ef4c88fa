//! The per-guild prefix-management unit, and the storage-value logic its
//! actions rely on: the accumulate-with-comma upsert and the list fallback.
//!
//! The unit only decides; the caller runs the storage operations and builds
//! the stored value with `merge_prefixes` and the list reply with
//! `list_reply`.

use crate::cogs::Cog;
use crate::events::Action;
use crate::events::ActionView;
use crate::events::MessageEvent;
use crate::events::MessageView;
use crate::text::seq_starts_with;
use crate::text::split_whitespace_tokens;
use crate::text::str_eq;
use crate::text::str_starts_with;
use crate::text::tokens;
use crate::text::trim_str;
use crate::text::trimmed;
use crate::text::views_of;
use vstd::prelude::*;

verus! {

/// Prefix-management unit; holds the default prefix it falls back to when a
/// guild has no stored record.
pub struct PrefixesCog {
    prefix: String,
}

/// The prefix-management unit's reaction to a message: nothing for bot
/// authors, nothing without the prefix, nothing unless the command is
/// `prefix`. `add <value>` in a guild asks for an upsert and a confirmation
/// reply; `add` without a value, or `add`/`list` outside a guild, is silently
/// ignored; `list` in a guild asks for a record fetch; any other subcommand,
/// or none, gets the fixed usage reply.
pub open spec fn prefixes_decision(prefix: Seq<char>, m: MessageView) -> Option<ActionView> {
    if m.author_is_bot {
        Option::None
    } else {
        let c = trimmed(m.content);
        if !seq_starts_with(c, prefix) {
            Option::None
        } else {
            let toks = tokens(c.skip(prefix.len() as int));
            if toks.len() == 0 {
                Option::None
            } else if toks[0] != "prefix"@ {
                Option::None
            } else if toks.len() >= 2 && toks[1] == "add"@ {
                if toks.len() >= 3 {
                    match m.guild_id {
                        Option::Some(g) => Option::Some(ActionView::UpsertPrefix {
                            guild_id: g,
                            value: toks[2],
                            reply: "Added prefix `"@ + toks[2] + "`"@,
                        }),
                        Option::None => Option::None,
                    }
                } else {
                    Option::None
                }
            } else if toks.len() >= 2 && toks[1] == "list"@ {
                match m.guild_id {
                    Option::Some(g) => Option::Some(ActionView::ListPrefixes {
                        guild_id: g,
                        fallback: prefix,
                    }),
                    Option::None => Option::None,
                }
            } else {
                Option::Some(ActionView::Reply("Usage: prefix add <p> | prefix list"@))
            }
        }
    }
}

impl PrefixesCog {
    /// The default prefix this unit falls back to.
    pub closed spec fn default_prefix(&self) -> Seq<char> {
        self.prefix@
    }

    /// Creates the unit with its default prefix. The storage handle the
    /// unit's actions are run against stays with the caller.
    pub fn new(prefix: String) -> (r: PrefixesCog)
        ensures
            r.default_prefix() == prefix@,
    {
        PrefixesCog { prefix }
    }
}

impl Cog for PrefixesCog {
    open spec fn ready_decision(&self) -> Option<ActionView> {
        Option::None
    }

    open spec fn message_decision(&self, m: MessageView) -> Option<ActionView> {
        prefixes_decision(self.default_prefix(), m)
    }

    fn on_ready(&self) -> (r: Option<Action>) {
        None
    }

    fn on_message(&self, m: &MessageEvent) -> (r: Option<Action>) {
        if m.author_is_bot {
            return None;
        }
        let t = trim_str(m.content.as_str());
        if !str_starts_with(t.as_str(), self.prefix.as_str()) {
            return None;
        }
        let tn = t.as_str().unicode_len();
        let pn = self.prefix.as_str().unicode_len();
        let rest = t.as_str().substring_char(pn, tn);
        proof {
            assert(rest@ =~= trimmed(m.content@).skip(self.prefix@.len() as int));
        }
        let toks = split_whitespace_tokens(rest);
        proof {
            assert(views_of(toks@) == tokens(rest@));
            assert(forall|j: int|
                0 <= j < toks@.len() ==> #[trigger] toks@[j]@ == views_of(toks@)[j]);
        }
        if toks.len() == 0 {
            return None;
        }
        if !str_eq(toks[0].as_str(), "prefix") {
            return None;
        }
        if toks.len() >= 2 && str_eq(toks[1].as_str(), "add") {
            if toks.len() >= 3 {
                match m.guild_id {
                    Some(g) => {
                        let value = toks[2].clone();
                        let reply = String::from_str("Added prefix `").concat(
                            value.as_str(),
                        ).concat("`");
                        Some(Action::UpsertPrefix { guild_id: g, value, reply })
                    },
                    None => None,
                }
            } else {
                None
            }
        } else if toks.len() >= 2 && str_eq(toks[1].as_str(), "list") {
            match m.guild_id {
                Some(g) => Some(
                    Action::ListPrefixes { guild_id: g, fallback: self.prefix.clone() },
                ),
                None => None,
            }
        } else {
            Some(Action::Reply(String::from_str("Usage: prefix add <p> | prefix list")))
        }
    }
}

/// The view of an optional stored record.
pub open spec fn opt_str_view(o: Option<String>) -> Option<Seq<char>> {
    match o {
        Option::None => Option::None,
        Option::Some(s) => Option::Some(s@),
    }
}

/// The stored value a `prefix add` upsert leaves behind: the new value alone
/// when the guild had no record, else the existing value with a comma and the
/// new value appended. Repeated adds accumulate, duplicates included.
pub open spec fn merged_prefixes(existing: Option<Seq<char>>, value: Seq<char>) -> Seq<char> {
    match existing {
        Option::None => value,
        Option::Some(e) => e + ","@ + value,
    }
}

/// Computes the stored value for a `prefix add` upsert from the guild's
/// existing record, accumulating with a comma and never deduplicating.
pub fn merge_prefixes(existing: Option<String>, value: &str) -> (r: String)
    ensures
        r@ == merged_prefixes(opt_str_view(existing), value@),
{
    match existing {
        None => String::from_str(value),
        Some(e) => e.concat(",").concat(value),
    }
}

/// The prefixes a guild resolves to: its stored record if one exists, else
/// the unit's default prefix, never an error and never empty text made up
/// here.
pub open spec fn resolved_prefixes(row: Option<Seq<char>>, fallback: Seq<char>) -> Seq<char> {
    match row {
        Option::Some(p) => p,
        Option::None => fallback,
    }
}

/// Resolves a guild's prefixes from its fetched record, falling back to the
/// unit's default prefix when no record is stored.
pub fn resolve_prefixes(row: Option<String>, fallback: &str) -> (r: String)
    ensures
        r@ == resolved_prefixes(opt_str_view(row), fallback@),
{
    match row {
        Some(p) => p,
        None => String::from_str(fallback),
    }
}

/// The reply text for `prefix list`, built from the fetched record and the
/// unit's default prefix.
pub fn list_reply(row: Option<String>, fallback: &str) -> (r: String)
    ensures
        r@ == "Prefixes: "@ + resolved_prefixes(opt_str_view(row), fallback@),
{
    let resolved = resolve_prefixes(row, fallback);
    String::from_str("Prefixes: ").concat(resolved.as_str())
}

} // verus!
