use benny::base::BaseCog;
use benny::cogs::CogManager;
use benny::cogs::CogUnit;
use benny::events::Action;
use benny::events::MessageEvent;
use benny::prefixes::PrefixesCog;
use benny::prefixes::list_reply;
use benny::prefixes::merge_prefixes;
use benny::prefixes::resolve_prefixes;

fn manager() -> CogManager {
    let mut m = CogManager::new(String::from("?"));
    m.register(CogUnit::Base(BaseCog::new(String::from("?"))));
    m.register(CogUnit::Prefixes(PrefixesCog::new(String::from("?"))));
    m
}

fn guild_msg(content: &str) -> MessageEvent {
    MessageEvent {
        author_is_bot: false,
        guild_id: Some(42),
        content: String::from(content),
    }
}

fn direct_msg(content: &str) -> MessageEvent {
    MessageEvent {
        author_is_bot: false,
        guild_id: None,
        content: String::from(content),
    }
}

#[test]
fn add_in_a_guild_upserts_and_confirms() {
    let acts = manager().dispatch_message(&guild_msg("?prefix add !"));
    match &acts[1] {
        Some(Action::UpsertPrefix { guild_id, value, reply }) => {
            assert_eq!(*guild_id, 42);
            assert_eq!(value, "!");
            assert_eq!(reply, "Added prefix `!`");
        },
        _ => panic!("expected an upsert"),
    }
    assert!(acts[0].is_none());
}

#[test]
fn add_outside_a_guild_is_silently_ignored() {
    let acts = manager().dispatch_message(&direct_msg("?prefix add !"));
    assert!(acts.iter().all(|a| a.is_none()));
}

#[test]
fn add_without_a_value_is_silently_ignored() {
    let acts = manager().dispatch_message(&guild_msg("?prefix add"));
    assert!(acts.iter().all(|a| a.is_none()));
}

#[test]
fn list_in_a_guild_fetches_the_record() {
    let acts = manager().dispatch_message(&guild_msg("?prefix list"));
    match &acts[1] {
        Some(Action::ListPrefixes { guild_id, fallback }) => {
            assert_eq!(*guild_id, 42);
            assert_eq!(fallback, "?");
        },
        _ => panic!("expected a record fetch"),
    }
}

#[test]
fn list_outside_a_guild_is_silently_ignored() {
    let acts = manager().dispatch_message(&direct_msg("?prefix list"));
    assert!(acts.iter().all(|a| a.is_none()));
}

#[test]
fn other_subcommands_get_the_usage_reply() {
    for content in ["?prefix", "?prefix remove !", "?prefix lists"] {
        let acts = manager().dispatch_message(&guild_msg(content));
        assert!(
            matches!(&acts[1], Some(Action::Reply(t)) if t == "Usage: prefix add <p> | prefix list"),
            "content {:?}",
            content
        );
    }
}

#[test]
fn repeated_adds_accumulate_with_commas_and_no_dedup() {
    // First add on an empty record, second add onto the stored value.
    let first = merge_prefixes(None, "!");
    assert_eq!(first, "!");
    let second = merge_prefixes(Some(first), "$");
    assert_eq!(second, "!,$");
    // Duplicates accumulate too; nothing is deduplicated.
    let third = merge_prefixes(Some(second), "!");
    assert_eq!(third, "!,$,!");
}

#[test]
fn list_without_a_record_falls_back_to_the_default_prefix() {
    assert_eq!(resolve_prefixes(None, "?"), "?");
    assert_eq!(list_reply(None, "?"), "Prefixes: ?");
}

#[test]
fn list_with_a_record_reports_the_stored_value() {
    assert_eq!(resolve_prefixes(Some(String::from("!,$")), "?"), "!,$");
    assert_eq!(list_reply(Some(String::from("!,$")), "?"), "Prefixes: !,$");
}
