use modbot::cases::{
    active_warns_query, case_embed_at, case_query_filter, create_case_embed, user_cases_query,
    FilterCondition, Case, CaseType, CASE_EMBED_COLOR,
};
use modbot::clock::MAX_UTC_MILLIS;
use modbot::guild_config::{
    create_new_guild_config, guild_config_key, guild_config_or_new, mod_check_start,
    mod_check_with_config, mod_log_channel, GuildConfig, ModCheck,
};

fn sample_case() -> Case {
    Case {
        id: None,
        case_type: CaseType::Ban,
        case_id: [
            0x67, 0xe5, 0x50, 0x44, 0x10, 0xb1, 0x42, 0x6f, 0x92, 0x47, 0xbb, 0x68, 0x0e, 0x5f, 0xe0, 0xc8,
        ],
        guild_id: 42,
        user_id: 1001,
        mod_id: 2002,
        reason: String::from("spam"),
        punishment_length: 0,
        creation_date: 1_714_566_600_250,
    }
}

#[test]
fn case_type_names() {
    assert_eq!(CaseType::Mute.to_string(), "Mute");
    assert_eq!(CaseType::Warn.to_string(), "Warn");
    assert_eq!(CaseType::Ban.to_string(), "Ban");
    assert_eq!(CaseType::Kick.to_string(), "Kick");
    assert_eq!(CaseType::Unban.to_string(), "Unban");
    assert_eq!(CaseType::Unmute.to_string(), "Unmute");
    assert_eq!(CaseType::Unwarn.to_string(), "Unwarn");
}

#[test]
fn default_case_is_a_placeholder_warn() {
    let case = Case::default();
    assert_eq!(case.id, None);
    assert_eq!(case.case_type, CaseType::Warn);
    assert_eq!((case.guild_id, case.user_id, case.mod_id), (1, 1, 1));
    assert_eq!(case.reason, "");
    assert!(case.creation_date > 0 && case.creation_date <= MAX_UTC_MILLIS);
}

#[test]
fn new_case_takes_its_fields() {
    let case = Case::new(42, 1001, 2002, String::from("rude"), CaseType::Kick);
    assert_eq!(case.case_type, CaseType::Kick);
    assert_eq!((case.guild_id, case.user_id, case.mod_id), (42, 1001, 2002));
    assert_eq!(case.reason, "rude");
    assert_eq!(case.id, None);
    let other = Case::new(42, 1001, 2002, String::from("rude"), CaseType::Kick);
    assert_ne!(case.case_id, other.case_id);
}

#[test]
fn set_punishment_date_changes_only_that_date() {
    let mut case = sample_case();
    case.set_punishment_date(99);
    assert_eq!(case.punishment_length, 99);
    assert_eq!(case.creation_date, 1_714_566_600_250);
    assert_eq!(case.reason, "spam");
}

#[test]
fn user_cases_query_criteria() {
    let q = user_cases_query(42, 1001, CaseType::Warn);
    assert_eq!(q.user_id, "1001");
    assert_eq!(q.guild_id, "42");
    assert_eq!(q.case_type, "Warn");
    assert_eq!(q.created_since, None);
}

#[test]
fn active_warns_query_criteria() {
    let q = active_warns_query(42, 1001, 1_700_000_000_000);
    assert_eq!(q.user_id, "1001");
    assert_eq!(q.guild_id, "42");
    assert_eq!(q.case_type, "Warn");
    assert_eq!(q.created_since, Some(1_700_000_000_000));
}

#[test]
fn case_embed_fields() {
    let case = sample_case();
    let embed = create_case_embed(&case);
    assert_eq!(embed.title, "Ban | Case 67e55044-10b1-426f-9247-bb680e5fe0c8");
    assert_eq!(embed.description, None);
    assert_eq!(embed.fields.len(), 3);
    assert_eq!(embed.fields[0].name, "User");
    assert_eq!(embed.fields[0].value, "1001 (<@1001>)");
    assert!(embed.fields[0].inline);
    assert_eq!(embed.fields[1].name, "Moderator");
    assert_eq!(embed.fields[1].value, "<@1001>");
    assert!(embed.fields[1].inline);
    assert_eq!(embed.fields[2].name, "Reason");
    assert_eq!(embed.fields[2].value, "spam");
    assert!(!embed.fields[2].inline);
    assert_eq!(embed.color, Some(CASE_EMBED_COLOR));
    assert_eq!(CASE_EMBED_COLOR, 6_573_123);
    assert!(embed.timestamp.unwrap() > 0);
}

#[test]
fn new_guild_config_defaults() {
    let config = create_new_guild_config(&77);
    assert_eq!(config.id, None);
    assert_eq!(config.guild_id, 77);
    assert_eq!(config.max_warns, 3);
    assert_eq!(config.warn_life_span, 7);
    assert_eq!(config.ban_message, Some(String::new()));
    assert_eq!(config.banned_words, vec![String::new()]);
    assert_eq!(config.join_roles, Some(vec![]));
    assert!(config.server_log_whitelist.is_empty());
    assert_eq!(config.mod_log_channel_id, None);
    assert_eq!(config.server_log_channel_id, None);
    assert_eq!(config.mute_role_id, None);
    assert_eq!(config.mod_role_id, None);
}

#[test]
fn guild_config_key_is_decimal_id() {
    assert_eq!(guild_config_key(123456789012345678), "123456789012345678");
}

#[test]
fn stored_guild_config_is_kept() {
    let mut stored = create_new_guild_config(&5);
    stored.max_warns = 9;
    stored.mod_role_id = Some(31);
    let (config, insert) = guild_config_or_new(5, Some(stored));
    assert!(!insert);
    assert_eq!(config.max_warns, 9);
    assert_eq!(config.mod_role_id, Some(31));
}

#[test]
fn missing_guild_config_is_created_and_stored() {
    let (config, insert) = guild_config_or_new(6, None);
    assert!(insert);
    assert_eq!(config.guild_id, 6);
    assert_eq!(config.max_warns, 3);
}

fn config_with(mod_log: Option<u64>, mod_role: Option<u64>) -> GuildConfig {
    let mut config = create_new_guild_config(&1);
    config.mod_log_channel_id = mod_log;
    config.mod_role_id = mod_role;
    config
}

#[test]
fn mod_log_channel_needs_configuration_and_existing_channel() {
    assert_eq!(mod_log_channel(&config_with(Some(10), None), &vec![3, 10, 12]), Some(10));
    assert_eq!(mod_log_channel(&config_with(Some(11), None), &vec![3, 10, 12]), None);
    assert_eq!(mod_log_channel(&config_with(None, None), &vec![3, 10, 12]), None);
    assert_eq!(mod_log_channel(&config_with(Some(3), None), &vec![]), None);
}

#[test]
fn mod_check_steps() {
    assert_eq!(mod_check_start(None), ModCheck::Decided(false));
    assert_eq!(mod_check_start(Some(8)), ModCheck::LoadConfig { guild_id: 8 });
    assert_eq!(mod_check_with_config(8, &config_with(None, None)), ModCheck::Decided(false));
    assert_eq!(
        mod_check_with_config(8, &config_with(None, Some(99))),
        ModCheck::CheckRole { guild_id: 8, role_id: 99 }
    );
}

#[test]
fn case_from_parts_keeps_every_part() {
    let case = Case::from_parts(42, 1001, 2002, String::from("spam"), CaseType::Mute, [5; 16], 1_000, 2_000);
    assert_eq!(case.id, None);
    assert_eq!(case.case_type, CaseType::Mute);
    assert_eq!(case.case_id, [5; 16]);
    assert_eq!((case.guild_id, case.user_id, case.mod_id), (42, 1001, 2002));
    assert_eq!(case.reason, "spam");
    assert_eq!(case.creation_date, 1_000);
    assert_eq!(case.punishment_length, 2_000);
}

#[test]
fn new_cases_are_dated_after_the_epoch_with_v4_ids() {
    let case = Case::new(42, 1001, 2002, String::from("rude"), CaseType::Warn);
    assert!(case.creation_date > 1_600_000_000_000);
    assert!(case.punishment_length >= case.creation_date);
    assert_eq!(case.case_id[6] >> 4, 4);
    assert_eq!(case.case_id[8] >> 6, 2);
    let placeholder = Case::default();
    assert_eq!(placeholder.case_id[6] >> 4, 4);
    assert_eq!(placeholder.case_id[8] >> 6, 2);
}

#[test]
fn case_embed_at_uses_the_given_time() {
    let embed = case_embed_at(&sample_case(), 1_714_566_600_250);
    assert_eq!(embed.timestamp, Some(1_714_566_600_250));
    assert_eq!(embed.title, "Ban | Case 67e55044-10b1-426f-9247-bb680e5fe0c8");
    assert_eq!(embed.fields[1].value, "<@1001>");
}

#[test]
fn query_filter_criteria() {
    let all = case_query_filter(&user_cases_query(42, 1001, CaseType::Warn));
    assert_eq!(all.len(), 3);
    let fields: Vec<&str> = all.iter().map(|c| c.field.as_str()).collect();
    assert_eq!(fields, vec!["user_id", "guild_id", "case_type"]);
    assert!(matches!(&all[0].condition, FilterCondition::Equals(t) if t == "1001"));
    assert!(matches!(&all[1].condition, FilterCondition::Equals(t) if t == "42"));
    assert!(matches!(&all[2].condition, FilterCondition::Equals(t) if t == "Warn"));
    let active = case_query_filter(&active_warns_query(42, 1001, 5_000));
    assert_eq!(active.len(), 4);
    assert_eq!(active[3].field, "creation_date");
    assert!(matches!(active[3].condition, FilterCondition::AtLeast(5_000)));
}
