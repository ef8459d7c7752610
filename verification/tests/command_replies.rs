use modbot::cases::{Case, CaseType};
use modbot::commands::{
    active_warnings_reply, active_warns_lookup, age_reply, age_text, ban_delete_days, ban_dm,
    ban_outcome, ban_reply, case_id_or_error, change_reason_case_id, change_reason_outcome, check_warns_lookup,
    clear_warns_reply, create_warns_embed, duration_reply, exceeds_warn_limit, join_role_reply,
    kick_outcome, kick_reply, missing_guild_error, missing_guild_for_announcement, mute_duration_reply,
    mute_user_reply, plan_warn, unban_reply, unmute_reply, unwarn_reply, warn_ban_reply, warn_dm,
    warn_expiration_date, warn_limit_ban_dm, warning_bot_reply, ReasonUpdate, WarnsLookup,
};
use modbot::guild_config::create_new_guild_config;
use modbot::clock::MILLIS_PER_DAY;

fn warn_case(day: u8, mod_id: u64, reason: &str, creation_date: i64) -> Case {
    Case {
        id: None,
        case_type: CaseType::Warn,
        case_id: [day; 16],
        guild_id: 42,
        user_id: 1001,
        mod_id,
        reason: String::from(reason),
        punishment_length: creation_date,
        creation_date,
    }
}

#[test]
fn missing_guild_errors() {
    assert_eq!(missing_guild_error(), "Failed to grab Guild for warn_user.");
    assert_eq!(missing_guild_for_announcement(), "Missing guild");
}

#[test]
fn warn_expiration_uses_life_span() {
    let config = create_new_guild_config(&1);
    let now = 100 * MILLIS_PER_DAY + 5;
    assert_eq!(warn_expiration_date(now, &config), Some(93 * MILLIS_PER_DAY + 5));
}

#[test]
fn warn_texts() {
    assert_eq!(warning_bot_reply(), "You're warning a bot.");
    assert_eq!(active_warnings_reply("alice", 2), "alice currently has 2 active warnings.");
    assert_eq!(warn_dm("Guild", "spam"), "You've been warned in **Guild**\n\n**Reason**: spam");
    assert_eq!(warn_limit_ban_dm(), "Due to exceeding the warn limit, you've been banned.");
    assert_eq!(warn_ban_reply("alice", true), "Banned user alice");
    assert_eq!(warn_ban_reply("alice", false), "Failed to ban user alice.");
}

#[test]
fn warn_limit_threshold() {
    assert!(!exceeds_warn_limit(0, 3));
    assert!(!exceeds_warn_limit(1, 3));
    assert!(exceeds_warn_limit(2, 3));
    assert!(exceeds_warn_limit(5, 3));
    assert!(exceeds_warn_limit(0, 0));
    assert!(exceeds_warn_limit(0, 1));
    assert!(exceeds_warn_limit(usize::MAX, u32::MAX));
}

#[test]
fn warn_plan_below_and_at_limit() {
    let plan = plan_warn("bob", "Home", "rude", 0, 3);
    assert_eq!(plan.count_reply, "bob currently has 0 active warnings.");
    assert_eq!(plan.dm, "You've been warned in **Home**\n\n**Reason**: rude");
    assert_eq!(plan.ban_dm, None);
    let plan = plan_warn("bob", "Home", "rude", 2, 3);
    assert_eq!(plan.ban_dm.as_deref(), Some("Due to exceeding the warn limit, you've been banned."));
}

#[test]
fn ban_texts() {
    assert_eq!(ban_dm("Guild", "raid"), "You've been banned in **Guild**\n\n**Reason**: raid");
    assert_eq!(ban_delete_days(None), 0);
    assert_eq!(ban_delete_days(Some(7)), 7);
    assert_eq!(ban_reply("eve", true), "Banned user eve");
    assert_eq!(ban_reply("eve", false), "Failed to ban user eve. Aborting creating a case.");
}

#[test]
fn kick_texts() {
    assert_eq!(kick_reply("eve", true), "Kicked eve from the server.");
    assert_eq!(kick_reply("eve", false), "Failed to kick eve from the server.");
}

#[test]
fn check_warns_lookup_steps() {
    match check_warns_lookup(42, 1001, None) {
        WarnsLookup::Query(q) => {
            assert_eq!(q.user_id, "1001");
            assert_eq!(q.guild_id, "42");
            assert_eq!(q.case_type, "Warn");
            assert_eq!(q.created_since, None);
        },
        WarnsLookup::NeedConfig => panic!("all warns need no configuration"),
    }
    match check_warns_lookup(42, 1001, Some(false)) {
        WarnsLookup::Query(q) => {
            assert_eq!(q.user_id, "1001");
            assert_eq!(q.case_type, "Warn");
            assert_eq!(q.created_since, None);
        },
        WarnsLookup::NeedConfig => panic!("is_active = false lists all warns"),
    }
    assert!(matches!(check_warns_lookup(42, 1001, Some(true)), WarnsLookup::NeedConfig));
    let config = create_new_guild_config(&42);
    let q = active_warns_lookup(42, 1001, &config, 10 * MILLIS_PER_DAY).unwrap();
    assert_eq!(q.created_since, Some(3 * MILLIS_PER_DAY));
    assert_eq!(q.case_type, "Warn");
}

#[test]
fn warns_embed_without_warns() {
    let embed = create_warns_embed(1001, &[]);
    assert_eq!(embed.title, "Cases for user_id: 1001");
    assert_eq!(embed.description.as_deref(), Some("This user has no warnings against them."));
    assert!(embed.fields.is_empty());
}

#[test]
fn warns_embed_lists_each_warn() {
    let cases = vec![warn_case(1, 7, "spam", 0), warn_case(2, 8, "flood", 1_714_566_600_250)];
    let embed = create_warns_embed(1001, &cases);
    assert_eq!(embed.title, "Cases for user_id: 1001");
    assert_eq!(embed.description.as_deref(), Some("User (<@1001>) has 2 warn(s)\n\n"));
    assert_eq!(embed.fields.len(), 2);
    assert_eq!(embed.fields[0].name, "Case 01010101-0101-0101-0101-010101010101");
    assert_eq!(
        embed.fields[0].value,
        "**Creation Date**: 1970-01-01 00:00:00 UTC\n**Moderator:** <@7>\n**Reason:** spam\n\n\n"
    );
    assert!(!embed.fields[0].inline);
    assert_eq!(embed.fields[1].name, "Case 02020202-0202-0202-0202-020202020202");
    assert_eq!(
        embed.fields[1].value,
        "**Creation Date**: 2024-05-01 12:30:00.250 UTC\n**Moderator:** <@8>\n**Reason:** flood\n\n\n"
    );
}

#[test]
fn change_reason_case_ids() {
    assert_eq!(change_reason_case_id("00000000-0000-0000-0000-000000000001").unwrap()[15], 1);
    assert_eq!(change_reason_case_id("nope").unwrap_err(), "Invalid case ID was provided.");
    assert_eq!(case_id_or_error(Some([3; 16])).unwrap(), [3; 16]);
    assert_eq!(case_id_or_error(None).unwrap_err(), "Invalid case ID was provided.");
}

#[test]
fn change_reason_outcomes() {
    let id = [0xab; 16];
    let failed = change_reason_outcome(&id, ReasonUpdate::Failed);
    assert_eq!(failed.reply, "Failed to update case abababab-abab-abab-abab-abababababab");
    assert!(!failed.announce);
    assert_eq!(failed.error.as_deref(), Some("Failed to update users case."));
    let missing = change_reason_outcome(&id, ReasonUpdate::NotFound);
    assert_eq!(missing.reply, "No cases exist with this id: abababab-abab-abab-abab-abababababab");
    assert!(!missing.announce);
    assert_eq!(missing.error, None);
    let updated = change_reason_outcome(&id, ReasonUpdate::Updated);
    assert_eq!(updated.reply, "Successfully updated case abababab-abab-abab-abab-abababababab");
    assert!(updated.announce);
    assert_eq!(updated.error, None);
}

#[test]
fn mute_texts() {
    assert_eq!(mute_user_reply("carol"), "mute_user command! carol");
    assert_eq!(mute_duration_reply("10m").as_deref(), Some("duration or something"));
    assert_eq!(mute_duration_reply("ten minutes"), None);
    assert_eq!(duration_reply(Some(1)).as_deref(), Some("duration or something"));
    assert_eq!(duration_reply(None), None);
}

#[test]
fn other_command_replies() {
    assert_eq!(clear_warns_reply("dan"), "clear_warns command! dan");
    assert_eq!(unban_reply("dan"), "Unban command! dan");
    assert_eq!(unmute_reply("dan"), "Unmute command! dan");
    assert_eq!(unwarn_reply("w1", "oops"), "Unwarn command! w1 oops");
    assert_eq!(join_role_reply(), "Join role command! : )");
    assert_eq!(age_text("dan", "then"), "dan's account was created at then");
    assert_eq!(
        age_reply("dan", 175928847299117063),
        "dan's account was created at 2016-04-30T11:18:25.796Z"
    );
}

#[test]
fn ban_and_kick_outcomes_record_only_success() {
    let done = ban_outcome("eve", true);
    assert!(done.record_case);
    assert_eq!(done.reply, "Banned user eve");
    let failed = ban_outcome("eve", false);
    assert!(!failed.record_case);
    assert_eq!(failed.reply, "Failed to ban user eve. Aborting creating a case.");
    let done = kick_outcome("eve", true);
    assert!(done.record_case);
    assert_eq!(done.reply, "Kicked eve from the server.");
    let failed = kick_outcome("eve", false);
    assert!(!failed.record_case);
    assert_eq!(failed.reply, "Failed to kick eve from the server.");
}

#[test]
fn case_id_shown_in_an_embed_is_accepted_back() {
    let id: [u8; 16] = [9, 8, 7, 6, 5, 4, 3, 2, 1, 0, 0xff, 0xee, 0xdd, 0xcc, 0xbb, 0xaa];
    let text = modbot::text::uuid_string(&id);
    assert_eq!(change_reason_case_id(&text).unwrap(), id);
}
