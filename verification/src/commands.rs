//! What the moderation commands decide and say: the texts of their replies
//! and direct messages, and the choices between them.

use vstd::prelude::*;

use crate::case_id::{parse_case_id, parsed_uuid};
use crate::cases::{
    active_warns_query, active_warns_query_of, user_cases_query, user_cases_query_of, Case,
    CaseQuery, CaseType,
};
use crate::clock::{
    days_before, parse_duration, parsed_duration_nanos, utc_display, utc_representable, utc_text,
    MILLIS_PER_DAY,
};
use crate::discord::{account_created, account_created_text};
use crate::embed::{field_is, Embed, EmbedField};
use crate::guild_config::GuildConfig;
use crate::text::{
    append_decimal, append_mention, decimal, lemma_uuid_text_injective, mention, uuid_string,
    uuid_text,
};

verus! {

/// The error of a command that was not used in a guild.
pub fn missing_guild_error() -> (e: String)
    ensures
        e@ == "Failed to grab Guild for warn_user."@,
{
    String::from_str("Failed to grab Guild for warn_user.")
}

// ---------------------------------------------------------------- warn

/// The point in time before which a warn has expired, `days` whole days before
/// `now`; `None` where that point, or `now`, lies outside the range of
/// `DateTime<Utc>`.
pub open spec fn expiration_of(now: i64, days: u32) -> Option<i64> {
    if utc_representable(now as int) && utc_representable(now - days * MILLIS_PER_DAY) {
        Some((now - days * MILLIS_PER_DAY) as i64)
    } else {
        None
    }
}

/// The expiration date of warns in a guild at time `now`: the guild's warn
/// life span (in days) before `now`.
pub fn warn_expiration_date(now: i64, config: &GuildConfig) -> (r: Option<i64>)
    ensures
        r == expiration_of(now, config.warn_life_span),
        r is Some <==> (utc_representable(now as int) && utc_representable(
            now - config.warn_life_span * 86_400_000,
        )),
        r matches Some(expiration) ==> expiration == now - config.warn_life_span * 86_400_000,
{
    days_before(now, config.warn_life_span)
}

/// Warns expire exactly the life span, in whole days of 86 400 000 ms,
/// before `now`; there is an expiration date exactly when `now` and that
/// point both lie in the range of `DateTime<Utc>`.
pub proof fn lemma_expiration_is_life_span_before(now: i64, days: u32)
    ensures
        expiration_of(now, days) is Some <==> (utc_representable(now as int) && utc_representable(
            now - days * 86_400_000,
        )),
        expiration_of(now, days) matches Some(expiration) ==> expiration + days * 86_400_000 == now,
{
}

/// A strictly longer warn life span gives a strictly earlier expiration date.
pub proof fn lemma_longer_life_span_strictly_earlier(now: i64, shorter: u32, longer: u32)
    requires
        shorter < longer,
        expiration_of(now, shorter) is Some,
        expiration_of(now, longer) is Some,
    ensures
        expiration_of(now, longer)->0 < expiration_of(now, shorter)->0,
{
    assert(shorter * 86_400_000 < longer * 86_400_000) by (nonlinear_arith)
        requires
            shorter < longer,
    ;
}

/// A longer warn life span never moves the expiration date later, so it keeps
/// every warn that a shorter one keeps.
pub proof fn lemma_longer_life_span_expires_earlier(now: i64, shorter: u32, longer: u32)
    requires
        shorter <= longer,
        expiration_of(now, longer) is Some,
    ensures
        expiration_of(now, shorter) is Some,
        expiration_of(now, longer)->0 <= expiration_of(now, shorter)->0,
{
    assert(shorter * MILLIS_PER_DAY <= longer * MILLIS_PER_DAY) by (nonlinear_arith)
        requires
            shorter <= longer,
    ;
}

/// The reply to a warn aimed at a bot.
pub fn warning_bot_reply() -> (s: String)
    ensures
        s@ == "You're warning a bot."@,
{
    String::from_str("You're warning a bot.")
}

/// The reply that tells how many active warnings a user already has.
pub fn active_warnings_reply(user_name: &str, active_warns: usize) -> (s: String)
    ensures
        s@ == user_name@ + " currently has "@ + decimal(active_warns as nat) + " active warnings."@,
{
    let mut s = String::from_str(user_name);
    s.append(" currently has ");
    append_decimal(&mut s, active_warns as u64);
    s.append(" active warnings.");
    s
}

/// The direct message that tells a user of a warn.
pub fn warn_dm(guild_name: &str, reason: &str) -> (s: String)
    ensures
        s@ == "You've been warned in **"@ + guild_name@ + "**\n\n**Reason**: "@ + reason@,
{
    let mut s = String::from_str("You've been warned in **");
    s.append(guild_name);
    s.append("**\n\n**Reason**: ");
    s.append(reason);
    s
}

/// Whether a new warn brings a user to the guild's limit, so that the user is
/// banned: the active warns and the new one reach `max_warns`.
pub fn exceeds_warn_limit(active_warns: usize, max_warns: u32) -> (ban: bool)
    ensures
        ban == (active_warns + 1 >= max_warns),
{
    max_warns == 0 || active_warns as u64 >= (max_warns - 1) as u64
}

/// More active warns never lift a ban that fewer would bring.
pub proof fn lemma_warn_limit_monotonic(fewer: usize, more: usize, max_warns: u32)
    requires
        fewer <= more,
        fewer + 1 >= max_warns,
    ensures
        more + 1 >= max_warns,
{
}

/// The direct message to a user banned for reaching the warn limit.
pub fn warn_limit_ban_dm() -> (s: String)
    ensures
        s@ == "Due to exceeding the warn limit, you've been banned."@,
{
    String::from_str("Due to exceeding the warn limit, you've been banned.")
}

/// The reply after the ban that the warn limit brings.
pub fn warn_ban_reply(user_name: &str, banned: bool) -> (s: String)
    ensures
        s@ == if banned {
            "Banned user "@ + user_name@
        } else {
            "Failed to ban user "@ + user_name@ + "."@
        },
{
    if banned {
        let mut s = String::from_str("Banned user ");
        s.append(user_name);
        s
    } else {
        let mut s = String::from_str("Failed to ban user ");
        s.append(user_name);
        s.append(".");
        s
    }
}

/// What a warn says once the user's active warns are counted: the reply that
/// tells the count, the direct message to the user, and, where the warn
/// reaches the guild's limit, the direct message announcing the ban that follows.
pub struct WarnPlan {
    pub count_reply: String,
    pub dm: String,
    pub ban_dm: Option<String>,
}

/// The plan of a warn of `user_name` in `guild_name` for `reason`, when the
/// user already has `active_warns` active warns and the guild bans at `max_warns`.
pub fn plan_warn(user_name: &str, guild_name: &str, reason: &str, active_warns: usize, max_warns: u32) -> (plan: WarnPlan)
    ensures
        plan.count_reply@ == user_name@ + " currently has "@ + decimal(active_warns as nat)
            + " active warnings."@,
        plan.dm@ == "You've been warned in **"@ + guild_name@ + "**\n\n**Reason**: "@ + reason@,
        plan.ban_dm is Some <==> active_warns + 1 >= max_warns,
        plan.ban_dm matches Some(m) ==> m@ == "Due to exceeding the warn limit, you've been banned."@,
{
    let count_reply = active_warnings_reply(user_name, active_warns);
    let dm = warn_dm(guild_name, reason);
    let ban_dm = if exceeds_warn_limit(active_warns, max_warns) {
        Some(warn_limit_ban_dm())
    } else {
        None
    };
    WarnPlan { count_reply, dm, ban_dm }
}

// ---------------------------------------------------------------- ban

/// The direct message that tells a user of a ban.
pub fn ban_dm(guild_name: &str, reason: &str) -> (s: String)
    ensures
        s@ == "You've been banned in **"@ + guild_name@ + "**\n\n**Reason**: "@ + reason@,
{
    let mut s = String::from_str("You've been banned in **");
    s.append(guild_name);
    s.append("**\n\n**Reason**: ");
    s.append(reason);
    s
}

/// How many days of the user's messages a ban deletes: as many as asked, else none.
pub fn ban_delete_days(days: Option<u8>) -> (d: u8)
    ensures
        d == match days {
            Some(n) => n,
            None => 0,
        },
{
    match days {
        Some(n) => n,
        None => 0,
    }
}

/// The reply to a ban. Only a ban that succeeded is recorded as a case.
pub fn ban_reply(user_name: &str, banned: bool) -> (s: String)
    ensures
        s@ == if banned {
            "Banned user "@ + user_name@
        } else {
            "Failed to ban user "@ + user_name@ + ". Aborting creating a case."@
        },
{
    if banned {
        let mut s = String::from_str("Banned user ");
        s.append(user_name);
        s
    } else {
        let mut s = String::from_str("Failed to ban user ");
        s.append(user_name);
        s.append(". Aborting creating a case.");
        s
    }
}

/// What a ban or a kick comes to: whether the action is recorded as a case
/// (and announced), and the reply.
pub struct ActionOutcome {
    pub record_case: bool,
    pub reply: String,
}

/// The outcome of a ban: only a ban that succeeded is recorded as a case.
pub fn ban_outcome(user_name: &str, banned: bool) -> (r: ActionOutcome)
    ensures
        r.record_case == banned,
        r.reply@ == if banned {
            "Banned user "@ + user_name@
        } else {
            "Failed to ban user "@ + user_name@ + ". Aborting creating a case."@
        },
{
    ActionOutcome { record_case: banned, reply: ban_reply(user_name, banned) }
}

// ---------------------------------------------------------------- kick

/// The reply to a kick. Only a kick that succeeded is recorded as a case.
pub fn kick_reply(user_name: &str, kicked: bool) -> (s: String)
    ensures
        s@ == if kicked {
            "Kicked "@ + user_name@ + " from the server."@
        } else {
            "Failed to kick "@ + user_name@ + " from the server."@
        },
{
    if kicked {
        let mut s = String::from_str("Kicked ");
        s.append(user_name);
        s.append(" from the server.");
        s
    } else {
        let mut s = String::from_str("Failed to kick ");
        s.append(user_name);
        s.append(" from the server.");
        s
    }
}


/// The outcome of a kick: only a kick that succeeded is recorded as a case.
pub fn kick_outcome(user_name: &str, kicked: bool) -> (r: ActionOutcome)
    ensures
        r.record_case == kicked,
        r.reply@ == if kicked {
            "Kicked "@ + user_name@ + " from the server."@
        } else {
            "Failed to kick "@ + user_name@ + " from the server."@
        },
{
    ActionOutcome { record_case: kicked, reply: kick_reply(user_name, kicked) }
}

// ---------------------------------------------------------------- warns lookup

/// Which warns a command looks up.
pub enum WarnsLookup {
    /// Run this query.
    Query(CaseQuery),
    /// Only active warns are wanted: the guild's configuration is needed to
    /// know when warns expire.
    NeedConfig,
}

/// The first step of listing a user's warns: with `is_active` set to `true`
/// only the warns that have not expired are listed ("Only check none expired
/// warnings"), which needs the guild's configuration to know when warns
/// expire; otherwise (`false` or not given) all the user's warns in the guild.
pub fn check_warns_lookup(guild_id: u64, user_id: u64, is_active: Option<bool>) -> (r: WarnsLookup)
    ensures
        is_active == Some(true) ==> r is NeedConfig,
        is_active != Some(true) ==> (r matches WarnsLookup::Query(q) && q@ == user_cases_query_of(
            guild_id,
            user_id,
            CaseType::Warn,
        )),
{
    match is_active {
        Some(true) => WarnsLookup::NeedConfig,
        _ => WarnsLookup::Query(user_cases_query(guild_id, user_id, CaseType::Warn)),
    }
}

/// The query for a user's active warns at time `now`: the warns created at
/// or after the guild's warn life span before `now`; `None` where that point
/// cannot be computed (see [`expiration_of`]).
pub fn active_warns_lookup(guild_id: u64, user_id: u64, config: &GuildConfig, now: i64) -> (r: Option<CaseQuery>)
    ensures
        match expiration_of(now, config.warn_life_span) {
            Some(expiration) => r matches Some(q) && q@ == active_warns_query_of(
                guild_id,
                user_id,
                expiration,
            ),
            None => r is None,
        },
{
    match warn_expiration_date(now, config) {
        Some(expiration) => Some(active_warns_query(guild_id, user_id, expiration)),
        None => None,
    }
}

/// The value of the embed field that lists one warn, given the text of its
/// creation date.
pub open spec fn warn_field_value(case: Case, created: Seq<char>) -> Seq<char> {
    "**Creation Date**: "@ + created + "\n**Moderator:** "@ + mention(case.mod_id as nat)
        + "\n**Reason:** "@ + case.reason@ + "\n\n\n"@
}

/// The name of the embed field that lists a case: `Case` and the case id.
pub open spec fn case_field_name(case: Case) -> Seq<char> {
    "Case "@ + uuid_text(case.case_id@)
}

/// The field that lists a case names it by `Case ` and the case id's own
/// UUID text.
pub proof fn lemma_case_field_names_its_case(case: Case)
    ensures
        case_field_name(case) == "Case "@ + uuid_text(case.case_id@),
{
}

/// Fields of distinct cases have distinct names: the name of a field gives
/// back the case id that change_reason takes.
pub proof fn lemma_case_field_name_injective(a: Case, b: Case)
    requires
        case_field_name(a) == case_field_name(b),
    ensures
        a.case_id == b.case_id,
{
    let p = "Case "@;
    let x = p + uuid_text(a.case_id@);
    let y = p + uuid_text(b.case_id@);
    assert(uuid_text(a.case_id@) =~= x.subrange(p.len() as int, x.len() as int));
    assert(uuid_text(b.case_id@) =~= y.subrange(p.len() as int, y.len() as int));
    lemma_uuid_text_injective(a.case_id@, b.case_id@);
    assert(a.case_id@ =~= b.case_id@);
}

/// The embed field that lists one warn, given the text of its creation date.
pub fn warn_case_field(case: &Case, created: &str) -> (field: EmbedField)
    ensures
        field_is(field, case_field_name(*case), warn_field_value(*case, created@), false),
        field.name@ == "Case "@ + uuid_text(case.case_id@),
        field.value@ == "**Creation Date**: "@ + created@ + "\n**Moderator:** "@ + mention(
            case.mod_id as nat,
        ) + "\n**Reason:** "@ + case.reason@ + "\n\n\n"@,
{
    let mut name = String::from_str("Case ");
    let id_text = uuid_string(&case.case_id);
    name.append(id_text.as_str());
    let mut value = String::from_str("**Creation Date**: ");
    value.append(created);
    value.append("\n**Moderator:** ");
    append_mention(&mut value, case.mod_id);
    value.append("\n**Reason:** ");
    value.append(case.reason.as_str());
    value.append("\n\n\n");
    assert(value@ =~= warn_field_value(*case, created@));
    EmbedField { name, value, inline: false }
}

/// The description of the warns embed of a user with at least one warn.
pub open spec fn warns_description(user_id: u64, count: nat) -> Seq<char> {
    "User ("@ + mention(user_id as nat) + ") has "@ + decimal(count) + " warn(s)\n\n"@
}

/// The embed that lists a user's warns: one field per warn, in order, each
/// with the warn's creation date, moderator and reason.
pub fn create_warns_embed(user_id: u64, cases: &[Case]) -> (embed: Embed)
    requires
        forall|i: int| 0 <= i < cases@.len() ==> #[trigger] cases@[i].wf(),
    ensures
        embed.title@ == "Cases for user_id: "@ + decimal(user_id as nat),
        embed.color is None,
        embed.timestamp is None,
        cases@.len() == 0 ==> (embed.description matches Some(d) && d@
            == "This user has no warnings against them."@),
        cases@.len() == 0 ==> embed.fields@.len() == 0,
        cases@.len() > 0 ==> (embed.description matches Some(d) && d@ == warns_description(
            user_id,
            cases@.len(),
        )),
        embed.fields@.len() == cases@.len(),
        forall|i: int|
            0 <= i < cases@.len() ==> field_is(
                #[trigger] embed.fields@[i],
                case_field_name(cases@[i]),
                warn_field_value(cases@[i], utc_text(cases@[i].creation_date as int)),
                false,
            ),
        forall|i: int|
            0 <= i < cases@.len() ==> (#[trigger] embed.fields@[i]).name@ == "Case "@ + uuid_text(
                cases@[i].case_id@,
            ),
{
    let mut title = String::from_str("Cases for user_id: ");
    append_decimal(&mut title, user_id);
    if cases.len() == 0 {
        return Embed {
            title,
            description: Some(String::from_str("This user has no warnings against them.")),
            fields: Vec::new(),
            color: None,
            timestamp: None,
        };
    }
    let mut description = String::from_str("User (");
    append_mention(&mut description, user_id);
    description.append(") has ");
    append_decimal(&mut description, cases.len() as u64);
    description.append(" warn(s)\n\n");
    assert(description@ =~= warns_description(user_id, cases@.len()));

    let mut fields: Vec<EmbedField> = Vec::new();
    let mut i: usize = 0;
    while i < cases.len()
        invariant
            0 <= i <= cases@.len(),
            fields@.len() == i,
            forall|k: int| 0 <= k < cases@.len() ==> #[trigger] cases@[k].wf(),
            forall|k: int|
                0 <= k < i ==> field_is(
                    #[trigger] fields@[k],
                    case_field_name(cases@[k]),
                    warn_field_value(cases@[k], utc_text(cases@[k].creation_date as int)),
                    false,
                ),
        decreases cases@.len() - i,
    {
        let case = &cases[i];
        assert(case.wf());
        let created = match utc_display(case.creation_date) {
            Some(text) => text,
            None => String::new(),
        };
        let field = warn_case_field(case, created.as_str());
        fields.push(field);
        i = i + 1;
    }
    Embed { title, description: Some(description), fields, color: None, timestamp: None }
}

// ---------------------------------------------------------------- change reason

/// The error of a change of reason given a case id that is no UUID.
pub open spec fn invalid_case_id_error() -> Seq<char> {
    "Invalid case ID was provided."@
}

/// The case id that a change of reason names, given what parsing its text
/// gave: the parsed id, or the error for an invalid id.
pub fn case_id_or_error(parsed: Option<[u8; 16]>) -> (r: Result<[u8; 16], String>)
    ensures
        match parsed {
            Some(id) => r == Ok::<[u8; 16], String>(id),
            None => r matches Err(e) && e@ == invalid_case_id_error(),
        },
{
    match parsed {
        Some(id) => Ok(id),
        None => Err(String::from_str("Invalid case ID was provided.")),
    }
}

/// The case id that a change of reason names, read from its text through
/// bson's UUID parser.
pub fn change_reason_case_id(text: &str) -> (r: Result<[u8; 16], String>)
    ensures
        match r {
            Ok(id) => parsed_uuid(text@) == Some(id@),
            Err(e) => parsed_uuid(text@) is None && e@ == invalid_case_id_error(),
        },
        forall|b: Seq<u8>|
            b.len() == 16 && #[trigger] uuid_text(b) == text@ ==> (r matches Ok(id) && id@ == b),
{
    case_id_or_error(parse_case_id(text))
}

/// What the update of a case's reason in the database came to.
#[derive(Clone, Copy, Debug, PartialEq, Eq, Structural)]
pub enum ReasonUpdate {
    /// The database reported an error.
    Failed,
    /// No case has the id.
    NotFound,
    /// The case was updated.
    Updated,
}

/// What a change of reason does once the update is done: the reply it sends,
/// whether it announces the updated case in the mod log (before replying), and
/// the error the command ends with, if any.
pub struct ReasonChange {
    pub reply: String,
    pub announce: bool,
    pub error: Option<String>,
}

/// The outcome of a change of reason of the case `case_id`.
pub fn change_reason_outcome(case_id: &[u8; 16], update: ReasonUpdate) -> (r: ReasonChange)
    ensures
        r.announce == (update == ReasonUpdate::Updated),
        match update {
            ReasonUpdate::Failed => r.reply@ == "Failed to update case "@ + uuid_text(case_id@)
                && (r.error matches Some(e) && e@ == "Failed to update users case."@),
            ReasonUpdate::NotFound => r.reply@ == "No cases exist with this id: "@ + uuid_text(
                case_id@,
            ) && r.error is None,
            ReasonUpdate::Updated => r.reply@ == "Successfully updated case "@ + uuid_text(
                case_id@,
            ) && r.error is None,
        },
{
    let id_text = uuid_string(case_id);
    match update {
        ReasonUpdate::Failed => {
            let mut reply = String::from_str("Failed to update case ");
            reply.append(id_text.as_str());
            ReasonChange {
                reply,
                announce: false,
                error: Some(String::from_str("Failed to update users case.")),
            }
        },
        ReasonUpdate::NotFound => {
            let mut reply = String::from_str("No cases exist with this id: ");
            reply.append(id_text.as_str());
            ReasonChange { reply, announce: false, error: None }
        },
        ReasonUpdate::Updated => {
            let mut reply = String::from_str("Successfully updated case ");
            reply.append(id_text.as_str());
            ReasonChange { reply, announce: true, error: None }
        },
    }
}

/// The error of a case announcement made outside a guild.
pub fn missing_guild_for_announcement() -> (e: String)
    ensures
        e@ == "Missing guild"@,
{
    String::from_str("Missing guild")
}

// ---------------------------------------------------------------- mute

/// The first reply to a mute.
pub fn mute_user_reply(user_name: &str) -> (s: String)
    ensures
        s@ == "mute_user command! "@ + user_name@,
{
    let mut s = String::from_str("mute_user command! ");
    s.append(user_name);
    s
}

/// The reply to a mute given for a duration, given what parsing the duration
/// gave: `None` for a duration that does not parse, on which the command fails.
pub fn duration_reply(parsed: Option<u128>) -> (r: Option<String>)
    ensures
        parsed is None ==> r is None,
        parsed is Some ==> (r matches Some(s) && s@ == "duration or something"@),
{
    match parsed {
        Some(_) => Some(String::from_str("duration or something")),
        None => None,
    }
}

/// The reply to a mute given for the duration `duration`, read through
/// duration-string; `None` where the duration does not parse.
pub fn mute_duration_reply(duration: &str) -> (r: Option<String>)
    ensures
        r is Some <==> parsed_duration_nanos(duration@) is Some,
        r matches Some(s) ==> s@ == "duration or something"@,
{
    duration_reply(parse_duration(duration))
}

// ---------------------------------------------------------------- replies of the other commands

/// The reply to `clear_warns`.
pub fn clear_warns_reply(user_name: &str) -> (s: String)
    ensures
        s@ == "clear_warns command! "@ + user_name@,
{
    let mut s = String::from_str("clear_warns command! ");
    s.append(user_name);
    s
}

/// The reply to `unban`.
pub fn unban_reply(user_name: &str) -> (s: String)
    ensures
        s@ == "Unban command! "@ + user_name@,
{
    let mut s = String::from_str("Unban command! ");
    s.append(user_name);
    s
}

/// The reply to `unmute`.
pub fn unmute_reply(user_name: &str) -> (s: String)
    ensures
        s@ == "Unmute command! "@ + user_name@,
{
    let mut s = String::from_str("Unmute command! ");
    s.append(user_name);
    s
}

/// The reply to `unwarn`.
pub fn unwarn_reply(warn_id: &str, reason: &str) -> (s: String)
    ensures
        s@ == "Unwarn command! "@ + warn_id@ + " "@ + reason@,
{
    let mut s = String::from_str("Unwarn command! ");
    s.append(warn_id);
    s.append(" ");
    s.append(reason);
    s
}

/// The reply to `join_role`.
pub fn join_role_reply() -> (s: String)
    ensures
        s@ == "Join role command! : )"@,
{
    String::from_str("Join role command! : )")
}

/// The reply to `age` given the text of the account's creation time.
pub fn age_text(user_name: &str, created_at: &str) -> (s: String)
    ensures
        s@ == user_name@ + "'s account was created at "@ + created_at@,
{
    let mut s = String::from_str(user_name);
    s.append("'s account was created at ");
    s.append(created_at);
    s
}

/// The reply to `age` for the user `user_id` named `user_name`.
pub fn age_reply(user_name: &str, user_id: u64) -> (s: String)
    requires
        user_id != 0,
    ensures
        s@ == user_name@ + "'s account was created at "@ + account_created_text(user_id),
{
    let created = account_created(user_id);
    age_text(user_name, created.as_str())
}

} // verus!
