//! The course of a warn, as a state machine: each step takes what the last
//! action came to and gives the next state and the next action. The caller
//! performs the actions (replies, database reads and writes, direct messages,
//! the ban) and reports back.

use vstd::prelude::*;

use crate::cases::{active_warns_query, active_warns_query_of, CaseQuery};
use crate::commands::{
    active_warnings_reply, expiration_of, missing_guild_error, warn_ban_reply, warn_dm,
    warn_limit_ban_dm, warning_bot_reply,
};
use crate::clock::{days_before, utc_representable};
use crate::text::decimal;

verus! {

/// What a warn is about: the warned user and the guild, and the reason.
pub struct WarnRequest {
    pub guild_id: u64,
    pub guild_name: String,
    pub user_id: u64,
    pub user_name: String,
    pub reason: String,
}

/// Where a warn stands: which action it waits on.
#[derive(Clone, Copy, Debug, PartialEq, Eq, Structural)]
pub enum WarnState {
    /// Nothing is done yet.
    Start,
    /// The reply that the warned user is a bot is being sent.
    NoticingBot,
    /// The guild's configuration is being read.
    LoadingConfig,
    /// The user's active warns are being looked up.
    FindingWarns { max_warns: u32 },
    /// The reply with the count of active warns is being sent.
    ReplyingCount { active_warns: usize, max_warns: u32 },
    /// The warn case is being stored.
    SavingCase { active_warns: usize, max_warns: u32 },
    /// The direct message about the warn is being sent; `ban` tells whether
    /// the warn limit is reached.
    SendingDm { ban: bool },
    /// The direct message about the ban is being sent.
    SendingBanDm,
    /// The user is being banned.
    Banning,
    /// The reply about the ban is being sent.
    ReplyingBan,
    /// The warn is over.
    Finished,
}

/// What the last action came to.
#[derive(Clone, Copy, Debug, PartialEq, Eq, Structural)]
pub enum WarnEvent {
    /// The command was invoked: inside a guild or not, against a bot or not.
    Begin { in_guild: bool, target_is_bot: bool },
    /// The last action succeeded.
    Done,
    /// The last action failed.
    Failed,
    /// The guild's configuration was read, at time `now`.
    ConfigLoaded { warn_life_span: u32, max_warns: u32, now: i64 },
    /// The lookup found this many active warns.
    WarnsFound(usize),
    /// The ban succeeded or not.
    BanResult(bool),
}

/// What to do next.
pub enum WarnAction {
    /// Reply in the channel of the command.
    Reply(String),
    /// Read the guild's configuration.
    LoadConfig,
    /// Look up the cases that this query selects.
    FindWarns(CaseQuery),
    /// Store a new warn case against the user, opened by the command's author.
    SaveCase,
    /// Send this direct message to the user; its outcome does not matter.
    SendDm(String),
    /// Ban the user, deleting no messages.
    Ban,
    /// End the command with this error.
    Fail(String),
    /// End the command with the error of the last action.
    FailWithLast,
    /// The expiration date of warns cannot be computed; the command panics, as
    /// chrono's `DateTime - TimeDelta` does.
    Overflow,
    /// End the command successfully.
    Finish,
    /// The event does not belong to this state: nothing to do.
    Wait,
}

/// The state after `e` in state `s`.
pub open spec fn warn_next(s: WarnState, e: WarnEvent) -> WarnState {
    match (s, e) {
        (WarnState::Start, WarnEvent::Begin { in_guild, target_is_bot }) => if !in_guild {
            WarnState::Finished
        } else if target_is_bot {
            WarnState::NoticingBot
        } else {
            WarnState::LoadingConfig
        },
        (WarnState::NoticingBot, WarnEvent::Done) => WarnState::LoadingConfig,
        (WarnState::NoticingBot, WarnEvent::Failed) => WarnState::Finished,
        (WarnState::LoadingConfig, WarnEvent::ConfigLoaded { warn_life_span, max_warns, now }) =>
            if expiration_of(now, warn_life_span) is Some {
            WarnState::FindingWarns { max_warns }
        } else {
            WarnState::Finished
        },
        (WarnState::LoadingConfig, WarnEvent::Failed) => WarnState::Finished,
        (WarnState::FindingWarns { max_warns }, WarnEvent::WarnsFound(n)) =>
            WarnState::ReplyingCount { active_warns: n, max_warns },
        (WarnState::FindingWarns { .. }, WarnEvent::Failed) => WarnState::Finished,
        (WarnState::ReplyingCount { active_warns, max_warns }, WarnEvent::Done) =>
            WarnState::SavingCase { active_warns, max_warns },
        (WarnState::ReplyingCount { .. }, WarnEvent::Failed) => WarnState::Finished,
        (WarnState::SavingCase { active_warns, max_warns }, WarnEvent::Done) =>
            WarnState::SendingDm { ban: active_warns + 1 >= max_warns },
        (WarnState::SavingCase { .. }, WarnEvent::Failed) => WarnState::Finished,
        (WarnState::SendingDm { ban }, WarnEvent::Done) => if ban {
            WarnState::SendingBanDm
        } else {
            WarnState::Finished
        },
        (WarnState::SendingDm { ban }, WarnEvent::Failed) => if ban {
            WarnState::SendingBanDm
        } else {
            WarnState::Finished
        },
        (WarnState::SendingBanDm, WarnEvent::Done) => WarnState::Banning,
        (WarnState::SendingBanDm, WarnEvent::Failed) => WarnState::Banning,
        (WarnState::Banning, WarnEvent::BanResult(_)) => WarnState::ReplyingBan,
        (WarnState::ReplyingBan, WarnEvent::Done) => WarnState::Finished,
        (WarnState::ReplyingBan, WarnEvent::Failed) => WarnState::Finished,
        _ => s,
    }
}

/// Whether the step from `s` on `e` stores the warn case: exactly when the
/// count reply went out.
pub open spec fn warn_saves(s: WarnState, e: WarnEvent) -> bool {
    s is ReplyingCount && e == WarnEvent::Done
}

/// Whether `a` is the action of the step from `s` on `e` for the warn `req`.
pub open spec fn warn_action_is(req: WarnRequest, s: WarnState, e: WarnEvent, a: WarnAction) -> bool {
    match (s, e) {
        (WarnState::Start, WarnEvent::Begin { in_guild, target_is_bot }) => if !in_guild {
            a matches WarnAction::Fail(m) && m@ == "Failed to grab Guild for warn_user."@
        } else if target_is_bot {
            a matches WarnAction::Reply(m) && m@ == "You're warning a bot."@
        } else {
            a is LoadConfig
        },
        (WarnState::NoticingBot, WarnEvent::Done) => a is LoadConfig,
        (WarnState::LoadingConfig, WarnEvent::ConfigLoaded { warn_life_span, max_warns, now }) =>
            match expiration_of(now, warn_life_span) {
            Some(expiration) => a matches WarnAction::FindWarns(q) && q@ == active_warns_query_of(
                req.guild_id,
                req.user_id,
                expiration,
            ),
            None => a is Overflow,
        },
        (WarnState::FindingWarns { .. }, WarnEvent::WarnsFound(n)) => a matches WarnAction::Reply(m)
            && m@ == req.user_name@ + " currently has "@ + decimal(n as nat) + " active warnings."@,
        (WarnState::ReplyingCount { .. }, WarnEvent::Done) => a is SaveCase,
        (WarnState::SavingCase { .. }, WarnEvent::Done) => a matches WarnAction::SendDm(m) && m@
            == "You've been warned in **"@ + req.guild_name@ + "**\n\n**Reason**: "@ + req.reason@,
        (WarnState::SendingDm { ban }, WarnEvent::Done) | (WarnState::SendingDm { ban }, WarnEvent::Failed) =>
            if ban {
            a matches WarnAction::SendDm(m) && m@ == "Due to exceeding the warn limit, you've been banned."@
        } else {
            a is Finish
        },
        (WarnState::SendingBanDm, WarnEvent::Done) | (WarnState::SendingBanDm, WarnEvent::Failed) => a is Ban,
        (WarnState::Banning, WarnEvent::BanResult(banned)) => a matches WarnAction::Reply(m) && m@ == if banned {
            "Banned user "@ + req.user_name@
        } else {
            "Failed to ban user "@ + req.user_name@ + "."@
        },
        (WarnState::ReplyingBan, WarnEvent::Done) | (WarnState::ReplyingBan, WarnEvent::Failed) => a is Finish,
        (WarnState::NoticingBot, WarnEvent::Failed)
        | (WarnState::LoadingConfig, WarnEvent::Failed)
        | (WarnState::FindingWarns { .. }, WarnEvent::Failed)
        | (WarnState::ReplyingCount { .. }, WarnEvent::Failed)
        | (WarnState::SavingCase { .. }, WarnEvent::Failed) => a is FailWithLast,
        _ => a is Wait,
    }
}

/// One step of a warn: the next state and the action to perform.
pub fn warn_step(req: &WarnRequest, state: WarnState, event: WarnEvent) -> (r: (WarnState, WarnAction))
    ensures
        r.0 == warn_next(state, event),
        warn_action_is(*req, state, event, r.1),
        r.1 is SaveCase <==> warn_saves(state, event),
        match (state, event) {
            (WarnState::SavingCase { active_warns, max_warns }, WarnEvent::Done) => r.0 == (
            WarnState::SendingDm { ban: active_warns + 1 >= max_warns }),
            (
                WarnState::LoadingConfig,
                WarnEvent::ConfigLoaded { warn_life_span, max_warns, now },
            ) => if utc_representable(now as int) && utc_representable(
                now - warn_life_span * 86_400_000,
            ) {
                r.0 == (WarnState::FindingWarns { max_warns }) && (r.1 matches WarnAction::FindWarns(q)
                    && q@.created_since == Some((now - warn_life_span * 86_400_000) as i64)
                    && q@.user_id == decimal(req.user_id as nat) && q@.guild_id == decimal(
                    req.guild_id as nat,
                ))
            } else {
                r.0 == WarnState::Finished && r.1 is Overflow
            },
            _ => true,
        },
{
    match (state, event) {
        (WarnState::Start, WarnEvent::Begin { in_guild, target_is_bot }) => {
            if !in_guild {
                (WarnState::Finished, WarnAction::Fail(missing_guild_error()))
            } else if target_is_bot {
                (WarnState::NoticingBot, WarnAction::Reply(warning_bot_reply()))
            } else {
                (WarnState::LoadingConfig, WarnAction::LoadConfig)
            }
        },
        (WarnState::NoticingBot, WarnEvent::Done) => (WarnState::LoadingConfig, WarnAction::LoadConfig),
        (WarnState::LoadingConfig, WarnEvent::ConfigLoaded { warn_life_span, max_warns, now }) => {
            match days_before(now, warn_life_span) {
                Some(expiration) => (
                    WarnState::FindingWarns { max_warns },
                    WarnAction::FindWarns(active_warns_query(req.guild_id, req.user_id, expiration)),
                ),
                None => (WarnState::Finished, WarnAction::Overflow),
            }
        },
        (WarnState::FindingWarns { max_warns }, WarnEvent::WarnsFound(n)) => (
            WarnState::ReplyingCount { active_warns: n, max_warns },
            WarnAction::Reply(active_warnings_reply(req.user_name.as_str(), n)),
        ),
        (WarnState::ReplyingCount { active_warns, max_warns }, WarnEvent::Done) => (
            WarnState::SavingCase { active_warns, max_warns },
            WarnAction::SaveCase,
        ),
        (WarnState::SavingCase { active_warns, max_warns }, WarnEvent::Done) => {
            let ban = max_warns == 0 || active_warns as u64 >= (max_warns - 1) as u64;
            (
                WarnState::SendingDm { ban },
                WarnAction::SendDm(warn_dm(req.guild_name.as_str(), req.reason.as_str())),
            )
        },
        (WarnState::SendingDm { ban }, WarnEvent::Done) | (WarnState::SendingDm { ban }, WarnEvent::Failed) => {
            if ban {
                (WarnState::SendingBanDm, WarnAction::SendDm(warn_limit_ban_dm()))
            } else {
                (WarnState::Finished, WarnAction::Finish)
            }
        },
        (WarnState::SendingBanDm, WarnEvent::Done) | (WarnState::SendingBanDm, WarnEvent::Failed) => (
            WarnState::Banning,
            WarnAction::Ban,
        ),
        (WarnState::Banning, WarnEvent::BanResult(banned)) => (
            WarnState::ReplyingBan,
            WarnAction::Reply(warn_ban_reply(req.user_name.as_str(), banned)),
        ),
        (WarnState::ReplyingBan, WarnEvent::Done) | (WarnState::ReplyingBan, WarnEvent::Failed) => (
            WarnState::Finished,
            WarnAction::Finish,
        ),
        (WarnState::NoticingBot, WarnEvent::Failed)
        | (WarnState::LoadingConfig, WarnEvent::Failed)
        | (WarnState::FindingWarns { .. }, WarnEvent::Failed)
        | (WarnState::ReplyingCount { .. }, WarnEvent::Failed)
        | (WarnState::SavingCase { .. }, WarnEvent::Failed) => (WarnState::Finished, WarnAction::FailWithLast),
        _ => (state, WarnAction::Wait),
    }
}


/// How far a warn has come: every step keeps or raises it.
pub open spec fn stage(s: WarnState) -> nat {
    match s {
        WarnState::Start => 0,
        WarnState::NoticingBot => 1,
        WarnState::LoadingConfig => 2,
        WarnState::FindingWarns { .. } => 3,
        WarnState::ReplyingCount { .. } => 4,
        WarnState::SavingCase { .. } => 5,
        WarnState::SendingDm { .. } => 6,
        WarnState::SendingBanDm => 7,
        WarnState::Banning => 8,
        WarnState::ReplyingBan => 9,
        WarnState::Finished => 10,
    }
}

/// The number of warn cases stored by the steps from state `s` on `events`.
pub open spec fn saves_in_run(s: WarnState, events: Seq<WarnEvent>) -> nat
    decreases events.len(),
{
    if events.len() == 0 {
        0
    } else {
        (if warn_saves(s, events[0]) { 1nat } else { 0nat }) + saves_in_run(
            warn_next(s, events[0]),
            events.drop_first(),
        )
    }
}

/// The state after the steps from `s` on `events`.
pub open spec fn state_after(s: WarnState, events: Seq<WarnEvent>) -> WarnState
    decreases events.len(),
{
    if events.len() == 0 {
        s
    } else {
        state_after(warn_next(s, events[0]), events.drop_first())
    }
}

/// No step goes back.
pub proof fn lemma_stage_never_falls(s: WarnState, e: WarnEvent)
    ensures
        stage(warn_next(s, e)) >= stage(s),
{
}

/// From a state, at most one warn case is stored, and none once the case is
/// being stored or later.
pub proof fn lemma_saves_in_run_bound(s: WarnState, events: Seq<WarnEvent>)
    ensures
        saves_in_run(s, events) <= (if stage(s) <= 4 { 1nat } else { 0nat }),
    decreases events.len(),
{
    if events.len() > 0 {
        let next = warn_next(s, events[0]);
        lemma_stage_never_falls(s, events[0]);
        lemma_saves_in_run_bound(next, events.drop_first());
    }
}

/// Whatever happens, a warn stores at most one case.
pub proof fn lemma_warn_saves_at_most_once(events: Seq<WarnEvent>)
    ensures
        saves_in_run(WarnState::Start, events) <= 1,
{
    lemma_saves_in_run_bound(WarnState::Start, events);
}

/// A warn used outside a guild ends at once and stores no case.
pub proof fn lemma_outside_guild_saves_nothing(target_is_bot: bool, rest: Seq<WarnEvent>)
    ensures
        warn_next(WarnState::Start, WarnEvent::Begin { in_guild: false, target_is_bot })
            == WarnState::Finished,
        saves_in_run(
            WarnState::Start,
            seq![WarnEvent::Begin { in_guild: false, target_is_bot }] + rest,
        ) == 0,
{
    let events = seq![WarnEvent::Begin { in_guild: false, target_is_bot }] + rest;
    assert(events.drop_first() =~= rest);
    lemma_saves_in_run_bound(WarnState::Finished, rest);
}

/// A failure of the bot notice, the configuration read, the warns lookup or
/// the count reply ends the warn, and no case is stored then or later.
pub proof fn lemma_failure_before_saving_saves_nothing(s: WarnState, rest: Seq<WarnEvent>)
    requires
        1 <= stage(s) <= 4,
    ensures
        warn_next(s, WarnEvent::Failed) == WarnState::Finished,
        saves_in_run(s, seq![WarnEvent::Failed] + rest) == 0,
{
    let events = seq![WarnEvent::Failed] + rest;
    assert(events.drop_first() =~= rest);
    lemma_saves_in_run_bound(WarnState::Finished, rest);
}

/// The events of a warn in a guild whose notice, configuration read, lookup
/// and count reply all succeed.
pub open spec fn successful_warn_events(
    target_is_bot: bool,
    warn_life_span: u32,
    max_warns: u32,
    now: i64,
    active_warns: usize,
) -> Seq<WarnEvent> {
    let begin = seq![WarnEvent::Begin { in_guild: true, target_is_bot }];
    let notice = if target_is_bot { seq![WarnEvent::Done] } else { Seq::empty() };
    begin + notice + seq![
        WarnEvent::ConfigLoaded { warn_life_span, max_warns, now },
        WarnEvent::WarnsFound(active_warns),
        WarnEvent::Done,
    ]
}

/// A warn whose steps up to the count reply all succeed stores exactly one
/// case, and is then storing it.
pub proof fn lemma_successful_warn_saves_once(
    target_is_bot: bool,
    warn_life_span: u32,
    max_warns: u32,
    now: i64,
    active_warns: usize,
)
    requires
        expiration_of(now, warn_life_span) is Some,
    ensures
        saves_in_run(
            WarnState::Start,
            successful_warn_events(target_is_bot, warn_life_span, max_warns, now, active_warns),
        ) == 1,
        state_after(
            WarnState::Start,
            successful_warn_events(target_is_bot, warn_life_span, max_warns, now, active_warns),
        ) == (WarnState::SavingCase { active_warns, max_warns }),
{
    let events = successful_warn_events(target_is_bot, warn_life_span, max_warns, now, active_warns);
    let loaded = WarnEvent::ConfigLoaded { warn_life_span, max_warns, now };
    let found = WarnEvent::WarnsFound(active_warns);
    let tail = seq![loaded, found, WarnEvent::Done];
    let finding = WarnState::FindingWarns { max_warns };
    let replying = WarnState::ReplyingCount { active_warns, max_warns };
    let saving = WarnState::SavingCase { active_warns, max_warns };
    let empty = Seq::<WarnEvent>::empty();
    assert(tail.drop_first() =~= seq![found, WarnEvent::Done]);
    assert(tail.drop_first().drop_first() =~= seq![WarnEvent::Done]);
    assert(seq![WarnEvent::Done].drop_first() =~= empty);
    assert(saves_in_run(saving, empty) == 0);
    assert(state_after(saving, empty) == saving);
    assert(saves_in_run(replying, seq![WarnEvent::Done]) == 1);
    assert(state_after(replying, seq![WarnEvent::Done]) == saving);
    assert(saves_in_run(finding, tail.drop_first()) == 1);
    assert(state_after(finding, tail.drop_first()) == saving);
    assert(saves_in_run(WarnState::LoadingConfig, tail) == 1);
    assert(state_after(WarnState::LoadingConfig, tail) == saving);
    if target_is_bot {
        let rest = seq![WarnEvent::Done] + tail;
        assert(events =~= seq![WarnEvent::Begin { in_guild: true, target_is_bot }] + rest);
        assert(events.drop_first() =~= rest);
        assert(rest.drop_first() =~= tail);
        assert(saves_in_run(WarnState::NoticingBot, rest) == 1);
        assert(state_after(WarnState::NoticingBot, rest) == saving);
    } else {
        assert(events =~= seq![WarnEvent::Begin { in_guild: true, target_is_bot }] + tail);
        assert(events.drop_first() =~= tail);
    }
}


/// Once the warn case is stored, the user is to be banned exactly when the
/// warns active before this one, and this one, reach the guild's limit.
pub proof fn lemma_ban_decided_at_the_limit(active_warns: usize, max_warns: u32)
    ensures
        warn_next(WarnState::SavingCase { active_warns, max_warns }, WarnEvent::Done)
            == (WarnState::SendingDm { ban: active_warns + 1 >= max_warns }),
{
}

/// After the warn case is stored, whatever the direct messages come to, the
/// ban follows exactly when the warn reaches the guild's limit; otherwise the
/// warn finishes after the first direct message.
pub proof fn lemma_ban_follows_exactly_at_the_limit(
    active_warns: usize,
    max_warns: u32,
    dm: WarnEvent,
    ban_dm: WarnEvent,
)
    requires
        dm == WarnEvent::Done || dm == WarnEvent::Failed,
        ban_dm == WarnEvent::Done || ban_dm == WarnEvent::Failed,
    ensures
        state_after(
            WarnState::SavingCase { active_warns, max_warns },
            seq![WarnEvent::Done, dm, ban_dm],
        ) == (if active_warns + 1 >= max_warns {
            WarnState::Banning
        } else {
            WarnState::Finished
        }),
{
    let events = seq![WarnEvent::Done, dm, ban_dm];
    let s1 = warn_next(WarnState::SavingCase { active_warns, max_warns }, WarnEvent::Done);
    let s2 = warn_next(s1, dm);
    let s3 = warn_next(s2, ban_dm);
    assert(events.drop_first() =~= seq![dm, ban_dm]);
    assert(seq![dm, ban_dm].drop_first() =~= seq![ban_dm]);
    assert(seq![ban_dm].drop_first() =~= Seq::<WarnEvent>::empty());
    assert(state_after(s3, Seq::<WarnEvent>::empty()) == s3);
    assert(state_after(s2, seq![ban_dm]) == s3);
    assert(state_after(s1, seq![dm, ban_dm]) == s3);
}

} // verus!
