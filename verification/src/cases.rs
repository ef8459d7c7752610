//! Moderation cases: what a moderator did to a user, the queries that find a
//! user's cases again, and the embed that announces a case.

use vstd::prelude::*;

use crate::clock::{now_millis, utc_representable};
use crate::case_id::new_case_id;
use crate::embed::{field_is, Embed, EmbedField};
use crate::text::{
    append_decimal, append_mention, decimal, lemma_decimal_injective, lemma_uuid_text_injective,
    lemma_uuid_text_len, mention, uuid_string, uuid_text,
};

verus! {

/// The kind of moderation action that a case records.
#[derive(Clone, Copy, Debug, PartialEq, Eq, Structural)]
pub enum CaseType {
    Mute,
    Warn,
    Ban,
    Kick,
    Unban,
    Unmute,
    Unwarn,
}

impl CaseType {
    /// The name of the variant: the text that the case type is shown and
    /// stored as.
    pub open spec fn name(self) -> Seq<char> {
        match self {
            CaseType::Mute => "Mute"@,
            CaseType::Warn => "Warn"@,
            CaseType::Ban => "Ban"@,
            CaseType::Kick => "Kick"@,
            CaseType::Unban => "Unban"@,
            CaseType::Unmute => "Unmute"@,
            CaseType::Unwarn => "Unwarn"@,
        }
    }

    /// The name of the case type, as its `Display` writes it.
    pub fn to_string(&self) -> (s: String)
        ensures
            s@ == self.name(),
    {
        match self {
            CaseType::Mute => String::from_str("Mute"),
            CaseType::Warn => String::from_str("Warn"),
            CaseType::Ban => String::from_str("Ban"),
            CaseType::Kick => String::from_str("Kick"),
            CaseType::Unban => String::from_str("Unban"),
            CaseType::Unmute => String::from_str("Unmute"),
            CaseType::Unwarn => String::from_str("Unwarn"),
        }
    }
}

/// Distinct case types have distinct names.
pub proof fn lemma_case_type_name_injective(a: CaseType, b: CaseType)
    requires
        a.name() == b.name(),
    ensures
        a == b,
{
    reveal_strlit("Mute");
    reveal_strlit("Warn");
    reveal_strlit("Ban");
    reveal_strlit("Kick");
    reveal_strlit("Unban");
    reveal_strlit("Unmute");
    reveal_strlit("Unwarn");
    assert("Mute"@[0] != "Warn"@[0]);
    assert("Mute"@.len() != "Ban"@.len());
    assert("Mute"@[0] != "Kick"@[0]);
    assert("Mute"@.len() != "Unban"@.len());
    assert("Mute"@.len() != "Unmute"@.len());
    assert("Mute"@.len() != "Unwarn"@.len());
    assert("Warn"@.len() != "Ban"@.len());
    assert("Warn"@[0] != "Kick"@[0]);
    assert("Warn"@.len() != "Unban"@.len());
    assert("Warn"@.len() != "Unmute"@.len());
    assert("Warn"@.len() != "Unwarn"@.len());
    assert("Ban"@.len() != "Kick"@.len());
    assert("Ban"@.len() != "Unban"@.len());
    assert("Ban"@.len() != "Unmute"@.len());
    assert("Ban"@.len() != "Unwarn"@.len());
    assert("Kick"@.len() != "Unban"@.len());
    assert("Kick"@.len() != "Unmute"@.len());
    assert("Kick"@.len() != "Unwarn"@.len());
    assert("Unban"@.len() != "Unmute"@.len());
    assert("Unban"@.len() != "Unwarn"@.len());
    assert("Unmute"@[2] != "Unwarn"@[2]);
}

/// A moderation case. Ids of guilds and users are Discord snowflakes; points
/// in time are milliseconds since the Unix epoch in UTC.
pub struct Case {
    /// The database's own id of the stored record (a BSON ObjectId), once stored.
    pub id: Option<[u8; 12]>,
    pub case_type: CaseType,
    /// The case's public id, the 16 bytes of a UUID.
    pub case_id: [u8; 16],
    pub guild_id: u64,
    pub user_id: u64,
    pub mod_id: u64,
    pub reason: String,
    pub punishment_length: i64,
    pub creation_date: i64,
}

impl Case {
    /// Both points in time of the case lie in the range of a `DateTime<Utc>`.
    pub open spec fn wf(&self) -> bool {
        &&& utc_representable(self.punishment_length as int)
        &&& utc_representable(self.creation_date as int)
    }

    /// A case not yet stored, made of exactly the given parts.
    pub fn from_parts(
        guild_id: u64,
        user_id: u64,
        mod_id: u64,
        reason: String,
        case_type: CaseType,
        case_id: [u8; 16],
        creation_date: i64,
        punishment_length: i64,
    ) -> (case: Case)
        ensures
            case.id is None,
            case.case_type == case_type,
            case.case_id == case_id,
            case.guild_id == guild_id,
            case.user_id == user_id,
            case.mod_id == mod_id,
            case.reason == reason,
            case.creation_date == creation_date,
            case.punishment_length == punishment_length,
    {
        Case {
            id: None,
            case_type,
            case_id,
            guild_id,
            user_id,
            mod_id,
            reason,
            punishment_length,
            creation_date,
        }
    }

    /// A case for `user_id` in `guild_id`, opened by `mod_id`, with a fresh
    /// random case id, created now, its punishment ending at the same moment
    /// (the clock is read once, for both dates).
    pub fn new(guild_id: u64, user_id: u64, mod_id: u64, reason: String, case_type: CaseType) -> (case: Case)
        ensures
            case.wf(),
            case.punishment_length == case.creation_date,
            0 <= case.creation_date,
            0 <= case.punishment_length,
            case.case_id@[6] / 16 == 4,
            case.case_id@[8] / 64 == 2,
            case.id is None,
            case.case_type == case_type,
            case.guild_id == guild_id,
            case.user_id == user_id,
            case.mod_id == mod_id,
            case.reason@ == reason@,
    {
        let case_id = new_case_id();
        let created = now_millis();
        Case::from_parts(guild_id, user_id, mod_id, reason, case_type, case_id, created, created)
    }

    /// Sets the point in time at which the punishment ends.
    pub fn set_punishment_date(&mut self, punishment_date: i64)
        ensures
            final(self).punishment_length == punishment_date,
            final(self).id == old(self).id,
            final(self).case_type == old(self).case_type,
            final(self).case_id == old(self).case_id,
            final(self).guild_id == old(self).guild_id,
            final(self).user_id == old(self).user_id,
            final(self).mod_id == old(self).mod_id,
            final(self).reason == old(self).reason,
            final(self).creation_date == old(self).creation_date,
    {
        self.punishment_length = punishment_date;
    }
}

impl Default for Case {
    /// A warn case of the placeholder user 1 in guild 1 by moderator 1 with an
    /// empty reason, a fresh random case id, created now, its punishment
    /// ending now.
    fn default() -> (case: Case)
        ensures
            case.wf(),
            0 <= case.creation_date,
            0 <= case.punishment_length,
            case.case_id@[6] / 16 == 4,
            case.case_id@[8] / 64 == 2,
            case.id is None,
            case.case_type == CaseType::Warn,
            case.guild_id == 1,
            case.user_id == 1,
            case.mod_id == 1,
            case.reason@ == Seq::<char>::empty(),
    {
        let case_id = new_case_id();
        let creation_date = now_millis();
        let punishment_length = now_millis();
        Case::from_parts(1, 1, 1, String::new(), CaseType::Warn, case_id, creation_date, punishment_length)
    }
}


/// The criteria of a query for stored cases, as the database sees a stored
/// case: ids as decimal text, the case type by its name, and optionally the
/// earliest creation time that the query admits.
pub struct CaseQuery {
    pub user_id: String,
    pub guild_id: String,
    pub case_type: String,
    pub created_since: Option<i64>,
}

/// The mathematical content of a [`CaseQuery`].
pub struct CaseQueryView {
    pub user_id: Seq<char>,
    pub guild_id: Seq<char>,
    pub case_type: Seq<char>,
    pub created_since: Option<i64>,
}

impl View for CaseQuery {
    type V = CaseQueryView;

    open spec fn view(&self) -> CaseQueryView {
        CaseQueryView {
            user_id: self.user_id@,
            guild_id: self.guild_id@,
            case_type: self.case_type@,
            created_since: self.created_since,
        }
    }
}

/// Whether the query `q` selects the stored case `c`: every criterion equals
/// the matching field of the case as stored, and a case created before the
/// earliest admitted time is left out.
pub open spec fn query_selects(q: CaseQueryView, c: Case) -> bool {
    &&& q.user_id == decimal(c.user_id as nat)
    &&& q.guild_id == decimal(c.guild_id as nat)
    &&& q.case_type == c.case_type.name()
    &&& (q.created_since matches Some(since) ==> c.creation_date >= since)
}

/// The query for all cases of one type against a user in a guild.
pub open spec fn user_cases_query_of(guild_id: u64, user_id: u64, case_type: CaseType) -> CaseQueryView {
    CaseQueryView {
        user_id: decimal(user_id as nat),
        guild_id: decimal(guild_id as nat),
        case_type: case_type.name(),
        created_since: None,
    }
}

/// The query for a user's warns in a guild created at or after `expiration_date`.
pub open spec fn active_warns_query_of(guild_id: u64, user_id: u64, expiration_date: i64) -> CaseQueryView {
    CaseQueryView {
        user_id: decimal(user_id as nat),
        guild_id: decimal(guild_id as nat),
        case_type: CaseType::Warn.name(),
        created_since: Some(expiration_date),
    }
}

/// The query for all cases of `case_type` against `user_id` in `guild_id`.
pub fn user_cases_query(guild_id: u64, user_id: u64, case_type: CaseType) -> (q: CaseQuery)
    ensures
        q@ == user_cases_query_of(guild_id, user_id, case_type),
{
    let mut user = String::new();
    append_decimal(&mut user, user_id);
    let mut guild = String::new();
    append_decimal(&mut guild, guild_id);
    CaseQuery { user_id: user, guild_id: guild, case_type: case_type.to_string(), created_since: None }
}

/// The query for the warns against `user_id` in `guild_id` that are still
/// active: those created at or after `expiration_date`.
pub fn active_warns_query(guild_id: u64, user_id: u64, expiration_date: i64) -> (q: CaseQuery)
    ensures
        q@ == active_warns_query_of(guild_id, user_id, expiration_date),
{
    let mut user = String::new();
    append_decimal(&mut user, user_id);
    let mut guild = String::new();
    append_decimal(&mut guild, guild_id);
    CaseQuery {
        user_id: user,
        guild_id: guild,
        case_type: CaseType::Warn.to_string(),
        created_since: Some(expiration_date),
    }
}

/// The condition that a criterion of a database filter puts on one field of
/// a stored case.
pub enum FilterCondition {
    /// The field holds exactly this text.
    Equals(String),
    /// The field holds a point in time at or after this one (inclusive: `$gte`).
    AtLeast(i64),
}

/// One criterion of a database filter: a field of the stored case and the
/// condition on it.
pub struct FilterCriterion {
    pub field: String,
    pub condition: FilterCondition,
}

/// The mathematical content of a [`FilterCondition`].
pub enum ConditionView {
    Equals(Seq<char>),
    AtLeast(i64),
}

/// The mathematical content of a [`FilterCriterion`].
pub struct CriterionView {
    pub field: Seq<char>,
    pub condition: ConditionView,
}

impl View for FilterCriterion {
    type V = CriterionView;

    open spec fn view(&self) -> CriterionView {
        CriterionView {
            field: self.field@,
            condition: match self.condition {
                FilterCondition::Equals(text) => ConditionView::Equals(text@),
                FilterCondition::AtLeast(t) => ConditionView::AtLeast(t),
            },
        }
    }
}

/// The text that a stored case holds in the text field `field`, as the case
/// is stored: ids in decimal and the case type by its name.
pub open spec fn stored_text(c: Case, field: Seq<char>) -> Option<Seq<char>> {
    if field == "user_id"@ {
        Some(decimal(c.user_id as nat))
    } else if field == "guild_id"@ {
        Some(decimal(c.guild_id as nat))
    } else if field == "case_type"@ {
        Some(c.case_type.name())
    } else {
        None
    }
}

/// The point in time that a stored case holds in the date field `field`.
pub open spec fn stored_time(c: Case, field: Seq<char>) -> Option<i64> {
    if field == "creation_date"@ {
        Some(c.creation_date)
    } else if field == "punishment_length"@ {
        Some(c.punishment_length)
    } else {
        None
    }
}

/// Whether the stored case `c` meets the criterion `cr`.
pub open spec fn criterion_holds(cr: CriterionView, c: Case) -> bool {
    match cr.condition {
        ConditionView::Equals(text) => stored_text(c, cr.field) == Some(text),
        ConditionView::AtLeast(t) => stored_time(c, cr.field) matches Some(m) && m >= t,
    }
}

/// The criteria of the database filter of a query: the user, the guild and
/// the case type, each by equality, and the earliest creation date, where
/// there is one, as an inclusive lower bound.
pub open spec fn query_filter_of(q: CaseQueryView) -> Seq<CriterionView> {
    let equal = seq![
        CriterionView { field: "user_id"@, condition: ConditionView::Equals(q.user_id) },
        CriterionView { field: "guild_id"@, condition: ConditionView::Equals(q.guild_id) },
        CriterionView { field: "case_type"@, condition: ConditionView::Equals(q.case_type) },
    ];
    match q.created_since {
        Some(since) => equal.push(
            CriterionView { field: "creation_date"@, condition: ConditionView::AtLeast(since) },
        ),
        None => equal,
    }
}

/// The criteria of the database filter that runs `query`.
pub fn case_query_filter(query: &CaseQuery) -> (criteria: Vec<FilterCriterion>)
    ensures
        criteria@.len() == query_filter_of(query@).len(),
        forall|i: int| 0 <= i < criteria@.len() ==> #[trigger] criteria@[i]@ == query_filter_of(query@)[i],
{
    let mut criteria: Vec<FilterCriterion> = Vec::new();
    criteria.push(FilterCriterion {
        field: String::from_str("user_id"),
        condition: FilterCondition::Equals(query.user_id.clone()),
    });
    criteria.push(FilterCriterion {
        field: String::from_str("guild_id"),
        condition: FilterCondition::Equals(query.guild_id.clone()),
    });
    criteria.push(FilterCriterion {
        field: String::from_str("case_type"),
        condition: FilterCondition::Equals(query.case_type.clone()),
    });
    match query.created_since {
        Some(since) => {
            criteria.push(FilterCriterion {
                field: String::from_str("creation_date"),
                condition: FilterCondition::AtLeast(since),
            });
        },
        None => {},
    }
    criteria
}

/// A stored case meets every criterion of a query's database filter exactly
/// when the query selects it.
pub proof fn lemma_filter_selects_as_query(q: CaseQueryView, c: Case)
    ensures
        (forall|i: int|
            0 <= i < query_filter_of(q).len() ==> #[trigger] criterion_holds(query_filter_of(q)[i], c))
            <==> query_selects(q, c),
{
    reveal_strlit("user_id");
    reveal_strlit("guild_id");
    reveal_strlit("case_type");
    reveal_strlit("creation_date");
    reveal_strlit("punishment_length");
    assert("guild_id"@[0] != "user_id"@[0]);
    assert("case_type"@[0] != "user_id"@[0]);
    assert("case_type"@[0] != "guild_id"@[0]);
    assert("creation_date"@[0] != "user_id"@[0]);
    assert("creation_date"@[0] != "guild_id"@[0]);
    assert("creation_date"@[1] != "case_type"@[1]);
    let f = query_filter_of(q);
    assert(criterion_holds(f[0], c) <==> q.user_id == decimal(c.user_id as nat));
    assert(criterion_holds(f[1], c) <==> q.guild_id == decimal(c.guild_id as nat));
    assert(criterion_holds(f[2], c) <==> q.case_type == c.case_type.name());
    if let Some(since) = q.created_since {
        assert(criterion_holds(f[3], c) <==> c.creation_date >= since);
    }
    if query_selects(q, c) {
        assert forall|i: int| 0 <= i < f.len() implies #[trigger] criterion_holds(f[i], c) by {
            if i == 0 {
            } else if i == 1 {
            } else if i == 2 {
            } else {
            }
        }
    }
}

/// The query for a user's cases of one type selects exactly the cases of that
/// type against that user in that guild.
pub proof fn lemma_user_cases_query_exact(guild_id: u64, user_id: u64, case_type: CaseType, c: Case)
    ensures
        query_selects(user_cases_query_of(guild_id, user_id, case_type), c) <==> (c.guild_id
            == guild_id && c.user_id == user_id && c.case_type == case_type),
{
    let q = user_cases_query_of(guild_id, user_id, case_type);
    if query_selects(q, c) {
        lemma_decimal_injective(user_id as nat, c.user_id as nat);
        lemma_decimal_injective(guild_id as nat, c.guild_id as nat);
        lemma_case_type_name_injective(case_type, c.case_type);
    }
}

/// The query for a user's active warns selects exactly the warns against that
/// user in that guild created at or after the expiration date.
pub proof fn lemma_active_warns_query_exact(guild_id: u64, user_id: u64, expiration_date: i64, c: Case)
    ensures
        query_selects(active_warns_query_of(guild_id, user_id, expiration_date), c) <==> (
        c.guild_id == guild_id && c.user_id == user_id && c.case_type == CaseType::Warn
            && c.creation_date >= expiration_date),
{
    let q = active_warns_query_of(guild_id, user_id, expiration_date);
    if query_selects(q, c) {
        lemma_decimal_injective(user_id as nat, c.user_id as nat);
        lemma_decimal_injective(guild_id as nat, c.guild_id as nat);
        lemma_case_type_name_injective(CaseType::Warn, c.case_type);
    }
}

/// Every active warn is one of the user's warns.
pub proof fn lemma_active_warns_are_warns(guild_id: u64, user_id: u64, expiration_date: i64, c: Case)
    requires
        query_selects(active_warns_query_of(guild_id, user_id, expiration_date), c),
    ensures
        query_selects(user_cases_query_of(guild_id, user_id, CaseType::Warn), c),
{
}

/// An earlier expiration date admits every warn that a later one admits.
pub proof fn lemma_earlier_expiration_admits_more(
    guild_id: u64,
    user_id: u64,
    earlier: i64,
    later: i64,
    c: Case,
)
    requires
        earlier <= later,
        query_selects(active_warns_query_of(guild_id, user_id, later), c),
    ensures
        query_selects(active_warns_query_of(guild_id, user_id, earlier), c),
{
}


/// The colour of case announcements (`0x644C43`).
pub const CASE_EMBED_COLOR: u32 = 6_573_123u32;

/// The title of a case's announcement: the case type, then `| Case` and the
/// case id.
pub open spec fn case_embed_title(case: Case) -> Seq<char> {
    case.case_type.name() + " | Case "@ + uuid_text(case.case_id@)
}

/// The text of the `User` field of a case's announcement: the user's id,
/// then a mention of the user in brackets.
pub open spec fn case_user_text(case: Case) -> Seq<char> {
    decimal(case.user_id as nat) + " ("@ + mention(case.user_id as nat) + ")"@
}

/// The title of a case's announcement starts with the case's own type name,
/// then ` | Case ` and the case id's own UUID text.
pub proof fn lemma_case_title_names_type_and_id(case: Case)
    ensures
        case_embed_title(case) == case.case_type.name() + " | Case "@ + uuid_text(case.case_id@),
{
}

/// Announcements of cases that differ in type or in id have different
/// titles: the title tells both.
pub proof fn lemma_case_title_injective(a: Case, b: Case)
    requires
        case_embed_title(a) == case_embed_title(b),
    ensures
        a.case_type == b.case_type,
        a.case_id == b.case_id,
{
    let sep = " | Case "@;
    let ta = case_embed_title(a);
    let tb = case_embed_title(b);
    lemma_uuid_text_len(a.case_id@);
    lemma_uuid_text_len(b.case_id@);
    let pa = a.case_type.name() + sep;
    let pb = b.case_type.name() + sep;
    assert(ta =~= pa + uuid_text(a.case_id@));
    assert(tb =~= pb + uuid_text(b.case_id@));
    assert(pa.len() == pb.len());
    assert(uuid_text(a.case_id@) =~= ta.subrange(pa.len() as int, ta.len() as int));
    assert(uuid_text(b.case_id@) =~= tb.subrange(pb.len() as int, tb.len() as int));
    lemma_uuid_text_injective(a.case_id@, b.case_id@);
    assert(a.case_id@ =~= b.case_id@);
    assert(pa =~= ta.subrange(0, pa.len() as int));
    assert(pb =~= tb.subrange(0, pb.len() as int));
    let na = a.case_type.name();
    let nb = b.case_type.name();
    assert(na =~= pa.subrange(0, na.len() as int));
    assert(nb =~= pb.subrange(0, nb.len() as int));
    lemma_case_type_name_injective(a.case_type, b.case_type);
}

/// The announcement of a case made at `timestamp`: its type and id as the
/// title; the user, the `Moderator` field and the reason as fields; the case
/// colour; and `timestamp`. The `Moderator` field mentions the case's user,
/// not its moderator.
pub fn case_embed_at(case: &Case, timestamp: i64) -> (embed: Embed)
    ensures
        embed.title@ == case_embed_title(*case),
        embed.title@ == case.case_type.name() + " | Case "@ + uuid_text(case.case_id@),
        embed.description is None,
        embed.fields@.len() == 3,
        field_is(embed.fields@[0], "User"@, case_user_text(*case), true),
        field_is(embed.fields@[1], "Moderator"@, mention(case.user_id as nat), true),
        field_is(embed.fields@[2], "Reason"@, case.reason@, false),
        embed.color == Some(CASE_EMBED_COLOR),
        embed.timestamp == Some(timestamp),
{
    let mut title = case.case_type.to_string();
    title.append(" | Case ");
    let id_text = uuid_string(&case.case_id);
    title.append(id_text.as_str());

    let mut user_text = String::new();
    append_decimal(&mut user_text, case.user_id);
    user_text.append(" (");
    append_mention(&mut user_text, case.user_id);
    user_text.append(")");

    let mut moderator_text = String::new();
    append_mention(&mut moderator_text, case.user_id);

    let mut fields: Vec<EmbedField> = Vec::new();
    fields.push(EmbedField { name: String::from_str("User"), value: user_text, inline: true });
    fields.push(EmbedField { name: String::from_str("Moderator"), value: moderator_text, inline: true });
    fields.push(EmbedField { name: String::from_str("Reason"), value: case.reason.clone(), inline: false });

    assert(title@ =~= case_embed_title(*case));
    assert(fields@[0].value@ =~= case_user_text(*case));
    assert(fields@[1].value@ =~= mention(case.user_id as nat));
    Embed { title, description: None, fields, color: Some(CASE_EMBED_COLOR), timestamp: Some(timestamp) }
}

/// The announcement of a case, stamped with the current time.
pub fn create_case_embed(case: &Case) -> (embed: Embed)
    ensures
        embed.title@ == case_embed_title(*case),
        embed.title@ == case.case_type.name() + " | Case "@ + uuid_text(case.case_id@),
        embed.description is None,
        embed.fields@.len() == 3,
        field_is(embed.fields@[0], "User"@, case_user_text(*case), true),
        field_is(embed.fields@[1], "Moderator"@, mention(case.user_id as nat), true),
        field_is(embed.fields@[2], "Reason"@, case.reason@, false),
        embed.color == Some(CASE_EMBED_COLOR),
        embed.timestamp matches Some(t) && 0 <= t && utc_representable(t as int),
{
    case_embed_at(case, now_millis())
}

} // verus!
