use modbot::clock::MILLIS_PER_DAY;
use modbot::warn_flow::{warn_step, WarnAction, WarnEvent, WarnRequest, WarnState};

fn request() -> WarnRequest {
    WarnRequest {
        guild_id: 42,
        guild_name: String::from("Home"),
        user_id: 1001,
        user_name: String::from("bob"),
        reason: String::from("rude"),
    }
}

fn reply_text(action: &WarnAction) -> &str {
    match action {
        WarnAction::Reply(text) | WarnAction::SendDm(text) | WarnAction::Fail(text) => text,
        _ => panic!("no text in this action"),
    }
}

#[test]
fn warn_outside_guild_fails_at_once() {
    let (state, action) =
        warn_step(&request(), WarnState::Start, WarnEvent::Begin { in_guild: false, target_is_bot: false });
    assert_eq!(state, WarnState::Finished);
    assert_eq!(reply_text(&action), "Failed to grab Guild for warn_user.");
}

#[test]
fn warn_run_reaching_the_limit() {
    let req = request();
    let mut saves = 0;
    let (s, a) = warn_step(&req, WarnState::Start, WarnEvent::Begin { in_guild: true, target_is_bot: true });
    assert_eq!(reply_text(&a), "You're warning a bot.");
    let (s, a) = warn_step(&req, s, WarnEvent::Done);
    assert!(matches!(a, WarnAction::LoadConfig));
    let (s, a) = warn_step(
        &req,
        s,
        WarnEvent::ConfigLoaded { warn_life_span: 7, max_warns: 3, now: 10 * MILLIS_PER_DAY },
    );
    match &a {
        WarnAction::FindWarns(q) => {
            assert_eq!(q.user_id, "1001");
            assert_eq!(q.guild_id, "42");
            assert_eq!(q.case_type, "Warn");
            assert_eq!(q.created_since, Some(3 * MILLIS_PER_DAY));
        },
        _ => panic!("expected the warns lookup"),
    }
    let (s, a) = warn_step(&req, s, WarnEvent::WarnsFound(2));
    assert_eq!(reply_text(&a), "bob currently has 2 active warnings.");
    let (s, a) = warn_step(&req, s, WarnEvent::Done);
    if matches!(a, WarnAction::SaveCase) {
        saves += 1;
    }
    let (s, a) = warn_step(&req, s, WarnEvent::Done);
    assert_eq!(reply_text(&a), "You've been warned in **Home**\n\n**Reason**: rude");
    let (s, a) = warn_step(&req, s, WarnEvent::Failed);
    assert_eq!(reply_text(&a), "Due to exceeding the warn limit, you've been banned.");
    let (s, a) = warn_step(&req, s, WarnEvent::Done);
    assert!(matches!(a, WarnAction::Ban));
    let (s, a) = warn_step(&req, s, WarnEvent::BanResult(false));
    assert_eq!(reply_text(&a), "Failed to ban user bob.");
    let (s, a) = warn_step(&req, s, WarnEvent::Done);
    assert!(matches!(a, WarnAction::Finish));
    assert_eq!(s, WarnState::Finished);
    assert_eq!(saves, 1);
}

#[test]
fn warn_below_the_limit_finishes_after_the_dm() {
    let req = request();
    let s = WarnState::SavingCase { active_warns: 0, max_warns: 3 };
    let (s, _) = warn_step(&req, s, WarnEvent::Done);
    assert_eq!(s, WarnState::SendingDm { ban: false });
    let (s, a) = warn_step(&req, s, WarnEvent::Done);
    assert_eq!(s, WarnState::Finished);
    assert!(matches!(a, WarnAction::Finish));
}

#[test]
fn failure_before_saving_ends_without_a_case() {
    let req = request();
    for state in [
        WarnState::NoticingBot,
        WarnState::LoadingConfig,
        WarnState::FindingWarns { max_warns: 3 },
        WarnState::ReplyingCount { active_warns: 1, max_warns: 3 },
        WarnState::SavingCase { active_warns: 1, max_warns: 3 },
    ] {
        let (s, a) = warn_step(&req, state, WarnEvent::Failed);
        assert_eq!(s, WarnState::Finished);
        assert!(matches!(a, WarnAction::FailWithLast));
    }
}

#[test]
fn unexpected_events_change_nothing() {
    let (s, a) = warn_step(&request(), WarnState::Banning, WarnEvent::Done);
    assert_eq!(s, WarnState::Banning);
    assert!(matches!(a, WarnAction::Wait));
    let (s, a) = warn_step(&request(), WarnState::Finished, WarnEvent::Done);
    assert_eq!(s, WarnState::Finished);
    assert!(matches!(a, WarnAction::Wait));
}

#[test]
fn unrepresentable_expiration_overflows() {
    let (s, a) = warn_step(
        &request(),
        WarnState::LoadingConfig,
        WarnEvent::ConfigLoaded { warn_life_span: 7, max_warns: 3, now: i64::MIN },
    );
    assert_eq!(s, WarnState::Finished);
    assert!(matches!(a, WarnAction::Overflow));
}
