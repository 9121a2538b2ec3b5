use device_flow::grant::{DeviceCodeGrant, HttpReply};
use device_flow::outcome::TokenOutcome;
use device_flow::poller::{
    PollAction, PollError, PollEvent, PollPhase, TokenPoller, MAX_UNREADABLE_REPLIES,
};

fn poller(interval: u32, expires_in: u32) -> TokenPoller {
    TokenPoller::new("dev-123".to_string(), interval, expires_in, "client-1".to_string())
}

fn answered(status: u16, body: &str) -> HttpReply {
    HttpReply::Answered { status, body: body.to_string() }
}

const PENDING: &str = "{\"error\":\"authorization_pending\"}";

/// Drives a poller with scripted replies, the last one repeated for ever.
/// Returns the result, the number of requests and the seconds waited.
fn drive(
    poller: &mut TokenPoller,
    replies: &[HttpReply],
) -> (Result<String, PollError>, u32, u64) {
    let mut requests: u32 = 0;
    let mut waited: u64 = 0;
    let mut action = poller.advance(PollEvent::Begin);
    loop {
        match action {
            PollAction::WaitThenExchange { seconds } => {
                assert_eq!(seconds, poller.interval());
                waited += seconds as u64;
                let index = (requests as usize).min(replies.len() - 1);
                requests += 1;
                action = poller.on_reply(&replies[index]);
            }
            PollAction::Finish(result) => return (result, requests, waited),
            PollAction::Nothing => panic!("the poller ignored an event of the driver"),
        }
    }
}

#[test]
fn three_pending_then_granted() {
    let mut p = poller(5, 600);
    let replies = [
        answered(403, PENDING),
        answered(403, PENDING),
        answered(403, PENDING),
        answered(200, "{\"access_token\":\"abc\",\"token_type\":\"Bearer\"}"),
    ];
    let (result, requests, waited) = drive(&mut p, &replies);
    assert_eq!(result, Ok("abc".to_string()));
    assert_eq!(requests, 4);
    assert!(waited >= 15);
    assert_eq!(waited, 20);
    assert_eq!(p.elapsed(), 20);
    assert_eq!(p.phase(), PollPhase::Granted);
    assert!(p.is_finished());
}

#[test]
fn denied_on_first_exchange() {
    let mut p = poller(5, 600);
    let replies =
        [answered(403, "{\"error\":\"access_denied\",\"error_description\":\"User cancelled\"}")];
    let (result, requests, waited) = drive(&mut p, &replies);
    assert_eq!(result, Err(PollError::Denied("User cancelled".to_string())));
    assert_eq!(requests, 1);
    assert_eq!(waited, 5);
    assert_eq!(p.phase(), PollPhase::Denied);
    assert_eq!(p.on_reply(&replies[0]), PollAction::Nothing);
    assert_eq!(p.advance(PollEvent::Begin), PollAction::Nothing);
    assert_eq!(p.phase(), PollPhase::Denied);
}

#[test]
fn always_pending_expires_after_two_requests() {
    let mut p = poller(5, 10);
    let (result, requests, waited) = drive(&mut p, &[answered(403, PENDING)]);
    assert_eq!(result, Err(PollError::Expired));
    assert_eq!(requests, 2);
    assert_eq!(waited, 10);
    assert_eq!(p.phase(), PollPhase::Expired);
}

#[test]
fn lifetime_that_is_no_multiple_of_the_interval() {
    let mut p = poller(5, 11);
    let (result, requests, waited) = drive(&mut p, &[answered(403, PENDING)]);
    assert_eq!(result, Err(PollError::Expired));
    assert_eq!(requests, 3);
    assert_eq!(waited, 15);
    assert!(waited < 11 + 5);
}

#[test]
fn grant_with_no_lifetime_expires_at_once() {
    let mut p = poller(5, 0);
    assert_eq!(p.advance(PollEvent::Begin), PollAction::Finish(Err(PollError::Expired)));
    assert_eq!(p.phase(), PollPhase::Expired);
    assert_eq!(p.elapsed(), 0);
}

#[test]
fn new_poller_is_idle() {
    let p = poller(5, 600);
    assert_eq!(p.phase(), PollPhase::Idle);
    assert_eq!(p.interval(), 5);
    assert_eq!(p.expires_in(), 600);
    assert_eq!(p.elapsed(), 0);
    assert!(!p.is_finished());
}

#[test]
fn poller_for_a_grant_takes_its_values() {
    let grant = DeviceCodeGrant {
        device_code: "dev-9".to_string(),
        user_code: "U".to_string(),
        verification_uri: "https://a/".to_string(),
        verification_uri_complete: "https://a/?u=U".to_string(),
        expires_in: 30,
        interval: 7,
    };
    let mut p = TokenPoller::for_grant(grant, "client-9".to_string());
    assert_eq!(p.interval(), 7);
    assert_eq!(p.expires_in(), 30);
    assert_eq!(
        p.exchange_form(),
        vec![
            ("client_id".to_string(), "client-9".to_string()),
            (
                "grant_type".to_string(),
                "urn:ietf:params:oauth:grant-type:device_code".to_string()
            ),
            ("device_code".to_string(), "dev-9".to_string()),
        ]
    );
    assert_eq!(p.advance(PollEvent::Begin), PollAction::WaitThenExchange { seconds: 7 });
}

#[test]
fn begin_orders_a_wait_of_the_interval() {
    let mut p = poller(5, 600);
    assert_eq!(p.advance(PollEvent::Begin), PollAction::WaitThenExchange { seconds: 5 });
    assert_eq!(p.phase(), PollPhase::Polling);
    assert_eq!(p.elapsed(), 5);
}

#[test]
fn events_that_do_not_fit_change_nothing() {
    let mut p = poller(5, 600);
    assert_eq!(p.advance(PollEvent::Outcome(TokenOutcome::Pending)), PollAction::Nothing);
    assert_eq!(p.advance(PollEvent::Unreadable), PollAction::Nothing);
    assert_eq!(
        p.advance(PollEvent::Outcome(TokenOutcome::Granted { access_token: "x".to_string() })),
        PollAction::Nothing
    );
    assert_eq!(p.phase(), PollPhase::Idle);
    assert_eq!(p.elapsed(), 0);
    assert_eq!(p.advance(PollEvent::Begin), PollAction::WaitThenExchange { seconds: 5 });
    assert_eq!(p.advance(PollEvent::Begin), PollAction::Nothing);
    assert_eq!(p.phase(), PollPhase::Polling);
    assert_eq!(p.elapsed(), 5);
}

#[test]
fn slow_down_raises_the_interval_for_later_waits() {
    let mut p = poller(5, 600);
    assert_eq!(p.advance(PollEvent::Begin), PollAction::WaitThenExchange { seconds: 5 });
    assert_eq!(
        p.advance(PollEvent::Outcome(TokenOutcome::SlowDown { new_interval: 12 })),
        PollAction::WaitThenExchange { seconds: 12 }
    );
    assert_eq!(p.interval(), 12);
    assert_eq!(
        p.advance(PollEvent::Outcome(TokenOutcome::Pending)),
        PollAction::WaitThenExchange { seconds: 12 }
    );
    assert_eq!(p.elapsed(), 29);
}

#[test]
fn slow_down_never_lowers_the_interval() {
    let mut p = poller(10, 600);
    assert_eq!(p.advance(PollEvent::Begin), PollAction::WaitThenExchange { seconds: 10 });
    assert_eq!(
        p.advance(PollEvent::Outcome(TokenOutcome::SlowDown { new_interval: 3 })),
        PollAction::WaitThenExchange { seconds: 10 }
    );
    assert_eq!(p.interval(), 10);
    assert_eq!(
        p.advance(PollEvent::Outcome(TokenOutcome::SlowDown { new_interval: 10 })),
        PollAction::WaitThenExchange { seconds: 10 }
    );
    assert_eq!(p.interval(), 10);
}

#[test]
fn slow_down_reply_adds_five_seconds() {
    let mut p = poller(5, 600);
    let replies = [
        answered(400, "{\"error\":\"slow_down\"}"),
        answered(400, "{\"error\":\"slow_down\"}"),
        answered(200, "{\"access_token\":\"tok\"}"),
    ];
    let (result, requests, waited) = drive(&mut p, &replies);
    assert_eq!(result, Ok("tok".to_string()));
    assert_eq!(requests, 3);
    assert_eq!(waited, 5 + 10 + 15);
    assert_eq!(p.interval(), 15);
}

#[test]
fn server_side_expiry_ends_the_run() {
    let mut p = poller(5, 600);
    let (result, requests, _) = drive(&mut p, &[answered(400, "{\"error\":\"expired_token\"}")]);
    assert_eq!(result, Err(PollError::Expired));
    assert_eq!(requests, 1);
    assert_eq!(p.phase(), PollPhase::Expired);
}

#[test]
fn unreadable_replies_are_put_up_with_three_times() {
    assert_eq!(MAX_UNREADABLE_REPLIES, 3);
    let mut p = poller(1, 600);
    let (result, requests, waited) = drive(&mut p, &[answered(502, "<html>bad gateway</html>")]);
    assert_eq!(result, Err(PollError::Unreliable));
    assert_eq!(requests, 4);
    assert_eq!(waited, 4);
    assert_eq!(p.phase(), PollPhase::Failed);
}

#[test]
fn transport_failures_count_as_unreadable() {
    let mut p = poller(1, 600);
    let (result, requests, _) = drive(&mut p, &[HttpReply::Unreachable]);
    assert_eq!(result, Err(PollError::Unreliable));
    assert_eq!(requests, 4);
}

#[test]
fn readable_reply_resets_the_count_of_unreadable_ones() {
    let mut p = poller(1, 600);
    let replies = [
        HttpReply::Unreachable,
        answered(200, "garbage"),
        HttpReply::Unreachable,
        answered(403, PENDING),
        HttpReply::Unreachable,
        HttpReply::Unreachable,
        HttpReply::Unreachable,
        answered(200, "{\"access_token\":\"late\"}"),
    ];
    let (result, requests, _) = drive(&mut p, &replies);
    assert_eq!(result, Ok("late".to_string()));
    assert_eq!(requests, 8);
}

#[test]
fn unreadable_replies_do_not_outlive_the_device_code() {
    let mut p = poller(5, 10);
    let (result, requests, waited) = drive(&mut p, &[HttpReply::Unreachable]);
    assert_eq!(result, Err(PollError::Expired));
    assert_eq!(requests, 2);
    assert_eq!(waited, 10);
}

#[test]
fn interval_never_shrinks_over_a_run() {
    let mut p = poller(2, 1000);
    let asked = [1u32, 4, 3, 9, 0, 9, 20, 5];
    let mut last = p.interval();
    let mut action = p.advance(PollEvent::Begin);
    for new_interval in asked {
        match action {
            PollAction::WaitThenExchange { seconds } => {
                assert!(seconds >= last);
                assert_eq!(seconds, p.interval());
                last = seconds;
            }
            _ => panic!("the run ended early"),
        }
        action = p.advance(PollEvent::Outcome(TokenOutcome::SlowDown { new_interval }));
    }
    assert_eq!(p.interval(), 20);
}

#[test]
fn zero_interval_with_lifetime_keeps_polling() {
    let mut p = poller(0, 1);
    assert_eq!(p.advance(PollEvent::Begin), PollAction::WaitThenExchange { seconds: 0 });
    assert_eq!(
        p.advance(PollEvent::Outcome(TokenOutcome::Pending)),
        PollAction::WaitThenExchange { seconds: 0 }
    );
    assert_eq!(
        p.advance(PollEvent::Outcome(TokenOutcome::SlowDown { new_interval: 5 })),
        PollAction::WaitThenExchange { seconds: 5 }
    );
    assert_eq!(
        p.advance(PollEvent::Outcome(TokenOutcome::Pending)),
        PollAction::Finish(Err(PollError::Expired))
    );
}
