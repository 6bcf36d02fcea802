use ip_tracker::address::IpAddress;
use ip_tracker::bot::{
    endpoint_request, help, invalid_command, schema, token, Command, Endpoint,
};
use ip_tracker::db::{AppIpReport, DbCommand, Failure, Outcome, UserId};
use ip_tracker::store::{StoreCommand, StoreReply};
use ip_tracker::worker::{db_task, Progress, Session};
use ip_tracker::ApplicationCommand;
use tokio::sync::oneshot;
use tokio::sync::oneshot::error::TryRecvError;

#[derive(Debug, PartialEq)]
struct Boxed(String);

impl From<String> for Boxed {
    fn from(text: String) -> Boxed {
        Boxed(text)
    }
}

fn finish<T: From<String>>(mut progress: Progress<T>, replies: Vec<StoreReply>) -> (Outcome, bool) {
    let mut replies = replies.into_iter();
    loop {
        match progress {
            Progress::Ask(pending, _) => {
                progress = pending.resume(replies.next().expect("a reply for each command"));
            }
            Progress::Done { outcome, delivered } => {
                assert!(replies.next().is_none());
                return (outcome, delivered);
            }
        }
    }
}

#[test]
fn command_keeps_its_parts() {
    let (tx, mut rx) = oneshot::channel::<String>();
    let command = ApplicationCommand::new(DbCommand::IpGetRequest(UserId(5)), tx);
    assert_eq!(command.db_cmd, DbCommand::IpGetRequest(UserId(5)));
    assert!(command.tx_channel.send("through".to_string()).is_ok());
    assert_eq!(rx.try_recv(), Ok("through".to_string()));
}

#[test]
fn worker_begins_with_the_first_command_of_the_request() {
    let (tx, mut rx) = oneshot::channel::<String>();
    let progress = db_task(ApplicationCommand::new(DbCommand::IpGetRequest(UserId(5)), tx));
    match progress {
        Progress::Ask(pending, command) => {
            assert_eq!(command, StoreCommand::SetMembers { key: "user:5".to_string() });
            assert_eq!(rx.try_recv(), Err(TryRecvError::Empty));
            drop(pending);
            assert_eq!(rx.try_recv(), Err(TryRecvError::Closed));
        }
        other => panic!("no command: {:?}", other),
    }
}

#[test]
fn caller_gets_the_one_message() {
    let (tx, mut rx) = oneshot::channel::<String>();
    let progress = db_task(ApplicationCommand::new(DbCommand::IpGetRequest(UserId(5)), tx));
    let (outcome, delivered) = finish(
        progress,
        vec![
            StoreReply::Members(vec!["app:9".to_string()]),
            StoreReply::Value(Some("10.1.2.3".to_string())),
        ],
    );
    assert_eq!(outcome, Outcome::Reply("Your reported IP is `10.1.2.3`".to_string()));
    assert!(delivered);
    assert_eq!(rx.try_recv(), Ok("Your reported IP is `10.1.2.3`".to_string()));
    assert_eq!(rx.try_recv(), Err(TryRecvError::Closed));
}

#[test]
fn message_is_converted_for_the_caller() {
    let (tx, mut rx) = oneshot::channel::<Boxed>();
    let progress = db_task(ApplicationCommand::new(DbCommand::IpGetRequest(UserId(5)), tx));
    let (outcome, delivered) = finish(progress, vec![StoreReply::Members(vec![])]);
    let message = "No application registered, so no reports available".to_string();
    assert_eq!(outcome, Outcome::Reply(message.clone()));
    assert!(delivered);
    assert_eq!(rx.try_recv(), Ok(Boxed(message)));
}

#[test]
fn failed_request_closes_the_slot_without_a_message() {
    let (tx, mut rx) = oneshot::channel::<String>();
    let report = AppIpReport::new(UserId(3), "3:abc".to_string(), IpAddress::V4([1, 1, 1, 1]));
    let progress = db_task(ApplicationCommand::new(DbCommand::IpReport(report), tx));
    let (outcome, delivered) = finish(progress, vec![StoreReply::Exists(false)]);
    assert_eq!(outcome, Outcome::Failed(Failure::UnknownApplication));
    assert!(!delivered);
    assert_eq!(rx.try_recv(), Err(TryRecvError::Closed));
}

#[test]
fn request_that_ends_at_once_uses_up_the_slot() {
    let (tx, mut rx) = oneshot::channel::<String>();
    let report =
        AppIpReport::new(UserId(3), "3:abc".to_string(), IpAddress::V6([0, 0, 0, 0, 0, 0, 0, 1]));
    match db_task(ApplicationCommand::new(DbCommand::IpReport(report), tx)) {
        Progress::Done { outcome, delivered } => {
            assert_eq!(outcome, Outcome::Failed(Failure::NotIpv4));
            assert!(!delivered);
        }
        other => panic!("not over: {:?}", other),
    }
    assert_eq!(rx.try_recv(), Err(TryRecvError::Closed));
}

#[test]
fn caller_that_left_is_no_error_for_the_worker() {
    let (tx, rx) = oneshot::channel::<String>();
    let progress = db_task(ApplicationCommand::new(DbCommand::IpGetRequest(UserId(5)), tx));
    drop(rx);
    let (outcome, delivered) = finish(progress, vec![StoreReply::Members(vec![])]);
    assert_eq!(
        outcome,
        Outcome::Reply("No application registered, so no reports available".to_string())
    );
    assert!(!delivered);
}

#[test]
fn unrecorded_credential_is_delivered() {
    let (tx, mut rx) = oneshot::channel::<String>();
    let progress =
        db_task(ApplicationCommand::new(DbCommand::TokenGenerateRequest(UserId(42)), tx));
    let (outcome, delivered) = finish(
        progress,
        vec![
            StoreReply::Members(vec![]),
            StoreReply::Value(Some("1000".to_string())),
            StoreReply::Value(None),
            StoreReply::Failed,
        ],
    );
    let credential = match outcome {
        Outcome::Unrecorded(credential) => credential,
        other => panic!("recorded or failed: {:?}", other),
    };
    assert!(credential.starts_with("1000:"));
    assert_eq!(credential.len(), 37);
    assert!(delivered);
    assert_eq!(rx.try_recv(), Ok(credential));
}

#[test]
fn resume_at_a_fixed_time() {
    let (tx, mut rx) = oneshot::channel::<String>();
    let mut progress =
        db_task(ApplicationCommand::new(DbCommand::TokenGenerateRequest(UserId(42)), tx));
    let replies = vec![
        StoreReply::Members(vec![]),
        StoreReply::Value(Some("1000".to_string())),
        StoreReply::Value(None),
        StoreReply::Written,
    ];
    for reply in replies {
        progress = match progress {
            Progress::Ask(pending, _) => pending.resume_at(reply, 77),
            other => panic!("over too soon: {:?}", other),
        };
    }
    let expected = ip_tracker::credential::generate_token_at(1000, &UserId(42), 77);
    match progress {
        Progress::Done { outcome, delivered } => {
            assert_eq!(outcome, Outcome::Reply(expected.clone()));
            assert!(delivered);
        }
        other => panic!("not over: {:?}", other),
    }
    assert_eq!(rx.try_recv(), Ok(expected));
}

#[test]
fn session_reads_the_clock_only_for_a_new_credential() {
    let waiting = Session::Token(ip_tracker::token_request::TokenRequest::Token {
        id: UserId(1),
        app_key: "app:1".to_string(),
        app_id: 1,
    });
    assert!(waiting.needs_clock(&StoreReply::Value(None)));
    assert!(waiting.needs_clock(&StoreReply::Failed));
    assert!(!waiting.needs_clock(&StoreReply::Value(Some("1:x".to_string()))));
    let listing = Session::Get(ip_tracker::ip_request::IpGetRequest::Members);
    assert!(!listing.needs_clock(&StoreReply::Value(None)));
}

#[test]
fn chat_commands_have_their_endpoints() {
    assert_eq!(schema(Some(Command::Token), Some("/token")), Endpoint::Token);
    assert_eq!(schema(Some(Command::GetMyIp), Some("/getmyip")), Endpoint::GetMyIp);
    assert_eq!(schema(Some(Command::Help), Some("/help")), Endpoint::Help);
    assert_eq!(schema(Some(Command::Token), None), Endpoint::Token);
}

#[test]
fn other_chat_messages_get_help_or_the_notice() {
    assert_eq!(schema(None, Some("/start")), Endpoint::Help);
    assert_eq!(schema(None, Some("/unknown")), Endpoint::InvalidCommand);
    assert_eq!(schema(None, Some("/")), Endpoint::InvalidCommand);
    assert_eq!(schema(None, Some("/start now")), Endpoint::InvalidCommand);
    assert_eq!(schema(None, Some("/star")), Endpoint::InvalidCommand);
    assert_eq!(schema(None, Some("hello")), Endpoint::Help);
    assert_eq!(schema(None, Some("")), Endpoint::Help);
    assert_eq!(schema(None, Some(" /token")), Endpoint::Help);
    assert_eq!(schema(None, None), Endpoint::Help);
}

#[test]
fn endpoints_put_their_requests() {
    let user = UserId(42);
    assert_eq!(endpoint_request(Endpoint::Token, user), Some(DbCommand::TokenGenerateRequest(user)));
    assert_eq!(endpoint_request(Endpoint::GetMyIp, user), Some(DbCommand::IpGetRequest(user)));
    assert_eq!(endpoint_request(Endpoint::Help, user), None);
    assert_eq!(endpoint_request(Endpoint::InvalidCommand, user), None);
}

#[test]
fn chat_messages_word_for_word() {
    assert_eq!(token("1000:abc"), "Your token is `1000:abc`");
    assert_eq!(invalid_command(), "Unknown command. Would you repeat?");
    assert_eq!(
        help("/help - Show help message"),
        "I can help you with tracking your PC VPN IP address, so you can\nconnect to it from another location if you are connected to the same VPN network.\n\n/help - Show help message"
    );
}
