use chrono::{NaiveDate, NaiveDateTime};
use feobank::model::{Account, Bill, NewUser, User, UserAction};
use feobank::reply::{Refusal, Reply};
use feobank::server::{Command, Event, Phase, Session, OPENING_AGENCY, OPENING_BALANCE};

fn date(y: i32, m: u32, d: u32) -> NaiveDateTime {
    NaiveDate::from_ymd_opt(y, m, d).unwrap().and_hms_opt(1, 0, 0).unwrap()
}

fn user(name: &str, account_id: u128) -> User {
    User {
        id: 11,
        account_id,
        cpf: "02352154650".to_string(),
        password: "$2b$04$stored".to_string(),
        email: "ana@example.com".to_string(),
        name: name.to_string(),
        address: "Rua A, 1".to_string(),
        phone: "555-0101".to_string(),
        birthdate: date(1990, 5, 17),
        last_login: None,
    }
}

fn account(id: u128, balance: f32) -> Account<f32> {
    Account { id, agency: 1, balance, created_date: date(2021, 3, 1) }
}

fn login_request(cpf: &str, password: &str) -> Event<f32> {
    Event::Received(UserAction::Login { cpf: cpf.to_string(), password: password.to_string() })
}

fn logged_in(name: &str, balance: f32) -> Session<f32> {
    Session { user: Some((user(name, 42), account(42, balance))), phase: Phase::Ready }
}

#[test]
fn new_session_is_logged_out_and_ready() {
    let s = Session::<f32>::new();
    assert_eq!(s.user, None);
    assert_eq!(s.phase, Phase::Ready);
}

#[test]
fn matching_login_logs_in() {
    let hash = bcrypt::hash("Senha", 4).unwrap();
    let mut s = Session::<f32>::new();
    assert_eq!(
        s.step(login_request("02352154650", "Senha")),
        vec![Command::FetchStoredHash { cpf: "02352154650".to_string() }]
    );
    assert_eq!(
        s.step(Event::StoredHash(hash)),
        vec![Command::FetchUser { cpf: "02352154650".to_string() }]
    );
    assert_eq!(s.phase, Phase::AwaitUser);
    assert_eq!(s.step(Event::UserFound(user("Ana", 42))), vec![Command::FetchAccount { account_id: 42 }]);
    assert_eq!(
        s.step(Event::AccountFound(account(42, 250.5))),
        vec![Command::Send(Reply::Done(Ok(())))]
    );
    assert_eq!(s.user, Some((user("Ana", 42), account(42, 250.5))));
    assert_eq!(s.phase, Phase::Ready);
    assert_eq!(
        s.step(Event::Received(UserAction::GetBasicInfo)),
        vec![Command::Send(Reply::BasicInfo(Some(("Ana".to_string(), 250.5))))]
    );
}

#[test]
fn mismatching_login_logs_out() {
    let hash = bcrypt::hash("Senha", 4).unwrap();
    let mut s = logged_in("Ana", 10.0);
    s.step(login_request("02352154650", "wrong"));
    assert_eq!(
        s.step(Event::StoredHash(hash)),
        vec![Command::Send(Reply::Done(Err(Refusal::BadCredentials)))]
    );
    assert_eq!(s.user, None);
    assert_eq!(s.phase, Phase::Ready);
}

#[test]
fn malformed_stored_hash_aborts() {
    let mut s = Session::<f32>::new();
    s.step(login_request("1", "x"));
    assert_eq!(s.step(Event::StoredHash("not a bcrypt hash".to_string())), vec![Command::Abort]);
}

fn new_user(password: &str) -> NewUser {
    NewUser {
        name: "Bia".to_string(),
        email: "bia@example.com".to_string(),
        cpf: "11122233344".to_string(),
        password: password.to_string(),
        address: "Rua B, 2".to_string(),
        phone: "555-0202".to_string(),
        birthdate: date(1985, 12, 1),
    }
}

#[test]
fn create_user_opens_account_with_opening_balance() {
    let mut s = Session::<f32>::new();
    assert_eq!(s.step(Event::Received(UserAction::CreateUser(new_user("hunter2")))), vec![Command::DrawId]);
    assert_eq!(s.step(Event::IdDrawn(501)), vec![Command::DrawId]);
    let commands = s.step(Event::IdDrawn(502));
    assert_eq!(commands.len(), 3);
    assert_eq!(commands[0], Command::InsertAccount { id: 501, agency: 1, balance: 100 });
    match &commands[1] {
        Command::InsertUser { id, account_id: acc, cpf, password_hash, email, name, address, phone, birthdate } => {
            assert_eq!(*acc, 501);
            assert_eq!(*id, 502);
            assert_eq!(cpf, "11122233344");
            assert_eq!(email, "bia@example.com");
            assert_eq!(name, "Bia");
            assert_eq!(address, "Rua B, 2");
            assert_eq!(phone, "555-0202");
            assert_eq!(*birthdate, date(1985, 12, 1));
            assert_ne!(password_hash, "hunter2");
            assert!(bcrypt::verify("hunter2", password_hash).unwrap());
        }
        other => panic!("unexpected command {:?}", other),
    }
    assert_eq!(commands[2], Command::Send(Reply::Done(Ok(()))));
    assert_eq!(s, Session::new());
    assert_eq!(OPENING_AGENCY, 1);
    assert_eq!(OPENING_BALANCE, 100);
}

#[test]
fn created_password_is_accepted() {
    let mut s = Session::<f32>::new();
    s.step(Event::Received(UserAction::CreateUser(new_user("pa55"))));
    s.step(Event::IdDrawn(1));
    let commands = s.step(Event::IdDrawn(2));
    let stored = match &commands[1] {
        Command::InsertUser { password_hash, .. } => password_hash.clone(),
        other => panic!("unexpected command {:?}", other),
    };
    let mut r = Session::<f32>::new();
    r.step(login_request("11122233344", "pa55"));
    assert_eq!(
        r.step(Event::StoredHash(stored)),
        vec![Command::FetchUser { cpf: "11122233344".to_string() }]
    );
}

fn transfer(value: f32) -> Event<f32> {
    Event::Received(UserAction::TransferMoney { dest_cpf: "99988877766".to_string(), value })
}

#[test]
fn covered_transfer_commits() {
    let mut s = logged_in("Ana", 100.0);
    assert_eq!(s.step(transfer(30.0)), vec![Command::CheckFunds { balance: 100.0, value: 30.0 }]);
    assert_eq!(
        s.step(Event::FundsChecked(Some(70.0))),
        vec![Command::FetchDestination { cpf: "99988877766".to_string() }]
    );
    assert_eq!(
        s.step(Event::DestinationFound(Some("dest-account".to_string()))),
        vec![Command::CreditDestination { account_id: "dest-account".to_string(), value: 30.0 }]
    );
    assert_eq!(s.step(Event::DestinationCredited(530.0)), vec![Command::DrawId]);
    let commands = s.step(Event::IdDrawn(777));
    assert_eq!(commands.len(), 5);
    let tx = 777;
    assert_eq!(
        commands[0],
        Command::InsertTransaction {
            id: tx,
            account_src: 42,
            account_dist: "dest-account".to_string(),
            value: 30.0
        }
    );
    assert_eq!(commands[1], Command::LinkTransaction { account_id: 42, transaction_id: tx });
    assert_eq!(
        commands[2],
        Command::UpdateDestinationBalance { account_id: "dest-account".to_string(), balance: 530.0 }
    );
    assert_eq!(commands[3], Command::UpdateOwnBalance { account_id: 42, balance: 70.0 });
    assert_eq!(commands[4], Command::Send(Reply::Done(Ok(()))));
    assert_eq!(s, logged_in("Ana", 70.0));
    assert_eq!(
        s.step(Event::Received(UserAction::GetBasicInfo)),
        vec![Command::Send(Reply::BasicInfo(Some(("Ana".to_string(), 70.0))))]
    );
}

#[test]
fn uncovered_transfer_ends_silently() {
    let mut s = logged_in("Ana", 10.0);
    s.step(transfer(30.0));
    assert_eq!(s.step(Event::FundsChecked(None)), vec![]);
    assert_eq!(s, logged_in("Ana", 10.0));
}

#[test]
fn transfer_to_unknown_cpf_is_refused() {
    let mut s = logged_in("Ana", 100.0);
    s.step(transfer(30.0));
    s.step(Event::FundsChecked(Some(70.0)));
    assert_eq!(
        s.step(Event::DestinationFound(None)),
        vec![Command::Send(Reply::Done(Err(Refusal::UnknownDestination)))]
    );
    assert_eq!(s, logged_in("Ana", 100.0));
}

#[test]
fn logged_out_transfer_does_nothing() {
    let mut s = Session::<f32>::new();
    assert_eq!(s.step(transfer(30.0)), vec![]);
    assert_eq!(s, Session::new());
}

#[test]
fn logged_out_basic_info_is_none() {
    let mut s = Session::<f32>::new();
    assert_eq!(
        s.step(Event::Received(UserAction::GetBasicInfo)),
        vec![Command::Send(Reply::BasicInfo(None))]
    );
}

fn bill() -> Bill<f32> {
    Bill { id: 7, account_id: 42, favored_name: "Ana".to_string(), value: 12.5, created_date: date(2021, 6, 1) }
}

#[test]
fn bill_lookup_answers_with_bill() {
    let mut s = Session::<f32>::new();
    assert_eq!(s.step(Event::Received(UserAction::GetBillInfo(7))), vec![Command::FetchBill { id: 7 }]);
    assert_eq!(s.step(Event::BillFound(Some(bill()))), vec![Command::Send(Reply::Bill(Ok(bill())))]);
    assert_eq!(s, Session::new());
}

#[test]
fn bill_lookup_reports_missing_bill() {
    let mut s = logged_in("Ana", 1.0);
    s.step(Event::Received(UserAction::GetBillInfo(8)));
    assert_eq!(
        s.step(Event::BillFound(None)),
        vec![Command::Send(Reply::Bill(Err(Refusal::MissingBill)))]
    );
    assert_eq!(s, logged_in("Ana", 1.0));
}

#[test]
fn unserved_requests_change_nothing() {
    let requests = vec![
        UserAction::CloseServerConnection,
        UserAction::DeleteUser,
        UserAction::PayBill(3),
        UserAction::CreateBill(4.0),
        UserAction::GetStatment,
    ];
    for request in requests {
        let mut s = logged_in("Ana", 5.0);
        assert_eq!(s.step(Event::Received(request)), vec![]);
        assert_eq!(s, logged_in("Ana", 5.0));
    }
}

#[test]
fn unexpected_events_change_nothing() {
    let mut s = logged_in("Ana", 5.0);
    assert_eq!(s.step(Event::FundsChecked(Some(1.0))), vec![]);
    assert_eq!(s.step(Event::StoredHash("x".to_string())), vec![]);
    assert_eq!(s.step(Event::IdDrawn(9)), vec![]);
    assert_eq!(s, logged_in("Ana", 5.0));
    s.step(Event::Received(UserAction::GetBillInfo(1)));
    assert_eq!(s.step(transfer(1.0)), vec![]);
    assert_eq!(s.phase, Phase::AwaitBill);
}

#[test]
fn consistency_on_examples() {
    let mut s = logged_in("Ana", 5.0);
    s.step(transfer(1.0));
    assert!(matches!(s.phase, Phase::AwaitFunds { .. }));
    assert!(s.user.is_some());
    s.step(Event::FundsChecked(Some(4.0)));
    assert!(matches!(s.phase, Phase::AwaitDestination { .. }));
    assert!(s.user.is_some());
}

fn moves_money(c: &Command<f32>) -> bool {
    matches!(
        c,
        Command::CheckFunds { .. }
            | Command::CreditDestination { .. }
            | Command::InsertTransaction { .. }
            | Command::UpdateDestinationBalance { .. }
            | Command::UpdateOwnBalance { .. }
    )
}

#[test]
fn logged_out_session_moves_no_money() {
    let events = vec![
        transfer(5.0),
        Event::FundsChecked(Some(1.0)),
        Event::DestinationFound(Some("acc".to_string())),
        Event::DestinationCredited(9.0),
        Event::IdDrawn(3),
        Event::Received(UserAction::GetBasicInfo),
        Event::Received(UserAction::PayBill(1)),
    ];
    let mut s = Session::<f32>::new();
    for e in events {
        assert!(!s.step(e).iter().any(moves_money));
        assert_eq!(s.user, None);
    }
}

#[test]
fn logout_logs_out() {
    let mut s = logged_in("Ana", 5.0);
    assert_eq!(s.step(Event::Received(UserAction::Logout)), vec![]);
    assert_eq!(s, Session::new());
    assert_eq!(
        s.step(Event::Received(UserAction::GetBasicInfo)),
        vec![Command::Send(Reply::BasicInfo(None))]
    );
    assert_eq!(s.step(transfer(1.0)), vec![]);
}

#[test]
fn created_hash_has_default_cost() {
    let mut s = Session::<f32>::new();
    s.step(Event::Received(UserAction::CreateUser(new_user("pw"))));
    s.step(Event::IdDrawn(1));
    let commands = s.step(Event::IdDrawn(2));
    match &commands[1] {
        Command::InsertUser { password_hash, .. } => {
            assert_eq!(password_hash.len(), 60);
            assert!(password_hash.starts_with("$2b$12$"));
        }
        other => panic!("unexpected command {:?}", other),
    }
}
