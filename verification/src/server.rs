//! The server's side of one connection.
//!
//! A session answers the requests of one client. Each request is worked off in
//! database steps; between two steps the session waits in a `Phase`. The
//! program around the library runs the loop: it hands each outcome to
//! `Session::step` as an `Event`, and carries out the `Command`s that
//! come back, in order. Comparisons and sums of money amounts are commands too,
//! since the library never computes with amounts, and so is drawing a fresh
//! random identifier.

use vstd::prelude::*;
use chrono::NaiveDateTime;
use crate::model::{Account, Bill, NewUser, User, UserAction};
use crate::password::{default_cost_prefix, hash_password, password_verdict, verify_password};
use crate::reply::{Refusal, Reply};

verus! {

/// The agency of every account opened by the server.
pub const OPENING_AGENCY: u8 = 1;

/// The balance every account is opened with.
pub const OPENING_BALANCE: u32 = 100;

/// Where a session stands between two database steps.
#[derive(Debug, PartialEq)]
pub enum Phase<M> {
    /// Waiting for the next request.
    Ready,
    /// Opening an account for `new_user` waits for a fresh account id.
    AwaitAccountId { new_user: NewUser },
    /// Opening an account waits for a fresh user id.
    AwaitUserId { new_user: NewUser, account_id: u128 },
    /// A login waits for the password hash stored for `cpf`.
    AwaitStoredHash { cpf: String, password: String },
    /// A login whose password matched waits for the user's record.
    AwaitUser,
    /// A login waits for the account of `user`.
    AwaitAccount { user: User },
    /// A transfer of `value` to `dest_cpf` waits to learn whether the balance covers it.
    AwaitFunds { dest_cpf: String, value: M },
    /// A covered transfer waits for the destination's account; `remain` is the balance it leaves.
    AwaitDestination { value: M, remain: M },
    /// A transfer waits for the destination's balance with `value` added.
    AwaitCredit { dest_account: String, value: M, remain: M },
    /// A transfer whose destination now has `credited` waits for a fresh transaction id.
    AwaitTransactionId { dest_account: String, value: M, remain: M, credited: M },
    /// A bill lookup waits for the bill.
    AwaitBill,
}

/// What the program around the library reports to a session.
#[derive(Debug, PartialEq)]
pub enum Event<M> {
    /// A request arrived from the client.
    Received(UserAction<M>),
    /// A fresh random identifier (`Command::DrawId`).
    IdDrawn(u128),
    /// The password hash stored for the cpf of a login.
    StoredHash(String),
    /// The record of the user logging in.
    UserFound(User),
    /// The account of the user logging in.
    AccountFound(Account<M>),
    /// The balance minus the transferred value, where that is not negative; `None` otherwise.
    FundsChecked(Option<M>),
    /// The account id stored for the destination cpf, if there is such a user.
    DestinationFound(Option<String>),
    /// The destination's balance plus the transferred value.
    DestinationCredited(M),
    /// The bill asked for, if it exists.
    BillFound(Option<Bill<M>>),
}

/// What a session asks the program around it to do.
#[derive(Debug, PartialEq)]
#[allow(inconsistent_fields)]
pub enum Command<M> {
    /// Draw a fresh random identifier (`Event::IdDrawn`).
    DrawId,
    /// Fetch the password hash stored for `cpf`.
    FetchStoredHash { cpf: String },
    /// Fetch the user record stored for `cpf`.
    FetchUser { cpf: String },
    /// Fetch the account `account_id`.
    FetchAccount { account_id: u128 },
    /// Store a new account.
    InsertAccount { id: u128, agency: u8, balance: u32 },
    /// Store a new user.
    InsertUser {
        id: u128,
        account_id: u128,
        cpf: String,
        password_hash: String,
        email: String,
        name: String,
        address: String,
        phone: String,
        birthdate: NaiveDateTime,
    },
    /// Compute `balance - value` and report it if it is not negative (`Event::FundsChecked`).
    CheckFunds { balance: M, value: M },
    /// Fetch the account id stored for the user `cpf` (`Event::DestinationFound`).
    FetchDestination { cpf: String },
    /// Fetch the balance of `account_id` and report it with `value` added (`Event::DestinationCredited`).
    CreditDestination { account_id: String, value: M },
    /// Record a transaction.
    InsertTransaction { id: u128, account_src: u128, account_dist: String, value: M },
    /// Record that the transaction belongs to the account.
    LinkTransaction { account_id: u128, transaction_id: u128 },
    /// Store the destination's new balance.
    UpdateDestinationBalance { account_id: String, balance: M },
    /// Store the session's account's new balance.
    UpdateOwnBalance { account_id: u128, balance: M },
    /// Fetch the bill `id` (`Event::BillFound`).
    FetchBill { id: u128 },
    /// Send a reply to the client.
    Send(Reply<M>),
    /// Give up the connection: bcrypt failed where the server has no answer for it.
    Abort,
}

/// The state of one connection: who is logged in, and what the session waits for.
#[derive(Debug, PartialEq)]
pub struct Session<M> {
    pub user: Option<(User, Account<M>)>,
    pub phase: Phase<M>,
}

/// What a step draws that does not follow from the session and the event: the
/// hash of a new user's password, with a salt from the operating system (`None`
/// where hashing failed).
pub struct Drawn {
    pub password_hash: Option<String>,
}

/// The session as it was, with nothing to do.
pub open spec fn unchanged<M>(s: Session<M>) -> (Session<M>, Seq<Command<M>>) {
    (s, Seq::empty())
}

/// A session waiting for the next request, with the same user.
pub open spec fn ready<M>(user: Option<(User, Account<M>)>) -> Session<M> {
    Session { user, phase: Phase::Ready }
}

/// The commands that open an account for `n`.
pub open spec fn create_user_commands<M>(
    n: NewUser,
    account_id: u128,
    user_id: u128,
    password_hash: String,
) -> Seq<Command<M>> {
    seq![
        Command::InsertAccount { id: account_id, agency: OPENING_AGENCY, balance: OPENING_BALANCE },
        Command::InsertUser {
            id: user_id,
            account_id,
            cpf: n.cpf,
            password_hash,
            email: n.email,
            name: n.name,
            address: n.address,
            phone: n.phone,
            birthdate: n.birthdate,
        },
        Command::Send(Reply::Done(Ok(()))),
    ]
}

/// The logged-in user's name and balance.
pub open spec fn basic_info<M>(user: Option<(User, Account<M>)>) -> Option<(String, M)> {
    match user {
        Some((u, a)) => Some((u.name, a.balance)),
        None => None,
    }
}

/// A request received while ready.
pub open spec fn on_request<M>(
    user: Option<(User, Account<M>)>,
    action: UserAction<M>,
) -> (Session<M>, Seq<Command<M>>) {
    match action {
        UserAction::Login { cpf, password } => (
            Session { user, phase: Phase::AwaitStoredHash { cpf, password } },
            seq![Command::FetchStoredHash { cpf }],
        ),
        UserAction::CreateUser(n) => (
            Session { user, phase: Phase::AwaitAccountId { new_user: n } },
            seq![Command::DrawId],
        ),
        UserAction::TransferMoney { dest_cpf, value } => match user {
            Some((u, a)) => (
                Session { user, phase: Phase::AwaitFunds { dest_cpf, value } },
                seq![Command::CheckFunds { balance: a.balance, value }],
            ),
            None => unchanged(ready(user)),
        },
        UserAction::GetBillInfo(id) => (
            Session { user, phase: Phase::AwaitBill },
            seq![Command::FetchBill { id }],
        ),
        UserAction::GetBasicInfo => (
            ready(user),
            seq![Command::Send(Reply::BasicInfo(basic_info(user)))],
        ),
        UserAction::Logout => unchanged(ready(None)),
        _ => unchanged(ready(user)),
    }
}

/// The stored hash of a login arrived.
pub open spec fn on_stored_hash<M>(
    user: Option<(User, Account<M>)>,
    cpf: String,
    password: String,
    hash: String,
) -> (Session<M>, Seq<Command<M>>) {
    match password_verdict(password@, hash@) {
        Some(true) => (
            Session { user, phase: Phase::AwaitUser },
            seq![Command::FetchUser { cpf }],
        ),
        Some(false) => (
            ready(None),
            seq![Command::Send(Reply::Done(Err(Refusal::BadCredentials)))],
        ),
        None => (ready(user), seq![Command::Abort]),
    }
}

/// The last database step of a transfer came back.
pub open spec fn on_credited<M>(
    user: Option<(User, Account<M>)>,
    dest_account: String,
    value: M,
    remain: M,
    credited: M,
    transaction_id: u128,
) -> (Session<M>, Seq<Command<M>>) {
    match user {
        Some((u, a)) => (
            ready(Some((u, Account { balance: remain, ..a }))),
            seq![
                Command::InsertTransaction {
                    id: transaction_id,
                    account_src: a.id,
                    account_dist: dest_account,
                    value,
                },
                Command::LinkTransaction { account_id: a.id, transaction_id },
                Command::UpdateDestinationBalance { account_id: dest_account, balance: credited },
                Command::UpdateOwnBalance { account_id: a.id, balance: remain },
                Command::Send(Reply::Done(Ok(()))),
            ],
        ),
        None => unchanged(ready(None)),
    }
}

/// What a session does with an event: the session after it and the commands to
/// carry out. An event that the session does not wait for changes nothing.
pub open spec fn next<M>(s: Session<M>, e: Event<M>, d: Drawn) -> (
    Session<M>,
    Seq<Command<M>>,
) {
    match s.phase {
        Phase::Ready => match e {
            Event::Received(action) => on_request(s.user, action),
            _ => unchanged(s),
        },
        Phase::AwaitAccountId { new_user } => match e {
            Event::IdDrawn(account_id) => (
                Session { user: s.user, phase: Phase::AwaitUserId { new_user, account_id } },
                seq![Command::DrawId],
            ),
            _ => unchanged(s),
        },
        Phase::AwaitUserId { new_user, account_id } => match e {
            Event::IdDrawn(user_id) => match d.password_hash {
                Some(h) => (
                    ready(s.user),
                    create_user_commands(new_user, account_id, user_id, h),
                ),
                None => (ready(s.user), seq![Command::Abort]),
            },
            _ => unchanged(s),
        },
        Phase::AwaitStoredHash { cpf, password } => match e {
            Event::StoredHash(hash) => on_stored_hash(s.user, cpf, password, hash),
            _ => unchanged(s),
        },
        Phase::AwaitUser => match e {
            Event::UserFound(u) => (
                Session { user: s.user, phase: Phase::AwaitAccount { user: u } },
                seq![Command::FetchAccount { account_id: u.account_id }],
            ),
            _ => unchanged(s),
        },
        Phase::AwaitAccount { user } => match e {
            Event::AccountFound(a) => (
                ready(Some((user, a))),
                seq![Command::Send(Reply::Done(Ok(())))],
            ),
            _ => unchanged(s),
        },
        Phase::AwaitFunds { dest_cpf, value } => match e {
            Event::FundsChecked(Some(remain)) => (
                Session { user: s.user, phase: Phase::AwaitDestination { value, remain } },
                seq![Command::FetchDestination { cpf: dest_cpf }],
            ),
            Event::FundsChecked(None) => unchanged(ready(s.user)),
            _ => unchanged(s),
        },
        Phase::AwaitDestination { value, remain } => match e {
            Event::DestinationFound(Some(dest_account)) => (
                Session {
                    user: s.user,
                    phase: Phase::AwaitCredit { dest_account, value, remain },
                },
                seq![Command::CreditDestination { account_id: dest_account, value }],
            ),
            Event::DestinationFound(None) => (
                ready(s.user),
                seq![Command::Send(Reply::Done(Err(Refusal::UnknownDestination)))],
            ),
            _ => unchanged(s),
        },
        Phase::AwaitCredit { dest_account, value, remain } => match e {
            Event::DestinationCredited(credited) => (
                Session {
                    user: s.user,
                    phase: Phase::AwaitTransactionId { dest_account, value, remain, credited },
                },
                seq![Command::DrawId],
            ),
            _ => unchanged(s),
        },
        Phase::AwaitTransactionId { dest_account, value, remain, credited } => match e {
            Event::IdDrawn(transaction_id) => on_credited(
                s.user,
                dest_account,
                value,
                remain,
                credited,
                transaction_id,
            ),
            _ => unchanged(s),
        },
        Phase::AwaitBill => match e {
            Event::BillFound(Some(b)) => (ready(s.user), seq![Command::Send(Reply::Bill(Ok(b)))]),
            Event::BillFound(None) => (
                ready(s.user),
                seq![Command::Send(Reply::Bill(Err(Refusal::MissingBill)))],
            ),
            _ => unchanged(s),
        },
    }
}

/// What holds of the drawn values: a drawn password hash is a 60-character
/// bcrypt hash of cost 12 that bcrypt accepts for the new user's password.
pub open spec fn draw_fits<M>(s: Session<M>, e: Event<M>, d: Drawn) -> bool {
    match s.phase {
        Phase::AwaitUserId { new_user: n, account_id: _ } => match e {
            Event::IdDrawn(_) => match d.password_hash {
                Some(h) => {
                    &&& password_verdict(n.password@, h@) == Some(true)
                    &&& h@.len() == 60
                    &&& h@.take(7) == default_cost_prefix()
                },
                None => true,
            },
            _ => true,
        },
        _ => true,
    }
}

/// A transfer is under way: the session waits for one of its database steps.
pub open spec fn in_transfer<M>(phase: Phase<M>) -> bool {
    phase is AwaitFunds || phase is AwaitDestination || phase is AwaitCredit
        || phase is AwaitTransactionId
}

/// Only a logged-in session can be in the middle of a transfer.
pub open spec fn consistent<M>(s: Session<M>) -> bool {
    in_transfer(s.phase) ==> s.user is Some
}

/// Commands that take part in moving money between accounts.
pub open spec fn moves_money<M>(c: Command<M>) -> bool {
    ||| c is CheckFunds
    ||| c is CreditDestination
    ||| c is InsertTransaction
    ||| c is UpdateDestinationBalance
    ||| c is UpdateOwnBalance
}

/// A new session is consistent, and every step keeps a session consistent.
pub proof fn consistency_is_kept<M>(s: Session<M>, e: Event<M>, d: Drawn)
    ensures
        consistent(Session::<M> { user: None, phase: Phase::Ready }),
        consistent(s) ==> consistent(next(s, e, d).0),
{
}

/// A session with nobody logged in never asks for money to be moved, whatever it is told.
pub proof fn logged_out_moves_no_money<M>(s: Session<M>, e: Event<M>, d: Drawn)
    requires
        consistent(s),
        s.user is None,
    ensures
        forall|i: int| 0 <= i < next(s, e, d).1.len() ==> !moves_money(#[trigger] next(s, e, d).1[i]),
{
}

/// Requests that the server does not serve (closing the connection, deleting
/// the user, paying or creating a bill, the statement) change nothing and are
/// not answered.
pub proof fn unserved_requests_change_nothing<M>(s: Session<M>, action: UserAction<M>, d: Drawn)
    requires
        s.phase is Ready,
        action is CloseServerConnection || action is DeleteUser
            || action is PayBill || action is CreateBill || action is GetStatment,
    ensures
        next(s, Event::Received(action), d).0 == s,
        next(s, Event::Received(action), d).1 == Seq::<Command<M>>::empty(),
{
}

/// A logout ends the login: nobody is logged in afterwards, nothing is
/// answered, and basic information then reports nobody.
pub proof fn logout_logs_out<M>(s: Session<M>, d: Drawn)
    requires
        s.phase is Ready,
    ensures
        ({
            let (s1, c1) = next(s, Event::Received(UserAction::Logout), d);
            let (s2, c2) = next(s1, Event::Received(UserAction::GetBasicInfo), d);
            &&& s1 == ready::<M>(None)
            &&& c1 == Seq::<Command<M>>::empty()
            &&& c2 == seq![Command::Send(Reply::<M>::BasicInfo(None))]
        }),
{
}

/// Only a login logs a user in. A step that leaves someone logged in other than
/// who was logged in before is the end of a login, and takes the user record
/// the login waited for together with the account that came back; a login gets
/// to the user lookup only where the password matched the stored hash; and the
/// account lookup follows only the user lookup.
pub proof fn only_a_login_logs_in<M>(s: Session<M>, e: Event<M>, d: Drawn)
    ensures
        next(s, e, d).0.user is Some && !(s.user is Some && (s.user->0).0 == (next(s, e, d).0.user->0).0)
            ==> s.phase == (Phase::<M>::AwaitAccount { user: (next(s, e, d).0.user->0).0 })
            && e == Event::AccountFound((next(s, e, d).0.user->0).1),
        s.phase is AwaitStoredHash && e is StoredHash && next(s, e, d).0.phase is AwaitUser
            ==> password_verdict(s.phase->password@, e->StoredHash_0@) == Some(true),
        next(s, e, d).0.phase is AwaitUser ==> s.phase is AwaitStoredHash || s.phase is AwaitUser,
        next(s, e, d).0.phase is AwaitAccount ==> s.phase is AwaitUser || s.phase is AwaitAccount,
{
}

/// A login whose password matches the stored hash fetches the user and then the
/// user's account, logs the user in with both records, answers `Ok`; basic
/// information asked afterwards is the user's name and the account's balance.
pub proof fn matching_login_logs_in<M>(
    s: Session<M>,
    cpf: String,
    password: String,
    stored: String,
    u: User,
    a: Account<M>,
    d: Drawn,
)
    requires
        s.phase is Ready,
        password_verdict(password@, stored@) == Some(true),
    ensures
        ({
            let (s1, c1) = next(s, Event::Received(UserAction::Login { cpf, password }), d);
            let (s2, c2) = next(s1, Event::StoredHash(stored), d);
            let (s3, c3) = next(s2, Event::UserFound(u), d);
            let (s4, c4) = next(s3, Event::AccountFound(a), d);
            let (s5, c5) = next(s4, Event::Received(UserAction::GetBasicInfo), d);
            &&& c1 == seq![Command::<M>::FetchStoredHash { cpf }]
            &&& c2 == seq![Command::<M>::FetchUser { cpf }]
            &&& c3 == seq![Command::<M>::FetchAccount { account_id: u.account_id }]
            &&& c4 == seq![Command::Send(Reply::<M>::Done(Ok(())))]
            &&& s4 == ready(Some((u, a)))
            &&& c5 == seq![Command::Send(Reply::BasicInfo(Some((u.name, a.balance))))]
            &&& s5 == s4
        }),
{
}

/// A login whose password does not match logs whoever was logged in out and
/// answers that the CPF or password is not valid.
pub proof fn mismatching_login_logs_out<M>(
    s: Session<M>,
    cpf: String,
    password: String,
    stored: String,
    d: Drawn,
)
    requires
        s.phase is Ready,
        password_verdict(password@, stored@) == Some(false),
    ensures
        ({
            let (s1, c1) = next(s, Event::Received(UserAction::Login { cpf, password }), d);
            let (s2, c2) = next(s1, Event::StoredHash(stored), d);
            &&& s2 == ready::<M>(None)
            &&& c2 == seq![Command::Send(Reply::<M>::Done(Err(Refusal::BadCredentials)))]
        }),
{
}

/// The last step of opening an account, once the password is hashed, stores an
/// account with the drawn account id, agency 1 and balance 100; then a user with
/// the drawn user id, that account, the hash in place of the password, and every
/// other field exactly as the person gave it; then answers `Ok`. Who is logged
/// in does not change. Without a hash nothing is stored and the connection is
/// given up.
pub proof fn account_opens_with_agency_1_and_balance_100<M>(
    s: Session<M>,
    n: NewUser,
    account_id: u128,
    user_id: u128,
    d: Drawn,
)
    requires
        s.phase is Ready,
    ensures
        ({
            let (s1, c1) = next(s, Event::Received(UserAction::CreateUser(n)), d);
            let (s2, c2) = next(s1, Event::IdDrawn(account_id), d);
            let (s3, c3) = next(s2, Event::IdDrawn(user_id), d);
            &&& s3.user == s.user
            &&& s3.phase is Ready
            &&& match d.password_hash {
                Some(h) => c3 == seq![
                    Command::<M>::InsertAccount { id: account_id, agency: 1u8, balance: 100u32 },
                    Command::<M>::InsertUser {
                        id: user_id,
                        account_id: account_id,
                        cpf: n.cpf,
                        password_hash: h,
                        email: n.email,
                        name: n.name,
                        address: n.address,
                        phone: n.phone,
                        birthdate: n.birthdate,
                    },
                    Command::<M>::Send(Reply::Done(Ok(()))),
                ],
                None => c3 == seq![Command::<M>::Abort],
            }
        }),
{
}

/// Opening an account draws a fresh account id, then a fresh user id, then
/// stores the account with the opening agency and balance and the user with the
/// fields given and the hash of the password, and answers `Ok`. The stored hash
/// is a bcrypt hash of cost 12 and accepts the password the account was created
/// with: a later login with that password, finding that hash, goes on to fetch
/// the user.
pub proof fn opened_account_accepts_its_password<M>(
    s: Session<M>,
    n: NewUser,
    account_id: u128,
    user_id: u128,
    d: Drawn,
    h: String,
    r: Session<M>,
    cpf: String,
    password: String,
    stored: String,
    d2: Drawn,
)
    requires
        s.phase is Ready,
        d.password_hash == Some(h),
        ({
            let s1 = next(s, Event::Received(UserAction::CreateUser(n)), d).0;
            let s2 = next(s1, Event::IdDrawn(account_id), d).0;
            draw_fits(s2, Event::IdDrawn(user_id), d)
        }),
        r.phase is Ready,
        password@ == n.password@,
        stored@ == h@,
    ensures
        ({
            let (s1, c1) = next(s, Event::Received(UserAction::CreateUser(n)), d);
            let (s2, c2) = next(s1, Event::IdDrawn(account_id), d);
            let (s3, c3) = next(s2, Event::IdDrawn(user_id), d);
            &&& c1 == seq![Command::<M>::DrawId]
            &&& c2 == seq![Command::<M>::DrawId]
            &&& c3 == create_user_commands::<M>(n, account_id, user_id, h)
            &&& s3 == ready(s.user)
            &&& h@.len() == 60
            &&& h@.take(7) == default_cost_prefix()
        }),
        ({
            let (r1, c1) = next(r, Event::Received(UserAction::Login { cpf, password }), d2);
            let (r2, c2) = next(r1, Event::StoredHash(stored), d2);
            &&& r2.phase is AwaitUser
            &&& c2 == seq![Command::<M>::FetchUser { cpf }]
        }),
{
}

/// A transfer whose destination exists and whose balance covers the value
/// records the transaction under a freshly drawn id, stores both new balances,
/// answers `Ok`, and leaves the session's account with the remaining balance,
/// which basic information then reports.
pub proof fn covered_transfer_commits<M>(
    s: Session<M>,
    dest_cpf: String,
    value: M,
    remain: M,
    dest_account: String,
    credited: M,
    transaction_id: u128,
    d: Drawn,
)
    requires
        s.phase is Ready,
        s.user is Some,
    ensures
        ({
            let (u, a) = s.user->0;
            let (s1, c1) = next(s, Event::Received(UserAction::TransferMoney { dest_cpf, value }), d);
            let (s2, c2) = next(s1, Event::FundsChecked(Some(remain)), d);
            let (s3, c3) = next(s2, Event::DestinationFound(Some(dest_account)), d);
            let (s4, c4) = next(s3, Event::DestinationCredited(credited), d);
            let (s5, c5) = next(s4, Event::IdDrawn(transaction_id), d);
            let (s6, c6) = next(s5, Event::Received(UserAction::GetBasicInfo), d);
            &&& c1 == seq![Command::CheckFunds { balance: a.balance, value }]
            &&& c2 == seq![Command::<M>::FetchDestination { cpf: dest_cpf }]
            &&& c3 == seq![Command::CreditDestination { account_id: dest_account, value }]
            &&& c4 == seq![Command::<M>::DrawId]
            &&& c5 == seq![
                Command::InsertTransaction {
                    id: transaction_id,
                    account_src: a.id,
                    account_dist: dest_account,
                    value,
                },
                Command::LinkTransaction { account_id: a.id, transaction_id },
                Command::UpdateDestinationBalance { account_id: dest_account, balance: credited },
                Command::UpdateOwnBalance { account_id: a.id, balance: remain },
                Command::Send(Reply::Done(Ok(()))),
            ]
            &&& s5 == ready(Some((u, Account { balance: remain, ..a })))
            &&& c6 == seq![Command::Send(Reply::BasicInfo(Some((u.name, remain))))]
        }),
{
}

/// A transfer that the balance does not cover ends without a reply and without
/// touching any balance; one to a CPF with no user answers that the user was
/// not found. Either way the session keeps its user and balance.
pub proof fn refused_transfer_changes_no_balance<M>(
    s: Session<M>,
    dest_cpf: String,
    value: M,
    remain: M,
    d: Drawn,
)
    requires
        s.phase is Ready,
        s.user is Some,
    ensures
        ({
            let (s1, c1) = next(s, Event::Received(UserAction::TransferMoney { dest_cpf, value }), d);
            let (t2, e2) = next(s1, Event::FundsChecked(None), d);
            let (s2, c2) = next(s1, Event::FundsChecked(Some(remain)), d);
            let (s3, c3) = next(s2, Event::DestinationFound(None), d);
            &&& t2 == s
            &&& e2 == Seq::<Command<M>>::empty()
            &&& s3 == s
            &&& c3 == seq![Command::Send(Reply::<M>::Done(Err(Refusal::UnknownDestination)))]
        }),
{
}

/// A bill lookup answers with the bill, or says that it does not exist.
pub proof fn bill_lookup_answers<M>(s: Session<M>, id: u128, b: Bill<M>, d: Drawn)
    requires
        s.phase is Ready,
    ensures
        ({
            let (s1, c1) = next(s, Event::Received(UserAction::GetBillInfo(id)), d);
            let (s2, c2) = next(s1, Event::BillFound(Some(b)), d);
            let (t2, e2) = next(s1, Event::BillFound(None), d);
            &&& c1 == seq![Command::<M>::FetchBill { id }]
            &&& s2 == s && t2 == s
            &&& c2 == seq![Command::Send(Reply::Bill(Ok(b)))]
            &&& e2 == seq![Command::Send(Reply::<M>::Bill(Err(Refusal::MissingBill)))]
        }),
{
}

impl<M: Copy> Session<M> {
    /// A session on a new connection: nobody logged in, waiting for a request.
    pub fn new() -> (session: Self)
        ensures
            session.user is None,
            session.phase is Ready,
    {
        Session { user: None, phase: Phase::Ready }
    }

    /// Takes one event and returns the commands to carry out, in order.
    pub fn step(&mut self, event: Event<M>) -> (commands: Vec<Command<M>>)
        ensures
            exists|d: Drawn|
                #[trigger] draw_fits(*old(self), event, d) && next(*old(self), event, d).0
                    == *final(self) && next(*old(self), event, d).1 == commands@,
    {
        let ghost before = *self;
        let ghost mut d = Drawn { password_hash: None };
        let mut phase = Phase::Ready;
        std::mem::swap(&mut phase, &mut self.phase);
        let mut commands: Vec<Command<M>> = Vec::new();
        match phase {
            Phase::Ready => match event {
                Event::Received(action) => {
                    commands = self.request(action);
                },
                _ => {},
            },
            Phase::AwaitAccountId { new_user } => match event {
                Event::IdDrawn(account_id) => {
                    self.phase = Phase::AwaitUserId { new_user, account_id };
                    commands.push(Command::DrawId);
                },
                _ => {
                    self.phase = Phase::AwaitAccountId { new_user };
                },
            },
            Phase::AwaitUserId { new_user, account_id } => match event {
                Event::IdDrawn(user_id) => {
                    let hash = hash_password(new_user.password.as_str());
                    proof {
                        d = Drawn { password_hash: hash };
                    }
                    match hash {
                        Some(h) => {
                            commands.push(
                                Command::InsertAccount {
                                    id: account_id,
                                    agency: OPENING_AGENCY,
                                    balance: OPENING_BALANCE,
                                },
                            );
                            let NewUser { name, email, cpf, password: _, address, phone, birthdate } =
                                new_user;
                            commands.push(
                                Command::InsertUser {
                                    id: user_id,
                                    account_id,
                                    cpf,
                                    password_hash: h,
                                    email,
                                    name,
                                    address,
                                    phone,
                                    birthdate,
                                },
                            );
                            commands.push(Command::Send(Reply::Done(Ok(()))));
                        },
                        None => {
                            commands.push(Command::Abort);
                        },
                    }
                },
                _ => {
                    self.phase = Phase::AwaitUserId { new_user, account_id };
                },
            },
            Phase::AwaitStoredHash { cpf, password } => match event {
                Event::StoredHash(hash) => {
                    match verify_password(password.as_str(), hash.as_str()) {
                        Some(true) => {
                            self.phase = Phase::AwaitUser;
                            commands.push(Command::FetchUser { cpf });
                        },
                        Some(false) => {
                            self.user = None;
                            commands.push(Command::Send(Reply::Done(Err(Refusal::BadCredentials))));
                        },
                        None => {
                            commands.push(Command::Abort);
                        },
                    }
                },
                _ => {
                    self.phase = Phase::AwaitStoredHash { cpf, password };
                },
            },
            Phase::AwaitUser => match event {
                Event::UserFound(u) => {
                    let account_id = u.account_id;
                    self.phase = Phase::AwaitAccount { user: u };
                    commands.push(Command::FetchAccount { account_id });
                },
                _ => {
                    self.phase = Phase::AwaitUser;
                },
            },
            Phase::AwaitAccount { user } => match event {
                Event::AccountFound(a) => {
                    self.user = Some((user, a));
                    commands.push(Command::Send(Reply::Done(Ok(()))));
                },
                _ => {
                    self.phase = Phase::AwaitAccount { user };
                },
            },
            Phase::AwaitFunds { dest_cpf, value } => match event {
                Event::FundsChecked(Some(remain)) => {
                    self.phase = Phase::AwaitDestination { value, remain };
                    commands.push(Command::FetchDestination { cpf: dest_cpf });
                },
                Event::FundsChecked(None) => {},
                _ => {
                    self.phase = Phase::AwaitFunds { dest_cpf, value };
                },
            },
            Phase::AwaitDestination { value, remain } => match event {
                Event::DestinationFound(Some(dest_account)) => {
                    let account_id = dest_account.clone();
                    self.phase = Phase::AwaitCredit { dest_account, value, remain };
                    commands.push(Command::CreditDestination { account_id, value });
                },
                Event::DestinationFound(None) => {
                    commands.push(Command::Send(Reply::Done(Err(Refusal::UnknownDestination))));
                },
                _ => {
                    self.phase = Phase::AwaitDestination { value, remain };
                },
            },
            Phase::AwaitCredit { dest_account, value, remain } => match event {
                Event::DestinationCredited(credited) => {
                    self.phase = Phase::AwaitTransactionId { dest_account, value, remain, credited };
                    commands.push(Command::DrawId);
                },
                _ => {
                    self.phase = Phase::AwaitCredit { dest_account, value, remain };
                },
            },
            Phase::AwaitTransactionId { dest_account, value, remain, credited } => match event {
                Event::IdDrawn(transaction_id) => {
                    commands = self.commit_transfer(dest_account, value, remain, credited, transaction_id);
                },
                _ => {
                    self.phase = Phase::AwaitTransactionId { dest_account, value, remain, credited };
                },
            },
            Phase::AwaitBill => match event {
                Event::BillFound(Some(b)) => {
                    commands.push(Command::Send(Reply::Bill(Ok(b))));
                },
                Event::BillFound(None) => {
                    commands.push(Command::Send(Reply::Bill(Err(Refusal::MissingBill))));
                },
                _ => {
                    self.phase = Phase::AwaitBill;
                },
            },
        }
        assert(draw_fits(before, event, d));
        assert(next(before, event, d).1 =~= commands@);
        commands
    }

    /// A request received while ready.
    fn request(&mut self, action: UserAction<M>) -> (commands: Vec<Command<M>>)
        requires
            old(self).phase is Ready,
        ensures
            on_request(old(self).user, action).0 == *final(self),
            on_request(old(self).user, action).1 == commands@,
    {
        let mut commands: Vec<Command<M>> = Vec::new();
        match action {
            UserAction::Login { cpf, password } => {
                let fetch = cpf.clone();
                self.phase = Phase::AwaitStoredHash { cpf, password };
                commands.push(Command::FetchStoredHash { cpf: fetch });
            },
            UserAction::CreateUser(n) => {
                self.phase = Phase::AwaitAccountId { new_user: n };
                commands.push(Command::DrawId);
            },
            UserAction::TransferMoney { dest_cpf, value } => {
                match &self.user {
                    Some((_, a)) => {
                        let balance = a.balance;
                        self.phase = Phase::AwaitFunds { dest_cpf, value };
                        commands.push(Command::CheckFunds { balance, value });
                    },
                    None => {},
                }
            },
            UserAction::GetBillInfo(id) => {
                self.phase = Phase::AwaitBill;
                commands.push(Command::FetchBill { id });
            },
            UserAction::GetBasicInfo => {
                let info = match &self.user {
                    Some((u, a)) => Some((u.name.clone(), a.balance)),
                    None => None,
                };
                commands.push(Command::Send(Reply::BasicInfo(info)));
            },
            UserAction::Logout => {
                self.user = None;
            },
            _ => {},
        }
        assert(on_request(old(self).user, action).1 =~= commands@);
        commands
    }

    /// Ends a transfer whose destination has been credited.
    fn commit_transfer(
        &mut self,
        dest_account: String,
        value: M,
        remain: M,
        credited: M,
        transaction_id: u128,
    ) -> (commands: Vec<Command<M>>)
        requires
            old(self).phase is Ready,
        ensures
            on_credited(old(self).user, dest_account, value, remain, credited, transaction_id).0
                == *final(self),
            on_credited(old(self).user, dest_account, value, remain, credited, transaction_id).1
                == commands@,
    {
        let mut commands: Vec<Command<M>> = Vec::new();
        let mut user = None;
        std::mem::swap(&mut user, &mut self.user);
        match user {
            Some((u, a)) => {
                let own = a.id;
                let Account { id, agency, balance: _, created_date } = a;
                self.user = Some((u, Account { id, agency, balance: remain, created_date }));
                commands.push(
                    Command::InsertTransaction {
                        id: transaction_id,
                        account_src: own,
                        account_dist: dest_account.clone(),
                        value,
                    },
                );
                commands.push(Command::LinkTransaction { account_id: own, transaction_id });
                commands.push(
                    Command::UpdateDestinationBalance { account_id: dest_account, balance: credited },
                );
                commands.push(Command::UpdateOwnBalance { account_id: own, balance: remain });
                commands.push(Command::Send(Reply::Done(Ok(()))));
            },
            None => {},
        }
        assert(on_credited(old(self).user, dest_account, value, remain, credited, transaction_id).1
            =~= commands@);
        commands
    }
}

} // verus!
