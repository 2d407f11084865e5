//! The panel of the administrators.

use vstd::prelude::*;

use crate::ids;
use crate::ids::{Oid, parse_oid};
use crate::lists;
use crate::patterns;
use crate::query;
use crate::reply::{Done, Lookup, Refusal, coded, error, failing, message};
use crate::text;

verus! {

/// How many characters a reason for a block keeps.
pub const BLOCK_REASON_MAX_LENGTH: usize = 500;

/// How long the name of a badge may be.
pub const BADGE_NAME_MAX_LENGTH: usize = 64;

/// How long the description of a badge may be.
pub const BADGE_DESCRIPTION_MAX_LENGTH: usize = 500;

/// How long the reason of a warning may be.
pub const WARNING_REASON_MAX_LENGTH: usize = 1000;

/// Request to approve a user or to take the approval back.
pub struct SetWhitelistBody {
    pub approved: Option<bool>,
}

/// Request to give a user a new password.
pub struct SetUserPasswordBody {
    pub new_password: Option<String>,
}

/// Request to ban a user.
pub struct BlockUserBody {
    pub reason: Option<String>,
}

/// Request to settle a report.
pub struct UpdateReportBody {
    pub status: Option<String>,
}

/// Request to make a badge.
pub struct CreateBadgeBody {
    pub name: Option<String>,
    pub icon: Option<String>,
    pub color: Option<String>,
    pub description: Option<String>,
}

/// Request to change a badge.
pub struct UpdateBadgeBody {
    pub name: Option<String>,
    pub icon: Option<String>,
    pub color: Option<String>,
    pub description: Option<String>,
}

/// Request to give a user a badge.
pub struct AssignBadgeBody {
    pub badge_id: Option<String>,
}

/// Request to warn a user.
pub struct WarnUserBody {
    pub reason: Option<String>,
    pub severity: Option<String>,
}

/// How a report stands.
#[derive(Clone, Copy, Debug, PartialEq, Eq, Structural)]
pub enum ReportStatus {
    Pending,
    Reviewed,
    Dismissed,
}

/// The name of a status.
pub open spec fn report_status_name(status: ReportStatus) -> Seq<char> {
    match status {
        ReportStatus::Pending => "pending"@,
        ReportStatus::Reviewed => "reviewed"@,
        ReportStatus::Dismissed => "dismissed"@,
    }
}

/// Names a status.
pub fn report_status_str(status: ReportStatus) -> (r: &'static str)
    ensures
        r@ == report_status_name(status),
{
    match status {
        ReportStatus::Pending => "pending",
        ReportStatus::Reviewed => "reviewed",
        ReportStatus::Dismissed => "dismissed",
    }
}

/// A count as the database gives it.
#[derive(Clone, Copy, Debug, PartialEq, Eq)]
pub enum CountValue {
    Int32(i32),
    Int64(i64),
    Other,
}

/// How many warnings a user has, as the database counted them; the user is missing where the
/// row names none.
#[derive(Clone, Copy, Debug, PartialEq, Eq)]
pub struct CountRow {
    pub user: Option<Oid>,
    pub count: CountValue,
}

/// The number that a count gives.
pub open spec fn count_number(c: CountValue) -> u64 {
    match c {
        CountValue::Int32(n) => n as u64,
        CountValue::Int64(n) => n as u64,
        CountValue::Other => 0,
    }
}

/// The count of `user`: that of the last row for them, 0 where there is none.
pub open spec fn count_of(rows: Seq<CountRow>, user: Option<Oid>) -> u64
    decreases rows.len(),
{
    if user is None || rows.len() == 0 {
        0
    } else if rows.last().user == user {
        count_number(rows.last().count)
    } else {
        count_of(rows.drop_last(), user)
    }
}

/// Finds how many warnings a user has.
pub fn warning_count(rows: &Vec<CountRow>, user: Option<Oid>) -> (r: u64)
    ensures
        r == count_of(rows@, user),
{
    let id = match user {
        None => return 0,
        Some(id) => id,
    };
    let mut n: usize = rows.len();
    assert(rows@.take(n as int) =~= rows@);
    while n > 0
        invariant
            n <= rows.len(),
            user == Some(id),
            count_of(rows@, user) == count_of(rows@.take(n as int), user),
        decreases n,
    {
        assert(rows@.take(n as int).last() == rows@[n - 1]);
        assert(rows@.take(n as int).drop_last() =~= rows@.take(n - 1));
        let row = rows[n - 1];
        if let Some(u) = row.user {
            if u == id {
                return match row.count {
                    CountValue::Int32(c) => #[verifier::truncate] (c as u64),
                    CountValue::Int64(c) => #[verifier::truncate] (c as u64),
                    CountValue::Other => 0,
                };
            }
        }
        n -= 1;
    }
    0
}

/// How many users wait for approval: none where approval is off or they could not be counted.
pub fn pending_whitelist_count(enabled: bool, counted: Option<u64>) -> (r: u64)
    ensures
        r == (if enabled && counted is Some {
            counted->0
        } else {
            0
        }),
{
    if !enabled {
        return 0;
    }
    match counted {
        Some(n) => n,
        None => 0,
    }
}

/// What is shown of the session of an administrator.
#[derive(Clone, Copy, Debug, PartialEq, Eq)]
pub enum SessionStep {
    ResolveAdmin,
    ReplyGuest,
    ReplyAdmin,
}

/// Decides the next step of showing the session; `admin` is whether the request is one of an
/// administrator, once that is known.
pub fn admin_session_status(configured: bool, admin: Option<bool>) -> (r: SessionStep)
    ensures
        r == (if !configured || admin == Some(false) {
            SessionStep::ReplyGuest
        } else if admin is None {
            SessionStep::ResolveAdmin
        } else {
            SessionStep::ReplyAdmin
        }),
        r is ReplyAdmin <==> configured && admin is Some && admin->0,
        r is ReplyGuest <==> !configured || (admin is Some && !admin->0),
{
    if !configured {
        return SessionStep::ReplyGuest;
    }
    match admin {
        None => SessionStep::ResolveAdmin,
        Some(false) => SessionStep::ReplyGuest,
        Some(true) => SessionStep::ReplyAdmin,
    }
}

/// A warning counts as unacknowledged exactly where it has no mark.
pub proof fn law_warnings_without_a_mark_count(
    marks: Seq<bool>,
    more: bool,
)
    ensures
        unset(marks.push(more)) == unset(marks) + if more {
            0nat
        } else {
            1nat
        },
        unset(Seq::empty()) == 0,
{
    assert(marks.push(more).drop_last() =~= marks);
}

/// The reply to an administrator who leaves the panel.
#[verifier::allow_in_spec]
pub fn admin_logout() -> &'static str
    returns
        "Zamknięto panel administratora.",
{
    "Zamknięto panel administratora."
}

/// Which page of a list is wanted.
#[derive(Clone, Copy, Debug, PartialEq, Eq)]
pub struct PageQuery {
    pub page: u64,
    pub limit: u64,
}

/// The page that a query asks for: the first where it names none, of 1 to 100 rows.
pub open spec fn page_query(q: Option<&str>) -> PageQuery {
    let page = query::number_of(q, "page"@, 1);
    let limit = query::number_of(q, "limit"@, 50);
    PageQuery {
        page: if page < 1 {
            1
        } else {
            page
        },
        limit: if limit < 1 {
            1
        } else if limit > 100 {
            100
        } else {
            limit
        },
    }
}

/// Reads which page a query asks for.
pub fn read_page(q: Option<&str>) -> (r: PageQuery)
    ensures
        r == page_query(q),
{
    let page = query::query_u64(q, "page", 1);
    let limit = query::query_u64(q, "limit", 50);
    PageQuery {
        page: if page < 1 {
            1
        } else {
            page
        },
        limit: if limit < 1 {
            1
        } else if limit > 100 {
            100
        } else {
            limit
        },
    }
}

/// A page has a number from 1 on and holds 1 to 100 rows.
pub proof fn law_pages_are_bounded(q: Option<&str>)
    ensures
        page_query(q).page >= 1,
        1 <= page_query(q).limit <= 100,
{
}

/// How many rows come before a page.
pub fn rows_before(p: PageQuery) -> (r: u64)
    requires
        p.page >= 1,
        (p.page - 1) * p.limit <= u64::MAX,
    ensures
        r == (p.page - 1) * p.limit,
{
    (p.page - 1) * p.limit
}

/// The rows of two pages do not overlap: a later page begins where an earlier one has ended.
pub proof fn law_pages_follow_each_other(a: PageQuery, b: PageQuery)
    requires
        1 <= a.page < b.page,
        a.limit == b.limit,
    ensures
        (a.page - 1) * a.limit + a.limit <= (b.page - 1) * b.limit,
{
    assert((a.page - 1) * a.limit + a.limit <= (b.page - 1) * a.limit) by (nonlinear_arith)
        requires
            1 <= a.page < b.page,
    ;
}

/// Which users are wanted.
pub struct UserQuery {
    pub page: PageQuery,
    /// The expression that a name must match.
    pub pattern: Option<String>,
    /// Whether they must be approved or must not be.
    pub whitelisted: Option<bool>,
}

/// What is searched for: `search` in lower case, without spaces around it and signs before it.
pub open spec fn user_search(q: Option<&str>) -> Seq<char> {
    text::lowercase_of(text::trim_start_of(text::trimmed(query::text_of(q, "search"@)), '@'))
}

/// Whether users must be approved.
pub open spec fn approval_filter(q: Option<&str>) -> Option<bool> {
    let word = text::lowercase_of(text::trimmed(query::text_of(q, "whitelist"@)));
    if word == "pending"@ {
        Some(false)
    } else if word == "approved"@ {
        Some(true)
    } else {
        None
    }
}

/// The expression for what is searched for; none where nothing is.
pub open spec fn search_pattern(search: Seq<char>) -> Option<Seq<char>> {
    if search.len() == 0 {
        None
    } else {
        Some(patterns::escaped(search))
    }
}

fn pattern_for(search: &str) -> (r: Option<String>)
    ensures
        text::opt(r) == search_pattern(search@),
{
    if search.is_empty() {
        None
    } else {
        Some(patterns::escape(search))
    }
}

/// Reads which users a query asks for.
pub fn list_users(q: Option<&str>) -> (r: UserQuery)
    ensures
        r.page == page_query(q),
        text::opt(r.pattern) == search_pattern(user_search(q)),
        r.whitelisted == approval_filter(q),
{
    let page = read_page(q);
    let trimmed = text::trim(query::query_str(q, "search").as_str());
    let search = text::lowercase(text::trim_start_char(trimmed.as_str(), '@').as_str());
    let word = text::lowercase(text::trim(query::query_str(q, "whitelist").as_str()).as_str());
    let whitelisted = if text::same_text(word.as_str(), "pending") {
        Some(false)
    } else if text::same_text(word.as_str(), "approved") {
        Some(true)
    } else {
        None
    };
    UserQuery { page, pattern: pattern_for(search.as_str()), whitelisted }
}

/// Which channels are wanted.
pub struct ChannelQuery {
    pub page: PageQuery,
    /// The expression that the name must match.
    pub pattern: Option<String>,
}

/// Reads which channels a query asks for.
pub fn list_channels(q: Option<&str>) -> (r: ChannelQuery)
    ensures
        r.page == page_query(q),
        text::opt(r.pattern) == search_pattern(text::trimmed(query::text_of(q, "search"@))),
{
    let page = read_page(q);
    let search = text::trim(query::query_str(q, "search").as_str());
    ChannelQuery { page, pattern: pattern_for(search.as_str()) }
}

/// What to do next while a list is shown.
#[derive(Clone, Copy, Debug, PartialEq, Eq)]
pub enum ListStep {
    Load,
    Reply,
    Refuse(Refusal),
}

/// Which list is shown.
#[derive(Clone, Copy, Debug, PartialEq, Eq)]
pub enum Listed {
    Users,
    Channels,
    Reports,
    Badges,
}

pub open spec fn list_step(what: Listed, loaded: Option<Done>) -> ListStep {
    match loaded {
        None => ListStep::Load,
        Some(Done::Worked) => ListStep::Reply,
        Some(Done::Failed) => ListStep::Refuse(
            match what {
                Listed::Users => error(500, "Nie udało się pobrać listy użytkowników."),
                Listed::Channels => error(500, "Nie udało się pobrać listy kanałów."),
                Listed::Reports => message(500, "Internal Server Error"),
                Listed::Badges => failing(message(500, "Failed to fetch badges")),
            },
        ),
    }
}

/// Decides the next step of showing a list.
pub fn show_list(what: Listed, loaded: Option<Done>) -> (r: ListStep)
    ensures
        r == list_step(what, loaded),
{
    match loaded {
        None => ListStep::Load,
        Some(Done::Worked) => ListStep::Reply,
        Some(Done::Failed) => ListStep::Refuse(
            match what {
                Listed::Users => error(500, "Nie udało się pobrać listy użytkowników."),
                Listed::Channels => error(500, "Nie udało się pobrać listy kanałów."),
                Listed::Reports => message(500, "Internal Server Error"),
                Listed::Badges => failing(message(500, "Failed to fetch badges")),
            },
        ),
    }
}

/// Users are filtered by approval only where the query asks for that, whatever the case of its letters, and
/// searched for only where it gives a text.
pub proof fn law_users_are_listed_as_asked(
    q: Option<&str>,
    search: Seq<char>,
)
    ensures
        ({
            let word = text::lowercase_of(text::trimmed(query::text_of(q, "whitelist"@)));
            &&& approval_filter(q) == Some(true) ==> word == "approved"@
            &&& approval_filter(q) == Some(false) ==> word == "pending"@
            &&& approval_filter(q) is None ==> word != "approved"@ && word != "pending"@
        }),
        search_pattern(search) is None <==> search.len() == 0,
        search_pattern(search) is Some ==> search_pattern(search)->0 == patterns::escaped(search),
{
}

/// A list is loaded once and shown; only a failure keeps it from being shown.
pub proof fn law_lists_are_shown(
    what: Listed,
    loaded: Option<Done>,
    user: Seq<char>,
    found: Option<Lookup<()>>,
)
    ensures
        list_step(what, loaded) is Load <==> loaded is None,
        list_step(what, loaded) is Reply <==> loaded == Some(Done::Worked),
        list_step(what, loaded) matches ListStep::Refuse(r) ==> r.status == 500,
        ids::oid_of(user) is Some && found is None ==> user_badges_step(user, found)
            == AssignStepView::FindUser(ids::oid_of(user)->0),
        user_badges_step(user, found) is Reply <==> ids::oid_of(user) is Some && found is Some
            && found->0 is Found,
{
}

/// Decides the next step of showing all badges.
pub fn list_badges(loaded: Option<Done>) -> (r: ListStep)
    ensures
        r == list_step(Listed::Badges, loaded),
{
    show_list(Listed::Badges, loaded)
}

/// How many of the reports wait.
pub open spec fn pending_reports(statuses: Seq<ReportStatus>) -> nat
    decreases statuses.len(),
{
    if statuses.len() == 0 {
        0
    } else {
        pending_reports(statuses.drop_last()) + if statuses.last() is Pending {
            1nat
        } else {
            0
        }
    }
}

/// What is shown of the reports: the number of those that wait.
pub fn list_channel_reports(statuses: &Vec<ReportStatus>) -> (r: u64)
    ensures
        r == pending_reports(statuses@),
{
    let mut n: u64 = 0;
    let mut i: usize = 0;
    assert(statuses@.take(0) =~= Seq::empty());
    while i < statuses.len()
        invariant
            i <= statuses.len(),
            n == pending_reports(statuses@.take(i as int)),
            n <= i,
        decreases statuses.len() - i,
    {
        assert(statuses@.take(i + 1).drop_last() =~= statuses@.take(i as int));
        if statuses[i] == ReportStatus::Pending {
            n += 1;
        }
        i += 1;
    }
    assert(statuses@.take(i as int) =~= statuses@);
    n
}

/// Each pending report counts once, and no other does; each mark that is not set counts once; the last
/// count of a user is the one that counts.
pub proof fn law_counts_count_each_once(
    statuses: Seq<ReportStatus>,
    status: ReportStatus,
    marks: Seq<bool>,
    mark: bool,
    rows: Seq<CountRow>,
    row: CountRow,
    user: Oid,
)
    ensures
        status is Pending ==> pending_reports(statuses.push(status)) == pending_reports(statuses) + 1,
        status !is Pending ==> pending_reports(statuses.push(status)) == pending_reports(statuses),
        pending_reports(Seq::empty()) == 0,
        mark ==> unset(marks.push(mark)) == unset(marks),
        !mark ==> unset(marks.push(mark)) == unset(marks) + 1,
        unset(Seq::empty()) == 0,
        row.user == Some(user) ==> count_of(rows.push(row), Some(user)) == count_number(row.count),
        row.user != Some(user) ==> count_of(rows.push(row), Some(user)) == count_of(rows, Some(user)),
        count_of(Seq::empty(), Some(user)) == 0,
        count_of(rows, None) == 0,
{
    assert(statuses.push(status).drop_last() =~= statuses);
    assert(marks.push(mark).drop_last() =~= marks);
    assert(rows.push(row).drop_last() =~= rows);
}

/// What the rules read of the account of a user.
#[derive(Clone, Copy, Debug, PartialEq, Eq)]
pub struct Managed {
    pub is_bot: bool,
    pub is_disabled: bool,
}

/// Whether a password is known from a leak.
#[derive(Clone, Copy, Debug, PartialEq, Eq)]
pub enum Breach {
    Safe,
    Breached,
    Unavailable,
}

/// What is known while an administrator acts on a user.
#[derive(Clone, Copy, Debug)]
pub struct UserFacts {
    pub user: Option<Lookup<Managed>>,
    pub breach: Option<Breach>,
    /// The change was stored; `Missing` where the user was gone.
    pub stored: Option<Lookup<()>>,
    /// The sessions of the user were ended.
    pub ended: bool,
    /// The user was told.
    pub told: bool,
    /// The action was written to the log of the administrators.
    pub logged: bool,
}

/// What to do next while an administrator acts on a user.
#[derive(Clone, Copy, Debug, PartialEq, Eq)]
pub enum UserStep {
    FindUser(Oid),
    StoreApproval { user: Oid, approved: bool },
    /// Tell the user of the approval.
    TellApproved(Oid),
    StoreUnban(Oid),
    StoreRestored(Oid),
    /// Delete the user and all that is theirs.
    Purge(Oid),
    /// Make all tokens of the user void, and close their connections.
    EndSessions(Oid),
    Log { action: &'static str, user: Oid },
    Reply(&'static str),
    Refuse(Refusal),
}

/// The reply where there is no such user.
#[verifier::allow_in_spec]
pub fn no_user() -> Refusal
    returns
        error(404, "Użytkownik nie istnieje."),
{
    error(404, "Użytkownik nie istnieje.")
}

pub open spec fn whitelist_step(
    enabled: bool,
    user: Seq<char>,
    body: SetWhitelistBody,
    f: UserFacts,
) -> UserStep {
    let approved = body.approved == Some(true);
    if !enabled {
        UserStep::Refuse(error(400, "Whitelista nie jest włączona na tym serwerze."))
    } else if ids::oid_of(user) is None {
        UserStep::Refuse(no_user())
    } else if f.user is None {
        UserStep::FindUser(ids::oid_of(user)->0)
    } else if f.user->0 !is Found {
        UserStep::Refuse(no_user())
    } else if f.stored is None {
        UserStep::StoreApproval { user: ids::oid_of(user)->0, approved }
    } else if f.stored->0 is Missing {
        UserStep::Refuse(no_user())
    } else if f.stored->0 is Failed {
        UserStep::Refuse(error(500, "Nie udało się zaktualizować whitelisty."))
    } else if approved && !f.told {
        UserStep::TellApproved(ids::oid_of(user)->0)
    } else if !approved && !f.ended {
        UserStep::EndSessions(ids::oid_of(user)->0)
    } else if !f.logged {
        UserStep::Log {
            action: if approved {
                "whitelist.approve"
            } else {
                "whitelist.revoke"
            },
            user: ids::oid_of(user)->0,
        }
    } else {
        UserStep::Reply(
            if approved {
                "Użytkownik został zatwierdzony na whitelistę."
            } else {
                "Użytkownik został usunięty z whitelisty."
            },
        )
    }
}

/// Decides the next step of approving a user or taking the approval back.
pub fn set_user_whitelist(enabled: bool, user: &str, body: &SetWhitelistBody, f: &UserFacts) -> (r:
    UserStep)
    ensures
        r == whitelist_step(enabled, user@, *body, *f),
{
    if !enabled {
        return UserStep::Refuse(error(400, "Whitelista nie jest włączona na tym serwerze."));
    }
    let approved = match body.approved {
        Some(a) => a,
        None => false,
    };
    let id = match parse_oid(user) {
        None => return UserStep::Refuse(no_user()),
        Some(id) => id,
    };
    match f.user {
        None => return UserStep::FindUser(id),
        Some(Lookup::Found(_)) => {},
        Some(_) => return UserStep::Refuse(no_user()),
    }
    match f.stored {
        None => return UserStep::StoreApproval { user: id, approved },
        Some(Lookup::Missing) => return UserStep::Refuse(no_user()),
        Some(Lookup::Failed) => return UserStep::Refuse(
            error(500, "Nie udało się zaktualizować whitelisty."),
        ),
        Some(Lookup::Found(_)) => {},
    }
    if approved && !f.told {
        return UserStep::TellApproved(id);
    }
    if !approved && !f.ended {
        return UserStep::EndSessions(id);
    }
    if !f.logged {
        return UserStep::Log {
            action: if approved {
                "whitelist.approve"
            } else {
                "whitelist.revoke"
            },
            user: id,
        };
    }
    UserStep::Reply(
        if approved {
            "Użytkownik został zatwierdzony na whitelistę."
        } else {
            "Użytkownik został usunięty z whitelisty."
        },
    )
}

/// The password that a request gives, without spaces around it.
pub open spec fn wanted_password(body: SetUserPasswordBody) -> Seq<char> {
    text::trimmed(text::or_empty(body.new_password))
}

/// Reads the password that a request gives.
pub fn new_password(body: &SetUserPasswordBody) -> (r: String)
    ensures
        r@ == wanted_password(*body),
{
    text::trim(text::text_or_empty(&body.new_password).as_str())
}

/// What to do next while a user is given a new password.
#[derive(Debug, PartialEq, Eq)]
pub enum PasswordStep {
    FindUser(Oid),
    /// Ask whether the password is known from a breach.
    CheckBreach(String),
    /// Store the password in hashed form.
    StorePassword { user: Oid, password: String },
    /// Make all tokens of the user void, and close their connections.
    EndSessions(Oid),
    Log { action: &'static str, user: Oid },
    Reply(&'static str),
    Refuse(Refusal),
}

/// The view of `PasswordStep`.
#[verifier::ext_equal]
pub enum PasswordStepView {
    FindUser(Oid),
    CheckBreach(Seq<char>),
    StorePassword { user: Oid, password: Seq<char> },
    EndSessions(Oid),
    Log { action: &'static str, user: Oid },
    Reply(&'static str),
    Refuse(Refusal),
}

impl View for PasswordStep {
    type V = PasswordStepView;

    open spec fn view(&self) -> PasswordStepView {
        match self {
            PasswordStep::FindUser(a) => PasswordStepView::FindUser(*a),
            PasswordStep::CheckBreach(a) => PasswordStepView::CheckBreach(a@),
            PasswordStep::StorePassword { user, password } => PasswordStepView::StorePassword {
                user: *user,
                password: password@,
            },
            PasswordStep::EndSessions(a) => PasswordStepView::EndSessions(*a),
            PasswordStep::Log { action, user } => PasswordStepView::Log {
                action: *action,
                user: *user,
            },
            PasswordStep::Reply(a) => PasswordStepView::Reply(*a),
            PasswordStep::Refuse(a) => PasswordStepView::Refuse(*a),
        }
    }
}

pub open spec fn password_step(user: Seq<char>, body: SetUserPasswordBody, f: UserFacts) -> PasswordStepView {
    if ids::oid_of(user) is None {
        PasswordStepView::Refuse(no_user())
    } else if wanted_password(body).len() == 0 {
        PasswordStepView::Refuse(error(400, "Nowe hasło jest wymagane."))
    } else if f.user is None {
        PasswordStepView::FindUser(ids::oid_of(user)->0)
    } else if f.user->0 !is Found {
        PasswordStepView::Refuse(no_user())
    } else if f.user->0->0.is_bot {
        PasswordStepView::Refuse(error(400, "Nie można zmienić hasła konta bota."))
    } else if f.breach is None {
        PasswordStepView::CheckBreach(wanted_password(body))
    } else if f.breach->0 is Breached {
        PasswordStepView::Refuse(
            coded(
                error(
                    400,
                    "To hasło pojawiło się w wycieku danych. Wybierz inne, bezpieczniejsze hasło.",
                ),
                "PASSWORD_BREACHED",
            ),
        )
    } else if f.breach->0 is Unavailable {
        PasswordStepView::Refuse(
            error(503, "Nie można teraz zweryfikować hasła. Spróbuj ponownie za chwilę."),
        )
    } else if f.stored is None {
        PasswordStepView::StorePassword {
            user: ids::oid_of(user)->0,
            password: wanted_password(body),
        }
    } else if f.stored->0 is Failed {
        PasswordStepView::Refuse(error(500, "Nie udało się zmienić hasła."))
    } else if !f.ended {
        PasswordStepView::EndSessions(ids::oid_of(user)->0)
    } else if !f.logged {
        PasswordStepView::Log { action: "user.password.reset", user: ids::oid_of(user)->0 }
    } else {
        PasswordStepView::Reply("Hasło zostało zresetowane. Użytkownik musi zalogować się ponownie.")
    }
}

/// Decides the next step of giving a user a new password. All sessions of the user end.
pub fn set_user_password(user: &str, body: &SetUserPasswordBody, f: &UserFacts) -> (r: PasswordStep)
    ensures
        r@ == password_step(user@, *body, *f),
{
    let id = match parse_oid(user) {
        None => return PasswordStep::Refuse(no_user()),
        Some(id) => id,
    };
    let password = new_password(body);
    if password.as_str().is_empty() {
        return PasswordStep::Refuse(error(400, "Nowe hasło jest wymagane."));
    }
    let found = match f.user {
        None => return PasswordStep::FindUser(id),
        Some(Lookup::Found(u)) => u,
        Some(_) => return PasswordStep::Refuse(no_user()),
    };
    if found.is_bot {
        return PasswordStep::Refuse(error(400, "Nie można zmienić hasła konta bota."));
    }
    match f.breach {
        None => return PasswordStep::CheckBreach(password),
        Some(Breach::Breached) => return PasswordStep::Refuse(
            coded(
                error(
                    400,
                    "To hasło pojawiło się w wycieku danych. Wybierz inne, bezpieczniejsze hasło.",
                ),
                "PASSWORD_BREACHED",
            ),
        ),
        Some(Breach::Unavailable) => return PasswordStep::Refuse(
            error(503, "Nie można teraz zweryfikować hasła. Spróbuj ponownie za chwilę."),
        ),
        Some(Breach::Safe) => {},
    }
    match f.stored {
        None => return PasswordStep::StorePassword { user: id, password },
        Some(Lookup::Failed) => return PasswordStep::Refuse(error(500, "Nie udało się zmienić hasła.")),
        Some(_) => {},
    }
    if !f.ended {
        PasswordStep::EndSessions(id)
    } else if !f.logged {
        PasswordStep::Log { action: "user.password.reset", user: id }
    } else {
        PasswordStep::Reply("Hasło zostało zresetowane. Użytkownik musi zalogować się ponownie.")
    }
}

/// The reason that is kept for a ban.
pub open spec fn kept_reason(body: BlockUserBody) -> Option<Seq<char>> {
    match body.reason {
        None => None,
        Some(r) => {
            let kept = text::prefix(text::trimmed(r@), BLOCK_REASON_MAX_LENGTH as int);
            if kept.len() == 0 {
                None
            } else {
                Some(kept)
            }
        },
    }
}

/// Reads the reason for a ban: up to 500 characters, none where nothing is left of it.
pub fn block_reason(body: &BlockUserBody) -> (r: Option<String>)
    ensures
        text::opt(r) == kept_reason(*body),
{
    match &body.reason {
        None => None,
        Some(reason) => {
            let kept = text::take_chars(
                text::trim(reason.as_str()).as_str(),
                BLOCK_REASON_MAX_LENGTH,
            );
            if kept.as_str().is_empty() {
                None
            } else {
                Some(kept)
            }
        },
    }
}

/// What to do next while a user is banned.
#[derive(Debug, PartialEq, Eq)]
pub enum BanStep {
    FindUser(Oid),
    /// Ban the user for the reason, and count the version of their tokens up.
    StoreBan { user: Oid, reason: Option<String> },
    /// Revoke the refresh tokens of the user, and close their connections.
    RevokeSessions(Oid),
    Log { action: &'static str, user: Oid },
    Reply(&'static str),
    Refuse(Refusal),
}

/// The view of `BanStep`.
#[verifier::ext_equal]
pub enum BanStepView {
    FindUser(Oid),
    StoreBan { user: Oid, reason: Option<Seq<char>> },
    RevokeSessions(Oid),
    Log { action: &'static str, user: Oid },
    Reply(&'static str),
    Refuse(Refusal),
}

impl View for BanStep {
    type V = BanStepView;

    open spec fn view(&self) -> BanStepView {
        match self {
            BanStep::FindUser(a) => BanStepView::FindUser(*a),
            BanStep::StoreBan { user, reason } => BanStepView::StoreBan {
                user: *user,
                reason: text::opt(*reason),
            },
            BanStep::RevokeSessions(a) => BanStepView::RevokeSessions(*a),
            BanStep::Log { action, user } => BanStepView::Log { action: *action, user: *user },
            BanStep::Reply(a) => BanStepView::Reply(*a),
            BanStep::Refuse(a) => BanStepView::Refuse(*a),
        }
    }
}

pub open spec fn block_step(user: Seq<char>, body: BlockUserBody, f: UserFacts) -> BanStepView {
    if ids::oid_of(user) is None {
        BanStepView::Refuse(no_user())
    } else if f.user is None {
        BanStepView::FindUser(ids::oid_of(user)->0)
    } else if f.user->0 !is Found {
        BanStepView::Refuse(no_user())
    } else if f.stored is None {
        BanStepView::StoreBan { user: ids::oid_of(user)->0, reason: kept_reason(body) }
    } else if f.stored->0 is Failed {
        BanStepView::Refuse(error(500, "Nie udało się zbanować użytkownika."))
    } else if !f.ended {
        BanStepView::RevokeSessions(ids::oid_of(user)->0)
    } else if !f.logged {
        BanStepView::Log { action: "user.ban", user: ids::oid_of(user)->0 }
    } else {
        BanStepView::Reply("Użytkownik został zbanowany.")
    }
}

/// Decides the next step of banning a user.
pub fn block_user(user: &str, body: &BlockUserBody, f: &UserFacts) -> (r: BanStep)
    ensures
        r@ == block_step(user@, *body, *f),
{
    let id = match parse_oid(user) {
        None => return BanStep::Refuse(no_user()),
        Some(id) => id,
    };
    match f.user {
        None => return BanStep::FindUser(id),
        Some(Lookup::Found(_)) => {},
        Some(_) => return BanStep::Refuse(no_user()),
    }
    match f.stored {
        None => return BanStep::StoreBan { user: id, reason: block_reason(body) },
        Some(Lookup::Failed) => return BanStep::Refuse(
            error(500, "Nie udało się zbanować użytkownika."),
        ),
        Some(_) => {},
    }
    if !f.ended {
        BanStep::RevokeSessions(id)
    } else if !f.logged {
        BanStep::Log { action: "user.ban", user: id }
    } else {
        BanStep::Reply("Użytkownik został zbanowany.")
    }
}

pub open spec fn unblock_step(user: Seq<char>, f: UserFacts) -> UserStep {
    if ids::oid_of(user) is None {
        UserStep::Refuse(no_user())
    } else if f.user is None {
        UserStep::FindUser(ids::oid_of(user)->0)
    } else if f.user->0 !is Found {
        UserStep::Refuse(no_user())
    } else if f.stored is None {
        UserStep::StoreUnban(ids::oid_of(user)->0)
    } else if f.stored->0 is Failed {
        UserStep::Refuse(error(500, "Nie udało się odbanować użytkownika."))
    } else if !f.logged {
        UserStep::Log { action: "user.unban", user: ids::oid_of(user)->0 }
    } else {
        UserStep::Reply("Użytkownik został odbanowany.")
    }
}

/// Decides the next step of lifting a ban.
pub fn unblock_user(user: &str, f: &UserFacts) -> (r: UserStep)
    ensures
        r == unblock_step(user@, *f),
{
    let id = match parse_oid(user) {
        None => return UserStep::Refuse(no_user()),
        Some(id) => id,
    };
    match f.user {
        None => return UserStep::FindUser(id),
        Some(Lookup::Found(_)) => {},
        Some(_) => return UserStep::Refuse(no_user()),
    }
    match f.stored {
        None => return UserStep::StoreUnban(id),
        Some(Lookup::Failed) => return UserStep::Refuse(
            error(500, "Nie udało się odbanować użytkownika."),
        ),
        Some(_) => {},
    }
    if !f.logged {
        UserStep::Log { action: "user.unban", user: id }
    } else {
        UserStep::Reply("Użytkownik został odbanowany.")
    }
}

pub open spec fn delete_step(user: Seq<char>, f: UserFacts) -> UserStep {
    if ids::oid_of(user) is None {
        UserStep::Refuse(no_user())
    } else if f.user is None {
        UserStep::FindUser(ids::oid_of(user)->0)
    } else if f.user->0 !is Found {
        UserStep::Refuse(no_user())
    } else if !f.ended {
        UserStep::EndSessions(ids::oid_of(user)->0)
    } else if f.stored is None {
        UserStep::Purge(ids::oid_of(user)->0)
    } else if f.stored->0 is Failed {
        UserStep::Refuse(error(500, "Nie udało się usunąć użytkownika."))
    } else if !f.logged {
        UserStep::Log { action: "user.delete", user: ids::oid_of(user)->0 }
    } else {
        UserStep::Reply("Konto użytkownika zostało usunięte.")
    }
}

/// Decides the next step of deleting a user.
pub fn delete_user(user: &str, f: &UserFacts) -> (r: UserStep)
    ensures
        r == delete_step(user@, *f),
{
    let id = match parse_oid(user) {
        None => return UserStep::Refuse(no_user()),
        Some(id) => id,
    };
    match f.user {
        None => return UserStep::FindUser(id),
        Some(Lookup::Found(_)) => {},
        Some(_) => return UserStep::Refuse(no_user()),
    }
    if !f.ended {
        return UserStep::EndSessions(id);
    }
    match f.stored {
        None => return UserStep::Purge(id),
        Some(Lookup::Failed) => return UserStep::Refuse(
            error(500, "Nie udało się usunąć użytkownika."),
        ),
        Some(_) => {},
    }
    if !f.logged {
        UserStep::Log { action: "user.delete", user: id }
    } else {
        UserStep::Reply("Konto użytkownika zostało usunięte.")
    }
}

pub open spec fn restore_step(user: Seq<char>, f: UserFacts) -> UserStep {
    if ids::oid_of(user) is None {
        UserStep::Refuse(no_user())
    } else if f.user is None {
        UserStep::FindUser(ids::oid_of(user)->0)
    } else if f.user->0 is Missing {
        UserStep::Refuse(no_user())
    } else if f.user->0 is Failed {
        UserStep::Refuse(error(500, "Nie udało się pobrać użytkownika."))
    } else if !f.user->0->0.is_disabled {
        UserStep::Refuse(error(400, "To konto nie wymaga przywrócenia."))
    } else if f.stored is None {
        UserStep::StoreRestored(ids::oid_of(user)->0)
    } else if f.stored->0 is Failed {
        UserStep::Refuse(error(500, "Nie udało się przywrócić konta."))
    } else if !f.logged {
        UserStep::Log { action: "user.restore", user: ids::oid_of(user)->0 }
    } else {
        UserStep::Reply("Konto użytkownika zostało przywrócone.")
    }
}

/// Decides the next step of restoring a disabled account.
pub fn restore_user(user: &str, f: &UserFacts) -> (r: UserStep)
    ensures
        r == restore_step(user@, *f),
{
    let id = match parse_oid(user) {
        None => return UserStep::Refuse(no_user()),
        Some(id) => id,
    };
    let found = match f.user {
        None => return UserStep::FindUser(id),
        Some(Lookup::Found(u)) => u,
        Some(Lookup::Missing) => return UserStep::Refuse(no_user()),
        Some(Lookup::Failed) => return UserStep::Refuse(
            error(500, "Nie udało się pobrać użytkownika."),
        ),
    };
    if !found.is_disabled {
        return UserStep::Refuse(error(400, "To konto nie wymaga przywrócenia."));
    }
    match f.stored {
        None => return UserStep::StoreRestored(id),
        Some(Lookup::Failed) => return UserStep::Refuse(
            error(500, "Nie udało się przywrócić konta."),
        ),
        Some(_) => {},
    }
    if !f.logged {
        UserStep::Log { action: "user.restore", user: id }
    } else {
        UserStep::Reply("Konto użytkownika zostało przywrócone.")
    }
}

/// A user who gets a new password, is banned, or loses the approval has no session left when the
/// reply says so; one who is deleted has none left before anything is deleted.
pub proof fn law_sessions_end(
    user: Seq<char>,
    whitelist: SetWhitelistBody,
    password: SetUserPasswordBody,
    f: UserFacts,
    ban: BlockUserBody,
)
    ensures
        password_step(user, password, f) is Reply ==> f.ended,
        block_step(user, ban, f) is Reply ==> f.ended,
        whitelist_step(true, user, whitelist, f) is Reply && whitelist.approved != Some(true)
            ==> f.ended,
        delete_step(user, f) is Purge || delete_step(user, f) is Reply ==> f.ended,
{
}

/// Every change of a user by an administrator is in the log when the reply comes.
pub proof fn law_user_actions_are_logged(
    enabled: bool,
    user: Seq<char>,
    whitelist: SetWhitelistBody,
    password: SetUserPasswordBody,
    f: UserFacts,
    ban: BlockUserBody,
)
    ensures
        password_step(user, password, f) is Reply || block_step(user, ban, f) is Reply || unblock_step(
            user,
            f,
        ) is Reply || whitelist_step(enabled, user, whitelist, f) is Reply || delete_step(
            user,
            f,
        ) is Reply || restore_step(user, f) is Reply ==> f.logged && f.stored is Some,
{
}

/// What an administrator asks for is done to the user who is named, while nothing fails: approval is
/// stored as asked for and the user told of it or logged out, the new password is stored unless it is
/// known from a breach, a ban is stored with its reason, and each of these ends with its reply.
pub proof fn law_administrators_change_users(
    user: Seq<char>,
    whitelist: SetWhitelistBody,
    password: SetUserPasswordBody,
    ban: BlockUserBody,
    f: UserFacts,
)
    requires
        ids::oid_of(user) is Some,
        f.user matches Some(u) ==> u is Found,
        f.stored matches Some(s) ==> s is Found,
        f.breach is None || f.breach == Some(Breach::Safe),
    ensures
        ({
            let id = ids::oid_of(user)->0;
            let s = whitelist_step(true, user, whitelist, f);
            let approved = whitelist.approved is Some && whitelist.approved->0;
            &&& s !is Refuse
            &&& f.user is None ==> s == UserStep::FindUser(id)
            &&& f.user is Some && f.stored is None ==> s == (UserStep::StoreApproval {
                user: id,
                approved,
            })
            &&& f.user is Some && f.stored is Some && approved && !f.told ==> s
                == UserStep::TellApproved(id)
            &&& f.user is Some && f.stored is Some && !approved && !f.ended ==> s
                == UserStep::EndSessions(id)
            &&& f.user is Some && f.stored is Some && f.told && f.ended && !f.logged ==> s == (
            UserStep::Log {
                action: if approved {
                    "whitelist.approve"
                } else {
                    "whitelist.revoke"
                },
                user: id,
            })
            &&& f.user is Some && f.stored is Some && f.told && f.ended && f.logged ==> s is Reply
        }),
        ({
            let id = ids::oid_of(user)->0;
            let wanted = text::trimmed(text::or_empty(password.new_password));
            let s = password_step(user, password, f);
            let may = wanted.len() > 0 && (f.user is None || !f.user->0->0.is_bot);
            &&& may ==> s !is Refuse
            &&& may && f.user is Some && f.breach is None ==> s == PasswordStepView::CheckBreach(
                wanted,
            )
            &&& may && f.user is Some && f.breach is Some && f.stored is None ==> s == (
            PasswordStepView::StorePassword { user: id, password: wanted })
            &&& may && f.user is Some && f.breach is Some && f.stored is Some && !f.ended ==> s
                == PasswordStepView::EndSessions(id)
            &&& may && f.user is Some && f.breach is Some && f.stored is Some && f.ended && f.logged
                ==> s is Reply
            &&& !may ==> s !is StorePassword && s !is Reply
        }),
        ({
            let id = ids::oid_of(user)->0;
            let s = block_step(user, ban, f);
            &&& s !is Refuse
            &&& f.user is None ==> s == BanStepView::FindUser(id)
            &&& f.user is Some && f.stored is None ==> s == (BanStepView::StoreBan {
                user: id,
                reason: kept_reason(ban),
            })
            &&& f.user is Some && f.stored is Some && !f.ended ==> s == BanStepView::RevokeSessions(id)
            &&& f.user is Some && f.stored is Some && f.ended && !f.logged ==> s == (
            BanStepView::Log { action: "user.ban", user: id })
            &&& f.user is Some && f.stored is Some && f.ended && f.logged ==> s is Reply
        }),
        ({
            let id = ids::oid_of(user)->0;
            let s = unblock_step(user, f);
            &&& s !is Refuse
            &&& f.user is None ==> s == UserStep::FindUser(id)
            &&& f.user is Some && f.stored is None ==> s == UserStep::StoreUnban(id)
            &&& f.user is Some && f.stored is Some && !f.logged ==> s == (UserStep::Log {
                action: "user.unban",
                user: id,
            })
            &&& f.user is Some && f.stored is Some && f.logged ==> s is Reply
        }),
        ({
            let id = ids::oid_of(user)->0;
            let s = delete_step(user, f);
            &&& s !is Refuse
            &&& f.user is None ==> s == UserStep::FindUser(id)
            &&& f.user is Some && !f.ended ==> s == UserStep::EndSessions(id)
            &&& f.user is Some && f.ended && f.stored is None ==> s == UserStep::Purge(id)
            &&& f.user is Some && f.ended && f.stored is Some && !f.logged ==> s == (UserStep::Log {
                action: "user.delete",
                user: id,
            })
            &&& f.user is Some && f.ended && f.stored is Some && f.logged ==> s is Reply
        }),
        ({
            let id = ids::oid_of(user)->0;
            let s = restore_step(user, f);
            let off = f.user is Some && f.user->0->0.is_disabled;
            &&& f.user is None ==> s == UserStep::FindUser(id)
            &&& f.user is Some && !off ==> s is Refuse
            &&& off && f.stored is None ==> s == UserStep::StoreRestored(id)
            &&& off && f.stored is Some && !f.logged ==> s == (UserStep::Log {
                action: "user.restore",
                user: id,
            })
            &&& off && f.stored is Some && f.logged ==> s is Reply
        }),
{
}

/// Nothing is done to a user who was not found, nothing twice, and success is replied only where the
/// change was stored; a bot gets no password, and a breached one is not stored.
pub proof fn law_changes_of_users_are_stored_before_the_reply(
    enabled: bool,
    user: Seq<char>,
    whitelist: SetWhitelistBody,
    password: SetUserPasswordBody,
    ban: BlockUserBody,
    f: UserFacts,
)
    ensures
        ({
            let found = f.user is Some && f.user->0 is Found;
            let stored = f.stored is Some && f.stored->0 !is Failed;
            let w = whitelist_step(enabled, user, whitelist, f);
            let p = password_step(user, password, f);
            let b = block_step(user, ban, f);
            let u = unblock_step(user, f);
            let d = delete_step(user, f);
            let r = restore_step(user, f);
            &&& w is StoreApproval ==> enabled && found && f.stored is None
            &&& w is Reply || w is TellApproved || w is EndSessions ==> enabled && found && f.stored
                is Some && f.stored->0 is Found
            &&& p is StorePassword ==> found && f.stored is None && f.breach == Some(Breach::Safe)
                && !f.user->0->0.is_bot
            &&& p is Reply || p is EndSessions ==> found && stored
            &&& b is StoreBan ==> found && f.stored is None
            &&& b is Reply || b is RevokeSessions ==> found && stored
            &&& u is StoreUnban ==> found && f.stored is None
            &&& u is Reply ==> found && stored
            &&& d is Purge ==> found && f.stored is None
            &&& d is Reply ==> found && stored
            &&& r is StoreRestored ==> found && f.stored is None
            &&& r is Reply ==> found && stored
            &&& ids::oid_of(user) is None ==> w is Refuse && p is Refuse && b is Refuse && u is Refuse
                && d is Refuse && r is Refuse
            &&& f.user is Some && !found ==> w is Refuse && p is Refuse && b is Refuse && u is Refuse
                && d is Refuse && r is Refuse
            &&& f.stored is Some && f.stored->0 is Failed ==> w !is Reply && p !is Reply && b !is
                Reply && u !is Reply && d !is Reply && r !is Reply
            &&& !enabled ==> w is Refuse
        }),
        kept_reason(ban) is None <==> ban.reason is None || text::trimmed(ban.reason->0@).len() == 0,
        ban.reason is Some && text::trimmed(ban.reason->0@).len() > 500 ==> kept_reason(ban) == Some(
            text::trimmed(ban.reason->0@).take(500),
        ),
        ban.reason is Some && 0 < text::trimmed(ban.reason->0@).len() <= 500 ==> kept_reason(ban)
            == Some(text::trimmed(ban.reason->0@)),
{
}

/// What is known while an administrator deletes a channel.
#[derive(Clone, Copy, Debug)]
pub struct ChannelFacts {
    pub found: Option<bool>,
    pub messages: Option<Done>,
    pub invites: Option<Done>,
    pub channel: Option<Done>,
    pub told: bool,
    pub logged: bool,
}

/// What to do next while an administrator deletes a channel.
#[derive(Clone, Copy, Debug, PartialEq, Eq)]
pub enum ChannelStep {
    FindChannel(Oid),
    DeleteMessages(Oid),
    DeleteInvites(Oid),
    DeleteChannel(Oid),
    TellMembers(Oid),
    Log { action: &'static str, channel: Oid },
    Reply(&'static str),
    Refuse(Refusal),
}

pub open spec fn delete_channel_step(channel: Seq<char>, f: ChannelFacts) -> ChannelStep {
    let id = ids::oid_of(channel)->0;
    if ids::oid_of(channel) is None || f.found == Some(false) {
        ChannelStep::Refuse(error(404, "Kanał nie istnieje."))
    } else if f.found is None {
        ChannelStep::FindChannel(id)
    } else if f.messages is None {
        ChannelStep::DeleteMessages(id)
    } else if f.messages->0 is Failed {
        ChannelStep::Refuse(error(500, "Nie udało się usunąć kanału."))
    } else if f.invites is None {
        ChannelStep::DeleteInvites(id)
    } else if f.invites->0 is Failed {
        ChannelStep::Refuse(error(500, "Nie udało się usunąć kanału."))
    } else if f.channel is None {
        ChannelStep::DeleteChannel(id)
    } else if f.channel->0 is Failed {
        ChannelStep::Refuse(error(500, "Nie udało się usunąć kanału."))
    } else if !f.told {
        ChannelStep::TellMembers(id)
    } else if !f.logged {
        ChannelStep::Log { action: "channel.delete", channel: id }
    } else {
        ChannelStep::Reply("Kanał został usunięty.")
    }
}

/// Decides the next step of deleting a channel.
pub fn delete_channel_admin(channel: &str, f: &ChannelFacts) -> (r: ChannelStep)
    ensures
        r == delete_channel_step(channel@, *f),
{
    let id = match parse_oid(channel) {
        None => return ChannelStep::Refuse(error(404, "Kanał nie istnieje.")),
        Some(id) => id,
    };
    match f.found {
        None => return ChannelStep::FindChannel(id),
        Some(false) => return ChannelStep::Refuse(error(404, "Kanał nie istnieje.")),
        Some(true) => {},
    }
    match f.messages {
        None => return ChannelStep::DeleteMessages(id),
        Some(Done::Failed) => return ChannelStep::Refuse(error(500, "Nie udało się usunąć kanału.")),
        Some(Done::Worked) => {},
    }
    match f.invites {
        None => return ChannelStep::DeleteInvites(id),
        Some(Done::Failed) => return ChannelStep::Refuse(error(500, "Nie udało się usunąć kanału.")),
        Some(Done::Worked) => {},
    }
    match f.channel {
        None => return ChannelStep::DeleteChannel(id),
        Some(Done::Failed) => return ChannelStep::Refuse(error(500, "Nie udało się usunąć kanału.")),
        Some(Done::Worked) => {},
    }
    if !f.told {
        ChannelStep::TellMembers(id)
    } else if !f.logged {
        ChannelStep::Log { action: "channel.delete", channel: id }
    } else {
        ChannelStep::Reply("Kanał został usunięty.")
    }
}

/// A channel goes only after its messages and its invites are gone.
pub proof fn law_channel_goes_last(channel: Seq<char>, f: ChannelFacts)
    ensures
        delete_channel_step(channel, f) is DeleteChannel ==> f.messages == Some(Done::Worked)
            && f.invites == Some(Done::Worked),
{
}

/// An administrator deletes a channel that was found with its messages and invitations, each once; its
/// members are told and success is replied only where all three are gone.
pub proof fn law_channel_is_deleted_whole(
    channel: Seq<char>,
    f: ChannelFacts,
)
    requires
        ids::oid_of(channel) is Some,
    ensures
        ({
            let s = delete_channel_step(channel, f);
            let id = ids::oid_of(channel)->0;
            let found = f.found is Some && f.found->0;
            let emptied = found && f.messages == Some(Done::Worked) && f.invites == Some(Done::Worked);
            let gone = emptied && f.channel == Some(Done::Worked);
            &&& f.found is None ==> s == ChannelStep::FindChannel(id)
            &&& found && f.messages is None ==> s == ChannelStep::DeleteMessages(id)
            &&& found && f.messages == Some(Done::Worked) && f.invites is None ==> s
                == ChannelStep::DeleteInvites(id)
            &&& emptied && f.channel is None ==> s == ChannelStep::DeleteChannel(id)
            &&& gone && !f.told ==> s == ChannelStep::TellMembers(id)
            &&& gone && f.told && !f.logged ==> s == (ChannelStep::Log {
                action: "channel.delete",
                channel: id,
            })
            &&& gone && f.told && f.logged <==> s is Reply
            &&& s is TellMembers || s is Log ==> gone
            &&& s is DeleteMessages || s is DeleteInvites || s is DeleteChannel ==> found
            &&& f.found is Some && !f.found->0 ==> s is Refuse
        }),
{
}

/// What is known while a report is settled.
#[derive(Clone, Copy, Debug)]
pub struct ReportFacts {
    pub stored: Option<Done>,
    pub logged: bool,
    /// Whether the report could be loaded again.
    pub reloaded: Option<bool>,
}

/// What to do next while a report is settled.
#[derive(Clone, Copy, Debug, PartialEq, Eq)]
pub enum ReportStep {
    Store { report: Oid, status: ReportStatus },
    Log { action: &'static str, report: Oid },
    Reload(Oid),
    Reply(&'static str),
    Refuse(Refusal),
}

pub open spec fn report_step(report: Seq<char>, body: UpdateReportBody, f: ReportFacts) -> ReportStep {
    let status = text::or_empty(body.status);
    let id = ids::oid_of(report)->0;
    if status != "reviewed"@ && status != "dismissed"@ {
        ReportStep::Refuse(message(400, "Nieprawidłowy status"))
    } else if ids::oid_of(report) is None {
        ReportStep::Refuse(message(404, "Zgłoszenie nie znalezione"))
    } else if f.stored is None {
        ReportStep::Store {
            report: id,
            status: if status == "reviewed"@ {
                ReportStatus::Reviewed
            } else {
                ReportStatus::Dismissed
            },
        }
    } else if f.stored->0 is Failed {
        ReportStep::Refuse(message(500, "Internal Server Error"))
    } else if !f.logged {
        ReportStep::Log { action: "report.update", report: id }
    } else if f.reloaded is None {
        ReportStep::Reload(id)
    } else if !f.reloaded->0 {
        ReportStep::Refuse(message(404, "Zgłoszenie nie znalezione"))
    } else {
        ReportStep::Reply("Status zaktualizowany")
    }
}

/// Decides the next step of settling a report.
pub fn update_channel_report_status(report: &str, body: &UpdateReportBody, f: &ReportFacts) -> (r:
    ReportStep)
    ensures
        r == report_step(report@, *body, *f),
{
    let status = text::text_or_empty(&body.status);
    let reviewed = text::same_text(status.as_str(), "reviewed");
    if !reviewed && !text::same_text(status.as_str(), "dismissed") {
        return ReportStep::Refuse(message(400, "Nieprawidłowy status"));
    }
    let id = match parse_oid(report) {
        None => return ReportStep::Refuse(message(404, "Zgłoszenie nie znalezione")),
        Some(id) => id,
    };
    match f.stored {
        None => return ReportStep::Store {
            report: id,
            status: if reviewed {
                ReportStatus::Reviewed
            } else {
                ReportStatus::Dismissed
            },
        },
        Some(Done::Failed) => return ReportStep::Refuse(message(500, "Internal Server Error")),
        Some(Done::Worked) => {},
    }
    if !f.logged {
        return ReportStep::Log { action: "report.update", report: id };
    }
    match f.reloaded {
        None => ReportStep::Reload(id),
        Some(false) => ReportStep::Refuse(message(404, "Zgłoszenie nie znalezione")),
        Some(true) => ReportStep::Reply("Status zaktualizowany"),
    }
}

/// A report that is settled does not go back to waiting.
pub proof fn law_settled_reports_do_not_wait(report: Seq<char>, body: UpdateReportBody, f: ReportFacts)
    ensures
        report_step(report, body, f) matches ReportStep::Store { status, .. } ==> status !is Pending
            && report_status_name(status) == text::or_empty(body.status),
{
}

/// A report is settled as reviewed or as dismissed, as asked for; the status is stored, logged and shown,
/// in that order, and no other status is stored.
pub proof fn law_report_is_settled_as_asked(
    report: Seq<char>,
    body: UpdateReportBody,
    f: ReportFacts,
)
    ensures
        ({
            let s = report_step(report, body, f);
            let asked = text::or_empty(body.status);
            let fits = (asked == "reviewed"@ || asked == "dismissed"@) && ids::oid_of(report) is Some;
            let id = ids::oid_of(report)->0;
            &&& fits && f.stored is None <==> s is Store
            &&& s matches ReportStep::Store { report: r, status } ==> r == id && (asked
                == "reviewed"@ ==> status is Reviewed) && (status is Dismissed ==> asked
                == "dismissed"@)
            &&& fits && f.stored == Some(Done::Worked) && !f.logged <==> s is Log
            &&& s is Log ==> s == (ReportStep::Log { action: "report.update", report: id })
            &&& fits && f.stored == Some(Done::Worked) && f.logged && f.reloaded is None <==> s is
                Reload
            &&& fits && f.stored == Some(Done::Worked) && f.logged && f.reloaded is Some
                && f.reloaded->0 <==> s is Reply
            &&& asked != "reviewed"@ && asked != "dismissed"@ ==> s == ReportStep::Refuse(
                message(400, "Nieprawidłowy status"),
            )
        }),
{
}

/// What is known while a badge is made or changed.
#[derive(Clone, Copy, Debug)]
pub struct BadgeFacts {
    /// The badge that is changed.
    pub found: Option<Lookup<()>>,
    /// Whether the name is taken.
    pub taken: Option<bool>,
    /// Whether the icon is one of the known ones.
    pub icon_valid: Option<bool>,
    /// Whether the colour is one.
    pub color_valid: Option<bool>,
    pub stored: Option<Done>,
    /// Whether the badge could be loaded again.
    pub reloaded: Option<bool>,
}

/// What to do next while a badge is made or changed.
#[derive(Debug, PartialEq, Eq)]
pub enum BadgeStep {
    FindBadge(Oid),
    /// Check whether the icon is one of the known ones.
    CheckIcon(String),
    /// Check whether the text is a colour, and bring it into its usual form.
    CheckColor(String),
    FindByName(String),
    Create { name: String, icon: String, color: Option<String>, description: Option<String> },
    Store { badge: Oid, patch: BadgePatch },
    Reload(Oid),
    Reply(u16),
    Refuse(Refusal),
}

/// The view of `BadgeStep`.
#[verifier::ext_equal]
pub enum BadgeStepView {
    FindBadge(Oid),
    CheckIcon(Seq<char>),
    CheckColor(Seq<char>),
    FindByName(Seq<char>),
    Create {
        name: Seq<char>,
        icon: Seq<char>,
        color: Option<Seq<char>>,
        description: Option<Seq<char>>,
    },
    Store { badge: Oid, patch: BadgePatchView },
    Reload(Oid),
    Reply(u16),
    Refuse(Refusal),
}

impl View for BadgeStep {
    type V = BadgeStepView;

    open spec fn view(&self) -> BadgeStepView {
        match self {
            BadgeStep::FindBadge(a) => BadgeStepView::FindBadge(*a),
            BadgeStep::CheckIcon(a) => BadgeStepView::CheckIcon(a@),
            BadgeStep::CheckColor(a) => BadgeStepView::CheckColor(a@),
            BadgeStep::FindByName(a) => BadgeStepView::FindByName(a@),
            BadgeStep::Create { name, icon, color, description } => BadgeStepView::Create {
                name: name@,
                icon: icon@,
                color: text::opt(*color),
                description: text::opt(*description),
            },
            BadgeStep::Store { badge, patch } => BadgeStepView::Store {
                badge: *badge,
                patch: patch@,
            },
            BadgeStep::Reload(a) => BadgeStepView::Reload(*a),
            BadgeStep::Reply(a) => BadgeStepView::Reply(*a),
            BadgeStep::Refuse(a) => BadgeStepView::Refuse(*a),
        }
    }
}

/// The description that a new badge gets: none where the request gives none.
pub open spec fn description_of(body: CreateBadgeBody) -> Option<Seq<char>> {
    match body.description {
        None => None,
        Some(d) => Some(text::prefix(text::trimmed(d@), BADGE_DESCRIPTION_MAX_LENGTH as int)),
    }
}

pub open spec fn create_badge_step(
    body: CreateBadgeBody,
    normal_color: Seq<char>,
    f: BadgeFacts,
) -> BadgeStepView {
    let name = text::trimmed(text::or_empty(body.name));
    let icon = text::trimmed(text::or_empty(body.icon));
    let color = text::trimmed(text::or_empty(body.color));
    if name.len() == 0 || icon.len() == 0 {
        BadgeStepView::Refuse(failing(message(400, "Name and icon are required")))
    } else if name.len() > BADGE_NAME_MAX_LENGTH {
        BadgeStepView::Refuse(failing(message(400, "Badge name is too long (max 64 characters)")))
    } else if f.icon_valid is None {
        BadgeStepView::CheckIcon(icon)
    } else if !f.icon_valid->0 {
        BadgeStepView::Refuse(failing(message(400, "Invalid icon name")))
    } else if color.len() > 0 && f.color_valid is None {
        BadgeStepView::CheckColor(color)
    } else if color.len() > 0 && !f.color_valid->0 {
        BadgeStepView::Refuse(failing(message(400, "Invalid badge color (use #RRGGBB)")))
    } else if text::or_empty(body.description).len() > BADGE_DESCRIPTION_MAX_LENGTH {
        BadgeStepView::Refuse(failing(message(400, "Description is too long (max 500 characters)")))
    } else if f.taken is None {
        BadgeStepView::FindByName(name)
    } else if f.taken->0 {
        BadgeStepView::Refuse(failing(message(409, "Badge with this name already exists")))
    } else if f.stored is None {
        BadgeStepView::Create {
            name: text::or_empty(body.name),
            icon: text::or_empty(body.icon),
            color: if color.len() > 0 {
                Some(normal_color)
            } else {
                None
            },
            description: description_of(body),
        }
    } else if f.stored->0 is Failed {
        BadgeStepView::Refuse(failing(message(500, "Failed to create badge")))
    } else {
        BadgeStepView::Reply(201)
    }
}

/// Decides the next step of making a badge; `normal_color` is its colour in the usual form.
pub fn create_badge(body: &CreateBadgeBody, normal_color: &str, f: &BadgeFacts) -> (r: BadgeStep)
    ensures
        r@ == create_badge_step(*body, normal_color@, *f),
{
    let name = text::trim(text::text_or_empty(&body.name).as_str());
    let icon = text::trim(text::text_or_empty(&body.icon).as_str());
    if name.as_str().is_empty() || icon.as_str().is_empty() {
        return BadgeStep::Refuse(failing(message(400, "Name and icon are required")));
    }
    if name.as_str().unicode_len() > BADGE_NAME_MAX_LENGTH {
        return BadgeStep::Refuse(failing(message(400, "Badge name is too long (max 64 characters)")));
    }
    match f.icon_valid {
        None => return BadgeStep::CheckIcon(icon),
        Some(false) => return BadgeStep::Refuse(failing(message(400, "Invalid icon name"))),
        Some(true) => {},
    }
    let color = text::trim(text::text_or_empty(&body.color).as_str());
    let colored = !color.as_str().is_empty();
    if colored {
        match f.color_valid {
            None => return BadgeStep::CheckColor(color),
            Some(false) => return BadgeStep::Refuse(
                failing(message(400, "Invalid badge color (use #RRGGBB)")),
            ),
            Some(true) => {},
        }
    }
    if text::text_or_empty(&body.description).as_str().unicode_len() > BADGE_DESCRIPTION_MAX_LENGTH {
        return BadgeStep::Refuse(
            failing(message(400, "Description is too long (max 500 characters)")),
        );
    }
    match f.taken {
        None => return BadgeStep::FindByName(name),
        Some(true) => return BadgeStep::Refuse(
            failing(message(409, "Badge with this name already exists")),
        ),
        Some(false) => {},
    }
    match f.stored {
        None => BadgeStep::Create {
            name: text::text_or_empty(&body.name),
            icon: text::text_or_empty(&body.icon),
            color: if colored {
                Some(normal_color.to_owned())
            } else {
                None
            },
            description: badge_description(body),
        },
        Some(Done::Failed) => BadgeStep::Refuse(failing(message(500, "Failed to create badge"))),
        Some(Done::Worked) => BadgeStep::Reply(201),
    }
}

/// The description that a new badge gets.
pub fn badge_description(body: &CreateBadgeBody) -> (r: Option<String>)
    ensures
        text::opt(r) == description_of(*body),
{
    match &body.description {
        None => None,
        Some(d) => Some(
            text::take_chars(text::trim(d.as_str()).as_str(), BADGE_DESCRIPTION_MAX_LENGTH),
        ),
    }
}

/// The name that a badge is given anew: one that is not empty and not the present one.
pub open spec fn changed_name(body: UpdateBadgeBody, current: Seq<char>) -> Option<Seq<char>> {
    let name = text::trimmed(text::or_empty(body.name));
    if name.len() == 0 || name == current {
        None
    } else {
        Some(name)
    }
}

/// The icon that a badge is given anew.
pub open spec fn changed_icon(body: UpdateBadgeBody) -> Option<Seq<char>> {
    let icon = text::trimmed(text::or_empty(body.icon));
    if icon.len() == 0 {
        None
    } else {
        Some(icon)
    }
}

/// What a field of a badge becomes.
#[derive(Debug, PartialEq, Eq)]
pub enum FieldChange {
    Keep,
    Clear,
    Put(String),
}

/// The view of `FieldChange`.
#[verifier::ext_equal]
pub enum FieldChangeView {
    Keep,
    Clear,
    Put(Seq<char>),
}

impl View for FieldChange {
    type V = FieldChangeView;

    open spec fn view(&self) -> FieldChangeView {
        match self {
            FieldChange::Keep => FieldChangeView::Keep,
            FieldChange::Clear => FieldChangeView::Clear,
            FieldChange::Put(a) => FieldChangeView::Put(a@),
        }
    }
}

/// What a change stores in a badge, besides the time.
#[derive(Debug, PartialEq, Eq)]
pub struct BadgePatch {
    pub name: Option<String>,
    pub icon: Option<String>,
    pub color: FieldChange,
    pub description: FieldChange,
}

/// The view of `BadgePatch`.
#[verifier::ext_equal]
pub struct BadgePatchView {
    pub name: Option<Seq<char>>,
    pub icon: Option<Seq<char>>,
    pub color: FieldChangeView,
    pub description: FieldChangeView,
}

impl View for BadgePatch {
    type V = BadgePatchView;

    open spec fn view(&self) -> BadgePatchView {
        BadgePatchView {
            name: text::opt(self.name),
            icon: text::opt(self.icon),
            color: self.color@,
            description: self.description@,
        }
    }
}

/// What a field becomes that a request gives as `value`: it is cleared where the text is blank.
pub open spec fn field_change(value: Option<String>) -> FieldChangeView {
    match value {
        None => FieldChangeView::Keep,
        Some(v) => if text::trimmed(v@).len() == 0 {
            FieldChangeView::Clear
        } else {
            FieldChangeView::Put(text::trimmed(v@))
        },
    }
}

/// Reads what a field becomes.
pub fn read_change(value: &Option<String>) -> (r: FieldChange)
    ensures
        r@ == field_change(*value),
{
    match value {
        None => FieldChange::Keep,
        Some(v) => {
            let t = text::trim(v.as_str());
            if t.as_str().is_empty() {
                FieldChange::Clear
            } else {
                FieldChange::Put(t)
            }
        },
    }
}

/// Reads the name that a badge is given anew.
pub fn new_name(body: &UpdateBadgeBody, current: &str) -> (r: Option<String>)
    ensures
        text::opt(r) == changed_name(*body, current@),
{
    let name = text::trim(text::text_or_empty(&body.name).as_str());
    if name.as_str().is_empty() || text::same_text(name.as_str(), current) {
        None
    } else {
        Some(name)
    }
}

/// Reads the icon that a badge is given anew.
pub fn new_icon(body: &UpdateBadgeBody) -> (r: Option<String>)
    ensures
        text::opt(r) == changed_icon(*body),
{
    let icon = text::trim(text::text_or_empty(&body.icon).as_str());
    if icon.as_str().is_empty() {
        None
    } else {
        Some(icon)
    }
}

/// What a change stores in a badge: a colour in its usual form, and nothing of what is not given.
pub open spec fn badge_patch(
    body: UpdateBadgeBody,
    current: Seq<char>,
    normal_color: Seq<char>,
) -> BadgePatchView {
    BadgePatchView {
        name: changed_name(body, current),
        icon: changed_icon(body),
        color: if field_change(body.color) is Put {
            FieldChangeView::Put(normal_color)
        } else {
            field_change(body.color)
        },
        description: field_change(body.description),
    }
}

/// Makes what a change stores in a badge.
pub fn make_badge_patch(body: &UpdateBadgeBody, current: &str, normal_color: &str) -> (r: BadgePatch)
    ensures
        r@ == badge_patch(*body, current@, normal_color@),
{
    BadgePatch {
        name: new_name(body, current),
        icon: new_icon(body),
        color: match read_change(&body.color) {
            FieldChange::Put(_) => FieldChange::Put(normal_color.to_owned()),
            other => other,
        },
        description: read_change(&body.description),
    }
}

pub open spec fn update_badge_step(
    badge: Seq<char>,
    body: UpdateBadgeBody,
    current: Seq<char>,
    normal_color: Seq<char>,
    f: BadgeFacts,
) -> BadgeStepView {
    let id = ids::oid_of(badge)->0;
    if ids::oid_of(badge) is None {
        BadgeStepView::Refuse(failing(message(400, "Invalid badge ID")))
    } else if f.found is None {
        BadgeStepView::FindBadge(id)
    } else if f.found->0 is Missing {
        BadgeStepView::Refuse(failing(message(404, "Badge not found")))
    } else if f.found->0 is Failed {
        BadgeStepView::Refuse(failing(message(500, "Failed to update badge")))
    } else if text::trimmed(text::or_empty(body.name)).len() > BADGE_NAME_MAX_LENGTH {
        BadgeStepView::Refuse(failing(message(400, "Badge name is too long (max 64 characters)")))
    } else if changed_name(body, current) is Some && f.taken is None {
        BadgeStepView::FindByName(changed_name(body, current)->0)
    } else if changed_name(body, current) is Some && f.taken->0 {
        BadgeStepView::Refuse(failing(message(409, "Badge with this name already exists")))
    } else if changed_icon(body) is Some && f.icon_valid is None {
        BadgeStepView::CheckIcon(changed_icon(body)->0)
    } else if changed_icon(body) is Some && !f.icon_valid->0 {
        BadgeStepView::Refuse(failing(message(400, "Invalid icon name")))
    } else if field_change(body.color) is Put && f.color_valid is None {
        BadgeStepView::CheckColor(text::trimmed(text::or_empty(body.color)))
    } else if field_change(body.color) is Put && !f.color_valid->0 {
        BadgeStepView::Refuse(failing(message(400, "Invalid badge color (use #RRGGBB)")))
    } else if text::trimmed(text::or_empty(body.description)).len() > BADGE_DESCRIPTION_MAX_LENGTH {
        BadgeStepView::Refuse(failing(message(400, "Description is too long (max 500 characters)")))
    } else if f.stored is None {
        BadgeStepView::Store { badge: id, patch: badge_patch(body, current, normal_color) }
    } else if f.stored->0 is Failed {
        BadgeStepView::Refuse(failing(message(500, "Failed to update badge")))
    } else if f.reloaded is None {
        BadgeStepView::Reload(id)
    } else if !f.reloaded->0 {
        BadgeStepView::Refuse(failing(message(500, "Failed to update badge")))
    } else {
        BadgeStepView::Reply(200)
    }
}

proof fn lemma_blank_is_empty()
    ensures
        text::trimmed(Seq::<char>::empty()) == Seq::<char>::empty(),
{
    assert(text::trimmed(Seq::<char>::empty()) =~= Seq::<char>::empty());
}

/// Decides the next step of changing a badge; `current` is its present name,
/// `normal_color` the new colour in its usual form.
pub fn update_badge(
    badge: &str,
    body: &UpdateBadgeBody,
    current: &str,
    normal_color: &str,
    f: &BadgeFacts,
) -> (r: BadgeStep)
    ensures
        r@ == update_badge_step(badge@, *body, current@, normal_color@, *f),
{
    proof {
        lemma_blank_is_empty();
    }
    let id = match parse_oid(badge) {
        None => return BadgeStep::Refuse(failing(message(400, "Invalid badge ID"))),
        Some(id) => id,
    };
    match f.found {
        None => return BadgeStep::FindBadge(id),
        Some(Lookup::Missing) => return BadgeStep::Refuse(
            failing(message(404, "Badge not found")),
        ),
        Some(Lookup::Failed) => return BadgeStep::Refuse(
            failing(message(500, "Failed to update badge")),
        ),
        Some(Lookup::Found(_)) => {},
    }
    let name = text::trim(text::text_or_empty(&body.name).as_str());
    if name.as_str().unicode_len() > BADGE_NAME_MAX_LENGTH {
        return BadgeStep::Refuse(failing(message(400, "Badge name is too long (max 64 characters)")));
    }
    if let Some(wanted) = new_name(body, current) {
        match f.taken {
            None => return BadgeStep::FindByName(wanted),
            Some(true) => return BadgeStep::Refuse(
                failing(message(409, "Badge with this name already exists")),
            ),
            Some(false) => {},
        }
    }
    if let Some(icon) = new_icon(body) {
        match f.icon_valid {
            None => return BadgeStep::CheckIcon(icon),
            Some(false) => return BadgeStep::Refuse(failing(message(400, "Invalid icon name"))),
            Some(true) => {},
        }
    }
    if let FieldChange::Put(color) = read_change(&body.color) {
        match f.color_valid {
            None => return BadgeStep::CheckColor(color),
            Some(false) => return BadgeStep::Refuse(
                failing(message(400, "Invalid badge color (use #RRGGBB)")),
            ),
            Some(true) => {},
        }
    }
    let description = text::trim(text::text_or_empty(&body.description).as_str());
    if description.as_str().unicode_len() > BADGE_DESCRIPTION_MAX_LENGTH {
        return BadgeStep::Refuse(
            failing(message(400, "Description is too long (max 500 characters)")),
        );
    }
    match f.stored {
        None => return BadgeStep::Store {
            badge: id,
            patch: make_badge_patch(body, current, normal_color),
        },
        Some(Done::Failed) => return BadgeStep::Refuse(
            failing(message(500, "Failed to update badge")),
        ),
        Some(Done::Worked) => {},
    }
    match f.reloaded {
        None => BadgeStep::Reload(id),
        Some(false) => BadgeStep::Refuse(failing(message(500, "Failed to update badge"))),
        Some(true) => BadgeStep::Reply(200),
    }
}

/// A badge is stored only under a name that is not taken and not too long, and with an icon and
/// a colour that were checked.
pub proof fn law_stored_badges_are_checked(
    created: CreateBadgeBody,
    badge: Seq<char>,
    updated: UpdateBadgeBody,
    current: Seq<char>,
    normal_color: Seq<char>,
    f: BadgeFacts,
)
    ensures
        create_badge_step(created, normal_color, f) is Create ==> f.taken == Some(false) && f.icon_valid == Some(
            true,
        ) && 0 < text::trimmed(text::or_empty(created.name)).len() <= BADGE_NAME_MAX_LENGTH,
        update_badge_step(badge, updated, current, normal_color, f) is Store ==> (changed_name(updated, current)
            is Some ==> f.taken == Some(false) && changed_name(updated, current)->0.len()
            <= BADGE_NAME_MAX_LENGTH) && (changed_icon(updated) is Some ==> f.icon_valid == Some(
            true,
        )) && (field_change(updated.color) is Put ==> f.color_valid == Some(true)),
{
}

/// A badge with a free name of at most 64 characters and a known icon is created, and one that was found
/// is changed: neither is refused while nothing speaks against it, and success is replied only where it
/// was stored.
pub proof fn law_badges_are_created_and_changed(
    created: CreateBadgeBody,
    badge: Seq<char>,
    updated: UpdateBadgeBody,
    current: Seq<char>,
    normal_color: Seq<char>,
    f: BadgeFacts,
)
    requires
        f.icon_valid != Some(false),
        f.color_valid != Some(false),
        f.taken != Some(true),
        f.stored != Some(Done::Failed),
    ensures
        ({
            let s = create_badge_step(created, normal_color, f);
            let name = text::trimmed(text::or_empty(created.name));
            let icon = text::trimmed(text::or_empty(created.icon));
            let color = text::trimmed(text::or_empty(created.color));
            let fits = 0 < name.len() <= 64 && icon.len() > 0 && text::or_empty(
                created.description,
            ).len() <= 500;
            let known = f.icon_valid is Some && f.color_valid is Some && f.taken is Some;
            &&& fits ==> s !is Refuse
            &&& fits && known && f.stored is None ==> s is Create
            &&& fits && known && f.stored is Some ==> s == BadgeStepView::Reply(201)
            &&& s matches BadgeStepView::Create { name: n, icon: i, color: c, description: d } ==> n
                == text::or_empty(created.name) && i == text::or_empty(created.icon) && (c is Some
                <==> color.len() > 0) && (c is Some ==> c->0 == normal_color) && (d is None
                <==> created.description is None) && f.stored is None && fits
            &&& s is Reply ==> f.stored == Some(Done::Worked) && fits
            &&& s matches BadgeStepView::CheckIcon(i) ==> i == icon && f.icon_valid is None
            &&& s matches BadgeStepView::CheckColor(c) ==> c == color && f.color_valid is None
            &&& s matches BadgeStepView::FindByName(n) ==> n == name && f.taken is None
            &&& !fits ==> s !is Create && s !is Reply
        }),
        ({
            let s = update_badge_step(badge, updated, current, normal_color, f);
            let id = ids::oid_of(badge)->0;
            let name = text::trimmed(text::or_empty(updated.name));
            let fits = ids::oid_of(badge) is Some && name.len() <= 64 && text::trimmed(
                text::or_empty(updated.description),
            ).len() <= 500 && (f.found is None || f.found->0 is Found);
            let known = f.found is Some && f.icon_valid is Some && f.color_valid is Some && f.taken is
                Some;
            &&& fits && f.reloaded != Some(false) ==> s !is Refuse
            &&& fits && f.found is None ==> s == BadgeStepView::FindBadge(id)
            &&& fits && known && f.stored is None ==> s is Store
            &&& fits && known && f.stored is Some && f.reloaded is None ==> s == BadgeStepView::Reload(
                id,
            )
            &&& s is Reply ==> f.stored == Some(Done::Worked) && f.reloaded is Some && f.reloaded->0
                && s == BadgeStepView::Reply(200)
            &&& s matches BadgeStepView::Store { badge: b, patch } ==> b == id && f.stored is None && (
            patch.name is Some <==> name.len() > 0 && name != current) && (patch.name is Some
                ==> patch.name->0 == name) && (updated.color is None ==> patch.color is Keep) && (
            updated.description is None ==> patch.description is Keep) && (updated.color is Some
                && text::trimmed(updated.color->0@).len() == 0 ==> patch.color is Clear) && (
            updated.color is Some && text::trimmed(updated.color->0@).len() > 0 ==> patch.color
                == FieldChangeView::Put(normal_color))
        }),
{
}

/// What is known while a badge is deleted.
#[derive(Clone, Copy, Debug)]
pub struct DeleteBadgeFacts {
    pub found: Option<bool>,
    pub deleted: Option<Done>,
    /// The badge was taken from all users.
    pub pulled: bool,
}

/// What to do next while a badge is deleted.
#[derive(Clone, Copy, Debug, PartialEq, Eq)]
pub enum DeleteBadgeStep {
    FindBadge(Oid),
    Delete(Oid),
    PullFromUsers(Oid),
    Reply(&'static str),
    Refuse(Refusal),
}

pub open spec fn delete_badge_step(badge: Seq<char>, f: DeleteBadgeFacts) -> DeleteBadgeStep {
    let id = ids::oid_of(badge)->0;
    if ids::oid_of(badge) is None {
        DeleteBadgeStep::Refuse(failing(message(400, "Invalid badge ID")))
    } else if f.found is None {
        DeleteBadgeStep::FindBadge(id)
    } else if !f.found->0 {
        DeleteBadgeStep::Refuse(failing(message(404, "Badge not found")))
    } else if f.deleted is None {
        DeleteBadgeStep::Delete(id)
    } else if f.deleted->0 is Failed {
        DeleteBadgeStep::Refuse(failing(message(500, "Failed to delete badge")))
    } else if !f.pulled {
        DeleteBadgeStep::PullFromUsers(id)
    } else {
        DeleteBadgeStep::Reply("Badge deleted successfully")
    }
}

/// Decides the next step of deleting a badge.
pub fn delete_badge(badge: &str, f: &DeleteBadgeFacts) -> (r: DeleteBadgeStep)
    ensures
        r == delete_badge_step(badge@, *f),
{
    let id = match parse_oid(badge) {
        None => return DeleteBadgeStep::Refuse(failing(message(400, "Invalid badge ID"))),
        Some(id) => id,
    };
    match f.found {
        None => return DeleteBadgeStep::FindBadge(id),
        Some(false) => return DeleteBadgeStep::Refuse(failing(message(404, "Badge not found"))),
        Some(true) => {},
    }
    match f.deleted {
        None => return DeleteBadgeStep::Delete(id),
        Some(Done::Failed) => return DeleteBadgeStep::Refuse(
            failing(message(500, "Failed to delete badge")),
        ),
        Some(Done::Worked) => {},
    }
    if !f.pulled {
        DeleteBadgeStep::PullFromUsers(id)
    } else {
        DeleteBadgeStep::Reply("Badge deleted successfully")
    }
}

/// A badge that was found is deleted, then taken from all users; success is replied only after both.
pub proof fn law_deleted_badge_is_taken_from_users(
    badge: Seq<char>,
    f: DeleteBadgeFacts,
)
    requires
        ids::oid_of(badge) is Some,
    ensures
        ({
            let s = delete_badge_step(badge, f);
            let id = ids::oid_of(badge)->0;
            let found = f.found is Some && f.found->0;
            &&& f.found is None ==> s == DeleteBadgeStep::FindBadge(id)
            &&& found && f.deleted is None ==> s == DeleteBadgeStep::Delete(id)
            &&& found && f.deleted == Some(Done::Worked) && !f.pulled ==> s
                == DeleteBadgeStep::PullFromUsers(id)
            &&& found && f.deleted == Some(Done::Worked) && f.pulled <==> s is Reply
            &&& s is Delete ==> found && f.deleted is None
            &&& s is PullFromUsers ==> f.deleted == Some(Done::Worked)
        }),
{
}

/// A badge of a user.
#[derive(Clone, Copy, Debug, PartialEq, Eq, Structural)]
pub struct Assignment {
    pub id: Option<Oid>,
    pub badge: Oid,
}

/// The badges of a user without the one that was given as `id`.
pub open spec fn without_assignment(badges: Seq<Assignment>, id: Oid) -> Seq<Assignment>
    decreases badges.len(),
{
    if badges.len() == 0 {
        Seq::empty()
    } else if badges.last().id == Some(id) {
        without_assignment(badges.drop_last(), id)
    } else {
        without_assignment(badges.drop_last(), id).push(badges.last())
    }
}

/// Takes the badge that was given as `id` from a user.
pub fn remove_assignment(badges: &Vec<Assignment>, id: Oid) -> (r: Vec<Assignment>)
    ensures
        r@ == without_assignment(badges@, id),
        r@.len() <= badges@.len(),
{
    let mut out: Vec<Assignment> = Vec::new();
    let mut i: usize = 0;
    assert(badges@.take(0) =~= Seq::empty());
    while i < badges.len()
        invariant
            i <= badges.len(),
            out@ == without_assignment(badges@.take(i as int), id),
            out@.len() <= i,
        decreases badges.len() - i,
    {
        assert(badges@.take(i + 1).drop_last() =~= badges@.take(i as int));
        let b = badges[i];
        let gone = match b.id {
            None => false,
            Some(x) => x == id,
        };
        if !gone {
            out.push(b);
        }
        i += 1;
    }
    assert(badges@.take(i as int) =~= badges@);
    out
}

/// Whether one of the badges was given as `id`.
pub open spec fn is_assigned(badges: Seq<Assignment>, id: Oid) -> bool {
    exists|i: int| 0 <= i < badges.len() && (#[trigger] badges[i]).id == Some(id)
}

/// Taking a badge from a user makes the list shorter exactly where the user had it, and leaves
/// it nowhere.
pub proof fn law_removed_badge_is_gone(badges: Seq<Assignment>, id: Oid)
    ensures
        without_assignment(badges, id).len() < badges.len() <==> is_assigned(badges, id),
        without_assignment(badges, id).len() <= badges.len(),
        !is_assigned(without_assignment(badges, id), id),
    decreases badges.len(),
{
    if badges.len() > 0 {
        let rest = badges.drop_last();
        law_removed_badge_is_gone(rest, id);
        if is_assigned(rest, id) {
            let i = choose|i: int| 0 <= i < rest.len() && (#[trigger] rest[i]).id == Some(id);
            assert(badges[i].id == Some(id));
        }
        if is_assigned(badges, id) && !is_assigned(rest, id) {
            let i = choose|i: int| 0 <= i < badges.len() && (#[trigger] badges[i]).id == Some(id);
            if i < rest.len() {
                assert(rest[i].id == Some(id));
            }
        }
        let kept = without_assignment(rest, id);
        if badges.last().id != Some(id) && is_assigned(kept.push(badges.last()), id) {
            let all = kept.push(badges.last());
            let i = choose|i: int| 0 <= i < all.len() && (#[trigger] all[i]).id == Some(id);
            if i < kept.len() {
                assert(kept[i].id == Some(id));
            }
        }
    }
}

/// What is known while a badge is given to a user or taken from one.
#[derive(Clone, Copy, Debug)]
pub struct AssignFacts {
    pub user: Option<Lookup<()>>,
    pub badge_found: Option<bool>,
    /// Whether the list of the user held a badge twice.
    pub deduped: Option<bool>,
    /// The list without what it held twice was stored.
    pub cleaned: bool,
    /// Whether the user has the badge.
    pub has: Option<bool>,
    pub stored: Option<Done>,
    /// Whether the user could be loaded again.
    pub reloaded: Option<bool>,
    /// The user and their friends were told.
    pub told: bool,
}

/// What to do next while a badge is given to a user or taken from one.
#[derive(Debug, PartialEq, Eq)]
pub enum AssignStep {
    FindUser(Oid),
    FindBadge(Oid),
    /// Give each badge of the user an id, and look for badges that occur twice.
    PrepareBadges,
    /// Store the badges of the user without what occurred twice.
    StoreCleaned { user: Oid, badges: Vec<Assignment> },
    AskHas(Oid),
    /// Store the badges of the user, the new one last, with the time.
    StoreGiven { user: Oid, badges: Vec<Assignment> },
    /// Store the badges of the user, and those that are featured.
    StoreTaken { user: Oid, badges: Vec<Assignment>, featured: Vec<Oid> },
    Reload(Oid),
    /// Tell the user and their friends of the badges.
    TellOthers { user: Oid, event: &'static str },
    Reply(&'static str),
    Refuse(Refusal),
}

/// The view of `AssignStep`.
#[verifier::ext_equal]
pub enum AssignStepView {
    FindUser(Oid),
    FindBadge(Oid),
    PrepareBadges,
    StoreCleaned { user: Oid, badges: Seq<Assignment> },
    AskHas(Oid),
    StoreGiven { user: Oid, badges: Seq<Assignment> },
    StoreTaken { user: Oid, badges: Seq<Assignment>, featured: Seq<Oid> },
    Reload(Oid),
    TellOthers { user: Oid, event: &'static str },
    Reply(&'static str),
    Refuse(Refusal),
}

impl View for AssignStep {
    type V = AssignStepView;

    open spec fn view(&self) -> AssignStepView {
        match self {
            AssignStep::FindUser(a) => AssignStepView::FindUser(*a),
            AssignStep::FindBadge(a) => AssignStepView::FindBadge(*a),
            AssignStep::PrepareBadges => AssignStepView::PrepareBadges,
            AssignStep::StoreCleaned { user, badges } => AssignStepView::StoreCleaned {
                user: *user,
                badges: badges@,
            },
            AssignStep::AskHas(a) => AssignStepView::AskHas(*a),
            AssignStep::StoreGiven { user, badges } => AssignStepView::StoreGiven {
                user: *user,
                badges: badges@,
            },
            AssignStep::StoreTaken { user, badges, featured } => AssignStepView::StoreTaken {
                user: *user,
                badges: badges@,
                featured: featured@,
            },
            AssignStep::Reload(a) => AssignStepView::Reload(*a),
            AssignStep::TellOthers { user, event } => AssignStepView::TellOthers {
                user: *user,
                event: *event,
            },
            AssignStep::Reply(a) => AssignStepView::Reply(*a),
            AssignStep::Refuse(a) => AssignStepView::Refuse(*a),
        }
    }
}

fn copy_assignments(badges: &Vec<Assignment>) -> (r: Vec<Assignment>)
    ensures
        r@ == badges@,
{
    let mut out: Vec<Assignment> = Vec::new();
    let mut i: usize = 0;
    while i < badges.len()
        invariant
            i <= badges.len(),
            out@ == badges@.take(i as int),
        decreases badges.len() - i,
    {
        out.push(badges[i]);
        i += 1;
        assert(out@ =~= badges@.take(i as int));
    }
    assert(badges@.take(i as int) =~= badges@);
    out
}

pub open spec fn assign_step(
    user: Seq<char>,
    body: AssignBadgeBody,
    badges: Seq<Assignment>,
    fresh: Oid,
    f: AssignFacts,
) -> AssignStepView {
    let uid = ids::oid_of(user)->0;
    let bid = ids::oid_of(text::or_empty(body.badge_id))->0;
    if ids::oid_of(user) is None {
        AssignStepView::Refuse(failing(message(400, "Invalid user ID")))
    } else if ids::oid_of(text::or_empty(body.badge_id)) is None {
        AssignStepView::Refuse(failing(message(400, "Invalid badge ID")))
    } else if f.user is None {
        AssignStepView::FindUser(uid)
    } else if f.user->0 is Missing {
        AssignStepView::Refuse(failing(message(404, "User not found")))
    } else if f.user->0 is Failed {
        AssignStepView::Refuse(failing(message(500, "Failed to assign badge")))
    } else if f.badge_found is None {
        AssignStepView::FindBadge(bid)
    } else if !f.badge_found->0 {
        AssignStepView::Refuse(failing(message(404, "Badge not found")))
    } else if f.deduped is None {
        AssignStepView::PrepareBadges
    } else if f.deduped->0 && !f.cleaned {
        AssignStepView::StoreCleaned { user: uid, badges }
    } else if f.has is None {
        AssignStepView::AskHas(bid)
    } else if f.has->0 {
        AssignStepView::Refuse(
            failing(coded(message(400, "Ten użytkownik ma już tę odznakę."), "BADGE_ALREADY_ASSIGNED")),
        )
    } else if f.stored is None {
        AssignStepView::StoreGiven {
            user: uid,
            badges: badges.push(Assignment { id: Some(fresh), badge: bid }),
        }
    } else if f.stored->0 is Failed {
        AssignStepView::Refuse(failing(message(500, "Failed to assign badge")))
    } else if f.reloaded is None {
        AssignStepView::Reload(uid)
    } else if f.reloaded->0 && !f.told {
        AssignStepView::TellOthers { user: uid, event: "badge:assigned" }
    } else {
        AssignStepView::Reply("Badge assigned successfully")
    }
}

/// Decides the next step of giving a user a badge; `badges` are those of the user, once they
/// were prepared, and `fresh` is the id of the new one.
pub fn assign_badge(
    user: &str,
    body: &AssignBadgeBody,
    badges: &Vec<Assignment>,
    fresh: Oid,
    f: &AssignFacts,
) -> (r: AssignStep)
    ensures
        r@ == assign_step(user@, *body, badges@, fresh, *f),
{
    let uid = match parse_oid(user) {
        None => return AssignStep::Refuse(failing(message(400, "Invalid user ID"))),
        Some(id) => id,
    };
    let bid = match parse_oid(text::text_or_empty(&body.badge_id).as_str()) {
        None => return AssignStep::Refuse(failing(message(400, "Invalid badge ID"))),
        Some(id) => id,
    };
    match f.user {
        None => return AssignStep::FindUser(uid),
        Some(Lookup::Missing) => return AssignStep::Refuse(failing(message(404, "User not found"))),
        Some(Lookup::Failed) => return AssignStep::Refuse(
            failing(message(500, "Failed to assign badge")),
        ),
        Some(Lookup::Found(_)) => {},
    }
    match f.badge_found {
        None => return AssignStep::FindBadge(bid),
        Some(false) => return AssignStep::Refuse(failing(message(404, "Badge not found"))),
        Some(true) => {},
    }
    match f.deduped {
        None => return AssignStep::PrepareBadges,
        Some(deduped) => {
            if deduped && !f.cleaned {
                return AssignStep::StoreCleaned { user: uid, badges: copy_assignments(badges) };
            }
        },
    }
    match f.has {
        None => return AssignStep::AskHas(bid),
        Some(true) => return AssignStep::Refuse(
            failing(coded(message(400, "Ten użytkownik ma już tę odznakę."), "BADGE_ALREADY_ASSIGNED")),
        ),
        Some(false) => {},
    }
    match f.stored {
        None => {
            let mut all = copy_assignments(badges);
            all.push(Assignment { id: Some(fresh), badge: bid });
            return AssignStep::StoreGiven { user: uid, badges: all };
        },
        Some(Done::Failed) => return AssignStep::Refuse(
            failing(message(500, "Failed to assign badge")),
        ),
        Some(Done::Worked) => {},
    }
    match f.reloaded {
        None => AssignStep::Reload(uid),
        Some(reloaded) => if reloaded && !f.told {
            AssignStep::TellOthers { user: uid, event: "badge:assigned" }
        } else {
            AssignStep::Reply("Badge assigned successfully")
        },
    }
}

/// A badge is given only where it exists and the user does not have it; the others stay.
pub proof fn law_badges_are_given_once(
    user: Seq<char>,
    body: AssignBadgeBody,
    badges: Seq<Assignment>,
    fresh: Oid,
    f: AssignFacts,
)
    ensures
        assign_step(user, body, badges, fresh, f) matches AssignStepView::StoreGiven {
            badges: stored,
            ..
        } ==> f.badge_found == Some(true) && f.has == Some(false) && stored.drop_last() == badges
            && Some(stored.last().badge) == ids::oid_of(text::or_empty(body.badge_id)),
{
    assert(badges.push(
        Assignment { id: Some(fresh), badge: ids::oid_of(text::or_empty(body.badge_id))->0 },
    ).drop_last() =~= badges);
}

/// A user who was found and has not got a badge that was found is given it: the request is not refused
/// while nothing fails, the list that is stored is the old one with the badge at its end, and success
/// is replied only where it was stored.
pub proof fn law_badge_is_given(
    user: Seq<char>,
    body: AssignBadgeBody,
    badges: Seq<Assignment>,
    fresh: Oid,
    f: AssignFacts,
)
    requires
        ids::oid_of(user) is Some,
        ids::oid_of(text::or_empty(body.badge_id)) is Some,
        f.user matches Some(u) ==> u is Found,
        f.badge_found != Some(false),
        f.has != Some(true),
        f.stored != Some(Done::Failed),
    ensures
        ({
            let s = assign_step(user, body, badges, fresh, f);
            let uid = ids::oid_of(user)->0;
            let bid = ids::oid_of(text::or_empty(body.badge_id))->0;
            let known = f.user is Some && f.badge_found is Some && f.deduped is Some && f.cleaned
                && f.has is Some;
            &&& s !is Refuse
            &&& f.user is None ==> s == AssignStepView::FindUser(uid)
            &&& f.user is Some && f.badge_found is None ==> s == AssignStepView::FindBadge(bid)
            &&& known && f.stored is None ==> s == (AssignStepView::StoreGiven {
                user: uid,
                badges: badges.push(Assignment { id: Some(fresh), badge: bid }),
            })
            &&& f.user is Some && f.badge_found is Some && f.deduped is None ==> s is PrepareBadges
            &&& f.user is Some && f.badge_found is Some && f.deduped is Some && f.deduped->0
                && !f.cleaned ==> s is StoreCleaned
            &&& f.user is Some && f.badge_found is Some && f.deduped is Some && f.cleaned && f.has is None
                ==> s == AssignStepView::AskHas(bid)
            &&& known && f.stored is Some && f.reloaded is None ==> s == AssignStepView::Reload(uid)
            &&& known && f.stored is Some && f.reloaded is Some && !f.reloaded->0 ==> s is Reply
            &&& known && f.stored is Some && f.reloaded is Some && f.told ==> s is Reply
            &&& known && f.stored is Some && f.reloaded == Some(true) && !f.told ==> s == (
            AssignStepView::TellOthers { user: uid, event: "badge:assigned" })
            &&& s is Reply || s is TellOthers || s is Reload ==> f.stored == Some(Done::Worked)
            &&& s is StoreGiven ==> f.stored is None
            &&& s matches AssignStepView::StoreCleaned { user: u, badges: b } ==> !f.cleaned && u == uid
                && b == badges
            &&& s !is StoreTaken
        }),
{
}

/// Taking the badge that was just given brings back the badges of the user.
pub proof fn law_taking_undoes_giving(badges: Seq<Assignment>, badge: Oid, fresh: Oid)
    requires
        !is_assigned(badges, fresh),
    ensures
        without_assignment(badges.push(Assignment { id: Some(fresh), badge }), fresh) == badges,
{
    let all = badges.push(Assignment { id: Some(fresh), badge });
    assert(all.drop_last() =~= badges);
    lemma_nothing_is_taken(badges, fresh);
}

proof fn lemma_nothing_is_taken(badges: Seq<Assignment>, id: Oid)
    requires
        !is_assigned(badges, id),
    ensures
        without_assignment(badges, id) == badges,
    decreases badges.len(),
{
    if badges.len() == 0 {
        assert(without_assignment(badges, id) =~= badges);
    } else {
        let rest = badges.drop_last();
        if is_assigned(rest, id) {
            let i = choose|i: int| 0 <= i < rest.len() && (#[trigger] rest[i]).id == Some(id);
            assert(badges[i].id == Some(id));
        }
        lemma_nothing_is_taken(rest, id);
        assert(badges[badges.len() - 1].id != Some(id));
        assert(rest.push(badges.last()) =~= badges);
    }
}

pub open spec fn remove_step(
    user: Seq<char>,
    assignment: Seq<char>,
    badges: Seq<Assignment>,
    featured: Seq<Oid>,
    f: AssignFacts,
) -> AssignStepView {
    let uid = ids::oid_of(user)->0;
    if ids::oid_of(user) is None {
        AssignStepView::Refuse(failing(message(400, "Invalid user ID")))
    } else if ids::oid_of(assignment) is None {
        AssignStepView::Refuse(failing(message(400, "Invalid badge assignment ID")))
    } else if f.user is None {
        AssignStepView::FindUser(uid)
    } else if f.user->0 is Missing {
        AssignStepView::Refuse(failing(message(404, "User not found")))
    } else if f.user->0 is Failed {
        AssignStepView::Refuse(failing(message(500, "Failed to remove badge")))
    } else if !is_assigned(badges, ids::oid_of(assignment)->0) {
        AssignStepView::Refuse(failing(message(404, "Badge assignment not found")))
    } else if f.stored is None {
        AssignStepView::StoreTaken {
            user: uid,
            badges: without_assignment(badges, ids::oid_of(assignment)->0),
            featured: lists::without(featured, ids::oid_of(assignment)->0),
        }
    } else if f.stored->0 is Failed {
        AssignStepView::Refuse(failing(message(500, "Failed to remove badge")))
    } else if f.reloaded is None {
        AssignStepView::Reload(uid)
    } else if f.reloaded->0 && !f.told {
        AssignStepView::TellOthers { user: uid, event: "badge:removed" }
    } else {
        AssignStepView::Reply("Badge removed successfully")
    }
}

/// Decides the next step of taking a badge from a user; `badges` are those of the user and
/// `featured` the featured ones, once the user was found.
pub fn remove_badge(
    user: &str,
    assignment: &str,
    badges: &Vec<Assignment>,
    featured: &Vec<Oid>,
    f: &AssignFacts,
) -> (r: AssignStep)
    ensures
        r@ == remove_step(user@, assignment@, badges@, featured@, *f),
{
    let uid = match parse_oid(user) {
        None => return AssignStep::Refuse(failing(message(400, "Invalid user ID"))),
        Some(id) => id,
    };
    let aid = match parse_oid(assignment) {
        None => return AssignStep::Refuse(failing(message(400, "Invalid badge assignment ID"))),
        Some(id) => id,
    };
    match f.user {
        None => return AssignStep::FindUser(uid),
        Some(Lookup::Missing) => return AssignStep::Refuse(failing(message(404, "User not found"))),
        Some(Lookup::Failed) => return AssignStep::Refuse(
            failing(message(500, "Failed to remove badge")),
        ),
        Some(Lookup::Found(_)) => {},
    }
    proof {
        law_removed_badge_is_gone(badges@, aid);
    }
    let left = remove_assignment(badges, aid);
    if left.len() == badges.len() {
        return AssignStep::Refuse(failing(message(404, "Badge assignment not found")));
    }
    match f.stored {
        None => return AssignStep::StoreTaken {
            user: uid,
            badges: left,
            featured: remaining_featured(featured, aid),
        },
        Some(Done::Failed) => return AssignStep::Refuse(
            failing(message(500, "Failed to remove badge")),
        ),
        Some(Done::Worked) => {},
    }
    match f.reloaded {
        None => AssignStep::Reload(uid),
        Some(reloaded) => if reloaded && !f.told {
            AssignStep::TellOthers { user: uid, event: "badge:removed" }
        } else {
            AssignStep::Reply("Badge removed successfully")
        },
    }
}

/// A badge that a user has is taken from the list and from the featured ones, and nothing else is; the
/// request is not refused while nothing fails, and success is replied only where that was stored.
pub proof fn law_badge_is_taken(
    user: Seq<char>,
    assignment: Seq<char>,
    badges: Seq<Assignment>,
    featured: Seq<Oid>,
    f: AssignFacts,
    other: Oid,
)
    requires
        ids::oid_of(user) is Some,
        ids::oid_of(assignment) is Some,
        f.user matches Some(u) ==> u is Found,
        f.stored != Some(Done::Failed),
    ensures
        ({
            let s = remove_step(user, assignment, badges, featured, f);
            let uid = ids::oid_of(user)->0;
            let id = ids::oid_of(assignment)->0;
            let there = exists|i: int| 0 <= i < badges.len() && (#[trigger] badges[i]).id == Some(id);
            &&& f.user is None ==> s == AssignStepView::FindUser(uid)
            &&& f.user is Some && !there ==> s is Refuse
            &&& f.user is Some && there ==> s !is Refuse
            &&& f.user is Some && there && f.stored is None <==> s is StoreTaken
            &&& s matches AssignStepView::StoreTaken { user: u, badges: b, featured: l } ==> u == uid
                && !is_assigned(b, id) && b.len() < badges.len() && (l.contains(other)
                <==> featured.contains(other) && other != id)
            &&& f.user is Some && there && f.stored is Some && f.reloaded is Some && f.told ==> s is
                Reply
            &&& f.user is Some && there && f.stored is Some && f.reloaded is None ==> s
                == AssignStepView::Reload(uid)
            &&& f.user is Some && there && f.stored is Some && f.reloaded is Some && f.reloaded->0
                && !f.told ==> s is TellOthers
            &&& f.user is Some && there && f.stored is Some && f.reloaded is Some && !f.reloaded->0
                ==> s is Reply
            &&& s is Reply || s is TellOthers ==> f.stored == Some(Done::Worked)
            &&& s matches AssignStepView::TellOthers { user: u, event } ==> u == uid && event
                == "badge:removed" && !f.told
        }),
{
    law_removed_badge_is_gone(badges, ids::oid_of(assignment)->0);
    lists::law_without_removes_exactly(featured, ids::oid_of(assignment)->0);
}

/// The featured badges of a user after the one given as `id` was taken.
pub fn remaining_featured(featured: &Vec<Oid>, id: Oid) -> (r: Vec<Oid>)
    ensures
        r@ == lists::without(featured@, id),
{
    lists::without_oid(featured, id)
}

pub open spec fn user_badges_step(user: Seq<char>, found: Option<Lookup<()>>) -> AssignStepView {
    if ids::oid_of(user) is None {
        AssignStepView::Refuse(failing(message(400, "Invalid user ID")))
    } else {
        match found {
            None => AssignStepView::FindUser(ids::oid_of(user)->0),
            Some(Lookup::Missing) => AssignStepView::Refuse(failing(message(404, "User not found"))),
            Some(Lookup::Failed) => AssignStepView::Refuse(
                failing(message(500, "Failed to load user badges")),
            ),
            Some(Lookup::Found(_)) => AssignStepView::Reply(""),
        }
    }
}

/// Decides the next step of showing the badges of a user.
pub fn get_user_badges(user: &str, found: Option<Lookup<()>>) -> (r: AssignStep)
    ensures
        r@ == user_badges_step(user@, found),
{
    let id = match parse_oid(user) {
        None => return AssignStep::Refuse(failing(message(400, "Invalid user ID"))),
        Some(id) => id,
    };
    match found {
        None => AssignStep::FindUser(id),
        Some(Lookup::Missing) => AssignStep::Refuse(failing(message(404, "User not found"))),
        Some(Lookup::Failed) => AssignStep::Refuse(
            failing(message(500, "Failed to load user badges")),
        ),
        Some(Lookup::Found(_)) => AssignStep::Reply(""),
    }
}

/// What is known while a user is warned or a warning is taken back.
#[derive(Clone, Copy, Debug)]
pub struct WarnFacts {
    pub found: Option<bool>,
    pub created: Option<Done>,
    /// `Missing` where the user has no such warning.
    pub deleted: Option<Lookup<()>>,
    /// The warnings of the user were counted; how many they are, unless that failed.
    pub counted: Option<Option<u64>>,
    /// The user was told.
    pub told: bool,
    pub logged: bool,
}

/// How many warnings a user is told to have: none where they could not be counted.
pub open spec fn told_count(counted: Option<u64>) -> u64 {
    match counted {
        None => 0,
        Some(n) => n,
    }
}

/// What to do next while a user is warned or a warning is taken back.
#[derive(Debug, PartialEq, Eq)]
pub enum WarnStep {
    FindUser(Oid),
    /// Create a warning, of the severity that the text names.
    Create { user: Oid, reason: String, severity: Option<String> },
    Delete { warning: Oid, user: Oid },
    /// Count the warnings of the user.
    Count(Oid),
    /// Tell the user of the new warning, and how many there are.
    TellWarned { user: Oid, event: &'static str, count: u64 },
    /// Tell the user which warning was taken back, and how many are left.
    TellRevoked { user: Oid, event: &'static str, warning: Oid, count: u64 },
    Log { action: &'static str, user: Oid },
    /// Reply, with the number of warnings.
    Reply { message: &'static str, count: u64 },
    Refuse(Refusal),
}

/// The view of `WarnStep`.
#[verifier::ext_equal]
pub enum WarnStepView {
    FindUser(Oid),
    Create { user: Oid, reason: Seq<char>, severity: Option<Seq<char>> },
    Delete { warning: Oid, user: Oid },
    Count(Oid),
    TellWarned { user: Oid, event: &'static str, count: u64 },
    TellRevoked { user: Oid, event: &'static str, warning: Oid, count: u64 },
    Log { action: &'static str, user: Oid },
    Reply { message: &'static str, count: u64 },
    Refuse(Refusal),
}

impl View for WarnStep {
    type V = WarnStepView;

    open spec fn view(&self) -> WarnStepView {
        match self {
            WarnStep::FindUser(a) => WarnStepView::FindUser(*a),
            WarnStep::Create { user, reason, severity } => WarnStepView::Create {
                user: *user,
                reason: reason@,
                severity: text::opt(*severity),
            },
            WarnStep::Delete { warning, user } => WarnStepView::Delete {
                warning: *warning,
                user: *user,
            },
            WarnStep::Count(a) => WarnStepView::Count(*a),
            WarnStep::TellWarned { user, event, count } => WarnStepView::TellWarned {
                user: *user,
                event: *event,
                count: *count,
            },
            WarnStep::TellRevoked { user, event, warning, count } => WarnStepView::TellRevoked {
                user: *user,
                event: *event,
                warning: *warning,
                count: *count,
            },
            WarnStep::Log { action, user } => WarnStepView::Log { action: *action, user: *user },
            WarnStep::Reply { message, count } => WarnStepView::Reply {
                message: *message,
                count: *count,
            },
            WarnStep::Refuse(a) => WarnStepView::Refuse(*a),
        }
    }
}

/// The reason of a warning, without spaces around it.
pub open spec fn reason_of(body: WarnUserBody) -> Seq<char> {
    text::trimmed(text::or_empty(body.reason))
}

/// Reads the reason of a warning.
pub fn warning_reason(body: &WarnUserBody) -> (r: String)
    ensures
        r@ == reason_of(*body),
{
    text::trim(text::text_or_empty(&body.reason).as_str())
}

pub open spec fn warn_step(user: Seq<char>, body: WarnUserBody, f: WarnFacts) -> WarnStepView {
    let id = ids::oid_of(user)->0;
    if ids::oid_of(user) is None {
        WarnStepView::Refuse(no_user())
    } else if reason_of(body).len() == 0 {
        WarnStepView::Refuse(error(400, "Powód ostrzeżenia jest wymagany."))
    } else if reason_of(body).len() > WARNING_REASON_MAX_LENGTH {
        WarnStepView::Refuse(error(400, "Powód ostrzeżenia jest zbyt długi (maks. 1000 znaków)."))
    } else if f.found is None {
        WarnStepView::FindUser(id)
    } else if !f.found->0 {
        WarnStepView::Refuse(no_user())
    } else if f.created is None {
        WarnStepView::Create {
            user: id,
            reason: reason_of(body),
            severity: text::opt(body.severity),
        }
    } else if f.created->0 is Failed {
        WarnStepView::Refuse(error(500, "Nie udało się wystawić ostrzeżenia."))
    } else if f.counted is None {
        WarnStepView::Count(id)
    } else if !f.told {
        WarnStepView::TellWarned {
            user: id,
            event: "user:warned",
            count: told_count(f.counted->0),
        }
    } else if !f.logged {
        WarnStepView::Log { action: "user.warn", user: id }
    } else {
        WarnStepView::Reply {
            message: "Ostrzeżenie zostało wystawione.",
            count: told_count(f.counted->0),
        }
    }
}

/// Decides the next step of warning a user.
pub fn warn_user(user: &str, body: &WarnUserBody, f: &WarnFacts) -> (r: WarnStep)
    ensures
        r@ == warn_step(user@, *body, *f),
{
    let id = match parse_oid(user) {
        None => return WarnStep::Refuse(no_user()),
        Some(id) => id,
    };
    let reason = warning_reason(body);
    if reason.as_str().is_empty() {
        return WarnStep::Refuse(error(400, "Powód ostrzeżenia jest wymagany."));
    }
    if reason.as_str().unicode_len() > WARNING_REASON_MAX_LENGTH {
        return WarnStep::Refuse(error(400, "Powód ostrzeżenia jest zbyt długi (maks. 1000 znaków)."));
    }
    match f.found {
        None => return WarnStep::FindUser(id),
        Some(false) => return WarnStep::Refuse(no_user()),
        Some(true) => {},
    }
    match f.created {
        None => return WarnStep::Create {
            user: id,
            reason,
            severity: match &body.severity {
                None => None,
                Some(s) => Some(s.clone()),
            },
        },
        Some(Done::Failed) => return WarnStep::Refuse(
            error(500, "Nie udało się wystawić ostrzeżenia."),
        ),
        Some(Done::Worked) => {},
    }
    let count: u64 = match f.counted {
        None => return WarnStep::Count(id),
        Some(None) => 0,
        Some(Some(n)) => n,
    };
    if !f.told {
        WarnStep::TellWarned { user: id, event: "user:warned", count }
    } else if !f.logged {
        WarnStep::Log { action: "user.warn", user: id }
    } else {
        WarnStep::Reply { message: "Ostrzeżenie zostało wystawione.", count }
    }
}

/// What to do next while the warnings of a user are shown.
#[derive(Clone, Copy, Debug, PartialEq, Eq)]
pub enum WarningsStep {
    Load(Oid),
    /// Reply with the warnings, how many they are and how many the user has not acknowledged.
    Reply { total: usize, unacknowledged: usize },
    Refuse(Refusal),
}

/// Decides the next step of showing the warnings of a user. Each mark is whether one of them was
/// acknowledged.
pub fn list_user_warnings(user: &str, marks: &Vec<bool>, loaded: Option<Done>) -> (r: WarningsStep)
    ensures
        r == (if ids::oid_of(user@) is None {
            WarningsStep::Refuse(no_user())
        } else {
            match loaded {
                None => WarningsStep::Load(ids::oid_of(user@)->0),
                Some(Done::Failed) => WarningsStep::Refuse(
                    error(500, "Nie udało się pobrać ostrzeżeń."),
                ),
                Some(Done::Worked) => WarningsStep::Reply {
                    total: marks@.len() as usize,
                    unacknowledged: unset(marks@) as usize,
                },
            }
        }),
        ids::oid_of(user@) is Some && loaded is None ==> r == WarningsStep::Load(
            ids::oid_of(user@)->0,
        ),
        r is Reply <==> ids::oid_of(user@) is Some && loaded == Some(Done::Worked),
        r matches WarningsStep::Reply { total, .. } ==> total == marks@.len(),
{
    let id = match parse_oid(user) {
        None => return WarningsStep::Refuse(no_user()),
        Some(id) => id,
    };
    match loaded {
        None => WarningsStep::Load(id),
        Some(Done::Failed) => WarningsStep::Refuse(error(500, "Nie udało się pobrać ostrzeżeń.")),
        Some(Done::Worked) => WarningsStep::Reply {
            total: marks.len(),
            unacknowledged: unacknowledged(marks),
        },
    }
}

/// How many of the marks are not set.
pub open spec fn unset(marks: Seq<bool>) -> nat
    decreases marks.len(),
{
    if marks.len() == 0 {
        0
    } else {
        unset(marks.drop_last()) + if marks.last() {
            0nat
        } else {
            1
        }
    }
}

/// Counts the warnings that the user has not acknowledged; each mark is whether one was.
pub fn unacknowledged(marks: &Vec<bool>) -> (r: usize)
    ensures
        r == unset(marks@),
{
    let mut n: usize = 0;
    let mut i: usize = 0;
    assert(marks@.take(0) =~= Seq::empty());
    while i < marks.len()
        invariant
            i <= marks.len(),
            n == unset(marks@.take(i as int)),
            n <= i,
        decreases marks.len() - i,
    {
        assert(marks@.take(i + 1).drop_last() =~= marks@.take(i as int));
        if !marks[i] {
            n += 1;
        }
        i += 1;
    }
    assert(marks@.take(i as int) =~= marks@);
    n
}

pub open spec fn delete_warning_step(user: Seq<char>, warning: Seq<char>, f: WarnFacts) -> WarnStepView {
    let uid = ids::oid_of(user)->0;
    let wid = ids::oid_of(warning)->0;
    if ids::oid_of(user) is None {
        WarnStepView::Refuse(no_user())
    } else if ids::oid_of(warning) is None {
        WarnStepView::Refuse(error(404, "Ostrzeżenie nie istnieje."))
    } else if f.deleted is None {
        WarnStepView::Delete { warning: wid, user: uid }
    } else if f.deleted->0 is Missing {
        WarnStepView::Refuse(error(404, "Ostrzeżenie nie istnieje."))
    } else if f.deleted->0 is Failed {
        WarnStepView::Refuse(error(500, "Nie udało się usunąć ostrzeżenia."))
    } else if f.counted is None {
        WarnStepView::Count(uid)
    } else if !f.told {
        WarnStepView::TellRevoked {
            user: uid,
            event: "user:warning-revoked",
            warning: wid,
            count: told_count(f.counted->0),
        }
    } else if !f.logged {
        WarnStepView::Log { action: "user.warning.delete", user: uid }
    } else {
        WarnStepView::Reply {
            message: "Ostrzeżenie zostało usunięte.",
            count: told_count(f.counted->0),
        }
    }
}

/// Decides the next step of taking a warning back.
pub fn delete_user_warning(user: &str, warning: &str, f: &WarnFacts) -> (r: WarnStep)
    ensures
        r@ == delete_warning_step(user@, warning@, *f),
{
    let uid = match parse_oid(user) {
        None => return WarnStep::Refuse(no_user()),
        Some(id) => id,
    };
    let wid = match parse_oid(warning) {
        None => return WarnStep::Refuse(error(404, "Ostrzeżenie nie istnieje.")),
        Some(id) => id,
    };
    match f.deleted {
        None => return WarnStep::Delete { warning: wid, user: uid },
        Some(Lookup::Missing) => return WarnStep::Refuse(error(404, "Ostrzeżenie nie istnieje.")),
        Some(Lookup::Failed) => return WarnStep::Refuse(
            error(500, "Nie udało się usunąć ostrzeżenia."),
        ),
        Some(Lookup::Found(_)) => {},
    }
    let count: u64 = match f.counted {
        None => return WarnStep::Count(uid),
        Some(None) => 0,
        Some(Some(n)) => n,
    };
    if !f.told {
        WarnStep::TellRevoked { user: uid, event: "user:warning-revoked", warning: wid, count }
    } else if !f.logged {
        WarnStep::Log { action: "user.warning.delete", user: uid }
    } else {
        WarnStep::Reply { message: "Ostrzeżenie zostało usunięte.", count }
    }
}

/// A user who was found is warned for a reason of at most 1000 characters, and a warning is taken back:
/// neither is refused while nothing fails. Each is stored, counted, told to the user and logged, in that
/// order, and success is replied only after that.
pub proof fn law_warnings_are_given_and_taken_back(
    user: Seq<char>,
    body: WarnUserBody,
    warning: Seq<char>,
    f: WarnFacts,
)
    requires
        ids::oid_of(user) is Some,
    ensures
        ({
            let s = warn_step(user, body, f);
            let id = ids::oid_of(user)->0;
            let reason = text::trimmed(text::or_empty(body.reason));
            let found = 0 < reason.len() <= 1000 && f.found is Some && f.found->0;
            let made = found && f.created == Some(Done::Worked);
            let count: u64 = if f.counted is Some && f.counted->0 is Some {
                f.counted->0->0
            } else {
                0
            };
            &&& 0 < reason.len() <= 1000 && f.found is None ==> s == WarnStepView::FindUser(id)
            &&& found && f.created is None <==> s is Create
            &&& s is Create ==> s == (WarnStepView::Create {
                user: id,
                reason,
                severity: text::opt(body.severity),
            })
            &&& made && f.counted is None ==> s == WarnStepView::Count(id)
            &&& made && f.counted is Some && !f.told ==> s == (WarnStepView::TellWarned {
                user: id,
                event: "user:warned",
                count,
            })
            &&& made && f.counted is Some && f.told && !f.logged ==> s == (WarnStepView::Log {
                action: "user.warn",
                user: id,
            })
            &&& made && f.counted is Some && f.told && f.logged <==> s is Reply
            &&& s matches WarnStepView::Reply { message: m, count: n } ==> m
                == "Ostrzeżenie zostało wystawione." && n == count
            &&& s is TellWarned || s is Log || s is Count ==> made
            &&& reason.len() == 0 || reason.len() > 1000 ==> s is Refuse
        }),
        ({
            let s = delete_warning_step(user, warning, f);
            let id = ids::oid_of(user)->0;
            let wid = ids::oid_of(warning);
            let gone = wid is Some && f.deleted is Some && f.deleted->0 is Found;
            let count: u64 = if f.counted is Some && f.counted->0 is Some {
                f.counted->0->0
            } else {
                0
            };
            &&& wid is Some && f.deleted is None ==> s == (WarnStepView::Delete {
                warning: wid->0,
                user: id,
            })
            &&& gone && f.counted is None ==> s == WarnStepView::Count(id)
            &&& gone && f.counted is Some && !f.told ==> s == (WarnStepView::TellRevoked {
                user: id,
                event: "user:warning-revoked",
                warning: wid->0,
                count,
            })
            &&& gone && f.counted is Some && f.told && !f.logged ==> s == (WarnStepView::Log {
                action: "user.warning.delete",
                user: id,
            })
            &&& gone && f.counted is Some && f.told && f.logged <==> s is Reply
            &&& s is TellRevoked || s is Log || s is Count ==> gone
            &&& f.deleted is Some && f.deleted->0 !is Found ==> s is Refuse
        }),
{
}

} // verus!
