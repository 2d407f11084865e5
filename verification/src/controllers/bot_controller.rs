//! Bots: their owners manage them, and they write to the channels that they are members of.

use vstd::prelude::*;

use crate::ids;
use crate::ids::{Oid, parse_oid};
use crate::lists;
use crate::reply::{Access, Answer, Done, Lookup, Refusal, after, coded, message};
use crate::text;

verus! {

/// How many bots a user may have.
pub const MAX_BOTS_PER_USER: u64 = 10;

/// How long a message of a bot may be.
pub const MAX_BOT_MESSAGE_LEN: usize = 4000;

/// Request to make a bot.
pub struct CreateBotBody {
    pub username: Option<String>,
    pub display_name: Option<String>,
}

/// Request to change a bot.
pub struct UpdateBotBody {
    pub username: Option<String>,
    pub display_name: Option<String>,
    pub color: Option<i32>,
}

/// A message that a bot sends.
pub struct BotSendMessageBody {
    pub content: Option<String>,
}

/// The reply to a request that nobody is logged in for.
#[verifier::allow_in_spec]
pub fn unauthorized() -> Refusal
    returns
        message(401, "Unauthorized"),
{
    message(401, "Unauthorized")
}

/// The reply where the server fails.
#[verifier::allow_in_spec]
pub fn server_error() -> Refusal
    returns
        message(500, "Internal Server Error"),
{
    message(500, "Internal Server Error")
}

/// The reply where the user owns no such bot.
#[verifier::allow_in_spec]
pub fn no_bot() -> Refusal
    returns
        message(404, "Bot nie znaleziony."),
{
    message(404, "Bot nie znaleziony.")
}

/// The reply where a name is taken.
#[verifier::allow_in_spec]
pub fn name_taken() -> Refusal
    returns
        message(409, "Ta nazwa użytkownika jest już zajęta. Wybierz inną."),
{
    message(409, "Ta nazwa użytkownika jest już zajęta. Wybierz inną.")
}

/// The user that a request comes from.
pub open spec fn owner_of(user: Option<&str>) -> Option<Oid> {
    match user {
        None => None,
        Some(u) => ids::oid_of(u@),
    }
}

fn read_owner(user: Option<&str>) -> (r: Option<Oid>)
    ensures
        r == owner_of(user),
{
    match user {
        None => None,
        Some(u) => parse_oid(u),
    }
}

/// What to do next while the bots of a user are shown.
#[derive(Clone, Copy, Debug, PartialEq, Eq)]
pub enum ListBotsStep {
    Load(Oid),
    Reply,
    Refuse(Refusal),
}

/// Decides the next step of showing the bots of a user.
pub fn list_my_bots(user: Option<&str>, loaded: Option<Done>) -> (r: ListBotsStep)
    ensures
        r == (if owner_of(user) is None {
            ListBotsStep::Refuse(unauthorized())
        } else {
            match loaded {
                None => ListBotsStep::Load(owner_of(user)->0),
                Some(Done::Worked) => ListBotsStep::Reply,
                Some(Done::Failed) => ListBotsStep::Refuse(server_error()),
            }
        }),
        user is Some && ids::oid_of(user->0@) is Some ==> (loaded is None ==> r == ListBotsStep::Load(
            ids::oid_of(user->0@)->0,
        )) && (loaded == Some(Done::Worked) ==> r is Reply),
        r is Reply ==> loaded == Some(Done::Worked),
{
    let id = match read_owner(user) {
        None => return ListBotsStep::Refuse(unauthorized()),
        Some(id) => id,
    };
    match loaded {
        None => ListBotsStep::Load(id),
        Some(Done::Worked) => ListBotsStep::Reply,
        Some(Done::Failed) => ListBotsStep::Refuse(server_error()),
    }
}

/// The words for a display name that is longer than `max`.
pub fn display_name_too_long_text(max: u64) -> (r: String)
    ensures
        r@ == "Nazwa wyświetlana może mieć maksymalnie "@ + text::decimal(max as nat) + " znaków."@,
{
    text::join3(
        "Nazwa wyświetlana może mieć maksymalnie ",
        text::write_u64(max).as_str(),
        " znaków.",
    )
}

/// The display name that a request gives to a new bot.
pub open spec fn display_name_of(body: CreateBotBody) -> Seq<char> {
    text::trimmed(text::or_empty(body.display_name))
}

/// Reads the display name that a request gives to a new bot.
pub fn display_name(body: &CreateBotBody) -> (r: String)
    ensures
        r@ == display_name_of(*body),
{
    text::trim(text::text_or_empty(&body.display_name).as_str())
}

/// What is known while a bot is made.
#[derive(Clone, Copy, Debug)]
pub struct CreateFacts {
    /// How many bots the user has; 0 where they could not be counted.
    pub count: Option<u64>,
    pub taken: Option<Answer>,
    /// The bot was made, with its id where the database gave one.
    pub created: Option<Lookup<Option<Oid>>>,
    /// Whether the name is taken after the bot could not be made.
    pub taken_after: Option<bool>,
    /// A token was issued.
    pub issued: Option<Done>,
}

/// What to do next while a bot is made.
#[derive(Debug, PartialEq, Eq)]
pub enum CreateStep {
    CountBots(Oid),
    AskTaken(String),
    Create { owner: Oid, username: String, display_name: String },
    AskTakenAfter(String),
    IssueToken(Oid),
    ReplyCreated,
    /// Refuse with the words of `display_name_too_long_text`.
    RefuseLongName,
    Refuse(Refusal),
}

/// The view of `CreateStep`.
#[verifier::ext_equal]
pub enum CreateStepView {
    CountBots(Oid),
    AskTaken(Seq<char>),
    Create { owner: Oid, username: Seq<char>, display_name: Seq<char> },
    AskTakenAfter(Seq<char>),
    IssueToken(Oid),
    ReplyCreated,
    RefuseLongName,
    Refuse(Refusal),
}

impl View for CreateStep {
    type V = CreateStepView;

    open spec fn view(&self) -> CreateStepView {
        match self {
            CreateStep::CountBots(a) => CreateStepView::CountBots(*a),
            CreateStep::AskTaken(a) => CreateStepView::AskTaken(a@),
            CreateStep::Create { owner, username, display_name } => CreateStepView::Create {
                owner: *owner,
                username: username@,
                display_name: display_name@,
            },
            CreateStep::AskTakenAfter(a) => CreateStepView::AskTakenAfter(a@),
            CreateStep::IssueToken(a) => CreateStepView::IssueToken(*a),
            CreateStep::ReplyCreated => CreateStepView::ReplyCreated,
            CreateStep::RefuseLongName => CreateStepView::RefuseLongName,
            CreateStep::Refuse(a) => CreateStepView::Refuse(*a),
        }
    }
}

pub open spec fn create_step(
    user: Option<&str>,
    body: CreateBotBody,
    name: Seq<char>,
    name_valid: bool,
    max_display_name: usize,
    f: CreateFacts,
) -> CreateStepView {
    let owner = owner_of(user)->0;
    if owner_of(user) is None {
        CreateStepView::Refuse(unauthorized())
    } else if !name_valid {
        CreateStepView::Refuse(
            message(400, "Nazwa bota: 3–32 znaków, tylko małe litery, cyfry i _."),
        )
    } else if display_name_of(body).len() > max_display_name {
        CreateStepView::RefuseLongName
    } else if f.count is None {
        CreateStepView::CountBots(owner)
    } else if f.count->0 >= MAX_BOTS_PER_USER {
        CreateStepView::Refuse(message(400, "Osiągnięto limit 10 botów na konto."))
    } else if f.taken is None {
        CreateStepView::AskTaken(name)
    } else if f.taken->0 is Yes {
        CreateStepView::Refuse(name_taken())
    } else if f.taken->0 is Failed {
        CreateStepView::Refuse(server_error())
    } else if f.created is None {
        CreateStepView::Create { owner, username: name, display_name: display_name_of(body) }
    } else if f.created->0 !is Found && f.taken_after is None {
        CreateStepView::AskTakenAfter(name)
    } else if f.created->0 !is Found && f.taken_after->0 {
        CreateStepView::Refuse(name_taken())
    } else if f.created->0 !is Found || f.created->0->0 is None {
        CreateStepView::Refuse(server_error())
    } else {
        match f.issued {
            None => CreateStepView::IssueToken(f.created->0->0->0),
            Some(Done::Failed) => CreateStepView::Refuse(server_error()),
            Some(Done::Worked) => CreateStepView::ReplyCreated,
        }
    }
}

/// Decides the next step of making a bot; `name_valid` is whether its name is one.
pub fn create_bot(
    user: Option<&str>,
    body: &CreateBotBody,
    name: &str,
    name_valid: bool,
    max_display_name: usize,
    f: &CreateFacts,
) -> (r: CreateStep)
    ensures
        r@ == create_step(user, *body, name@, name_valid, max_display_name, *f),
{
    let owner = match read_owner(user) {
        None => return CreateStep::Refuse(unauthorized()),
        Some(id) => id,
    };
    if !name_valid {
        return CreateStep::Refuse(
            message(400, "Nazwa bota: 3–32 znaków, tylko małe litery, cyfry i _."),
        );
    }
    let shown = display_name(body);
    if shown.as_str().unicode_len() > max_display_name {
        return CreateStep::RefuseLongName;
    }
    match f.count {
        None => return CreateStep::CountBots(owner),
        Some(n) => {
            if n >= MAX_BOTS_PER_USER {
                return CreateStep::Refuse(message(400, "Osiągnięto limit 10 botów na konto."));
            }
        },
    }
    match f.taken {
        None => return CreateStep::AskTaken(name.to_owned()),
        Some(Answer::Yes) => return CreateStep::Refuse(name_taken()),
        Some(Answer::Failed) => return CreateStep::Refuse(server_error()),
        Some(Answer::No) => {},
    }
    let bot = match f.created {
        None => return CreateStep::Create {
            owner,
            username: name.to_owned(),
            display_name: shown,
        },
        Some(Lookup::Found(id)) => match id {
            None => return CreateStep::Refuse(server_error()),
            Some(id) => id,
        },
        Some(_) => match f.taken_after {
            None => return CreateStep::AskTakenAfter(name.to_owned()),
            Some(true) => return CreateStep::Refuse(name_taken()),
            Some(false) => return CreateStep::Refuse(server_error()),
        },
    };
    match f.issued {
        None => CreateStep::IssueToken(bot),
        Some(Done::Failed) => CreateStep::Refuse(server_error()),
        Some(Done::Worked) => CreateStep::ReplyCreated,
    }
}

/// A user with ten bots gets no further one, and a name that is taken is not given twice.
pub proof fn law_bots_are_limited(
    user: Option<&str>,
    body: CreateBotBody,
    name: Seq<char>,
    name_valid: bool,
    max_display_name: usize,
    f: CreateFacts,
)
    ensures
        create_step(user, body, name, name_valid, max_display_name, f) is Create ==> name_valid
            && f.count is Some && f.count->0 < MAX_BOTS_PER_USER && f.taken == Some(Answer::No),
{
}

/// A signed-in user with fewer than ten bots makes another under a free, valid name: the request is not
/// refused while nothing fails, the bot is made with that name for that user, and replied with its token
/// only where both were made.
pub proof fn law_bot_is_made(
    user: Option<&str>,
    body: CreateBotBody,
    name: Seq<char>,
    name_valid: bool,
    max_display_name: usize,
    f: CreateFacts,
)
    requires
        user is Some && ids::oid_of(user->0@) is Some,
    ensures
        ({
            let s = create_step(user, body, name, name_valid, max_display_name, f);
            let owner = ids::oid_of(user->0@)->0;
            let shown = text::trimmed(text::or_empty(body.display_name));
            let fits = name_valid && shown.len() <= max_display_name && (f.count is None || f.count->0
                < 10) && (f.taken is None || f.taken == Some(Answer::No));
            let made = f.created is Some && f.created->0 is Found && f.created->0->0 is Some;
            &&& fits && (f.created is None || made) && f.issued != Some(Done::Failed) ==> s !is Refuse
                && s !is RefuseLongName
            &&& fits && f.count is None ==> s == CreateStepView::CountBots(owner)
            &&& fits && f.count is Some && f.taken is None ==> s == CreateStepView::AskTaken(name)
            &&& fits && f.count is Some && f.taken is Some && f.created is None ==> s == (
            CreateStepView::Create { owner, username: name, display_name: shown })
            &&& fits && f.count is Some && f.taken is Some && made && f.issued is None ==> s
                == CreateStepView::IssueToken(f.created->0->0->0)
            &&& fits && f.count is Some && f.taken is Some && made && f.issued == Some(Done::Worked)
                <==> s is ReplyCreated
            &&& s is Create ==> f.created is None && fits
            &&& f.count is Some && f.count->0 >= 10 && name_valid && shown.len() <= max_display_name
                ==> s is Refuse
            &&& name_valid && shown.len() > max_display_name ==> s is RefuseLongName
            &&& !name_valid ==> s is Refuse
        }),
{
}

/// What the rules read of a bot.
#[derive(Clone, Copy, Debug, PartialEq, Eq)]
pub struct Bot {
    pub id: Option<Oid>,
    pub owner: Option<Oid>,
}

/// How a request on a bot stands.
#[derive(Clone, Copy, Debug, PartialEq, Eq)]
pub enum OwnedBot {
    Find(Oid),
    Ready(Oid),
    Refuse(Refusal),
}

/// How a request of `user` on the bot `bot` stands: only its owner sees it.
pub open spec fn owned(user: Option<&str>, bot: Seq<char>, found: Option<Lookup<Bot>>) -> OwnedBot {
    if owner_of(user) is None {
        OwnedBot::Refuse(unauthorized())
    } else if ids::oid_of(bot) is None {
        OwnedBot::Refuse(no_bot())
    } else if found is None {
        OwnedBot::Find(ids::oid_of(bot)->0)
    } else if found->0 is Failed {
        OwnedBot::Refuse(server_error())
    } else if found->0 is Missing || found->0->0.owner != owner_of(user) {
        OwnedBot::Refuse(no_bot())
    } else if found->0->0.id is None {
        OwnedBot::Refuse(server_error())
    } else {
        OwnedBot::Ready(found->0->0.id->0)
    }
}

/// Finds how a request on a bot stands.
pub fn owned_bot(user: Option<&str>, bot: &str, found: Option<Lookup<Bot>>) -> (r: OwnedBot)
    ensures
        r == owned(user, bot@, found),
{
    let owner = match read_owner(user) {
        None => return OwnedBot::Refuse(unauthorized()),
        Some(id) => id,
    };
    let id = match parse_oid(bot) {
        None => return OwnedBot::Refuse(no_bot()),
        Some(id) => id,
    };
    match found {
        None => OwnedBot::Find(id),
        Some(Lookup::Failed) => OwnedBot::Refuse(server_error()),
        Some(Lookup::Missing) => OwnedBot::Refuse(no_bot()),
        Some(Lookup::Found(b)) => {
            let mine = match b.owner {
                None => false,
                Some(o) => o == owner,
            };
            if !mine {
                return OwnedBot::Refuse(no_bot());
            }
            match b.id {
                None => OwnedBot::Refuse(server_error()),
                Some(id) => OwnedBot::Ready(id),
            }
        },
    }
}

/// Only the owner of a bot gets to act on it.
pub proof fn law_bots_obey_their_owner(user: Option<&str>, bot: Seq<char>, found: Option<Lookup<Bot>>)
    ensures
        owned(user, bot, found) is Ready ==> owner_of(user) is Some && found is Some && found->0
            is Found && found->0->0.owner == owner_of(user),
{
}

/// The owner of a bot reaches it, and nobody else.
pub proof fn law_owner_reaches_the_bot(
    user: Option<&str>,
    bot: Seq<char>,
    found: Option<Lookup<Bot>>,
)
    ensures
        ({
            let s = owned(user, bot, found);
            let signed_in = user is Some && ids::oid_of(user->0@) is Some;
            let own = found is Some && found->0 is Found && found->0->0.owner is Some
                && found->0->0.owner == ids::oid_of(user->0@);
            &&& signed_in && ids::oid_of(bot) is Some && found is None <==> s is Find
            &&& s is Find ==> s == OwnedBot::Find(ids::oid_of(bot)->0)
            &&& signed_in && ids::oid_of(bot) is Some && own && found->0->0.id is Some <==> s is Ready
            &&& s is Ready ==> s == OwnedBot::Ready(found->0->0.id->0)
            &&& !signed_in ==> s == OwnedBot::Refuse(message(401, "Unauthorized"))
            &&& signed_in && ids::oid_of(bot) is Some && found is Some && found->0 !is Failed && !own
                ==> s == OwnedBot::Refuse(message(404, "Bot nie znaleziony."))
        }),
{
}

/// The present profile of a bot.
pub struct BotProfile {
    pub username: String,
    pub display_name: Option<String>,
    pub color: Option<i32>,
}

/// The display name that a profile shows.
pub open spec fn shown_name(name: Option<String>) -> Option<Seq<char>> {
    match name {
        None => None,
        Some(n) => if text::trimmed(n@).len() == 0 {
            None
        } else {
            Some(text::trimmed(n@))
        },
    }
}

fn read_shown_name(name: &Option<String>) -> (r: Option<String>)
    ensures
        text::opt(r) == shown_name(*name),
{
    match name {
        None => None,
        Some(n) => {
            let t = text::trim(n.as_str());
            if t.as_str().is_empty() {
                None
            } else {
                Some(t)
            }
        },
    }
}

/// Whether a request gives a bot another name; `name` is the name that it asks for.
pub open spec fn renames(body: UpdateBotBody, name: Seq<char>, bot: BotProfile) -> bool {
    body.username is Some && name != bot.username@
}

/// Whether a request changes what others see of a bot.
pub open spec fn changes_profile(body: UpdateBotBody, name: Seq<char>, bot: BotProfile) -> bool {
    renames(body, name, bot) || (body.display_name is Some && shown_name(body.display_name)
        != shown_name(bot.display_name)) || (body.color is Some && bot.color != body.color)
}

fn same_opt(a: &Option<String>, b: &Option<String>) -> (r: bool)
    ensures
        r == (text::opt(*a) == text::opt(*b)),
{
    match (a, b) {
        (None, None) => true,
        (Some(x), Some(y)) => text::same_text(x.as_str(), y.as_str()),
        _ => false,
    }
}

/// Finds whether a request changes what others see of a bot.
pub fn profile_changed(body: &UpdateBotBody, name: &str, bot: &BotProfile) -> (r: bool)
    ensures
        r == changes_profile(*body, name@, *bot),
{
    if body.username.is_some() && !text::same_text(name, bot.username.as_str()) {
        return true;
    }
    if body.display_name.is_some() && !same_opt(
        &read_shown_name(&body.display_name),
        &read_shown_name(&bot.display_name),
    ) {
        return true;
    }
    match body.color {
        None => false,
        Some(c) => match bot.color {
            None => true,
            Some(d) => c != d,
        },
    }
}

/// The display name that is stored for a bot that a request gives one: none where it is blank.
pub fn stored_display_name(body: &UpdateBotBody) -> (r: Option<String>)
    ensures
        text::opt(r) == shown_name(body.display_name),
{
    read_shown_name(&body.display_name)
}

/// The name that is stored for a bot: none where it keeps the one that it has.
pub fn stored_username(body: &UpdateBotBody, name: &str, bot: &BotProfile) -> (r: Option<String>)
    ensures
        text::opt(r) == (if renames(*body, name@, *bot) {
            Some(name@)
        } else {
            None
        }),
{
    if body.username.is_some() && !text::same_text(name, bot.username.as_str()) {
        Some(name.to_owned())
    } else {
        None
    }
}

/// What is known while a bot is changed.
#[derive(Clone, Copy, Debug)]
pub struct UpdateFacts {
    pub found: Option<Lookup<Bot>>,
    pub taken: Option<Answer>,
    pub stored: Option<Lookup<()>>,
    /// Whether the name is taken after the change could not be stored.
    pub taken_after: Option<bool>,
    /// Whether the bot could be loaded again.
    pub reloaded: Option<bool>,
    /// Those who see the bot were told.
    pub told: bool,
}

/// What a change stores in the account of a bot, besides the time.
#[derive(Debug, PartialEq, Eq)]
pub struct BotPatch {
    /// The new name, where it changes.
    pub username: Option<String>,
    pub sets_display_name: bool,
    /// The display name that is set; none takes it away.
    pub display_name: Option<String>,
    pub color: Option<i32>,
}

/// The view of `BotPatch`.
#[verifier::ext_equal]
pub struct BotPatchView {
    pub username: Option<Seq<char>>,
    pub sets_display_name: bool,
    pub display_name: Option<Seq<char>>,
    pub color: Option<i32>,
}

impl View for BotPatch {
    type V = BotPatchView;

    open spec fn view(&self) -> BotPatchView {
        BotPatchView {
            username: text::opt(self.username),
            sets_display_name: self.sets_display_name,
            display_name: text::opt(self.display_name),
            color: self.color,
        }
    }
}

/// What to do next while a bot is changed.
#[derive(Debug, PartialEq, Eq)]
pub enum UpdateStep {
    Find(Oid),
    AskTaken { bot: Oid, name: String },
    Store { bot: Oid, patch: BotPatch },
    AskTakenAfter { bot: Oid, name: String },
    Reload(Oid),
    /// Tell those who share a channel with the bot.
    TellOthers(Oid),
    Reply,
    /// Refuse with the words of `display_name_too_long_text`.
    RefuseLongName,
    Refuse(Refusal),
}

/// The view of `UpdateStep`.
#[verifier::ext_equal]
pub enum UpdateStepView {
    Find(Oid),
    AskTaken { bot: Oid, name: Seq<char> },
    Store { bot: Oid, patch: BotPatchView },
    AskTakenAfter { bot: Oid, name: Seq<char> },
    Reload(Oid),
    TellOthers(Oid),
    Reply,
    RefuseLongName,
    Refuse(Refusal),
}

impl View for UpdateStep {
    type V = UpdateStepView;

    open spec fn view(&self) -> UpdateStepView {
        match self {
            UpdateStep::Find(a) => UpdateStepView::Find(*a),
            UpdateStep::AskTaken { bot, name } => UpdateStepView::AskTaken {
                bot: *bot,
                name: name@,
            },
            UpdateStep::Store { bot, patch } => UpdateStepView::Store { bot: *bot, patch: patch@ },
            UpdateStep::AskTakenAfter { bot, name } => UpdateStepView::AskTakenAfter {
                bot: *bot,
                name: name@,
            },
            UpdateStep::Reload(a) => UpdateStepView::Reload(*a),
            UpdateStep::TellOthers(a) => UpdateStepView::TellOthers(*a),
            UpdateStep::Reply => UpdateStepView::Reply,
            UpdateStep::RefuseLongName => UpdateStepView::RefuseLongName,
            UpdateStep::Refuse(a) => UpdateStepView::Refuse(*a),
        }
    }
}

/// What a change stores in the account of a bot.
pub open spec fn patch_of(body: UpdateBotBody, name: Seq<char>, bot: BotProfile) -> BotPatchView {
    BotPatchView {
        username: if renames(body, name, bot) {
            Some(name)
        } else {
            None
        },
        sets_display_name: body.display_name is Some,
        display_name: shown_name(body.display_name),
        color: body.color,
    }
}

/// Makes what a change stores in the account of a bot.
pub fn make_patch(body: &UpdateBotBody, name: &str, bot: &BotProfile) -> (r: BotPatch)
    ensures
        r@ == patch_of(*body, name@, *bot),
{
    BotPatch {
        username: stored_username(body, name, bot),
        sets_display_name: body.display_name.is_some(),
        display_name: stored_display_name(body),
        color: body.color,
    }
}

pub open spec fn update_step(
    user: Option<&str>,
    bot: Seq<char>,
    body: UpdateBotBody,
    name: Seq<char>,
    name_valid: bool,
    profile: BotProfile,
    max_display_name: usize,
    f: UpdateFacts,
) -> UpdateStepView {
    let nothing = !renames(body, name, profile) && body.display_name is None && body.color is None;
    match owned(user, bot, f.found) {
        OwnedBot::Refuse(r) => UpdateStepView::Refuse(r),
        OwnedBot::Find(id) => UpdateStepView::Find(id),
        OwnedBot::Ready(id) => if body.username is Some && !name_valid {
            UpdateStepView::Refuse(
                message(400, "Nazwa użytkownika: 3–32 znaków, tylko małe litery, cyfry i _."),
            )
        } else if renames(body, name, profile) && f.taken is None {
            UpdateStepView::AskTaken { bot: id, name }
        } else if renames(body, name, profile) && f.taken->0 is Yes {
            UpdateStepView::Refuse(name_taken())
        } else if renames(body, name, profile) && f.taken->0 is Failed {
            UpdateStepView::Refuse(server_error())
        } else if text::trimmed(text::or_empty(body.display_name)).len() > max_display_name {
            UpdateStepView::RefuseLongName
        } else if !nothing && f.stored is None {
            UpdateStepView::Store { bot: id, patch: patch_of(body, name, profile) }
        } else if !nothing && f.stored->0 is Missing {
            UpdateStepView::Refuse(no_bot())
        } else if !nothing && f.stored->0 is Failed && body.username is Some && f.taken_after is None {
            UpdateStepView::AskTakenAfter { bot: id, name }
        } else if !nothing && f.stored->0 is Failed {
            UpdateStepView::Refuse(
                if body.username is Some && f.taken_after->0 {
                    name_taken()
                } else {
                    server_error()
                },
            )
        } else if f.reloaded is None {
            UpdateStepView::Reload(id)
        } else if !f.reloaded->0 {
            UpdateStepView::Refuse(server_error())
        } else if !nothing && changes_profile(body, name, profile) && !f.told {
            UpdateStepView::TellOthers(id)
        } else {
            UpdateStepView::Reply
        },
    }
}

/// Decides the next step of changing a bot. `name` is the name that the request asks for, and
/// `profile` what the bot shows at present, once it was found.
pub fn update_bot(
    user: Option<&str>,
    bot: &str,
    body: &UpdateBotBody,
    name: &str,
    name_valid: bool,
    profile: &BotProfile,
    max_display_name: usize,
    f: &UpdateFacts,
) -> (r: UpdateStep)
    ensures
        r@ == update_step(user, bot@, *body, name@, name_valid, *profile, max_display_name, *f),
{
    let id = match owned_bot(user, bot, f.found) {
        OwnedBot::Refuse(r) => return UpdateStep::Refuse(r),
        OwnedBot::Find(id) => return UpdateStep::Find(id),
        OwnedBot::Ready(id) => id,
    };
    if body.username.is_some() && !name_valid {
        return UpdateStep::Refuse(
            message(400, "Nazwa użytkownika: 3–32 znaków, tylko małe litery, cyfry i _."),
        );
    }
    let renamed = body.username.is_some() && !text::same_text(name, profile.username.as_str());
    if renamed {
        match f.taken {
            None => return UpdateStep::AskTaken { bot: id, name: name.to_owned() },
            Some(Answer::Yes) => return UpdateStep::Refuse(name_taken()),
            Some(Answer::Failed) => return UpdateStep::Refuse(server_error()),
            Some(Answer::No) => {},
        }
    }
    let display = text::trim(text::text_or_empty(&body.display_name).as_str());
    if display.as_str().unicode_len() > max_display_name {
        return UpdateStep::RefuseLongName;
    }
    let nothing = !renamed && body.display_name.is_none() && body.color.is_none();
    if !nothing {
        match f.stored {
            None => return UpdateStep::Store { bot: id, patch: make_patch(body, name, profile) },
            Some(Lookup::Missing) => return UpdateStep::Refuse(no_bot()),
            Some(Lookup::Failed) => {
                if body.username.is_some() {
                    match f.taken_after {
                        None => return UpdateStep::AskTakenAfter { bot: id, name: name.to_owned() },
                        Some(true) => return UpdateStep::Refuse(name_taken()),
                        Some(false) => {},
                    }
                }
                return UpdateStep::Refuse(server_error());
            },
            Some(Lookup::Found(_)) => {},
        }
    }
    match f.reloaded {
        None => UpdateStep::Reload(id),
        Some(false) => UpdateStep::Refuse(server_error()),
        Some(true) => if !nothing && profile_changed(body, name, profile) && !f.told {
            UpdateStep::TellOthers(id)
        } else {
            UpdateStep::Reply
        },
    }
}

/// The owner changes a bot: the request is not refused while nothing fails; only what was asked for is
/// changed, a new name only where it is valid and free, and those who see the bot are told where
/// something they see has changed.
pub proof fn law_owner_changes_the_bot(
    user: Option<&str>,
    bot: Seq<char>,
    body: UpdateBotBody,
    name: Seq<char>,
    name_valid: bool,
    profile: BotProfile,
    max_display_name: usize,
    f: UpdateFacts,
)
    requires
        owned(user, bot, f.found) is Ready,
    ensures
        ({
            let s = update_step(user, bot, body, name, name_valid, profile, max_display_name, f);
            let id = owned(user, bot, f.found)->Ready_0;
            let renamed = body.username is Some && name != profile.username@;
            let nothing = !renamed && body.display_name is None && body.color is None;
            let fits = (body.username is Some ==> name_valid) && (renamed ==> f.taken is None
                || f.taken == Some(Answer::No)) && text::trimmed(
                text::or_empty(body.display_name),
            ).len() <= max_display_name;
            let known = renamed ==> f.taken is Some;
            &&& fits && (f.stored is None || f.stored->0 is Found) && f.reloaded != Some(false) ==> s
                !is Refuse && s !is RefuseLongName
            &&& fits && known && !nothing && f.stored is None <==> s is Store
            &&& s matches UpdateStepView::Store { bot: b, patch } ==> b == id && (patch.username is Some
                <==> renamed) && (renamed ==> patch.username->0 == name) && (patch.sets_display_name
                <==> body.display_name is Some) && (patch.display_name is Some ==> body.display_name
                is Some && patch.display_name->0 == text::trimmed(body.display_name->0@)
                && patch.display_name->0.len() > 0) && patch.color == body.color
            &&& s matches UpdateStepView::AskTaken { bot: b, name: n } ==> b == id && n == name
                && f.taken is None && renamed
            &&& s is Reload ==> s == UpdateStepView::Reload(id) && f.reloaded is None && (nothing
                || f.stored is Some)
            &&& s is TellOthers ==> s == UpdateStepView::TellOthers(id) && !f.told && !nothing
            &&& s is Reply || s is TellOthers ==> f.reloaded is Some && f.reloaded->0 && (nothing || (
            f.stored is Some && f.stored->0 is Found))
            &&& s is Reply && !nothing && renamed ==> f.told
            &&& body.username is Some && !name_valid ==> s is Refuse
            &&& renamed && name_valid && f.taken == Some(Answer::Yes) ==> s is Refuse
        }),
{
}

/// Those who share a channel with a bot, each once, without the bot; `channels` are the lists of
/// members of the channels.
pub open spec fn watchers(channels: Seq<Vec<String>>, bot: Seq<char>) -> Seq<Seq<char>>
    decreases channels.len(),
{
    if channels.len() == 0 {
        Seq::empty()
    } else {
        lists::with_all(
            watchers(channels.drop_last(), bot),
            lists::without(text::texts(channels.last()@), bot),
        )
    }
}

/// Finds who is told that the profile of a bot has changed.
pub fn emit_bot_profile_updated(channels: &Vec<Vec<String>>, bot: &str) -> (r: Vec<String>)
    ensures
        text::texts(r@) == watchers(channels@, bot@),
{
    let mut out: Vec<String> = Vec::new();
    let mut i: usize = 0;
    assert(channels@.take(0) =~= Seq::empty());
    assert(text::texts(out@) =~= Seq::empty());
    while i < channels.len()
        invariant
            i <= channels.len(),
            text::texts(out@) == watchers(channels@.take(i as int), bot@),
        decreases channels.len() - i,
    {
        assert(channels@.take(i + 1).drop_last() =~= channels@.take(i as int));
        let others = lists::without_text(&channels[i], bot);
        lists::add_texts(&mut out, &others);
        i += 1;
    }
    assert(channels@.take(i as int) =~= channels@);
    out
}

/// Everyone who shares a channel with a bot hears of it, once, and not the bot itself.
pub proof fn law_everyone_who_sees_the_bot_hears_of_it(
    channels: Seq<Vec<String>>,
    more: Vec<String>,
    bot: Seq<char>,
    who: Seq<char>,
)
    ensures
        watchers(channels.push(more), bot).contains(who) <==> watchers(channels, bot).contains(who) || (
        text::texts(more@).contains(who) && who != bot),
        watchers(channels, bot).no_duplicates() ==> watchers(
            channels.push(more),
            bot,
        ).no_duplicates(),
        watchers(Seq::empty(), bot).len() == 0,
{
    assert(channels.push(more).drop_last() =~= channels);
    lists::law_without_removes_exactly(text::texts(more@), bot);
    lists::law_with_all_members(
        watchers(channels, bot),
        lists::without(text::texts(more@), bot),
    );
}

/// What to do next while the token of a bot is renewed.
#[derive(Clone, Copy, Debug, PartialEq, Eq)]
pub enum TokenStep {
    Find(Oid),
    IssueToken(Oid),
    Reply,
    Refuse(Refusal),
}

/// Decides the next step of renewing the token of a bot.
pub fn regenerate_bot_token(
    user: Option<&str>,
    bot: &str,
    found: Option<Lookup<Bot>>,
    issued: Option<Done>,
) -> (r: TokenStep)
    ensures
        r == (match owned(user, bot@, found) {
            OwnedBot::Refuse(refusal) => TokenStep::Refuse(refusal),
            OwnedBot::Find(id) => TokenStep::Find(id),
            OwnedBot::Ready(id) => match issued {
                None => TokenStep::IssueToken(id),
                Some(Done::Worked) => TokenStep::Reply,
                Some(Done::Failed) => TokenStep::Refuse(server_error()),
            },
        }),
        user is Some && ids::oid_of(user->0@) is Some && ids::oid_of(bot@) is Some ==> (found is None ==> r
            == TokenStep::Find(ids::oid_of(bot@)->0)) && (found is Some && found->0 is Found
            && found->0->0.owner == ids::oid_of(user->0@) && found->0->0.id is Some ==> (issued is None
            ==> r == TokenStep::IssueToken(found->0->0.id->0)) && (issued == Some(Done::Worked) ==> r is
            Reply)),
        r is IssueToken || r is Reply ==> found is Some && found->0 is Found && user is Some
            && found->0->0.owner == ids::oid_of(user->0@),
        r is Reply ==> issued == Some(Done::Worked),
{
    match owned_bot(user, bot, found) {
        OwnedBot::Refuse(refusal) => TokenStep::Refuse(refusal),
        OwnedBot::Find(id) => TokenStep::Find(id),
        OwnedBot::Ready(id) => match issued {
            None => TokenStep::IssueToken(id),
            Some(Done::Worked) => TokenStep::Reply,
            Some(Done::Failed) => TokenStep::Refuse(server_error()),
        },
    }
}

/// What is known while a bot is deleted. What fails on the way does not stop the deletion.
#[derive(Clone, Copy, Debug)]
pub struct DeleteFacts {
    pub found: Option<Lookup<Bot>>,
    pub token_revoked: bool,
    pub left_channels: bool,
    pub deleted: bool,
}

/// What to do next while a bot is deleted.
#[derive(Clone, Copy, Debug, PartialEq, Eq)]
pub enum DeleteStep {
    Find(Oid),
    RevokeToken(Oid),
    LeaveChannels(Oid),
    Delete(Oid),
    Reply(&'static str),
    Refuse(Refusal),
}

pub open spec fn delete_step(user: Option<&str>, bot: Seq<char>, f: DeleteFacts) -> DeleteStep {
    match owned(user, bot, f.found) {
        OwnedBot::Refuse(refusal) => DeleteStep::Refuse(refusal),
        OwnedBot::Find(id) => DeleteStep::Find(id),
        OwnedBot::Ready(id) => if !f.token_revoked {
            DeleteStep::RevokeToken(id)
        } else if !f.left_channels {
            DeleteStep::LeaveChannels(id)
        } else if !f.deleted {
            DeleteStep::Delete(id)
        } else {
            DeleteStep::Reply("Bot usunięty.")
        },
    }
}

/// Decides the next step of deleting a bot.
pub fn delete_bot(user: Option<&str>, bot: &str, f: &DeleteFacts) -> (r: DeleteStep)
    ensures
        r == delete_step(user, bot@, *f),
{
    match owned_bot(user, bot, f.found) {
        OwnedBot::Refuse(refusal) => DeleteStep::Refuse(refusal),
        OwnedBot::Find(id) => DeleteStep::Find(id),
        OwnedBot::Ready(id) => if !f.token_revoked {
            DeleteStep::RevokeToken(id)
        } else if !f.left_channels {
            DeleteStep::LeaveChannels(id)
        } else if !f.deleted {
            DeleteStep::Delete(id)
        } else {
            DeleteStep::Reply("Bot usunięty.")
        },
    }
}

/// A bot is deleted only after its token was revoked and it has left its channels.
pub proof fn law_deleted_bots_leave_nothing(user: Option<&str>, bot: Seq<char>, f: DeleteFacts)
    ensures
        delete_step(user, bot, f) is Delete || delete_step(user, bot, f) is Reply
            ==> f.token_revoked && f.left_channels,
{
}

/// The owner deletes a bot: its token is revoked, it leaves its channels, it is deleted, and success is
/// replied, in that order.
pub proof fn law_owner_deletes_the_bot(
    user: Option<&str>,
    bot: Seq<char>,
    f: DeleteFacts,
)
    ensures
        ({
            let s = delete_step(user, bot, f);
            let o = owned(user, bot, f.found);
            let id = o->Ready_0;
            &&& o is Ready && !f.token_revoked <==> s is RevokeToken
            &&& s is RevokeToken ==> s == DeleteStep::RevokeToken(id)
            &&& o is Ready && f.token_revoked && !f.left_channels <==> s is LeaveChannels
            &&& s is LeaveChannels ==> s == DeleteStep::LeaveChannels(id)
            &&& o is Ready && f.token_revoked && f.left_channels && !f.deleted <==> s is Delete
            &&& s is Delete ==> s == DeleteStep::Delete(id)
            &&& o is Ready && f.token_revoked && f.left_channels && f.deleted <==> s is Reply
            &&& o is Find <==> s is Find
        }),
{
}

/// What to do next while a bot looks itself up.
#[derive(Clone, Copy, Debug, PartialEq, Eq)]
pub enum MeStep {
    Find(Oid),
    Reply,
    Refuse(Refusal),
}

/// Decides the next step while a bot looks itself up.
pub fn bot_me(bot: Option<&str>, found: Option<bool>) -> (r: MeStep)
    ensures
        r == (if owner_of(bot) is None || found == Some(false) {
            MeStep::Refuse(unauthorized())
        } else if found is None {
            MeStep::Find(owner_of(bot)->0)
        } else {
            MeStep::Reply
        }),
        bot is Some && ids::oid_of(bot->0@) is Some && found is None ==> r == MeStep::Find(
            ids::oid_of(bot->0@)->0,
        ),
        r is Reply <==> bot is Some && ids::oid_of(bot->0@) is Some && found is Some && found->0,
{
    let id = match read_owner(bot) {
        None => return MeStep::Refuse(unauthorized()),
        Some(id) => id,
    };
    match found {
        None => MeStep::Find(id),
        Some(false) => MeStep::Refuse(unauthorized()),
        Some(true) => MeStep::Reply,
    }
}

/// What is known while a bot sends a message.
#[derive(Clone, Copy, Debug)]
pub struct SendFacts {
    /// Whether the message was within the rate limit.
    pub counted: Option<bool>,
    pub access: Option<Access>,
    pub locked: Option<bool>,
    /// The seconds to wait, where the channel is slowed down and the bot wrote too soon.
    pub wait: Option<Option<u64>>,
    pub sent: Option<bool>,
}

/// What to do next while a bot sends a message.
#[derive(Debug, PartialEq, Eq)]
pub enum SendStep {
    CountMessage,
    CheckAccess,
    AskLocked,
    CheckSlowmode,
    /// Send the content as a text message, with no attachment and no quote.
    Send { channel: Oid, bot: Oid, content: String, kind: &'static str },
    ReplySent,
    Refuse(Refusal),
}

/// The view of `SendStep`.
#[verifier::ext_equal]
pub enum SendStepView {
    CountMessage,
    CheckAccess,
    AskLocked,
    CheckSlowmode,
    Send { channel: Oid, bot: Oid, content: Seq<char>, kind: &'static str },
    ReplySent,
    Refuse(Refusal),
}

impl View for SendStep {
    type V = SendStepView;

    open spec fn view(&self) -> SendStepView {
        match self {
            SendStep::CountMessage => SendStepView::CountMessage,
            SendStep::CheckAccess => SendStepView::CheckAccess,
            SendStep::AskLocked => SendStepView::AskLocked,
            SendStep::CheckSlowmode => SendStepView::CheckSlowmode,
            SendStep::Send { channel, bot, content, kind } => SendStepView::Send {
                channel: *channel,
                bot: *bot,
                content: content@,
                kind: *kind,
            },
            SendStep::ReplySent => SendStepView::ReplySent,
            SendStep::Refuse(a) => SendStepView::Refuse(*a),
        }
    }
}

/// The text of a message, without spaces around it.
pub open spec fn content_of(body: BotSendMessageBody) -> Seq<char> {
    text::trimmed(text::or_empty(body.content))
}

/// Reads the text of a message.
pub fn message_content(body: &BotSendMessageBody) -> (r: String)
    ensures
        r@ == content_of(*body),
{
    text::trim(text::text_or_empty(&body.content).as_str())
}

pub open spec fn send_step(
    bot: Option<&str>,
    channel: Seq<char>,
    body: BotSendMessageBody,
    f: SendFacts,
) -> SendStepView {
    if bot is None {
        SendStepView::Refuse(unauthorized())
    } else if f.counted is None {
        SendStepView::CountMessage
    } else if !f.counted->0 {
        SendStepView::Refuse(coded(message(429, "Zbyt wiele wiadomości. Zwolnij tempo."), "RATE_LIMIT"))
    } else if content_of(body).len() == 0 {
        SendStepView::Refuse(message(400, "Treść wiadomości jest wymagana."))
    } else if content_of(body).len() > MAX_BOT_MESSAGE_LEN {
        SendStepView::Refuse(message(400, "Wiadomość może mieć maksymalnie 4000 znaków."))
    } else if f.access is None {
        SendStepView::CheckAccess
    } else if f.access->0 is Unavailable {
        SendStepView::Refuse(coded(message(403, f.access->0->Unavailable_0), "FORBIDDEN"))
    } else if f.access->0 is Denied {
        SendStepView::Refuse(coded(message(403, f.access->0->Denied_0), "FORBIDDEN"))
    } else if f.locked is None {
        SendStepView::AskLocked
    } else if f.locked->0 {
        SendStepView::Refuse(coded(message(403, "Czat na tym kanale jest zablokowany."), "CHAT_LOCKED"))
    } else if f.wait is None {
        SendStepView::CheckSlowmode
    } else if f.wait->0 is Some {
        SendStepView::Refuse(
            after(
                coded(message(429, "Slowmode is enabled for this channel."), "SLOWMODE"),
                f.wait->0->0,
            ),
        )
    } else if ids::oid_of(channel) is None {
        SendStepView::Refuse(message(404, "Kanał nie znaleziony."))
    } else if ids::oid_of(bot->0@) is None {
        SendStepView::Refuse(unauthorized())
    } else {
        match f.sent {
            None => SendStepView::Send {
                channel: ids::oid_of(channel)->0,
                bot: ids::oid_of(bot->0@)->0,
                content: content_of(body),
                kind: "TEXT",
            },
            Some(true) => SendStepView::ReplySent,
            Some(false) => SendStepView::Refuse(server_error()),
        }
    }
}

/// Decides the next step while a bot sends a message.
pub fn bot_send_channel_message(
    bot: Option<&str>,
    channel: &str,
    body: &BotSendMessageBody,
    f: &SendFacts,
) -> (r: SendStep)
    ensures
        r@ == send_step(bot, channel@, *body, *f),
{
    let bot = match bot {
        None => return SendStep::Refuse(unauthorized()),
        Some(b) => b,
    };
    match f.counted {
        None => return SendStep::CountMessage,
        Some(false) => return SendStep::Refuse(
            coded(message(429, "Zbyt wiele wiadomości. Zwolnij tempo."), "RATE_LIMIT"),
        ),
        Some(true) => {},
    }
    let content = message_content(body);
    if content.as_str().is_empty() {
        return SendStep::Refuse(message(400, "Treść wiadomości jest wymagana."));
    }
    if content.as_str().unicode_len() > MAX_BOT_MESSAGE_LEN {
        return SendStep::Refuse(message(400, "Wiadomość może mieć maksymalnie 4000 znaków."));
    }
    match f.access {
        None => return SendStep::CheckAccess,
        Some(Access::Unavailable(why)) => return SendStep::Refuse(
            coded(message(403, why), "FORBIDDEN"),
        ),
        Some(Access::Denied(why)) => return SendStep::Refuse(coded(message(403, why), "FORBIDDEN")),
        Some(Access::Granted) => {},
    }
    match f.locked {
        None => return SendStep::AskLocked,
        Some(true) => return SendStep::Refuse(
            coded(message(403, "Czat na tym kanale jest zablokowany."), "CHAT_LOCKED"),
        ),
        Some(false) => {},
    }
    match f.wait {
        None => return SendStep::CheckSlowmode,
        Some(Some(seconds)) => return SendStep::Refuse(
            after(coded(message(429, "Slowmode is enabled for this channel."), "SLOWMODE"), seconds),
        ),
        Some(None) => {},
    }
    let channel = match parse_oid(channel) {
        None => return SendStep::Refuse(message(404, "Kanał nie znaleziony.")),
        Some(id) => id,
    };
    let bot = match parse_oid(bot) {
        None => return SendStep::Refuse(unauthorized()),
        Some(id) => id,
    };
    match f.sent {
        None => SendStep::Send { channel, bot, content, kind: "TEXT" },
        Some(true) => SendStep::ReplySent,
        Some(false) => SendStep::Refuse(server_error()),
    }
}

/// A bot writes only where it has access and the chat is open, and no longer than 4000
/// characters.
pub proof fn law_bot_messages_are_checked(
    bot: Option<&str>,
    channel: Seq<char>,
    body: BotSendMessageBody,
    f: SendFacts,
)
    ensures
        send_step(bot, channel, body, f) matches SendStepView::Send { content, kind, .. }
            ==> f.access == Some(Access::Granted) && f.locked == Some(false) && f.wait == Some(
            None::<u64>,
        ) && f.counted == Some(true) && content == content_of(body) && 0 < content.len()
            <= MAX_BOT_MESSAGE_LEN && kind == "TEXT",
{
}

/// A bot with access sends a message of 1 to 4000 characters to a channel that is not locked, within the
/// limits: it is not refused while nothing speaks against it, the trimmed content goes to that channel
/// once, and success is replied only where it was sent.
pub proof fn law_bot_sends_messages(
    bot: Option<&str>,
    channel: Seq<char>,
    body: BotSendMessageBody,
    f: SendFacts,
)
    ensures
        ({
            let s = send_step(bot, channel, body, f);
            let content = text::trimmed(text::or_empty(body.content));
            let fits = bot is Some && ids::oid_of(bot->0@) is Some && ids::oid_of(channel) is Some
                && f.counted != Some(false) && 0 < content.len() <= 4000 && (f.access is None
                || f.access == Some(Access::Granted)) && f.locked != Some(true) && (f.wait is None
                || f.wait->0 is None) && f.sent != Some(false);
            let known = f.counted is Some && f.access is Some && f.locked is Some && f.wait is Some;
            &&& fits ==> s !is Refuse
            &&& fits && known && f.sent is None ==> s == (SendStepView::Send {
                channel: ids::oid_of(channel)->0,
                bot: ids::oid_of(bot->0@)->0,
                content,
                kind: "TEXT",
            })
            &&& fits && known && f.sent is Some ==> s is ReplySent
            &&& s is Send ==> f.sent is None && fits && known
            &&& s is ReplySent ==> f.sent is Some && f.sent->0 && fits && known
            &&& s is CountMessage <==> bot is Some && f.counted is None
            &&& s is CheckAccess ==> f.access is None && f.counted is Some
            &&& s is AskLocked ==> f.locked is None && f.access == Some(Access::Granted)
            &&& s is CheckSlowmode ==> f.wait is None && f.locked is Some
        }),
{
}

} // verus!
