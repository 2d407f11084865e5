//! Requests of bots, which show a token in place of a cookie.

use vstd::prelude::*;

use crate::ids::Oid;
use crate::reply::{Refusal, message};
use crate::text;

verus! {

/// The bot that a request comes from.
pub struct RequestBotId(pub String);

/// How long a token may be, in bytes.
pub const MAX_TOKEN_BYTES: usize = 256;

/// The bot that a request comes from, where one was noted.
pub fn request_bot_id(noted: &Option<RequestBotId>) -> (r: Option<String>)
    ensures
        text::opt(r) == (match *noted {
            None => None,
            Some(b) => Some(b.0@),
        }),
{
    match noted {
        None => None,
        Some(b) => Some(b.0.as_str().to_owned()),
    }
}

/// The token that a header gives.
pub open spec fn token_in(header: Option<&str>) -> Option<Seq<char>> {
    match header {
        None => None,
        Some(h) => match text::without_prefix(h@, "Bearer "@) {
            None => None,
            Some(rest) => {
                let token = text::trimmed(rest);
                if token.len() > 0 && text::byte_len(token) <= MAX_TOKEN_BYTES {
                    Some(token)
                } else {
                    None
                }
            },
        },
    }
}

/// Reads the token that a header gives.
pub fn bearer_token(header: Option<&str>) -> (r: Option<String>)
    ensures
        text::opt(r) == token_in(header),
{
    let rest = match header {
        None => return None,
        Some(h) => match text::strip_prefix(h, "Bearer ") {
            None => return None,
            Some(rest) => rest,
        },
    };
    let token = text::trim(rest.as_str());
    if !token.as_str().is_empty() && token.as_str().len() <= MAX_TOKEN_BYTES {
        Some(token)
    } else {
        None
    }
}

/// The token of a bot is what follows the word in the header, without space around it and of at most 256
/// bytes.
pub proof fn law_bot_token_is_read_from_the_header(
    header: Option<&str>,
    token: Seq<char>,
)
    ensures
        token_in(header) matches Some(t) ==> header is Some && t.len() > 0 && text::byte_len(t) <= 256
            && text::begins_with(header->0@, "Bearer "@) && t == text::trimmed(
            header->0@.skip("Bearer "@.len() as int),
        ),
        header is Some && header->0@ == "Bearer "@ + token && token.len() > 0 && text::trimmed(token)
            == token && text::byte_len(token) <= 256 ==> token_in(header) == Some(token),
{
    if header is Some && header->0@ == "Bearer "@ + token {
        assert(header->0@.skip("Bearer "@.len() as int) =~= token);
        assert(header->0@.take("Bearer "@.len() as int) =~= "Bearer "@);
    }
}

/// What the rules read of the account of a bot.
#[derive(Clone, Copy, Debug, PartialEq, Eq)]
pub struct BotAccount {
    pub is_active: bool,
    pub is_blocked: bool,
    pub is_banned: bool,
    pub owner: Option<Oid>,
}

/// What is known while the token of a bot is checked.
#[derive(Clone, Copy, Debug)]
pub struct BotFacts {
    pub whitelist_enabled: bool,
    /// The bot that the token belongs to.
    pub verified: Option<Option<Oid>>,
    /// The account of the bot, where one was found.
    pub account: Option<Option<BotAccount>>,
    /// Whether the owner is approved or an administrator.
    pub owner_approved: Option<bool>,
    /// The use of the token was noted.
    pub touched: bool,
}

/// What to do next while the token of a bot is checked.
#[derive(Clone, Copy, Debug, PartialEq, Eq)]
pub enum BotStep {
    VerifyToken,
    LoadBot(Oid),
    AskOwner(Oid),
    NoteUse(Oid),
    /// Let the request pass, as one of this bot.
    Pass(Oid),
    Refuse(Refusal),
}

pub open spec fn bot_step(header: Option<&str>, f: BotFacts) -> BotStep {
    let bot = f.verified->0->0;
    let account = f.account->0->0;
    if token_in(header) is None {
        BotStep::Refuse(message(401, "Brak lub nieprawidłowy token bota."))
    } else if f.verified is None {
        BotStep::VerifyToken
    } else if f.verified->0 is None {
        BotStep::Refuse(message(401, "Nieprawidłowy token bota."))
    } else if f.account is None {
        BotStep::LoadBot(bot)
    } else if f.account->0 is None {
        BotStep::Refuse(message(401, "Bot nie istnieje."))
    } else if account.is_blocked || account.is_banned || !account.is_active {
        BotStep::Refuse(message(403, "Konto bota jest nieaktywne."))
    } else if f.whitelist_enabled && account.owner is None {
        BotStep::Refuse(message(403, "Właściciel bota nie jest zatwierdzony (whitelist)."))
    } else if f.whitelist_enabled && f.owner_approved is None {
        BotStep::AskOwner(account.owner->0)
    } else if f.whitelist_enabled && !f.owner_approved->0 {
        BotStep::Refuse(message(403, "Właściciel bota nie jest zatwierdzony (whitelist)."))
    } else if !f.touched {
        BotStep::NoteUse(bot)
    } else {
        BotStep::Pass(bot)
    }
}

/// Decides the next step of checking the token of a bot.
pub fn verify_bot_token(header: Option<&str>, f: &BotFacts) -> (r: BotStep)
    ensures
        r == bot_step(header, *f),
{
    if bearer_token(header).is_none() {
        return BotStep::Refuse(message(401, "Brak lub nieprawidłowy token bota."));
    }
    let bot = match f.verified {
        None => return BotStep::VerifyToken,
        Some(None) => return BotStep::Refuse(message(401, "Nieprawidłowy token bota.")),
        Some(Some(id)) => id,
    };
    let account = match f.account {
        None => return BotStep::LoadBot(bot),
        Some(None) => return BotStep::Refuse(message(401, "Bot nie istnieje.")),
        Some(Some(a)) => a,
    };
    if account.is_blocked || account.is_banned || !account.is_active {
        return BotStep::Refuse(message(403, "Konto bota jest nieaktywne."));
    }
    if f.whitelist_enabled {
        let owner = match account.owner {
            None => return BotStep::Refuse(
                message(403, "Właściciel bota nie jest zatwierdzony (whitelist)."),
            ),
            Some(id) => id,
        };
        match f.owner_approved {
            None => return BotStep::AskOwner(owner),
            Some(false) => return BotStep::Refuse(
                message(403, "Właściciel bota nie jest zatwierdzony (whitelist)."),
            ),
            Some(true) => {},
        }
    }
    if !f.touched {
        BotStep::NoteUse(bot)
    } else {
        BotStep::Pass(bot)
    }
}

/// A request passes only as one of the bot that its token belongs to, whose account may act, and
/// whose owner is approved where that is needed.
pub proof fn law_bots_pass_by_their_token(header: Option<&str>, f: BotFacts)
    ensures
        bot_step(header, f) matches BotStep::Pass(bot) ==> f.verified == Some(Some(bot))
            && f.account->0->0.is_active && !f.account->0->0.is_blocked
            && !f.account->0->0.is_banned && (f.whitelist_enabled ==> f.owner_approved == Some(
            true,
        )),
{
}

/// A bot with a good token and an account in use passes, its owner being approved while the whitelist holds:
/// it is not refused while nothing speaks against it, asks only for what is not known yet, and passes as
/// the bot that the token belongs to.
pub proof fn law_bots_with_good_tokens_pass(
    header: Option<&str>,
    f: BotFacts,
)
    ensures
        ({
            let s = bot_step(header, f);
            let given = token_in(header) is Some;
            let verified = given && f.verified is Some && f.verified->0 is Some;
            let bot = f.verified->0->0;
            let a = f.account->0->0;
            let used = verified && f.account is Some && f.account->0 is Some && a.is_active
                && !a.is_blocked && !a.is_banned;
            let approved = !f.whitelist_enabled || (a.owner is Some && f.owner_approved is Some
                && f.owner_approved->0);
            &&& given && f.verified is None <==> s is VerifyToken
            &&& verified && f.account is None <==> s is LoadBot
            &&& s is LoadBot ==> s == BotStep::LoadBot(bot)
            &&& used && f.whitelist_enabled && a.owner is Some && f.owner_approved is None <==> s is
                AskOwner
            &&& s is AskOwner ==> s == BotStep::AskOwner(a.owner->0)
            &&& used && approved && !f.touched <==> s is NoteUse
            &&& s is NoteUse ==> s == BotStep::NoteUse(bot)
            &&& used && approved && f.touched <==> s is Pass
            &&& s is Pass ==> s == BotStep::Pass(bot)
        }),
{
}

} // verus!
