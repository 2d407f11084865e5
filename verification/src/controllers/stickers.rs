//! Stickers, which another service provides.

use vstd::prelude::*;

use crate::json;
use crate::json::{items, member, parse_bytes, text_member};
use crate::reply::{Refusal, error};
use crate::text;

verus! {

/// How many stickers are asked for where a request names no number.
pub const DEFAULT_LIMIT: u32 = 24;

/// How many stickers are asked for at most.
pub const MAX_LIMIT: u32 = 50;

/// How long a search may be, in bytes.
pub const MAX_QUERY_BYTES: usize = 100;

/// What a request asks for.
pub struct StickerQuery {
    pub q: Option<String>,
    pub limit: Option<String>,
    pub lang: Option<String>,
}

/// How many stickers a request asks for.
pub open spec fn limit_of(raw: Option<String>) -> u32 {
    match raw {
        None => DEFAULT_LIMIT,
        Some(s) => match text::i64_of(s@) {
            None => DEFAULT_LIMIT,
            Some(n) => if n <= 0 {
                DEFAULT_LIMIT
            } else if n as u32 > MAX_LIMIT {
                MAX_LIMIT
            } else {
                n as u32
            },
        },
    }
}

/// Reads how many stickers a request asks for.
pub fn parse_limit(raw: &Option<String>) -> (r: u32)
    ensures
        r == limit_of(*raw),
{
    match raw {
        None => DEFAULT_LIMIT,
        Some(s) => match text::parse_i64(s.as_str()) {
            None => DEFAULT_LIMIT,
            Some(n) => {
                if n <= 0 {
                    return DEFAULT_LIMIT;
                }
                let m: u32 = #[verifier::truncate] (n as u32);
                if m > MAX_LIMIT {
                    MAX_LIMIT
                } else {
                    m
                }
            },
        },
    }
}

/// Never more than fifty stickers are asked for.
pub proof fn law_limit_is_bounded(raw: Option<String>)
    ensures
        limit_of(raw) <= MAX_LIMIT,
{
}

/// A number from 1 to 50 is taken as the limit; without one, or with one that is not positive, it is 24,
/// and larger ones are cut to 50.
pub proof fn law_limit_is_taken_as_asked(
    raw: Option<String>,
)
    ensures
        raw is None ==> limit_of(raw) == 24,
        raw is Some && text::i64_of(raw->0@) is None ==> limit_of(raw) == 24,
        raw is Some && text::i64_of(raw->0@) is Some && text::i64_of(raw->0@)->0 <= 0 ==> limit_of(raw)
            == 24,
        raw is Some && text::i64_of(raw->0@) is Some && 1 <= text::i64_of(raw->0@)->0 <= 50
            ==> limit_of(raw) == text::i64_of(raw->0@)->0,
        raw is Some && text::i64_of(raw->0@) is Some && 50 < text::i64_of(raw->0@)->0 <= u32::MAX
            ==> limit_of(raw) == 50,
{
}

/// What is read of a sticker of the service.
pub struct RawSticker {
    pub id: Option<String>,
    pub original_url: Option<String>,
    pub fixed_height_small: Option<String>,
    pub fixed_height: Option<String>,
    pub fixed_width: Option<String>,
    pub title: Option<String>,
    pub width: Option<String>,
    pub height: Option<String>,
}

/// The texts of what is read of a sticker.
pub struct RawView {
    pub id: Option<Seq<char>>,
    pub original_url: Option<Seq<char>>,
    pub fixed_height_small: Option<Seq<char>>,
    pub fixed_height: Option<Seq<char>>,
    pub fixed_width: Option<Seq<char>>,
    pub title: Option<Seq<char>>,
    pub width: Option<Seq<char>>,
    pub height: Option<Seq<char>>,
}

impl View for RawSticker {
    type V = RawView;

    open spec fn view(&self) -> RawView {
        RawView {
            id: text::opt(self.id),
            original_url: text::opt(self.original_url),
            fixed_height_small: text::opt(self.fixed_height_small),
            fixed_height: text::opt(self.fixed_height),
            fixed_width: text::opt(self.fixed_width),
            title: text::opt(self.title),
            width: text::opt(self.width),
            height: text::opt(self.height),
        }
    }
}

/// A sticker as clients get it.
pub struct Sticker {
    pub id: String,
    pub title: String,
    pub url: String,
    pub preview: String,
    pub width: i64,
    pub height: i64,
}

/// A sticker as clients get it, in texts and numbers.
pub struct StickerView {
    pub id: Seq<char>,
    pub title: Seq<char>,
    pub url: Seq<char>,
    pub preview: Seq<char>,
    pub width: i64,
    pub height: i64,
}

impl View for Sticker {
    type V = StickerView;

    open spec fn view(&self) -> StickerView {
        StickerView {
            id: self.id@,
            title: self.title@,
            url: self.url@,
            preview: self.preview@,
            width: self.width,
            height: self.height,
        }
    }
}

/// The number that a text gives, else 0.
pub open spec fn size_of(t: Option<Seq<char>>) -> i64 {
    match t {
        None => 0,
        Some(s) => match text::i64_of(s) {
            None => 0,
            Some(n) => n,
        },
    }
}

/// The title of a sticker: a general word where it has none.
pub open spec fn title_of(t: Option<Seq<char>>) -> Seq<char> {
    if t is Some && text::trimmed(t->0).len() > 0 {
        text::trimmed(t->0)
    } else {
        "Naklejka"@
    }
}

/// A sticker as clients get it; none where it has no id or no picture.
pub open spec fn shown(raw: RawView) -> Option<StickerView> {
    if raw.id is None || raw.original_url is None {
        None
    } else {
        Some(
            StickerView {
                id: raw.id->0,
                title: title_of(raw.title),
                url: raw.original_url->0,
                preview: if raw.fixed_height_small is Some {
                    raw.fixed_height_small->0
                } else if raw.fixed_height is Some {
                    raw.fixed_height->0
                } else if raw.fixed_width is Some {
                    raw.fixed_width->0
                } else {
                    raw.original_url->0
                },
                width: size_of(raw.width),
                height: size_of(raw.height),
            },
        )
    }
}

fn read_size(t: &Option<String>) -> (r: i64)
    ensures
        r == size_of(text::opt(*t)),
{
    match t {
        None => 0,
        Some(s) => match text::parse_i64(s.as_str()) {
            None => 0,
            Some(n) => n,
        },
    }
}

fn read_title(t: &Option<String>) -> (r: String)
    ensures
        r@ == title_of(text::opt(*t)),
{
    match t {
        None => "Naklejka".to_owned(),
        Some(s) => {
            let w = text::trim(s.as_str());
            if w.as_str().is_empty() {
                "Naklejka".to_owned()
            } else {
                w
            }
        },
    }
}

/// The view of a sticker that may be missing.
pub open spec fn opt_view(s: Option<Sticker>) -> Option<StickerView> {
    match s {
        None => None,
        Some(s) => Some(s@),
    }
}

/// Makes the sticker that clients get.
pub fn show_sticker(raw: &RawSticker) -> (r: Option<Sticker>)
    ensures
        opt_view(r) == shown(raw@),
{
    let id = match &raw.id {
        None => return None,
        Some(s) => s,
    };
    let url = match &raw.original_url {
        None => return None,
        Some(s) => s,
    };
    let preview = match (&raw.fixed_height_small, &raw.fixed_height, &raw.fixed_width) {
        (Some(p), _, _) => p,
        (None, Some(p), _) => p,
        (None, None, Some(p)) => p,
        _ => url,
    };
    Some(
        Sticker {
            id: id.as_str().to_owned(),
            title: read_title(&raw.title),
            url: url.as_str().to_owned(),
            preview: preview.as_str().to_owned(),
            width: read_size(&raw.width),
            height: read_size(&raw.height),
        },
    )
}

/// A sticker with an id and an address is shown, with the smallest preview that there is, and a name
/// of its own or else the general one; others are left out.
pub proof fn law_complete_stickers_are_shown(raw: RawView, list: Seq<json::Json>, more: json::Json)
    ensures
        shown(raw) is Some <==> raw.id is Some && raw.original_url is Some,
        shown(raw) matches Some(s) ==> s.id == raw.id->0 && s.url == raw.original_url->0 && (
        raw.fixed_height_small is Some ==> s.preview == raw.fixed_height_small->0) && (
        raw.fixed_height_small is None && raw.fixed_height is None && raw.fixed_width is None
            ==> s.preview == s.url) && s.title.len() > 0,
        raw.title is Some && text::trimmed(raw.title->0).len() > 0 && shown(raw) is Some ==> shown(
            raw,
        )->0.title == text::trimmed(raw.title->0),
        shown(picked(more)) matches Some(s) ==> all_shown(list.push(more)) == all_shown(list).push(s),
        shown(picked(more)) is None ==> all_shown(list.push(more)) == all_shown(list),
        all_shown(Seq::empty()).len() == 0,
{
    reveal_strlit("Naklejka");
    assert(list.push(more).drop_last() =~= list);
}

/// The text of a member of a member.
pub open spec fn text_under(j: json::Json, key: Seq<char>, inner: Seq<char>) -> Option<Seq<char>> {
    match json::member_of(j, key) {
        None => None,
        Some(m) => json::text_member_of(m, inner),
    }
}

/// What is read of a sticker in a document.
pub open spec fn picked(j: json::Json) -> RawView {
    let images = match json::member_of(j, "images"@) {
        Some(m) => m,
        None => json::Json::Null,
    };
    RawView {
        id: json::text_member_of(j, "id"@),
        original_url: text_under(images, "original"@, "url"@),
        fixed_height_small: text_under(images, "fixed_height_small"@, "url"@),
        fixed_height: text_under(images, "fixed_height"@, "url"@),
        fixed_width: text_under(images, "fixed_width"@, "url"@),
        title: json::text_member_of(j, "title"@),
        width: text_under(images, "original"@, "width"@),
        height: text_under(images, "original"@, "height"@),
    }
}

fn read_under(v: Option<&serde_json::Value>, key: &str, inner: &str) -> (r: Option<String>)
    ensures
        text::opt(r) == (match v {
            None => None,
            Some(v) => text_under(json::content(*v), key@, inner@),
        }),
{
    match v {
        None => None,
        Some(v) => match member(v, key) {
            None => None,
            Some(m) => text_member(m, inner),
        },
    }
}

/// Reads a sticker in a document.
pub fn pick(v: &serde_json::Value) -> (r: RawSticker)
    ensures
        r@ == picked(json::content(*v)),
{
    let images = member(v, "images");
    RawSticker {
        id: text_member(v, "id"),
        original_url: read_under(images, "original", "url"),
        fixed_height_small: read_under(images, "fixed_height_small", "url"),
        fixed_height: read_under(images, "fixed_height", "url"),
        fixed_width: read_under(images, "fixed_width", "url"),
        title: text_member(v, "title"),
        width: read_under(images, "original", "width"),
        height: read_under(images, "original", "height"),
    }
}

/// The stickers of a list that can be shown, in order.
pub open spec fn all_shown(list: Seq<json::Json>) -> Seq<StickerView>
    decreases list.len(),
{
    if list.len() == 0 {
        Seq::empty()
    } else {
        match shown(picked(list.last())) {
            Some(s) => all_shown(list.drop_last()).push(s),
            None => all_shown(list.drop_last()),
        }
    }
}

/// The views of stickers.
pub open spec fn views(s: Seq<Sticker>) -> Seq<StickerView> {
    s.map_values(|s: Sticker| s@)
}

/// Makes the stickers that clients get.
pub fn normalize(stickers: &Vec<serde_json::Value>) -> (r: Vec<Sticker>)
    ensures
        views(r@) == all_shown(json::contents(stickers@)),
{
    let ghost all = json::contents(stickers@);
    let mut out: Vec<Sticker> = Vec::new();
    let mut i: usize = 0;
    assert(all.take(0) =~= Seq::empty());
    assert(views(out@) =~= Seq::empty());
    while i < stickers.len()
        invariant
            i <= stickers.len(),
            all == json::contents(stickers@),
            views(out@) == all_shown(all.take(i as int)),
        decreases stickers.len() - i,
    {
        assert(all.take(i + 1).drop_last() =~= all.take(i as int));
        assert(all.take(i + 1).last() == json::content(stickers@[i as int]));
        if let Some(s) = show_sticker(&pick(&stickers[i])) {
            let ghost before = out@;
            out.push(s);
            assert(views(out@) =~= views(before).push(s@));
        }
        i += 1;
    }
    assert(all.take(i as int) =~= all);
    out
}

/// The list of stickers in a reply of the service; empty where it holds none.
pub open spec fn list_in(j: json::Json) -> Seq<json::Json> {
    match json::member_of(j, "data"@) {
        Some(json::Json::List(l)) => l,
        _ => Seq::empty(),
    }
}

/// Reads the stickers in a reply of the service; none where the reply is no document.
pub fn stickers_in(bytes: &[u8]) -> (r: Option<Vec<Sticker>>)
    ensures
        match r {
            None => json::document_in(bytes@) is None,
            Some(v) => json::document_in(bytes@) is Some && views(v@) == all_shown(
                list_in(json::document_in(bytes@)->0),
            ),
        },
{
    let body = match parse_bytes(bytes) {
        None => return None,
        Some(v) => v,
    };
    let none: Vec<Sticker> = Vec::new();
    assert(views(none@) =~= Seq::empty());
    let data = match member(&body, "data") {
        None => return Some(none),
        Some(d) => d,
    };
    match items(data) {
        None => Some(none),
        Some(list) => Some(normalize(list)),
    }
}

/// How asking the service went.
#[derive(Clone, Copy, Debug, PartialEq, Eq)]
pub enum Fetched {
    /// It did not answer.
    Unreachable,
    /// It refused.
    Refused,
    /// Its answer could not be read.
    Unreadable,
    Stickers,
}

/// What to do next while stickers are shown.
#[derive(Clone, Copy, Debug, PartialEq, Eq)]
pub enum StickerStep {
    Fetch,
    Reply,
    Refuse(Refusal),
}

/// Whether the service can be asked: a key for it is configured.
pub open spec fn has_key(key: Option<&str>) -> bool {
    key is Some && key->0@.len() > 0
}

pub open spec fn fetch_step(fetched: Option<Fetched>) -> StickerStep {
    match fetched {
        None => StickerStep::Fetch,
        Some(Fetched::Unreachable) => StickerStep::Refuse(
            error(502, "Nie udało się połączyć z Giphy."),
        ),
        Some(Fetched::Refused) => StickerStep::Refuse(
            error(502, "Nie udało się pobrać naklejek z Giphy."),
        ),
        Some(Fetched::Unreadable) => StickerStep::Refuse(
            error(502, "Nie udało się pobrać naklejek z Giphy."),
        ),
        Some(Fetched::Stickers) => StickerStep::Reply,
    }
}

/// Decides the next step of asking the service.
pub fn fetch_from_giphy(fetched: Option<Fetched>) -> (r: StickerStep)
    ensures
        r == fetch_step(fetched),
{
    match fetched {
        None => StickerStep::Fetch,
        Some(Fetched::Unreachable) => StickerStep::Refuse(
            error(502, "Nie udało się połączyć z Giphy."),
        ),
        Some(Fetched::Refused) => StickerStep::Refuse(
            error(502, "Nie udało się pobrać naklejek z Giphy."),
        ),
        Some(Fetched::Unreadable) => StickerStep::Refuse(
            error(502, "Nie udało się pobrać naklejek z Giphy."),
        ),
        Some(Fetched::Stickers) => StickerStep::Reply,
    }
}

fn key_given(key: Option<&str>) -> (r: bool)
    ensures
        r == has_key(key),
{
    match key {
        None => false,
        Some(k) => !k.is_empty(),
    }
}

/// What is searched for.
pub open spec fn query_of(query: StickerQuery) -> Seq<char> {
    text::trimmed(text::or_empty(query.q))
}

pub open spec fn search_step(
    key: Option<&str>,
    query: StickerQuery,
    fetched: Option<Fetched>,
) -> StickerStep {
    if !has_key(key) {
        StickerStep::Refuse(
            error(503, "Wyszukiwarka naklejek jest niedostępna (brak konfiguracji)."),
        )
    } else if query_of(query).len() == 0 {
        StickerStep::Refuse(error(400, "Brak frazy wyszukiwania."))
    } else if text::byte_len(query_of(query)) > MAX_QUERY_BYTES {
        StickerStep::Refuse(error(400, "Fraza wyszukiwania jest zbyt długa."))
    } else {
        fetch_step(fetched)
    }
}

/// Decides the next step of searching for stickers.
pub fn search_stickers(key: Option<&str>, query: &StickerQuery, fetched: Option<Fetched>) -> (r:
    StickerStep)
    ensures
        r == search_step(key, *query, fetched),
{
    if !key_given(key) {
        return StickerStep::Refuse(
            error(503, "Wyszukiwarka naklejek jest niedostępna (brak konfiguracji)."),
        );
    }
    let q = text::trim(text::text_or_empty(&query.q).as_str());
    if q.as_str().is_empty() {
        return StickerStep::Refuse(error(400, "Brak frazy wyszukiwania."));
    }
    if q.as_str().len() > MAX_QUERY_BYTES {
        return StickerStep::Refuse(error(400, "Fraza wyszukiwania jest zbyt długa."));
    }
    fetch_from_giphy(fetched)
}

/// Stickers are searched for where the service is configured, by a phrase of 1 to 100 bytes: the request is
/// not refused while nothing fails, and failures of the service are told as those of a gateway.
pub proof fn law_stickers_are_searched_for(
    key: Option<&str>,
    query: StickerQuery,
    fetched: Option<Fetched>,
)
    ensures
        ({
            let s = search_step(key, query, fetched);
            let phrase = text::trimmed(text::or_empty(query.q));
            let fits = key is Some && key->0@.len() > 0 && phrase.len() > 0 && text::byte_len(phrase)
                <= 100;
            &&& fits && fetched is None <==> s is Fetch
            &&& fits && fetched is Some && fetched->0 is Stickers <==> s is Reply
            &&& s matches StickerStep::Refuse(r) ==> (r.status == 502 <==> fits) && (r.status == 503
                <==> !(key is Some && key->0@.len() > 0))
        }),
{
}

/// Decides the next step of showing the stickers that many use.
pub fn trending_stickers(key: Option<&str>, fetched: Option<Fetched>) -> (r: StickerStep)
    ensures
        r == (if !has_key(key) {
            StickerStep::Refuse(
                error(503, "Wyszukiwarka naklejek jest niedostępna (brak konfiguracji)."),
            )
        } else {
            fetch_step(fetched)
        }),
{
    if !key_given(key) {
        return StickerStep::Refuse(
            error(503, "Wyszukiwarka naklejek jest niedostępna (brak konfiguracji)."),
        );
    }
    fetch_from_giphy(fetched)
}

/// A parameter of a request to the service.
pub struct Param {
    pub name: &'static str,
    pub value: String,
}

/// The names and values of parameters.
pub open spec fn param_views(p: Seq<Param>) -> Seq<(Seq<char>, Seq<char>)> {
    p.map_values(|p: Param| (p.name@, p.value@))
}

/// The parameters of a search; `lang` is the language in the form that the service knows.
pub fn search_params(key: &str, query: &StickerQuery, lang: &str) -> (r: Vec<Param>)
    ensures
        param_views(r@) == seq![
            ("api_key"@, key@),
            ("q"@, query_of(*query)),
            ("limit"@, text::decimal(limit_of(query.limit) as nat)),
            ("rating"@, "pg-13"@),
            ("lang"@, lang@),
            ("bundle"@, "messaging_non_clips"@),
        ],
{
    let mut v: Vec<Param> = Vec::new();
    v.push(Param { name: "api_key", value: key.to_owned() });
    v.push(Param { name: "q", value: text::trim(text::text_or_empty(&query.q).as_str()) });
    v.push(Param { name: "limit", value: text::write_u64(parse_limit(&query.limit) as u64) });
    v.push(Param { name: "rating", value: "pg-13".to_owned() });
    v.push(Param { name: "lang", value: lang.to_owned() });
    v.push(Param { name: "bundle", value: "messaging_non_clips".to_owned() });
    assert(param_views(v@) =~= seq![
        ("api_key"@, key@),
        ("q"@, query_of(*query)),
        ("limit"@, text::decimal(limit_of(query.limit) as nat)),
        ("rating"@, "pg-13"@),
        ("lang"@, lang@),
        ("bundle"@, "messaging_non_clips"@),
    ]);
    v
}

/// The parameters of a request for the stickers that many use.
pub fn trending_params(key: &str, query: &StickerQuery) -> (r: Vec<Param>)
    ensures
        param_views(r@) == seq![
            ("api_key"@, key@),
            ("limit"@, text::decimal(limit_of(query.limit) as nat)),
            ("rating"@, "pg-13"@),
            ("bundle"@, "messaging_non_clips"@),
        ],
{
    let mut v: Vec<Param> = Vec::new();
    v.push(Param { name: "api_key", value: key.to_owned() });
    v.push(Param { name: "limit", value: text::write_u64(parse_limit(&query.limit) as u64) });
    v.push(Param { name: "rating", value: "pg-13".to_owned() });
    v.push(Param { name: "bundle", value: "messaging_non_clips".to_owned() });
    assert(param_views(v@) =~= seq![
        ("api_key"@, key@),
        ("limit"@, text::decimal(limit_of(query.limit) as nat)),
        ("rating"@, "pg-13"@),
        ("bundle"@, "messaging_non_clips"@),
    ]);
    v
}

} // verus!
