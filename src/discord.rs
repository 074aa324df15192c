//! The Discord adapter: webhooks, messages, channels and users.
//!
//! Every request authenticates with `Authorization: Bot <token>`. The
//! boolean operations (deleting a webhook or a message, editing a message)
//! count as successful when the response text contains `200` anywhere. That
//! is a loose test: it also matches an id or an error message that happens to
//! contain those digits. It is kept because callers depend on it.
use vstd::prelude::*;
use vstd::string::*;
use crate::error::{AdapterError, ErrorModel, result_view, and_then_model, decoded};
use crate::http::{Method, Request, RequestModel, Response, received, response_text, header, prefixed};
use crate::json::{
    json_quoted, json_str_at, json_u32_at, json_opt_str_at, object_text, pair_views, quote,
    str_at, u32_at, opt_str_at, render_object,
};

verus! {

/// The base URL of Discord's REST API.
pub const DISCORD_API_BASE: &'static str = "https://discord.com/api/v10";

/// A webhook of a channel.
#[derive(Debug, Clone, PartialEq, Eq)]
pub struct Webhook {
    pub id: String,
    pub token: String,
    pub url: String,
}

impl View for Webhook {
    type V = (Seq<char>, Seq<char>, Seq<char>);

    open spec fn view(&self) -> Self::V {
        (self.id@, self.token@, self.url@)
    }
}

/// A channel; `ty` is Discord's channel type.
#[derive(Debug, Clone, PartialEq, Eq)]
pub struct Channel {
    pub id: String,
    pub name: String,
    pub ty: u32,
    pub guild_id: Option<String>,
}

impl View for Channel {
    type V = (Seq<char>, Seq<char>, u32, Option<Seq<char>>);

    open spec fn view(&self) -> Self::V {
        (self.id@, self.name@, self.ty, self.guild_id.deep_view())
    }
}

/// A user account.
#[derive(Debug, Clone, PartialEq, Eq)]
pub struct User {
    pub id: String,
    pub username: String,
    pub discriminator: String,
    pub avatar: Option<String>,
}

impl View for User {
    type V = (Seq<char>, Seq<char>, Seq<char>, Option<Seq<char>>);

    open spec fn view(&self) -> Self::V {
        (self.id@, self.username@, self.discriminator@, self.avatar.deep_view())
    }
}

/// A message to post in a channel.
#[derive(Debug, Clone, PartialEq, Eq)]
pub struct Message {
    pub channel_id: String,
    pub content: String,
    pub guild_id: Option<String>,
}

/// The headers of a Discord request: the bot authorization, and the content
/// type when a JSON body goes with it.
pub open spec fn discord_headers(token: Seq<char>, has_body: bool) -> Seq<(Seq<char>, Seq<char>)> {
    let auth = seq![("Authorization"@, "Bot "@ + token)];
    if has_body {
        auth.push(("Content-Type"@, "application/json"@))
    } else {
        auth
    }
}

/// A Discord request.
pub open spec fn discord_request(
    method: Method,
    url: Seq<char>,
    token: Seq<char>,
    body: Option<Seq<char>>,
) -> RequestModel {
    RequestModel { method, url, headers: discord_headers(token, body is Some), body }
}

fn discord(method: Method, url: String, token: &str, body: Option<String>) -> (r: Request)
    ensures
        r@ == discord_request(method, url@, token@, body.deep_view()),
{
    let mut headers: Vec<(String, String)> = Vec::new();
    headers.push(header("Authorization", prefixed("Bot ", token)));
    if body.is_some() {
        headers.push(header("Content-Type", String::from_str("application/json")));
    }
    let r = Request { method, url, headers, body };
    assert(r@.headers =~= discord_headers(token@, body is Some));
    r
}

/// The body `{"<key>": "<value>"}`.
pub open spec fn single_text_body(key: Seq<char>, value: Seq<char>) -> Seq<char> {
    object_text(seq![(key, json_quoted(value))])
}

fn single_text(key: &str, value: &str) -> (r: String)
    ensures
        r@ == single_text_body(key@, value@),
{
    let mut entries: Vec<(String, String)> = Vec::new();
    entries.push((String::from_str(key), quote(value)));
    assert(pair_views(entries@) =~= seq![(key@, json_quoted(value@))]);
    render_object(&entries)
}

fn url2(a: &str, b: &str) -> (r: String)
    ensures
        r@ == DISCORD_API_BASE@ + a@ + b@,
{
    let mut s = String::from_str(DISCORD_API_BASE);
    s.append(a);
    s.append(b);
    s
}

fn url3(a: &str, b: &str, c: &str) -> (r: String)
    ensures
        r@ == DISCORD_API_BASE@ + a@ + b@ + c@,
{
    let mut s = url2(a, b);
    s.append(c);
    s
}

fn url4(a: &str, b: &str, c: &str, d: &str) -> (r: String)
    ensures
        r@ == DISCORD_API_BASE@ + a@ + b@ + c@ + d@,
{
    let mut s = url3(a, b, c);
    s.append(d);
    s
}

/// Creates a webhook named `name` in a channel.
pub fn create_webhook_request(token: &str, channel_id: &str, name: &str) -> (r: Request)
    ensures
        r@ == discord_request(
            Method::Post,
            DISCORD_API_BASE@ + "/channels/"@ + channel_id@ + "/webhooks"@,
            token@,
            Some(single_text_body("name"@, name@)),
        ),
{
    discord(Method::Post, url3("/channels/", channel_id, "/webhooks"), token, Some(single_text("name", name)))
}

/// Deletes a webhook, given its id and token.
pub fn delete_webhook_request(token: &str, webhook_id: &str, webhook_token: &str) -> (r: Request)
    ensures
        r@ == discord_request(
            Method::Delete,
            DISCORD_API_BASE@ + "/webhooks/"@ + webhook_id@ + "/"@ + webhook_token@,
            token@,
            None,
        ),
{
    discord(Method::Delete, url4("/webhooks/", webhook_id, "/", webhook_token), token, None)
}

/// Deletes a message of a channel.
pub fn delete_message_request(token: &str, channel_id: &str, message_id: &str) -> (r: Request)
    ensures
        r@ == discord_request(
            Method::Delete,
            DISCORD_API_BASE@ + "/channels/"@ + channel_id@ + "/messages/"@ + message_id@,
            token@,
            None,
        ),
{
    discord(Method::Delete, url4("/channels/", channel_id, "/messages/", message_id), token, None)
}

/// Replaces the content of a message of a channel.
pub fn edit_message_request(token: &str, channel_id: &str, message_id: &str, content: &str) -> (r:
    Request)
    ensures
        r@ == discord_request(
            Method::Patch,
            DISCORD_API_BASE@ + "/channels/"@ + channel_id@ + "/messages/"@ + message_id@,
            token@,
            Some(single_text_body("content"@, content@)),
        ),
{
    discord(
        Method::Patch,
        url4("/channels/", channel_id, "/messages/", message_id),
        token,
        Some(single_text("content", content)),
    )
}

/// Fetches a channel.
pub fn get_channel_request(token: &str, channel_id: &str) -> (r: Request)
    ensures
        r@ == discord_request(Method::Get, DISCORD_API_BASE@ + "/channels/"@ + channel_id@, token@, None),
{
    discord(Method::Get, url2("/channels/", channel_id), token, None)
}

/// Fetches a user.
pub fn get_user_request(token: &str, user_id: &str) -> (r: Request)
    ensures
        r@ == discord_request(Method::Get, DISCORD_API_BASE@ + "/users/"@ + user_id@, token@, None),
{
    discord(Method::Get, url2("/users/", user_id), token, None)
}

/// The body of a new message: its content, and the guild id when there is one.
pub open spec fn message_body(content: Seq<char>, guild_id: Option<Seq<char>>) -> Seq<char> {
    let content_entry = seq![("content"@, json_quoted(content))];
    match guild_id {
        Some(g) => object_text(content_entry.push(("guild_id"@, json_quoted(g)))),
        None => object_text(content_entry),
    }
}

/// Posts a message in its channel.
pub fn send_message_request(token: &str, message: &Message) -> (r: Request)
    ensures
        r@ == discord_request(
            Method::Post,
            DISCORD_API_BASE@ + "/channels/"@ + message.channel_id@ + "/messages"@,
            token@,
            Some(message_body(message.content@, message.guild_id.deep_view())),
        ),
{
    let url = url3("/channels/", message.channel_id.as_str(), "/messages");
    let mut entries: Vec<(String, String)> = Vec::new();
    entries.push((String::from_str("content"), quote(message.content.as_str())));
    match &message.guild_id {
        Some(g) => {
            entries.push((String::from_str("guild_id"), quote(g.as_str())));
        },
        None => {},
    }
    assert(pair_views(entries@) =~= match message.guild_id.deep_view() {
        Some(g) => seq![("content"@, json_quoted(message.content@))].push(("guild_id"@, json_quoted(g))),
        None => seq![("content"@, json_quoted(message.content@))],
    });
    discord(Method::Post, url, token, Some(render_object(&entries)))
}

/// Posts a message through a webhook.
pub fn send_webhook_message_request(token: &str, webhook: &Webhook, content: &str) -> (r: Request)
    ensures
        r@ == discord_request(
            Method::Post,
            DISCORD_API_BASE@ + "/webhooks/"@ + webhook.id@ + "/"@ + webhook.token@,
            token@,
            Some(single_text_body("content"@, content@)),
        ),
{
    discord(
        Method::Post,
        url4("/webhooks/", webhook.id.as_str(), "/", webhook.token.as_str()),
        token,
        Some(single_text("content", content)),
    )
}

/// The webhook fields of a response text, if all are strings.
pub open spec fn webhook_fields(t: Seq<char>) -> Option<(Seq<char>, Seq<char>, Seq<char>)> {
    match (json_str_at(t, "/id"@), json_str_at(t, "/token"@), json_str_at(t, "/url"@)) {
        (Some(id), Some(token), Some(url)) => Some((id, token, url)),
        _ => None,
    }
}

/// The channel fields of a response text, if each has its type.
pub open spec fn channel_fields(t: Seq<char>) -> Option<
    (Seq<char>, Seq<char>, u32, Option<Seq<char>>),
> {
    match (
        json_str_at(t, "/id"@),
        json_str_at(t, "/name"@),
        json_u32_at(t, "/type"@),
        json_opt_str_at(t, "/guild_id"@),
    ) {
        (Some(id), Some(name), Some(ty), Some(guild_id)) => Some((id, name, ty, guild_id)),
        _ => None,
    }
}

/// The user fields of a response text, if each has its type.
pub open spec fn user_fields(t: Seq<char>) -> Option<
    (Seq<char>, Seq<char>, Seq<char>, Option<Seq<char>>),
> {
    match (
        json_str_at(t, "/id"@),
        json_str_at(t, "/username"@),
        json_str_at(t, "/discriminator"@),
        json_opt_str_at(t, "/avatar"@),
    ) {
        (Some(id), Some(username), Some(discriminator), Some(avatar)) => Some(
            (id, username, discriminator, avatar),
        ),
        _ => None,
    }
}

fn malformed(text: &str) -> (e: AdapterError)
    ensures
        e@ == ErrorModel::MalformedResponse(text@),
{
    AdapterError::MalformedResponse(String::from_str(text))
}

/// Decodes a webhook from a response text.
pub fn decode_webhook(text: &str) -> (r: Result<Webhook, AdapterError>)
    ensures
        result_view(r) == decoded(text@, webhook_fields(text@)),
{
    match (str_at(text, "/id"), str_at(text, "/token"), str_at(text, "/url")) {
        (Some(id), Some(token), Some(url)) => Ok(Webhook { id, token, url }),
        _ => Err(malformed(text)),
    }
}

/// Decodes a channel from a response text.
pub fn decode_channel(text: &str) -> (r: Result<Channel, AdapterError>)
    ensures
        result_view(r) == decoded(text@, channel_fields(text@)),
{
    match (str_at(text, "/id"), str_at(text, "/name"), u32_at(text, "/type"), opt_str_at(text, "/guild_id")) {
        (Some(id), Some(name), Some(ty), Some(guild_id)) => Ok(Channel { id, name, ty, guild_id }),
        _ => Err(malformed(text)),
    }
}

/// Decodes a user from a response text.
pub fn decode_user(text: &str) -> (r: Result<User, AdapterError>)
    ensures
        result_view(r) == decoded(text@, user_fields(text@)),
{
    match (
        str_at(text, "/id"),
        str_at(text, "/username"),
        str_at(text, "/discriminator"),
        opt_str_at(text, "/avatar"),
    ) {
        (Some(id), Some(username), Some(discriminator), Some(avatar)) => Ok(
            User { id, username, discriminator, avatar },
        ),
        _ => Err(malformed(text)),
    }
}

/// Decodes the id of a created message from a response text.
pub fn decode_message_id(text: &str) -> (r: Result<String, AdapterError>)
    ensures
        result_view(r) == decoded(text@, json_str_at(text@, "/id"@)),
{
    match str_at(text, "/id") {
        Some(id) => Ok(id),
        None => Err(malformed(text)),
    }
}

/// Whether the characters `2`, `0`, `0` stand next to each other in `t`.
pub open spec fn contains_200(t: Seq<char>) -> bool {
    exists|i: int| 0 <= i && i + 3 <= t.len() && #[trigger] t.subrange(i, i + 3) == seq!['2', '0', '0']
}

/// Whether a response text counts as success for a boolean operation.
pub fn marks_success(text: &str) -> (r: bool)
    ensures
        r == contains_200(text@),
{
    let n = text.unicode_len();
    let mut i: usize = 0;
    while i < n && n - i >= 3
        invariant
            n == text@.len(),
            i <= n,
            forall|j: int| 0 <= j < i && j + 3 <= n ==> #[trigger] text@.subrange(j, j + 3) != seq!['2', '0', '0'],
        decreases n - i,
    {
        let a = text.get_char(i);
        let b = text.get_char(i + 1);
        let c = text.get_char(i + 2);
        if a == '2' && b == '0' && c == '0' {
            assert(text@.subrange(i as int, i + 3) =~= seq!['2', '0', '0']);
            return true;
        }
        assert(text@.subrange(i as int, i + 3) != seq!['2', '0', '0']) by {
            let w = text@.subrange(i as int, i + 3);
            let m = seq!['2', '0', '0'];
            if a != '2' {
                assert(w[0] != m[0]);
            } else if b != '0' {
                assert(w[1] != m[1]);
            } else {
                assert(w[2] != m[2]);
            }
        }
        i = i + 1;
    }
    false
}

/// The outcome of a boolean operation, given the response text.
pub open spec fn acknowledged(t: Seq<char>) -> Result<(), ErrorModel> {
    if contains_200(t) {
        Ok(())
    } else {
        Err(ErrorModel::ProviderError)
    }
}

/// Reads the response of a boolean operation: success when the text contains
/// `200`, `ProviderError` when it does not.
pub fn read_acknowledgement(outcome: Result<Response, String>) -> (r: Result<(), AdapterError>)
    ensures
        result_view(r) == and_then_model(received(outcome), |t: Seq<char>| acknowledged(t)),
{
    let text = response_text(outcome)?;
    if marks_success(text.as_str()) {
        Ok(())
    } else {
        Err(AdapterError::ProviderError)
    }
}

/// Reads the response of `create_webhook_request`.
pub fn read_webhook(outcome: Result<Response, String>) -> (r: Result<Webhook, AdapterError>)
    ensures
        result_view(r) == and_then_model(
            received(outcome),
            |t: Seq<char>| decoded(t, webhook_fields(t)),
        ),
{
    let text = response_text(outcome)?;
    decode_webhook(text.as_str())
}

/// Reads the response of `get_channel_request`.
pub fn read_channel(outcome: Result<Response, String>) -> (r: Result<Channel, AdapterError>)
    ensures
        result_view(r) == and_then_model(
            received(outcome),
            |t: Seq<char>| decoded(t, channel_fields(t)),
        ),
{
    let text = response_text(outcome)?;
    decode_channel(text.as_str())
}

/// Reads the response of `get_user_request`.
pub fn read_user(outcome: Result<Response, String>) -> (r: Result<User, AdapterError>)
    ensures
        result_view(r) == and_then_model(
            received(outcome),
            |t: Seq<char>| decoded(t, user_fields(t)),
        ),
{
    let text = response_text(outcome)?;
    decode_user(text.as_str())
}

/// Reads the response of `send_message_request` or
/// `send_webhook_message_request`: the id of the new message.
pub fn read_message_id(outcome: Result<Response, String>) -> (r: Result<String, AdapterError>)
    ensures
        result_view(r) == and_then_model(
            received(outcome),
            |t: Seq<char>| decoded(t, json_str_at(t, "/id"@)),
        ),
{
    let text = response_text(outcome)?;
    decode_message_id(text.as_str())
}

/// Every Discord request carries exactly one `Authorization` header, first,
/// with the value `Bot <token>`.
pub proof fn discord_authorization(method: Method, url: Seq<char>, token: Seq<char>, body: Option<Seq<char>>)
    ensures
        discord_request(method, url, token, body).headers[0] == ("Authorization"@, "Bot "@ + token),
        forall|i: int|
            1 <= i < discord_request(method, url, token, body).headers.len() ==> (#[trigger] discord_request(
                method,
                url,
                token,
                body,
            ).headers[i]).0 != "Authorization"@,
{
    reveal_strlit("Authorization");
    reveal_strlit("Content-Type");
    let h = discord_request(method, url, token, body).headers;
    assert forall|i: int| 1 <= i < h.len() implies (#[trigger] h[i]).0 != "Authorization"@ by {
        assert(h[i].0.len() != "Authorization"@.len());
    }
}

/// Reading a user or a channel twice from the same response gives the same
/// result.
pub proof fn reads_are_repeatable(o1: Result<Response, String>, o2: Result<Response, String>)
    requires
        received(o1) == received(o2),
    ensures
        and_then_model(received(o1), |t: Seq<char>| decoded(t, user_fields(t))) == and_then_model(
            received(o2),
            |t: Seq<char>| decoded(t, user_fields(t)),
        ),
        and_then_model(received(o1), |t: Seq<char>| decoded(t, channel_fields(t))) == and_then_model(
            received(o2),
            |t: Seq<char>| decoded(t, channel_fields(t)),
        ),
{
}

} // verus!
