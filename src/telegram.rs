use vstd::prelude::*;

use crate::layer::{GenericNotificationLayer, Message};
use crate::level::Level;

verus! {

#[verifier::external_type_specification]
#[verifier::external_body]
pub struct ExClient(reqwest::blocking::Client);

/// Relies on reqwest's `Clone` for the blocking client, which hands out
/// another handle to the same client; nothing is claimed of the result.
pub assume_specification[ <reqwest::blocking::Client as Clone>::clone ](
    c: &reqwest::blocking::Client,
) -> reqwest::blocking::Client;

/// The alternate debug form (`{:#?}`) of a list of strings.
pub uninterp spec fn pretty_debug_list_of(items: Seq<Seq<char>>) -> Seq<char>;

/// Relies on std's alternate `Debug` formatting of `Vec<String>`: the text
/// depends on the strings alone.
#[verifier::external_body]
fn pretty_debug_list(items: &Vec<String>) -> (r: String)
    ensures
        r@ == pretty_debug_list_of(items@.map_values(|s: String| s@)),
{
    format!("{:#?}", items)
}

/// The text sent to the chat: the mentions, the codebase line, then the
/// report.
pub open spec fn notification_text_of(mentions: Seq<char>, codebase_name: Seq<char>, report: Seq<
    char,
>) -> Seq<char> {
    mentions + "\ncodebase: "@ + codebase_name + " had a error \n"@ + report
}

/// The address of the chat API's send method for a bot token.
pub open spec fn send_url_of(bot_token: Seq<char>) -> Seq<char> {
    "https://api.telegram.org/bot"@ + bot_token + "/sendMessage"@
}

/// Builds the text sent to the chat from the rendered mention list, the
/// codebase name and the report.
pub fn compose_notification_text(mentions: &str, codebase_name: &str, report: &str) -> (r: String)
    ensures
        r@ == notification_text_of(mentions@, codebase_name@, report@),
{
    let mut text = String::from_str(mentions);
    text.append("\ncodebase: ");
    text.append(codebase_name);
    text.append(" had a error \n");
    text.append(report);
    text
}

/// Where and how reports are sent to a chat: the codebase tag, the users to
/// mention, the bot's credentials and the HTTP client to send with.
#[derive(Debug, Clone)]
pub struct TelegramConfig {
    codebase_name: String,
    users_to_tag: Vec<String>,
    bot_token: String,
    chat_id: String,
    request_client: reqwest::blocking::Client,
}

impl TelegramConfig {
    pub closed spec fn codebase_name_view(&self) -> Seq<char> {
        self.codebase_name@
    }

    pub closed spec fn users_view(&self) -> Seq<Seq<char>> {
        self.users_to_tag@.map_values(|s: String| s@)
    }

    pub closed spec fn bot_token_view(&self) -> Seq<char> {
        self.bot_token@
    }

    pub closed spec fn chat_id_view(&self) -> Seq<char> {
        self.chat_id@
    }

    pub closed spec fn client(&self) -> reqwest::blocking::Client {
        self.request_client
    }

    /// A configuration from its parts, kept as given.
    pub fn new(
        codebase_name: String,
        users_to_tag: Vec<String>,
        bot_token: String,
        chat_id: String,
        request_client: reqwest::blocking::Client,
    ) -> (r: Self)
        ensures
            r.codebase_name_view() == codebase_name@,
            r.users_view() == users_to_tag@.map_values(|s: String| s@),
            r.bot_token_view() == bot_token@,
            r.chat_id_view() == chat_id@,
            r.client() == request_client,
    {
        TelegramConfig { codebase_name, users_to_tag, request_client, chat_id, bot_token }
    }

    /// The HTTP client that reports are sent with.
    pub fn request_client(&self) -> (r: &reqwest::blocking::Client)
        ensures
            *r == self.client(),
    {
        &self.request_client
    }

    /// The address that reports are posted to.
    pub fn send_url(&self) -> (r: String)
        ensures
            r@ == send_url_of(self.bot_token_view()),
    {
        let mut url = String::from_str("https://api.telegram.org/bot");
        url.append(self.bot_token.as_str());
        url.append("/sendMessage");
        url
    }

    /// The text sent to the chat for a report.
    pub fn notification_text(&self, report: &str) -> (r: String)
        ensures
            r@ == notification_text_of(
                pretty_debug_list_of(self.users_view()),
                self.codebase_name_view(),
                report@,
            ),
    {
        let mentions = pretty_debug_list(&self.users_to_tag);
        compose_notification_text(mentions.as_str(), self.codebase_name.as_str(), report)
    }

    /// The form fields posted for a report: the chat to send to and the text.
    pub fn form_params(&self, report: &str) -> (r: Vec<(String, String)>)
        ensures
            r@.len() == 2,
            r@[0].0@ == "chat_id"@,
            r@[0].1@ == self.chat_id_view(),
            r@[1].0@ == "text"@,
            r@[1].1@ == notification_text_of(
                pretty_debug_list_of(self.users_view()),
                self.codebase_name_view(),
                report@,
            ),
    {
        let mut params: Vec<(String, String)> = Vec::new();
        params.push((String::from_str("chat_id"), self.chat_id.clone()));
        params.push((String::from_str("text"), self.notification_text(report)));
        params
    }

    /// A notification layer for the given levels whose context is this
    /// configuration and whose dispatch function is `send`.
    pub fn build_layer<D>(self, notification_levels: Vec<Level>, send: D) -> (r:
        GenericNotificationLayer<Self, D>) where D: Fn(&Self, Message)
        ensures
            r.levels() == notification_levels@,
            r.context() == self,
            r.dispatcher() == send,
    {
        GenericNotificationLayer::new(notification_levels, self, send)
    }
}

} // verus!
