//! The chat client: which endpoint a request goes to, what is sent, and what
//! a reply means.

use crate::constants::{
    DEEPSEEK_BASE_URL, DEFAULT_CHAT_COMPLETIONS_PATH, DOUBAO_BASE_URL,
    DOUBAO_CHAT_COMPLETIONS_PATH, GEMINI_BASE_URL, GEMINI_CHAT_COMPLETIONS_PATH, GLM_BASE_URL,
    GLM_CHAT_COMPLETIONS_PATH, GPT_BASE_URL, MOONSHOT_BASE_URL, QIANFAN_BASE_URL,
    QIANFAN_CHAT_COMPLETIONS_PATH, QWEN_BASE_URL, QWEN_CHAT_COMPLETIONS_PATH,
};
use crate::text::{
    chars_of, decimal, ends_with_at, joined, number_text, opt_view, starts_with, text_of,
    trim_end, trimmed_end,
};
use vstd::prelude::*;
use vstd::string::StringExecFns;

verus! {

/// One message of a conversation.
#[derive(Debug, Clone, PartialEq, Eq)]
pub struct Message {
    pub role: String,
    pub content: String,
}

/// What a [`Message`] holds, with every text as the sequence of its characters.
pub struct MessageView {
    pub role: Seq<char>,
    pub content: Seq<char>,
}

impl View for Message {
    type V = MessageView;

    open spec fn view(&self) -> MessageView {
        MessageView { role: self.role@, content: self.content@ }
    }
}

impl MessageView {
    /// A message may be sent only if it names its role and says something.
    pub open spec fn valid(self) -> bool {
        self.role.len() >= 1 && self.content.len() >= 1
    }

    /// A message in the user's voice.
    pub open spec fn user(content: Seq<char>) -> MessageView {
        MessageView { role: "user"@, content }
    }

    /// A message that sets the model's task.
    pub open spec fn system(content: Seq<char>) -> MessageView {
        MessageView { role: "system"@, content }
    }
}

/// `ValidateLength::validate_length` of the validator crate, called on a
/// string slice with a lower bound and no other bound. The crate measures a
/// string by its number of characters and accepts it when that number is not
/// below the bound.
#[verifier::external_body]
fn has_min_length(text: &str, min: u64) -> (ok: bool)
    ensures
        ok == (text@.len() >= min),
{
    validator::ValidateLength::validate_length(text, Some(min), None, None)
}

impl Message {
    /// A message in the user's voice.
    pub fn user(content: String) -> (message: Message)
        ensures
            message@ == MessageView::user(content@),
    {
        Message { role: String::from_str("user"), content }
    }

    /// A message that sets the model's task.
    pub fn system(content: String) -> (message: Message)
        ensures
            message@ == MessageView::system(content@),
    {
        Message { role: String::from_str("system"), content }
    }

    /// Whether the message may be sent.
    pub fn is_valid(&self) -> (ok: bool)
        ensures
            ok == self@.valid(),
    {
        has_min_length(self.role.as_str(), 1) && has_min_length(self.content.as_str(), 1)
    }
}

/// The views of a list of messages, in order.
pub open spec fn messages_view(messages: Seq<Message>) -> Seq<MessageView> {
    messages.map_values(|m: Message| m@)
}

/// Switches that only some providers read.
#[derive(Debug, Clone, Copy, PartialEq, Eq)]
pub struct RequestExtraBody {
    pub enable_thinking: bool,
}

/// The body of a chat request. The temperature is held in tenths, so that
/// 3 stands for 0.3.
#[derive(Debug, Clone, PartialEq, Eq)]
pub struct Request {
    pub model: String,
    pub messages: Vec<Message>,
    pub temperature_tenths: u8,
    pub stream: bool,
    pub extra_body: RequestExtraBody,
}

/// What a [`Request`] holds, with every text as the sequence of its characters.
pub struct RequestView {
    pub model: Seq<char>,
    pub messages: Seq<MessageView>,
    pub temperature_tenths: u8,
    pub stream: bool,
    pub extra_body: RequestExtraBody,
}

impl View for Request {
    type V = RequestView;

    open spec fn view(&self) -> RequestView {
        RequestView {
            model: self.model@,
            messages: messages_view(self.messages@),
            temperature_tenths: self.temperature_tenths,
            stream: self.stream,
            extra_body: self.extra_body,
        }
    }
}

impl RequestView {
    /// The request that names no model and carries no message.
    pub open spec fn empty() -> RequestView {
        RequestView {
            model: Seq::empty(),
            messages: Seq::empty(),
            temperature_tenths: 3,
            stream: false,
            extra_body: RequestExtraBody { enable_thinking: false },
        }
    }

    /// The request that puts `user` to `model`, under the task `system`
    /// where there is one. The user's message comes first.
    pub open spec fn ask(model: Seq<char>, system: Option<Seq<char>>, user: Seq<char>) -> RequestView {
        RequestView {
            model,
            messages: match system {
                Some(task) => seq![MessageView::user(user), MessageView::system(task)],
                None => seq![MessageView::user(user)],
            },
            ..RequestView::empty()
        }
    }

    /// Whether every message of the request may be sent.
    pub open spec fn valid(self) -> bool {
        forall|i: int| 0 <= i < self.messages.len() ==> (#[trigger] self.messages[i]).valid()
    }
}

impl Default for Request {
    fn default() -> (request: Request)
        ensures
            request@ == RequestView::empty(),
    {
        let request = Request {
            model: String::new(),
            messages: Vec::new(),
            temperature_tenths: 3,
            stream: false,
            extra_body: RequestExtraBody { enable_thinking: false },
        };
        assert(request@.messages =~= Seq::empty());
        request
    }
}

impl Request {
    /// The request that puts `user` to `model_name`, under the task `system`
    /// where there is one.
    pub fn ask(model_name: String, system: Option<String>, user: String) -> (request: Request)
        ensures
            request@ == RequestView::ask(model_name@, opt_view(system), user@),
    {
        let mut messages: Vec<Message> = Vec::new();
        messages.push(Message::user(user));
        if let Some(task) = system {
            messages.push(Message::system(task));
        }
        let request = Request {
            model: model_name,
            messages,
            temperature_tenths: 3,
            stream: false,
            extra_body: RequestExtraBody { enable_thinking: false },
        };
        assert(request@.messages =~= RequestView::ask(
            model_name@,
            opt_view(system),
            user@,
        ).messages);
        request
    }

    /// Whether every message of the request may be sent.
    pub fn is_valid(&self) -> (ok: bool)
        ensures
            ok == self@.valid(),
    {
        let mut i: usize = 0;
        while i < self.messages.len()
            invariant
                i <= self.messages.len(),
                forall|j: int| 0 <= j < i ==> (#[trigger] self@.messages[j]).valid(),
            decreases self.messages.len() - i,
        {
            if !self.messages[i].is_valid() {
                assert(!self@.messages[i as int].valid());
                return false;
            }
            i += 1;
        }
        true
    }
}

/// One row of the provider table: models whose name begins with `prefix` are
/// served at `base` followed by `path`.
pub struct Provider {
    pub prefix: &'static str,
    pub base: &'static str,
    pub path: &'static str,
}

/// Number of rows in the provider table.
pub const PROVIDER_COUNT: usize = 8;

/// The provider table, row by row. The order of the rows is the order in
/// which a model name is held against the prefixes.
pub open spec fn provider_row(i: int) -> (Seq<char>, Seq<char>, Seq<char>) {
    if i == 0 {
        ("moonshot"@, MOONSHOT_BASE_URL@, DEFAULT_CHAT_COMPLETIONS_PATH@)
    } else if i == 1 {
        ("qwen"@, QWEN_BASE_URL@, QWEN_CHAT_COMPLETIONS_PATH@)
    } else if i == 2 {
        ("gpt"@, GPT_BASE_URL@, DEFAULT_CHAT_COMPLETIONS_PATH@)
    } else if i == 3 {
        ("gemini"@, GEMINI_BASE_URL@, GEMINI_CHAT_COMPLETIONS_PATH@)
    } else if i == 4 {
        ("doubao"@, DOUBAO_BASE_URL@, DOUBAO_CHAT_COMPLETIONS_PATH@)
    } else if i == 5 {
        ("glm"@, GLM_BASE_URL@, GLM_CHAT_COMPLETIONS_PATH@)
    } else if i == 6 {
        ("deepseek"@, DEEPSEEK_BASE_URL@, DEFAULT_CHAT_COMPLETIONS_PATH@)
    } else {
        ("qianfan"@, QIANFAN_BASE_URL@, QIANFAN_CHAT_COMPLETIONS_PATH@)
    }
}

/// The address of the chat completions service of row `i`.
pub open spec fn provider_url(i: int) -> Seq<char> {
    provider_row(i).1 + provider_row(i).2
}

/// The first row at or after `from` whose prefix begins `model`.
pub open spec fn first_provider(model: Seq<char>, from: int) -> Option<int>
    decreases PROVIDER_COUNT - from,
{
    if from < 0 || from >= PROVIDER_COUNT {
        None
    } else if provider_row(from).0.is_prefix_of(model) {
        Some(from)
    } else {
        first_provider(model, from + 1)
    }
}

/// The default address for a model, where its name is recognised.
pub open spec fn url_by_model(model: Seq<char>) -> Option<Seq<char>> {
    match first_provider(model, 0) {
        Some(i) => Some(provider_url(i)),
        None => None,
    }
}

/// Row `i` of the provider table.
pub fn provider(i: usize) -> (row: Provider)
    requires
        i < PROVIDER_COUNT,
    ensures
        (row.prefix@, row.base@, row.path@) == provider_row(i as int),
{
    if i == 0 {
        Provider {
            prefix: "moonshot",
            base: MOONSHOT_BASE_URL,
            path: DEFAULT_CHAT_COMPLETIONS_PATH,
        }
    } else if i == 1 {
        Provider { prefix: "qwen", base: QWEN_BASE_URL, path: QWEN_CHAT_COMPLETIONS_PATH }
    } else if i == 2 {
        Provider { prefix: "gpt", base: GPT_BASE_URL, path: DEFAULT_CHAT_COMPLETIONS_PATH }
    } else if i == 3 {
        Provider { prefix: "gemini", base: GEMINI_BASE_URL, path: GEMINI_CHAT_COMPLETIONS_PATH }
    } else if i == 4 {
        Provider { prefix: "doubao", base: DOUBAO_BASE_URL, path: DOUBAO_CHAT_COMPLETIONS_PATH }
    } else if i == 5 {
        Provider { prefix: "glm", base: GLM_BASE_URL, path: GLM_CHAT_COMPLETIONS_PATH }
    } else if i == 6 {
        Provider {
            prefix: "deepseek",
            base: DEEPSEEK_BASE_URL,
            path: DEFAULT_CHAT_COMPLETIONS_PATH,
        }
    } else {
        Provider {
            prefix: "qianfan",
            base: QIANFAN_BASE_URL,
            path: QIANFAN_CHAT_COMPLETIONS_PATH,
        }
    }
}

/// Returns the default address of the chat completions service for the given
/// model name: that of the first row of the provider table whose prefix the
/// name begins with, and `None` where no row matches.
pub fn get_url_by_model(model_name: &str) -> (url: Option<String>)
    ensures
        opt_view(url) == url_by_model(model_name@),
{
    let mut i: usize = 0;
    while i < PROVIDER_COUNT
        invariant
            i <= PROVIDER_COUNT,
            first_provider(model_name@, 0) == first_provider(model_name@, i as int),
        decreases PROVIDER_COUNT - i,
    {
        let row = provider(i);
        if starts_with(model_name, row.prefix) {
            return Some(joined(row.base, row.path));
        }
        i += 1;
    }
    None
}

/// A model name cannot begin with two texts that differ at a position both
/// reach.
proof fn lemma_prefixes_exclude(model: Seq<char>, p: Seq<char>, q: Seq<char>, k: int)
    requires
        p.is_prefix_of(model),
        0 <= k < p.len(),
        0 <= k < q.len(),
        p[k] != q[k],
    ensures
        !q.is_prefix_of(model),
{
}

/// Every model whose name begins with the prefix of a row of the provider
/// table resolves to the address of that row, whatever follows the prefix;
/// and that is where a request for it goes where no address is configured.
pub proof fn lemma_supported_model_resolves(model: Seq<char>, i: int)
    requires
        0 <= i < PROVIDER_COUNT,
        provider_row(i).0.is_prefix_of(model),
    ensures
        url_by_model(model) == Some(provider_url(i)),
        endpoint(model, None) == Some(provider_url(i)),
{
    reveal_strlit("moonshot");
    reveal_strlit("qwen");
    reveal_strlit("gpt");
    reveal_strlit("gemini");
    reveal_strlit("doubao");
    reveal_strlit("glm");
    reveal_strlit("deepseek");
    reveal_strlit("qianfan");
    reveal_with_fuel(first_provider, 9);
    assert forall|j: int| 0 <= j < i implies !(#[trigger] provider_row(j)).0.is_prefix_of(
        model,
    ) by {
        let p = provider_row(i).0;
        let q = provider_row(j).0;
        if p[0] != q[0] {
            lemma_prefixes_exclude(model, p, q, 0);
        } else {
            lemma_prefixes_exclude(model, p, q, 1);
        }
    }
}

/// A model whose name begins with no prefix of the provider table resolves
/// to no address, so that a request for it has nowhere to go where no
/// address is configured.
pub proof fn lemma_unknown_model_unresolved(model: Seq<char>)
    requires
        forall|i: int| 0 <= i < PROVIDER_COUNT ==> !(#[trigger] provider_row(i)).0.is_prefix_of(
            model,
        ),
    ensures
        url_by_model(model) is None,
        endpoint(model, None) is None,
{
    reveal_with_fuel(first_provider, 9);
}

/// The full address of the chat completions service under a base address
/// that the user gave: trailing slashes go; an address that already ends in
/// the whole path stays as it is; one that ends in the version segment gets
/// the rest of the path; any other gets the whole path.
pub open spec fn full_url(base_url: Seq<char>) -> Seq<char> {
    let trimmed = trim_end(base_url, '/');
    if "/v1/chat/completions"@.is_suffix_of(trimmed) {
        trimmed
    } else if "/v1"@.is_suffix_of(trimmed) {
        trimmed + "/chat/completions"@
    } else {
        trimmed + DEFAULT_CHAT_COMPLETIONS_PATH@
    }
}

/// A text that ends in a character other than `c` has no run of `c` at its
/// end.
proof fn lemma_trim_end_keeps(s: Seq<char>, c: char)
    requires
        s.len() > 0,
        s.last() != c,
    ensures
        trim_end(s, c) == s,
{
}

/// A full address is as full as it gets: made full once more, it stays as
/// it is.
pub proof fn lemma_full_url_is_stable(base_url: Seq<char>)
    ensures
        full_url(full_url(base_url)) == full_url(base_url),
        DEFAULT_CHAT_COMPLETIONS_PATH@.is_suffix_of(full_url(base_url)),
{
    reveal_strlit("/v1/chat/completions");
    reveal_strlit("/v1");
    reveal_strlit("/chat/completions");
    let whole = "/v1/chat/completions"@;
    let trimmed = trim_end(base_url, '/');
    let full = full_url(base_url);
    if !whole.is_suffix_of(trimmed) && "/v1"@.is_suffix_of(trimmed) {
        // the end of the version segment and the rest of the path make up
        // the whole path
        let n = trimmed.len() as int;
        let end = full.subrange(full.len() - 20, full.len() as int);
        assert forall|k: int| 0 <= k < 20 implies end[k] == whole[k] by {
            if k < 3 {
                assert(trimmed.subrange(n - 3, n)[k] == trimmed[n - 3 + k]);
            }
        }
    }
    assert(full.last() == 's') by {
        assert(full.subrange(full.len() - 20, full.len() as int)[19] == full[full.len() - 1]);
    }
    lemma_trim_end_keeps(full, '/');
}

/// Constructs the full address from a base address that may already hold
/// part of the chat completions path.
pub fn construct_full_url(base_url: &str) -> (url: String)
    ensures
        url@ == full_url(base_url@),
{
    let chars = chars_of(base_url);
    let len = trimmed_end(&chars, '/');
    let trimmed = text_of(&chars, 0, len);
    if ends_with_at(&chars, len, "/v1/chat/completions") {
        trimmed
    } else if ends_with_at(&chars, len, "/v1") {
        joined(trimmed.as_str(), "/chat/completions")
    } else {
        joined(trimmed.as_str(), DEFAULT_CHAT_COMPLETIONS_PATH)
    }
}

/// No address was given and the model's name is not in the provider table.
#[derive(Debug, Clone, Copy, PartialEq, Eq)]
pub struct ProviderUnresolved;

/// Whether a configured address is one to send to as it stands.
pub open spec fn is_explicit(url: Seq<char>) -> bool {
    "http"@.is_prefix_of(url)
}

/// The address a request for `model` goes to: the configured address, made
/// full, where there is one that begins like a web address, and else the
/// default address of the model's provider.
pub open spec fn endpoint(model: Seq<char>, explicit_url: Option<Seq<char>>) -> Option<Seq<char>> {
    match explicit_url {
        Some(url) if is_explicit(url) => Some(full_url(url)),
        _ => url_by_model(model),
    }
}

/// Resolves the address of the chat completions service.
pub fn resolve_endpoint(model_name: &str, explicit_url: Option<&str>) -> (resolved: Result<
    String,
    ProviderUnresolved,
>)
    ensures
        (match endpoint(
            model_name@,
            match explicit_url {
                Some(url) => Some(url@),
                None => None,
            },
        ) {
            Some(url) => resolved is Ok && resolved->Ok_0@ == url,
            None => resolved is Err,
        }),
{
    if let Some(url) = explicit_url {
        if starts_with(url, "http") {
            return Ok(construct_full_url(url));
        }
    }
    match get_url_by_model(model_name) {
        Some(url) => Ok(url),
        None => Err(ProviderUnresolved),
    }
}

/// Why a chat came to nothing.
#[derive(Debug, Clone, PartialEq, Eq)]
pub enum ChatError {
    /// A message of the request had an empty role or nothing to say.
    InvalidMessage,
    /// There is no address to send the request to.
    ProviderUnresolved,
    /// The request did not reach the service, or no answer came back.
    Transport(String),
    /// The service answered with a status of 400 or above.
    RequestFailed(u16),
    /// The body of the answer could not be read; the text says why.
    ResponseParse(String),
    /// The provider reported an error of its own.
    Provider(String),
    /// The answer held neither choices nor an error.
    Unknown,
}

/// What a [`ChatError`] holds, with every text as the sequence of its characters.
pub enum ChatErrorView {
    InvalidMessage,
    ProviderUnresolved,
    Transport(Seq<char>),
    RequestFailed(u16),
    ResponseParse(Seq<char>),
    Provider(Seq<char>),
    Unknown,
}

impl View for ChatError {
    type V = ChatErrorView;

    open spec fn view(&self) -> ChatErrorView {
        match self {
            ChatError::InvalidMessage => ChatErrorView::InvalidMessage,
            ChatError::ProviderUnresolved => ChatErrorView::ProviderUnresolved,
            ChatError::Transport(reason) => ChatErrorView::Transport(reason@),
            ChatError::RequestFailed(status) => ChatErrorView::RequestFailed(*status),
            ChatError::ResponseParse(reason) => ChatErrorView::ResponseParse(reason@),
            ChatError::Provider(message) => ChatErrorView::Provider(message@),
            ChatError::Unknown => ChatErrorView::Unknown,
        }
    }
}

/// All that a sender needs to put one request to the service.
#[derive(Debug, Clone, PartialEq, Eq)]
pub struct ChatCall {
    /// Address to post to.
    pub endpoint: String,
    /// Value of the authorization header.
    pub authorization: String,
    /// Body, to be sent as JSON.
    pub request: Request,
    /// Whether the sender echoes the address and the raw answer.
    pub log_info: bool,
}

/// What a [`ChatCall`] holds, with every text as the sequence of its characters.
pub struct ChatCallView {
    pub endpoint: Seq<char>,
    pub authorization: Seq<char>,
    pub request: RequestView,
    pub log_info: bool,
}

impl View for ChatCall {
    type V = ChatCallView;

    open spec fn view(&self) -> ChatCallView {
        ChatCallView {
            endpoint: self.endpoint@,
            authorization: self.authorization@,
            request: self.request@,
            log_info: self.log_info,
        }
    }
}

/// What is sent where, for a chat with the given settings: nothing if a
/// message is empty or no address can be found, and else the request for
/// `model`, posted to its address with the key as a bearer token.
pub open spec fn chat_call(
    url: Seq<char>,
    model: Seq<char>,
    api_key: Seq<char>,
    system: Option<Seq<char>>,
    user: Seq<char>,
    log_info: bool,
) -> Result<ChatCallView, ChatErrorView> {
    let request = RequestView::ask(model, system, user);
    if !request.valid() {
        Err(ChatErrorView::InvalidMessage)
    } else {
        match endpoint(model, Some(url)) {
            None => Err(ChatErrorView::ProviderUnresolved),
            Some(address) => Ok(
                ChatCallView {
                    endpoint: address,
                    authorization: "Bearer "@ + api_key,
                    request,
                    log_info,
                },
            ),
        }
    }
}

/// Prepares a chat: checks the messages, resolves the address and frames
/// the request. Sending is left to the caller, who hands the answer to
/// [`chat_result`].
pub fn chat(
    url: String,
    model_name: String,
    api_key: String,
    system: Option<String>,
    user: String,
    log_info: bool,
) -> (prepared: Result<ChatCall, ChatError>)
    ensures
        (match chat_call(url@, model_name@, api_key@, opt_view(system), user@, log_info) {
            Ok(call) => prepared is Ok && prepared->Ok_0@ == call,
            Err(error) => prepared is Err && prepared->Err_0@ == error,
        }),
{
    let address = resolve_endpoint(model_name.as_str(), Some(url.as_str()));
    let request = Request::ask(model_name, system, user);
    if !request.is_valid() {
        return Err(ChatError::InvalidMessage);
    }
    match address {
        Err(_) => Err(ChatError::ProviderUnresolved),
        Ok(endpoint) => Ok(
            ChatCall {
                endpoint,
                authorization: joined("Bearer ", api_key.as_str()),
                request,
                log_info,
            },
        ),
    }
}

/// One of the answers a provider offers.
#[derive(Debug, Clone, PartialEq, Eq)]
pub struct Choice {
    pub message: Message,
    pub finish_reason: String,
}

/// An error that the provider reports in the body of its answer.
#[derive(Debug, Clone, PartialEq, Eq)]
pub struct ResponseError {
    pub message: String,
    pub kind: Option<String>,
}

/// The body of an answer, as far as the client reads it.
#[derive(Debug, Clone, PartialEq, Eq)]
pub struct Response {
    pub choices: Option<Vec<Choice>>,
    pub error: Option<ResponseError>,
}

/// The body of an answer as it was received.
#[derive(Debug, Clone, PartialEq, Eq)]
pub enum ReplyBody {
    /// The body could not be read; the text says why.
    Unreadable(String),
    /// The body.
    Read(Response),
}

/// What came of sending a request.
#[derive(Debug, Clone, PartialEq, Eq)]
pub enum ChatReply {
    /// The request did not reach the service, or no answer came back.
    Unreachable(String),
    /// The service answered.
    Answered { status: u16, body: ReplyBody },
}

/// What an answer means. A status of 400 or above is a failure whatever the
/// body holds. Otherwise the content of the first choice is the result,
/// where the answer holds choices; a list of choices without a first one
/// means nothing. An answer without choices is the provider's error where
/// it reports one.
pub open spec fn reply_meaning(reply: ChatReply) -> Result<Seq<char>, ChatErrorView> {
    match reply {
        ChatReply::Unreachable(reason) => Err(ChatErrorView::Transport(reason@)),
        ChatReply::Answered { status, body } => if status >= 400 {
            Err(ChatErrorView::RequestFailed(status))
        } else {
            match body {
                ReplyBody::Unreadable(reason) => Err(ChatErrorView::ResponseParse(reason@)),
                ReplyBody::Read(response) => match response.choices {
                    Some(choices) => if choices@.len() > 0 {
                        Ok(choices@[0].message.content@)
                    } else {
                        Err(ChatErrorView::Unknown)
                    },
                    None => match response.error {
                        Some(error) => Err(ChatErrorView::Provider(error.message@)),
                        None => Err(ChatErrorView::Unknown),
                    },
                },
            }
        },
    }
}

/// Reads the answer to a chat request.
pub fn chat_result(reply: ChatReply) -> (result: Result<String, ChatError>)
    ensures
        (match reply_meaning(reply) {
            Ok(content) => result is Ok && result->Ok_0@ == content,
            Err(error) => result is Err && result->Err_0@ == error,
        }),
{
    match reply {
        ChatReply::Unreachable(reason) => Err(ChatError::Transport(reason)),
        ChatReply::Answered { status, body } => {
            if status >= 400 {
                return Err(ChatError::RequestFailed(status));
            }
            match body {
                ReplyBody::Unreadable(reason) => Err(ChatError::ResponseParse(reason)),
                ReplyBody::Read(response) => match response.choices {
                    Some(mut choices) => {
                        if choices.len() > 0 {
                            let first = choices.swap_remove(0);
                            Ok(first.message.content)
                        } else {
                            Err(ChatError::Unknown)
                        }
                    },
                    None => match response.error {
                        Some(error) => Err(ChatError::Provider(error.message)),
                        None => Err(ChatError::Unknown),
                    },
                },
            }
        },
    }
}

impl ChatErrorView {
    /// What the user is told of an error.
    pub open spec fn message(self) -> Seq<char> {
        match self {
            ChatErrorView::InvalidMessage => "a message needs a role and a content"@,
            ChatErrorView::ProviderUnresolved => "please setup ai url first"@,
            ChatErrorView::Transport(reason) => reason,
            ChatErrorView::RequestFailed(status) => "ai request failed: "@ + decimal(status as nat),
            ChatErrorView::ResponseParse(reason) => reason,
            ChatErrorView::Provider(message) => message,
            ChatErrorView::Unknown => "unkown exception"@,
        }
    }
}

impl ChatError {
    /// What the user is told of this error.
    pub fn message(&self) -> (text: String)
        ensures
            text@ == self@.message(),
    {
        match self {
            ChatError::InvalidMessage => String::from_str("a message needs a role and a content"),
            ChatError::ProviderUnresolved => String::from_str("please setup ai url first"),
            ChatError::Transport(reason) => reason.clone(),
            ChatError::RequestFailed(status) => joined(
                "ai request failed: ",
                number_text(*status as u64).as_str(),
            ),
            ChatError::ResponseParse(reason) => reason.clone(),
            ChatError::Provider(message) => message.clone(),
            ChatError::Unknown => String::from_str("unkown exception"),
        }
    }
}

} // verus!
