//! The webhook notifier's settings, where a notification goes, and what it
//! is titled.

use crate::config::types::{opt_text, ServiceConfig, ServiceConfigView};
use crate::health::result::{HealthResult, HealthStatus};
use crate::notification::sender::{MessageType, NotificationMessage};
use crate::error::NotificationError;
use crate::health::checker::RetryDecision;
use crate::notification::template::TemplateContext;
use crate::strmap::StrMap;
use crate::text::{concat2, decimal_text, i64_to_text, signed_decimal_text, u64_to_text};
use vstd::utf8::encode_utf8;
use vstd::prelude::*;

verus! {

/// How the webhook message is laid out.
#[derive(Clone, Copy, Debug, PartialEq, Eq, Structural)]
pub enum FeishuMessageFormat {
    /// Plain text.
    Text,
    /// Rich text.
    RichText,
    /// A card.
    Card,
}

/// The settings of the webhook notifier.
#[derive(Debug)]
pub struct FeishuConfig {
    /// The webhook that notifications go to unless a service names its own.
    pub webhook_url: Option<String>,
    /// The key that messages are signed with, if any.
    pub secret: Option<String>,
    /// Whether everybody is mentioned.
    pub mention_all: bool,
    /// The users that are mentioned.
    pub mention_users: Vec<String>,
    /// How often a failed delivery is tried again.
    pub max_retries: u32,
    /// Seconds between two attempts.
    pub retry_delay: u64,
    /// Seconds after which a delivery is given up.
    pub timeout: u64,
    /// The layout of messages.
    pub default_format: FeishuMessageFormat,
}

impl Default for FeishuConfig {
    fn default() -> (r: Self)
        ensures
            r.webhook_url is None,
            r.secret is None,
            r.mention_all,
            r.mention_users@.len() == 0,
            r.max_retries == 3,
            r.retry_delay == 5,
            r.timeout == 30,
            r.default_format == FeishuMessageFormat::Card,
    {
        FeishuConfig {
            webhook_url: None,
            secret: None,
            mention_all: true,
            mention_users: Vec::new(),
            max_retries: 3,
            retry_delay: 5,
            timeout: 30,
            default_format: FeishuMessageFormat::Card,
        }
    }
}

/// Where the notifications of a service go: to its own webhook, else to the
/// default one, else nowhere.
pub open spec fn effective_webhook(
    own: Option<Seq<char>>,
    default_url: Option<Seq<char>>,
) -> Option<Seq<char>> {
    match own {
        Some(url) => Some(url),
        None => default_url,
    }
}

/// The title of the notification for an outcome: a recovery notice for a
/// healthy one, an alert for any other.
pub open spec fn health_title(service_name: Seq<char>, status: HealthStatus) -> Seq<char> {
    if status == HealthStatus::Up {
        "✅ 服务恢复 - "@ + service_name
    } else {
        "🚨 服务告警 - "@ + service_name
    }
}

impl FeishuConfig {
    /// Where the notifications of `service` go.
    pub fn get_webhook_url(&self, service: &ServiceConfig) -> (r: Option<String>)
        ensures
            opt_text(r) == effective_webhook(
                service@.feishu_webhook_url,
                opt_text(self.webhook_url),
            ),
    {
        match &service.feishu_webhook_url {
            Some(url) => Some(url.clone()),
            None => self.webhook_url.clone(),
        }
    }
}

/// The notification for the outcome of a probe, with `content` as its text.
pub fn health_message(service: &ServiceConfig, result: &HealthResult, content: String) -> (m:
    NotificationMessage)
    ensures
        m.title@ == health_title(service@.name, result@.status),
        m.content@ == content@,
        m.service_name@ == service@.name,
        m.service_url@ == service@.url,
        m.message_type == if result@.status == HealthStatus::Up {
            MessageType::Recovery
        } else {
            MessageType::Alert
        },
{
    let healthy = result.status.is_healthy();
    let title = if healthy {
        concat2("✅ 服务恢复 - ", service.name.as_str())
    } else {
        concat2("🚨 服务告警 - ", service.name.as_str())
    };
    NotificationMessage {
        title,
        content,
        service_name: service.name.clone(),
        service_url: service.url.clone(),
        message_type: if healthy {
            MessageType::Recovery
        } else {
            MessageType::Alert
        },
    }
}

/// The HMAC-SHA256 code of `message` under `key`, where one can be made.
pub uninterp spec fn hmac_sha256(key: Seq<u8>, message: Seq<u8>) -> Option<Seq<u8>>;

/// The base64 text of `bytes` in the standard alphabet, with padding.
pub uninterp spec fn base64_standard(bytes: Seq<u8>) -> Seq<char>;

/// `Mac::new_from_slice`, `Mac::update` and `Mac::finalize` of the hmac
/// crate, for SHA-256 of the sha2 crate: the authentication code of
/// `message` under `key`, or nothing where the key is refused. The code
/// depends on the key and the message alone and is called `hmac_sha256`
/// here; SHA-256 makes it 32 bytes long.
#[verifier::external_body]
fn hmac_sha256_code(key: &[u8], message: &[u8]) -> (r: Option<Vec<u8>>)
    ensures
        match r {
            Some(code) => hmac_sha256(key@, message@) == Some(code@) && code@.len() == 32,
            None => hmac_sha256(key@, message@) is None,
        },
{
    match <hmac::Hmac<sha2::Sha256> as hmac::Mac>::new_from_slice(key) {
        Ok(mut mac) => {
            hmac::Mac::update(&mut mac, message);
            Some(hmac::Mac::finalize(mac).into_bytes().to_vec())
        },
        Err(_) => None,
    }
}

/// `Engine::encode` of the base64 crate with its `STANDARD` engine: the
/// base64 text of `bytes`, called `base64_standard` here. The crate panics
/// where the length of the text does not fit the machine, so the input is
/// kept short.
#[verifier::external_body]
fn base64_encode(bytes: &[u8]) -> (r: String)
    requires
        bytes@.len() <= 1024,
    ensures
        r@ == base64_standard(bytes@),
{
    base64::Engine::encode(&base64::engine::general_purpose::STANDARD, bytes)
}

/// What is signed for a message sent at `timestamp`: the time, a line break
/// and the secret.
pub open spec fn text_to_sign(timestamp: i64, secret: Seq<char>) -> Seq<char> {
    signed_decimal_text(timestamp as int) + "\n"@ + secret
}

/// The signature of a message sent at `timestamp` (seconds since the Unix
/// epoch) under `secret`: the base64 text of the HMAC-SHA256 code that the
/// secret, as key, gives to the text to sign.
pub fn generate_sign(timestamp: i64, secret: &str) -> (r: Result<String, NotificationError>)
    ensures
        match r {
            Ok(sign) => hmac_sha256(
                encode_utf8(secret@),
                encode_utf8(text_to_sign(timestamp, secret@)),
            ) is Some && sign@ == base64_standard(
                hmac_sha256(
                    encode_utf8(secret@),
                    encode_utf8(text_to_sign(timestamp, secret@)),
                )->0,
            ),
            Err(e) => hmac_sha256(
                encode_utf8(secret@),
                encode_utf8(text_to_sign(timestamp, secret@)),
            ) is None && e is SendError,
        },
{
    let mut to_sign = i64_to_text(timestamp);
    to_sign.append("\n");
    to_sign.append(secret);
    match hmac_sha256_code(secret.as_bytes(), to_sign.as_str().as_bytes()) {
        Some(code) => {
            Ok(base64_encode(code.as_slice()))
        },
        None => Err(NotificationError::SendError("创建HMAC失败".to_string())),
    }
}

/// The colour of the card for a notification.
pub open spec fn card_colour(message_type: MessageType) -> Seq<char> {
    match message_type {
        MessageType::Alert => "red"@,
        MessageType::Recovery => "green"@,
        MessageType::Info => "blue"@,
    }
}

/// The colour of the card for a notification.
pub fn card_color(message_type: MessageType) -> (r: &'static str)
    ensures
        r@ == card_colour(message_type),
{
    match message_type {
        MessageType::Alert => "red",
        MessageType::Recovery => "green",
        MessageType::Info => "blue",
    }
}

/// The mentions of the first `n` users, one tag each.
pub open spec fn user_mentions(users: Seq<String>, n: int) -> Seq<char>
    decreases n,
{
    if n <= 0 {
        Seq::empty()
    } else {
        user_mentions(users, n - 1) + "<at id="@ + users[n - 1]@ + "></at>"@
    }
}

/// The line of mentions on a card: everybody, where all are mentioned, then
/// each listed user.
pub open spec fn mentions(config: FeishuConfig) -> Seq<char> {
    (if config.mention_all {
        "<at id=all></at>"@
    } else {
        Seq::empty()
    }) + user_mentions(config.mention_users@, config.mention_users@.len() as int)
}

impl FeishuConfig {
    /// The line of mentions on a card. It is empty where nobody is mentioned.
    pub fn mention_text(&self) -> (r: String)
        ensures
            r@ == mentions(*self),
    {
        let mut out = String::new();
        if self.mention_all {
            out.append("<at id=all></at>");
        }
        let ghost head = out@;
        let mut i: usize = 0;
        assert(out@ =~= head + user_mentions(self.mention_users@, 0));
        while i < self.mention_users.len()
            invariant
                i <= self.mention_users.len(),
                out@ == head + user_mentions(self.mention_users@, i as int),
            decreases self.mention_users.len() - i,
        {
            out.append("<at id=");
            out.append(self.mention_users[i].as_str());
            out.append("></at>");
            i += 1;
            assert(out@ =~= head + user_mentions(self.mention_users@, i as int));
        }
        out
    }

    /// Decides what follows the delivery attempt number `attempt` (counted
    /// from 0): a delivered message stands, a failed one is tried again
    /// after the delay as long as retries are left.
    pub fn after_delivery_attempt(&self, attempt: u32, delivered: bool) -> (d: RetryDecision)
        ensures
            d == if !delivered && attempt < self.max_retries {
                RetryDecision::RetryAfter { delay_secs: self.retry_delay }
            } else {
                RetryDecision::Finish
            },
    {
        if !delivered && attempt < self.max_retries {
            RetryDecision::RetryAfter { delay_secs: self.retry_delay }
        } else {
            RetryDecision::Finish
        }
    }
}

/// What the webhook answered.
#[derive(Debug)]
pub struct WebhookReply {
    /// Whether the HTTP status is a success.
    pub is_success: bool,
    /// The HTTP status in words.
    pub status: String,
    /// The body of the answer.
    pub text: String,
    /// The `code` of the body, where the body is JSON and has one.
    pub code: Option<i64>,
    /// The `msg` of the body, where the body is JSON and has one.
    pub msg: Option<String>,
}

/// The error that a reply of the webhook amounts to, if it amounts to one: a
/// failed HTTP status, or a success whose body carries a code other than 0.
pub open spec fn reply_error(reply: WebhookReply) -> Option<Seq<char>> {
    if !reply.is_success {
        Some("HTTP请求失败: "@ + reply.status@ + " - "@ + reply.text@)
    } else if reply.code is Some && reply.code->0 != 0 {
        Some(
            "飞书API返回错误: "@ + signed_decimal_text(reply.code->0 as int) + " - "@ + match reply.msg {
                Some(m) => m@,
                None => "未知错误"@,
            },
        )
    } else {
        None
    }
}

/// Judges what the webhook answered.
pub fn judge_reply(reply: &WebhookReply) -> (r: Result<(), NotificationError>)
    ensures
        match r {
            Ok(_) => reply_error(*reply) is None,
            Err(e) => match e {
                NotificationError::SendError(m) => reply_error(*reply) == Some(m@),
                _ => false,
            },
        },
{
    if !reply.is_success {
        let mut m = concat2("HTTP请求失败: ", reply.status.as_str());
        m.append(" - ");
        m.append(reply.text.as_str());
        return Err(NotificationError::SendError(m));
    }
    match reply.code {
        Some(code) => {
            if code != 0 {
                let digits = i64_to_text(code);
                let mut m = concat2("飞书API返回错误: ", digits.as_str());
                m.append(" - ");
                match &reply.msg {
                    Some(msg) => {
                        m.append(msg.as_str());
                    },
                    None => {
                        m.append("未知错误");
                    },
                }
                return Err(NotificationError::SendError(m));
            }
        },
        None => {},
    }
    Ok(())
}

/// The time that lies `millis` milliseconds after the Unix epoch, in UTC, as
/// year-month-day and hour:minute:second, where the calendar reaches it.
pub uninterp spec fn utc_time_text(millis: i64) -> Option<Seq<char>>;

/// `DateTime::from_timestamp_millis` and `DateTime::format` of the chrono
/// crate, with the pattern `%Y-%m-%d %H:%M:%S`: the time in UTC in words, or
/// nothing where the milliseconds are out of the calendar's range. The text
/// depends on the milliseconds alone and is called `utc_time_text` here.
#[verifier::external_body]
fn format_utc_time(millis: i64) -> (r: Option<String>)
    ensures
        opt_text(r) == utc_time_text(millis),
{
    match chrono::DateTime::<chrono::Utc>::from_timestamp_millis(millis) {
        Some(time) => Some(time.format("%Y-%m-%d %H:%M:%S").to_string()),
        None => None,
    }
}

/// The time of an outcome as messages show it; empty where the calendar
/// does not reach it.
pub open spec fn context_time(millis: i64) -> Seq<char> {
    match utc_time_text(millis) {
        Some(text) => text,
        None => Seq::empty(),
    }
}

/// The custom fields of the context of a message: whether the service is
/// healthy, in a word and as `true` or `false`, its description where it has
/// one, its method and its failure threshold.
pub open spec fn context_fields(
    service: ServiceConfigView,
    status: HealthStatus,
) -> Map<Seq<char>, Seq<char>> {
    let healthy = status == HealthStatus::Up;
    let base = Map::<Seq<char>, Seq<char>>::empty().insert(
        "health_status"@,
        if healthy {
            "true"@
        } else {
            "false"@
        },
    ).insert(
        "health_status_text"@,
        if healthy {
            "正常"@
        } else {
            "异常"@
        },
    );
    let described = match service.description {
        Some(d) => base.insert("service_description"@, d),
        None => base,
    };
    described.insert("http_method"@, service.method).insert(
        "failure_threshold"@,
        decimal_text(service.failure_threshold as nat),
    )
}

/// The context that the message for an outcome is rendered from.
pub fn create_template_context(service: &ServiceConfig, result: &HealthResult) -> (c:
    TemplateContext)
    ensures
        c.service_name@ == service@.name,
        c.service_url@ == service@.url,
        c.status_code == result@.status_code,
        c.response_time == result@.response_time,
        c.timestamp@ == context_time(result@.timestamp),
        opt_text(c.error_message) == result@.error_message,
        crate::config::types::table_view(c.custom_fields) == context_fields(
            service@,
            result@.status,
        ),
{
    let healthy = result.status.is_healthy();
    let timestamp = match format_utc_time(result.timestamp) {
        Some(text) => text,
        None => String::new(),
    };
    let mut fields: StrMap<String> = StrMap::new();
    assert(crate::config::types::table_view(fields) =~= Map::<Seq<char>, Seq<char>>::empty());
    crate::config::types::table_insert(
        &mut fields,
        "health_status".to_string(),
        if healthy {
            "true".to_string()
        } else {
            "false".to_string()
        },
    );
    crate::config::types::table_insert(
        &mut fields,
        "health_status_text".to_string(),
        if healthy {
            "正常".to_string()
        } else {
            "异常".to_string()
        },
    );
    match &service.description {
        Some(d) => {
            crate::config::types::table_insert(
                &mut fields,
                "service_description".to_string(),
                d.clone(),
            );
        },
        None => {},
    }
    crate::config::types::table_insert(
        &mut fields,
        "http_method".to_string(),
        service.method.clone(),
    );
    crate::config::types::table_insert(
        &mut fields,
        "failure_threshold".to_string(),
        u64_to_text(service.failure_threshold as u64),
    );
    TemplateContext {
        service_name: service.name.clone(),
        service_url: service.url.clone(),
        status_code: result.status_code,
        response_time: result.response_time,
        timestamp,
        error_message: result.error_message.clone(),
        custom_fields: fields,
    }
}

} // verus!
