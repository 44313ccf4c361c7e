//! Message templates with `{{name}}` placeholders.

use crate::strmap::StrMap;
use crate::text::{chars_of, occurs_at, u64_to_text, decimal_text};
use vstd::prelude::*;

verus! {

/// What a message is rendered from.
#[derive(Debug)]
pub struct TemplateContext {
    /// The name of the service.
    pub service_name: String,
    /// The address of the service.
    pub service_url: String,
    /// The HTTP status of the answer, if there was one.
    pub status_code: Option<u16>,
    /// How long the probe took, in milliseconds.
    pub response_time: u64,
    /// When the probe was made, in words.
    pub timestamp: String,
    /// What went wrong, if anything did.
    pub error_message: Option<String>,
    /// Further values by name.
    pub custom_fields: StrMap<String>,
}

/// `text` from `at` on with every occurrence of `from` replaced by `to`,
/// found from left to right without overlap. An empty `from` occurs nowhere.
pub open spec fn replaced(text: Seq<char>, from: Seq<char>, to: Seq<char>, at: int) -> Seq<char>
    decreases text.len() - at,
{
    if at < 0 || at >= text.len() {
        Seq::empty()
    } else if from.len() > 0 && occurs_at(text, from, at) {
        to + replaced(text, from, to, at + from.len())
    } else {
        seq![text[at]] + replaced(text, from, to, at + 1)
    }
}

fn occurs_here(text: &Vec<char>, from: &Vec<char>, at: usize) -> (r: bool)
    requires
        at < text.len(),
    ensures
        r == occurs_at(text@, from@, at as int),
{
    if from.len() > text.len() - at {
        return false;
    }
    let mut i: usize = 0;
    while i < from.len()
        invariant
            i <= from.len(),
            at + from.len() <= text.len(),
            forall|j: int| 0 <= j < i ==> text@[at + j] == from@[j],
        decreases from.len() - i,
    {
        if text[at + i] != from[i] {
            assert(text@.subrange(at as int, at + from@.len())[i as int] == text@[at + i]);
            return false;
        }
        i += 1;
    }
    assert(text@.subrange(at as int, at + from@.len()) =~= from@);
    true
}

/// Replaces every occurrence of `from` in `text` by `to`.
pub fn replace_all(text: &str, from: &str, to: &str) -> (r: String)
    ensures
        r@ == replaced(text@, from@, to@, 0),
{
    let t = chars_of(text);
    let f = chars_of(from);
    let mut out = String::new();
    let mut chunk_start: usize = 0;
    let mut i: usize = 0;
    assert(out@ + text@.subrange(0, 0) + replaced(text@, from@, to@, 0) =~= replaced(
        text@,
        from@,
        to@,
        0,
    ));
    while i < t.len()
        invariant
            chunk_start <= i <= t.len(),
            t@ == text@,
            f@ == from@,
            replaced(text@, from@, to@, 0) == out@ + text@.subrange(chunk_start as int, i as int)
                + replaced(text@, from@, to@, i as int),
        decreases t.len() - i,
    {
        let ghost head = out@ + text@.subrange(chunk_start as int, i as int);
        if f.len() > 0 && occurs_here(&t, &f, i) {
            out.append(text.substring_char(chunk_start, i));
            out.append(to);
            proof {
                let rest = replaced(text@, from@, to@, i + from@.len());
                assert(out@ + text@.subrange(i + from@.len(), i + from@.len()) + rest =~= head + (
                to@ + rest));
            }
            i = i + f.len();
            chunk_start = i;
        } else {
            proof {
                let rest = replaced(text@, from@, to@, i + 1);
                assert(out@ + text@.subrange(chunk_start as int, i + 1) + rest =~= head + (
                seq![text@[i as int]] + rest));
            }
            i += 1;
        }
    }
    out.append(text.substring_char(chunk_start, i));
    assert(out@ + Seq::<char>::empty() =~= out@);
    out
}

/// The text that stands for an HTTP status in a message.
pub open spec fn status_code_text(status_code: Option<u16>) -> Seq<char> {
    match status_code {
        Some(code) => decimal_text(code as nat),
        None => "N/A"@,
    }
}

/// The text that stands for an error in a message.
pub open spec fn error_text(error_message: Option<String>) -> Seq<char> {
    match error_message {
        Some(m) => m@,
        None => Seq::empty(),
    }
}

/// `text` with the placeholder `{{key}}` replaced by `value`.
pub open spec fn with_field(text: Seq<char>, key: Seq<char>, value: Seq<char>) -> Seq<char> {
    replaced(text, "{{"@ + key + "}}"@, value, 0)
}

/// `text` with the placeholders of the first `n` custom fields replaced, one
/// field after the other.
pub open spec fn with_custom_fields(text: Seq<char>, fields: StrMap<String>, n: int) -> Seq<char>
    decreases n,
{
    if n <= 0 {
        text
    } else {
        with_field(with_custom_fields(text, fields, n - 1), fields.keys()[n - 1], fields.vals()[n
            - 1]@)
    }
}

/// The template rendered for a context: the placeholders of the service's
/// name and address, of the elapsed time, the time, the status and the error
/// are replaced in this order, then those of the custom fields.
pub open spec fn rendered(template: Seq<char>, c: TemplateContext) -> Seq<char> {
    let a = with_field(template, "service_name"@, c.service_name@);
    let b = with_field(a, "service_url"@, c.service_url@);
    let d = with_field(b, "response_time"@, decimal_text(c.response_time as nat));
    let e = with_field(d, "timestamp"@, c.timestamp@);
    let f = with_field(e, "status_code"@, status_code_text(c.status_code));
    let g = with_field(f, "error_message"@, error_text(c.error_message));
    with_custom_fields(g, c.custom_fields, c.custom_fields.keys().len() as int)
}

fn replace_field(text: &str, key: &str, value: &str) -> (r: String)
    ensures
        r@ == with_field(text@, key@, value@),
{
    let mut placeholder = "{{".to_string();
    placeholder.append(key);
    placeholder.append("}}");
    replace_all(text, placeholder.as_str(), value)
}

/// A template whose placeholders are replaced as plain text.
#[derive(Debug)]
pub struct SimpleTemplate {
    template: String,
}

impl SimpleTemplate {
    /// The text of the template.
    pub closed spec fn text(&self) -> Seq<char> {
        self.template@
    }

    /// A template with the given text.
    pub fn new(template: String) -> (r: Self)
        ensures
            r.text() == template@,
    {
        SimpleTemplate { template }
    }

    /// Renders the template for `context`.
    pub fn render(&self, context: &TemplateContext) -> (r: String)
        ensures
            r@ == rendered(self.text(), *context),
    {
        let a = replace_field(self.template.as_str(), "service_name", context.service_name.as_str());
        let b = replace_field(a.as_str(), "service_url", context.service_url.as_str());
        let millis = u64_to_text(context.response_time);
        let d = replace_field(b.as_str(), "response_time", millis.as_str());
        let e = replace_field(d.as_str(), "timestamp", context.timestamp.as_str());
        let f = match context.status_code {
            Some(code) => {
                let digits = u64_to_text(code as u64);
                replace_field(e.as_str(), "status_code", digits.as_str())
            },
            None => replace_field(e.as_str(), "status_code", "N/A"),
        };
        let g = match &context.error_message {
            Some(m) => replace_field(f.as_str(), "error_message", m.as_str()),
            None => {
                let r = replace_field(f.as_str(), "error_message", "");
                proof {
                    reveal_strlit("");
                    assert(""@ =~= Seq::<char>::empty());
                }
                r
            },
        };
        let n = context.custom_fields.len();
        let mut out = g;
        let mut i: usize = 0;
        while i < n
            invariant
                i <= n,
                n == context.custom_fields.keys().len(),
                n == context.custom_fields.vals().len(),
                out@ == with_custom_fields(g@, context.custom_fields, i as int),
            decreases n - i,
        {
            let key = context.custom_fields.key_at(i);
            let value = context.custom_fields.value_at(i);
            out = replace_field(out.as_str(), key.as_str(), value.as_str());
            i += 1;
        }
        out
    }

    /// Checks the template. A plain template is always in order.
    pub fn validate(&self) -> (r: bool)
        ensures
            r,
    {
        true
    }
}

/// The text of the alert template that is used unless another is configured.
pub const DEFAULT_ALERT_TEMPLATE: &'static str = r#"🚨 **服务告警**

**基本信息**
- **服务名称**: {{service_name}}
- **服务URL**: {{service_url}}
{{#if service_description}}
- **服务描述**: {{service_description}}
{{/if}}

**检测结果**
- **状态码**: {{#if status_code}}{{status_code}}{{else}}N/A{{/if}}
- **响应时间**: {{response_time}}ms
- **检测时间**: {{timestamp}}
- **健康状态**: {{status_emoji health_status}} {{health_status}}

{{#if error_message}}
**错误详情**
```
{{error_message}}
```
{{/if}}

---
*Service Vitals 自动监控*"#;

/// The text of the recovery template that is used unless another is
/// configured.
pub const DEFAULT_RECOVERY_TEMPLATE: &'static str = r#"✅ **服务恢复**

**基本信息**
- **服务名称**: {{service_name}}
- **服务URL**: {{service_url}}
{{#if service_description}}
- **服务描述**: {{service_description}}
{{/if}}

**恢复详情**
- **状态码**: {{status_code}}
- **响应时间**: {{response_time}}ms
- **恢复时间**: {{timestamp}}
- **健康状态**: {{status_emoji true}} 正常

---
*Service Vitals 自动监控*"#;

/// The alert template that is used unless another is configured.
pub fn default_alert_template() -> (r: String)
    ensures
        r@ == DEFAULT_ALERT_TEMPLATE@,
{
    DEFAULT_ALERT_TEMPLATE.to_string()
}

/// The recovery template that is used unless another is configured.
pub fn default_recovery_template() -> (r: String)
    ensures
        r@ == DEFAULT_RECOVERY_TEMPLATE@,
{
    DEFAULT_RECOVERY_TEMPLATE.to_string()
}

} // verus!
