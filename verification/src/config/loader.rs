//! Loading a configuration: references to environment variables in the raw
//! text are replaced before it is parsed, and what was parsed is validated.

use crate::config::types::{table_view, Config};
use crate::config::validation::{
    config_valid, first_violation, validate_config, violation_message,
};
use crate::error::ConfigError;
use crate::strmap::StrMap;
use crate::text::chars_of;
use vstd::prelude::*;

verus! {

/// Whether `c` can begin the name of a variable: an ASCII letter or `_`.
pub open spec fn is_name_start(c: char) -> bool {
    ('A' <= c && c <= 'Z') || ('a' <= c && c <= 'z') || c == '_'
}

/// Whether `c` can go on the name of a variable: an ASCII letter, an ASCII
/// digit or `_`.
pub open spec fn is_name_char(c: char) -> bool {
    is_name_start(c) || ('0' <= c && c <= '9')
}

/// The first position from `from` on that holds no name character.
pub open spec fn name_end(text: Seq<char>, from: int) -> int
    decreases text.len() - from,
{
    if from < 0 || from >= text.len() || !is_name_char(text[from]) {
        from
    } else {
        name_end(text, from + 1)
    }
}

/// Whether a reference `${NAME}` begins at position `at`.
pub open spec fn reference_at(text: Seq<char>, at: int) -> bool {
    &&& 0 <= at
    &&& at + 2 < text.len()
    &&& text[at] == '$'
    &&& text[at + 1] == '{'
    &&& is_name_start(text[at + 2])
    &&& name_end(text, at + 3) < text.len()
    &&& text[name_end(text, at + 3)] == '}'
}

/// The name of the reference that begins at `at`.
pub open spec fn reference_name(text: Seq<char>, at: int) -> Seq<char> {
    text.subrange(at + 2, name_end(text, at + 3))
}

/// The position after the reference that begins at `at`.
pub open spec fn reference_end(text: Seq<char>, at: int) -> int {
    name_end(text, at + 3) + 1
}

/// `head` in front of a result, where there is one.
pub open spec fn prepend(head: Seq<char>, tail: Result<Seq<char>, Seq<char>>) -> Result<
    Seq<char>,
    Seq<char>,
> {
    match tail {
        Ok(rest) => Ok(head + rest),
        Err(name) => Err(name),
    }
}

/// The text from `from` on with every reference replaced by the value of its
/// variable, read from left to right; what was put in is not read again. The
/// first reference to a variable that `env` lacks ends it with that name.
pub open spec fn substituted(
    text: Seq<char>,
    env: Map<Seq<char>, Seq<char>>,
    from: int,
) -> Result<Seq<char>, Seq<char>>
    decreases text.len() - from,
    via substituted_decreases
{
    if from < 0 || from >= text.len() {
        Ok(Seq::empty())
    } else if reference_at(text, from) {
        if env.dom().contains(reference_name(text, from)) {
            prepend(
                env[reference_name(text, from)],
                substituted(text, env, reference_end(text, from)),
            )
        } else {
            Err(reference_name(text, from))
        }
    } else {
        prepend(seq![text[from]], substituted(text, env, from + 1))
    }
}

#[via_fn]
proof fn substituted_decreases(text: Seq<char>, env: Map<Seq<char>, Seq<char>>, from: int) {
    if reference_at(text, from) {
        lemma_name_end(text, from + 3);
    }
}

/// The name character run ends at or after where it starts, inside the text.
pub proof fn lemma_name_end(text: Seq<char>, from: int)
    requires
        0 <= from <= text.len(),
    ensures
        from <= name_end(text, from) <= text.len(),
        forall|j: int| from <= j < name_end(text, from) ==> is_name_char(#[trigger] text[j]),
        name_end(text, from) < text.len() ==> !is_name_char(text[name_end(text, from)]),
    decreases text.len() - from,
{
    if from < text.len() && is_name_char(text[from]) {
        lemma_name_end(text, from + 1);
    }
}

fn check_name_start(c: char) -> (r: bool)
    ensures
        r == is_name_start(c),
{
    ('A' <= c && c <= 'Z') || ('a' <= c && c <= 'z') || c == '_'
}

fn check_name_char(c: char) -> (r: bool)
    ensures
        r == is_name_char(c),
{
    check_name_start(c) || ('0' <= c && c <= '9')
}

/// Finds where the reference that begins at `at` ends, if one begins there.
fn scan_reference(text: &Vec<char>, at: usize) -> (r: Option<usize>)
    requires
        at < text.len(),
    ensures
        match r {
            Some(end) => reference_at(text@, at as int) && end == reference_end(text@, at as int)
                && at + 4 <= end <= text.len(),
            None => !reference_at(text@, at as int),
        },
{
    if text[at] != '$' {
        return None;
    }
    if text.len() - at < 3 {
        return None;
    }
    if text[at + 1] != '{' || !check_name_start(text[at + 2]) {
        return None;
    }
    let mut e: usize = at + 3;
    proof {
        lemma_name_end(text@, at + 3);
    }
    while e < text.len() && check_name_char(text[e])
        invariant
            at + 3 <= e <= text.len(),
            name_end(text@, at + 3) == name_end(text@, e as int),
        decreases text.len() - e,
    {
        e += 1;
    }
    if e < text.len() && text[e] == '}' {
        Some(e + 1)
    } else {
        None
    }
}

/// Replaces every reference `${NAME}` in `content` by the value that `env`
/// holds for `NAME`. The first reference to a variable that `env` lacks is
/// the error, which names the variable.
pub fn substitute_references(content: &str, env: &StrMap<String>) -> (r: Result<String, ConfigError>)
    ensures
        match r {
            Ok(text) => substituted(content@, table_view(*env), 0) == Ok::<
                Seq<char>,
                Seq<char>,
            >(text@),
            Err(e) => match e {
                ConfigError::EnvVarError { var } => substituted(content@, table_view(*env), 0)
                    == Err::<Seq<char>, Seq<char>>(var@),
                _ => false,
            },
        },
{
    let text = chars_of(content);
    let ghost env_map = table_view(*env);
    let mut out = String::new();
    let mut chunk_start: usize = 0;
    let mut i: usize = 0;
    assert(out@ + content@.subrange(0, 0) =~= Seq::<char>::empty());
    assert(prepend(Seq::<char>::empty(), substituted(content@, env_map, 0)) == substituted(
        content@,
        env_map,
        0,
    )) by {
        match substituted(content@, env_map, 0) {
            Ok(rest) => {
                assert(Seq::<char>::empty() + rest =~= rest);
            },
            Err(_) => {},
        }
    }
    while i < text.len()
        invariant
            chunk_start <= i <= text.len(),
            text@ == content@,
            env_map == table_view(*env),
            substituted(content@, env_map, 0) == prepend(
                out@ + content@.subrange(chunk_start as int, i as int),
                substituted(content@, env_map, i as int),
            ),
        decreases text.len() - i,
    {
        let ghost head = out@ + content@.subrange(chunk_start as int, i as int);
        match scan_reference(&text, i) {
            Some(end) => {
                let name = content.substring_char(i + 2, end - 1);
                match env.get(name) {
                    Some(value) => {
                        out.append(content.substring_char(chunk_start, i));
                        out.append(value.as_str());
                        proof {
                            let tail = substituted(content@, env_map, end as int);
                            assert(out@ + content@.subrange(end as int, end as int) =~= head
                                + value@);
                            match tail {
                                Ok(rest) => {
                                    assert(head + (value@ + rest) =~= (head + value@) + rest);
                                },
                                Err(_) => {},
                            }
                        }
                        chunk_start = end;
                        i = end;
                    },
                    None => {
                        return Err(ConfigError::EnvVarError { var: name.to_string() });
                    },
                }
            },
            None => {
                proof {
                    let tail = substituted(content@, env_map, i + 1);
                    assert(out@ + content@.subrange(chunk_start as int, i + 1) =~= head
                        + seq![content@[i as int]]);
                    match tail {
                        Ok(rest) => {
                            assert(head + (seq![content@[i as int]] + rest) =~= (head
                                + seq![content@[i as int]]) + rest);
                        },
                        Err(_) => {},
                    }
                }
                i += 1;
            },
        }
    }
    out.append(content.substring_char(chunk_start, i));
    proof {
        assert(out@ + Seq::<char>::empty() =~= out@);
    }
    Ok(out)
}

/// Loads configurations: it knows the environment variables that references
/// may name, and whether references are replaced at all.
#[derive(Debug)]
pub struct TomlConfigLoader {
    enable_env_substitution: bool,
    env_cache: StrMap<String>,
}

impl TomlConfigLoader {
    /// Whether references are replaced.
    pub closed spec fn substitutes(&self) -> bool {
        self.enable_env_substitution
    }

    /// The environment variables that the loader knows.
    pub closed spec fn env(&self) -> Map<Seq<char>, Seq<char>> {
        table_view(self.env_cache)
    }

    /// A loader that knows no environment variable yet.
    pub fn new(enable_env_substitution: bool) -> (r: Self)
        ensures
            r.substitutes() == enable_env_substitution,
            r.env() == Map::<Seq<char>, Seq<char>>::empty(),
    {
        let r = TomlConfigLoader { enable_env_substitution, env_cache: StrMap::new() };
        assert(r.env() =~= Map::<Seq<char>, Seq<char>>::empty());
        r
    }

    /// The same loader, knowing the variable `name` with the value `value`.
    pub fn with_env_var(self, name: String, value: String) -> (r: Self)
        ensures
            r.substitutes() == self.substitutes(),
            r.env() == self.env().insert(name@, value@),
    {
        let mut r = self;
        crate::config::types::table_insert(&mut r.env_cache, name, value);
        r
    }

    /// Replaces the references to environment variables in `content`, where
    /// the loader is set to do so; else the text comes back as it is.
    pub fn substitute_env_vars(&self, content: &str) -> (r: Result<String, ConfigError>)
        ensures
            match r {
                Ok(text) => if self.substitutes() {
                    substituted(content@, self.env(), 0) == Ok::<Seq<char>, Seq<char>>(text@)
                } else {
                    text@ == content@
                },
                Err(e) => self.substitutes() && match e {
                    ConfigError::EnvVarError { var } => substituted(content@, self.env(), 0)
                        == Err::<Seq<char>, Seq<char>>(var@),
                    _ => false,
                },
            },
    {
        if !self.enable_env_substitution {
            return Ok(content.to_string());
        }
        substitute_references(content, &self.env_cache)
    }

    /// Validates a configuration that was parsed.
    pub fn validate(&self, config: &Config) -> (r: Result<(), ConfigError>)
        ensures
            r is Ok <==> config_valid(config@),
            match r {
                Ok(_) => true,
                Err(e) => match e {
                    ConfigError::ValidationError(m) => first_violation(config@) is Some && m@
                        == violation_message(config@, first_violation(config@)->0),
                    _ => false,
                },
            },
    {
        match validate_config(config) {
            Ok(_) => Ok(()),
            Err(m) => Err(ConfigError::ValidationError(m)),
        }
    }
}

} // verus!
