//! The configuration of the service, told from the variables of its environment.

use vstd::prelude::*;
use crate::domain::models::clone_text;
use crate::text::lowercase;
use crate::text::to_lowercase;
use crate::text::to_uppercase;
use crate::text::uppercase;
use crate::text::chars_of;

verus! {

/// The configuration of the service.
#[derive(Debug)]
pub struct Config {
    /// The port that the service listens on.
    pub port: u16,
    /// Where the token service is reached.
    pub auth_service_url: String,
    /// Where the chunking service is reached.
    pub chunker_service_url: String,
    /// Where the embedding service is reached.
    pub embedding_service_url: String,
    /// Where the graph service is reached.
    pub graph_service_url: String,
    pub embedding_enabled: bool,
    pub graph_rag_enabled: bool,
    pub database_url: Option<String>,
    pub redis_url: Option<String>,
    /// The directory that is synced where a request names none.
    pub local_sync_path_default: Option<String>,
    pub jwt_secret: Option<String>,
    pub jwt_public_key_path: Option<String>,
    pub internal_api_key: Option<String>,
    pub auth0_domain: Option<String>,
    pub auth0_audience: Option<String>,
}

/// The port that the service listens on where none is configured.
pub const DEFAULT_PORT: u16 = 3013;

/// The value of the first variable of the name `name`, if there is one.
pub open spec fn variable(env: Seq<(Seq<char>, Seq<char>)>, name: Seq<char>) -> Option<Seq<char>>
    decreases env.len(),
{
    if env.len() == 0 {
        None
    } else if env[0].0 == name {
        Some(env[0].1)
    } else {
        variable(env.drop_first(), name)
    }
}

/// The value of a decimal digit; nothing for another character.
pub open spec fn digit_value(c: char) -> Option<nat> {
    if '0' <= c <= '9' {
        Some((c as nat - '0' as nat) as nat)
    } else {
        None
    }
}

/// The number that some decimal digits stand for; nothing where a character is no digit.
pub open spec fn digits_value(digits: Seq<char>) -> Option<nat>
    decreases digits.len(),
{
    if digits.len() == 0 {
        Some(0)
    } else {
        match (digits_value(digits.drop_last()), digit_value(digits.last())) {
            (Some(lead), Some(last)) => Some(lead * 10 + last),
            _ => None,
        }
    }
}

/// The port that a text stands for: the text must be decimal digits, with a plus sign
/// before them or not, and the number must be one that a port can be.
pub open spec fn port_of(text: Seq<char>) -> Option<u16> {
    let digits = if text.len() > 0 && text[0] == '+' {
        text.drop_first()
    } else {
        text
    };
    if digits.len() == 0 {
        None
    } else {
        match digits_value(digits) {
            Some(value) => if value <= u16::MAX {
                Some(value as u16)
            } else {
                None
            },
            None => None,
        }
    }
}

/// Once the digits stand for more than a port can be, more digits do not mend it.
proof fn lemma_digits_grow(digits: Seq<char>, lead: int)
    requires
        0 <= lead <= digits.len(),
        digits_value(digits.take(lead)) matches Some(value) && value > u16::MAX,
    ensures
        digits_value(digits) matches Some(value) ==> value > u16::MAX,
    decreases digits.len() - lead,
{
    if lead < digits.len() {
        let next = digits.take(lead + 1);
        assert(next.drop_last() =~= digits.take(lead));
        if digits_value(next) is Some {
            lemma_digits_grow(digits, lead + 1);
        } else {
            lemma_digits_fail(digits, lead + 1);
        }
    } else {
        assert(digits.take(lead) =~= digits);
    }
}

/// Once a character is no digit, the whole is no number.
proof fn lemma_digits_fail(digits: Seq<char>, lead: int)
    requires
        0 <= lead <= digits.len(),
        digits_value(digits.take(lead)) is None,
    ensures
        digits_value(digits) is None,
    decreases digits.len() - lead,
{
    if lead < digits.len() {
        let next = digits.take(lead + 1);
        assert(next.drop_last() =~= digits.take(lead));
        lemma_digits_fail(digits, lead + 1);
    } else {
        assert(digits.take(lead) =~= digits);
    }
}

/// The port that `text` stands for.
pub fn parse_port(text: &str) -> (r: Option<u16>)
    ensures
        r == port_of(text@),
{
    let chars = chars_of(text);
    let n = chars.len();
    let start: usize = if n > 0 && chars[0] == '+' {
        1
    } else {
        0
    };
    if start == n {
        if n > 0 {
            assert(chars@.drop_first().len() == n - 1);
        }
        return None;
    }
    let ghost digits = if start == 1 {
        chars@.drop_first()
    } else {
        chars@
    };
    let mut value: u32 = 0;
    let mut i: usize = start;
    assert(digits.take(0) =~= Seq::empty());
    while i < n
        invariant
            start <= i <= n,
            start < n,
            n == chars@.len(),
            chars@ == text@,
            start == 1 || start == 0,
            start == 1 <==> chars@[0] == '+',
            digits == if start == 1 {
                chars@.drop_first()
            } else {
                chars@
            },
            digits.len() == n - start,
            forall|j: int| 0 <= j < digits.len() ==> digits[j] == chars@[start + j],
            digits_value(digits.take(i - start)) == Some(value as nat),
            value <= u16::MAX,
        decreases n - i,
    {
        let c = chars[i];
        let ghost lead = digits.take(i - start);
        let ghost next = digits.take(i - start + 1);
        assert(next.drop_last() =~= lead);
        assert(next.last() == c);
        if c < '0' || c > '9' {
            proof {
                lemma_digits_fail(digits, i - start + 1);
            }
            return None;
        }
        let d = (c as u32) - ('0' as u32);
        value = value * 10 + d;
        if value > 65535 {
            proof {
                lemma_digits_grow(digits, i - start + 1);
            }
            return None;
        }
        i += 1;
    }
    assert(digits.take(n - start) =~= digits);
    Some(value as u16)
}

/// Whether a switch is on: it is, unless the variable is set to something other than
/// `true`, in whatever case.
pub open spec fn switched_on(value: Option<Seq<char>>) -> bool {
    match value {
        Some(text) => lowercase(text) == "true"@,
        None => true,
    }
}

/// What a variable holds, or the usual value where it is not set.
pub open spec fn or_default(value: Option<Seq<char>>, usual: Seq<char>) -> Seq<char> {
    match value {
        Some(text) => text,
        None => usual,
    }
}

/// The name of the variable that holds the directory to sync for a profile.
pub open spec fn profile_variable(profile: Seq<char>) -> Seq<char> {
    "LOCAL_SYNC_PATH_"@ + uppercase(profile)
}

/// The value of the first variable of the name `name`, if there is one.
pub fn lookup(env: &Vec<(String, String)>, name: &str) -> (r: Option<String>)
    ensures
        r.deep_view() == variable(env.deep_view(), name@),
{
    let mut i: usize = 0;
    assert(env.deep_view().skip(0) =~= env.deep_view());
    while i < env.len()
        invariant
            i <= env.len(),
            variable(env.deep_view(), name@) == variable(env.deep_view().skip(i as int), name@),
        decreases env.len() - i,
    {
        let ghost rest = env.deep_view().skip(i as int);
        assert(rest[0] == (env@[i as int].0@, env@[i as int].1@));
        assert(rest.drop_first() =~= env.deep_view().skip(i + 1));
        if env[i].0.as_str().eq(name) {
            return Some(env[i].1.clone());
        }
        i += 1;
    }
    None
}

impl Config {
    /// The configuration that the variables `env` ask for. A variable that is not set
    /// leaves the usual value in place, and so does a port that is no port.
    pub fn from_env(env: &Vec<(String, String)>) -> (r: Self)
        ensures
            r.port == match variable(env.deep_view(), "PORT"@) {
                Some(text) => match port_of(text) {
                    Some(port) => port,
                    None => DEFAULT_PORT,
                },
                None => DEFAULT_PORT,
            },
            r.auth_service_url@ == or_default(
                variable(env.deep_view(), "AUTH_SERVICE_URL"@),
                "http://localhost:3010"@,
            ),
            r.chunker_service_url@ == or_default(
                variable(env.deep_view(), "CHUNKER_SERVICE_URL"@),
                "http://localhost:3017"@,
            ),
            r.embedding_service_url@ == or_default(
                variable(env.deep_view(), "EMBEDDING_SERVICE_URL"@),
                "http://localhost:8082"@,
            ),
            r.graph_service_url@ == or_default(
                variable(env.deep_view(), "RELATION_GRAPH_SERVICE_URL"@),
                "http://localhost:3018"@,
            ),
            r.embedding_enabled == switched_on(variable(env.deep_view(), "EMBEDDING_ENABLED"@)),
            r.graph_rag_enabled == switched_on(variable(env.deep_view(), "GRAPH_RAG_ENABLED"@)),
            r.database_url.deep_view() == variable(env.deep_view(), "DATABASE_URL"@),
            r.redis_url.deep_view() == variable(env.deep_view(), "REDIS_URL"@),
            r.local_sync_path_default.deep_view() == variable(
                env.deep_view(),
                "LOCAL_SYNC_PATH_DEFAULT"@,
            ),
            r.jwt_secret.deep_view() == variable(env.deep_view(), "JWT_SECRET"@),
            r.jwt_public_key_path.deep_view() == variable(env.deep_view(), "JWT_PUBLIC_KEY_PATH"@),
            r.internal_api_key.deep_view() == variable(env.deep_view(), "INTERNAL_API_KEY"@),
            r.auth0_domain.deep_view() == variable(env.deep_view(), "AUTH0_DOMAIN"@),
            r.auth0_audience.deep_view() == variable(env.deep_view(), "AUTH0_AUDIENCE"@),
    {
        Config {
            port: match lookup(env, "PORT") {
                Some(text) => match parse_port(text.as_str()) {
                    Some(port) => port,
                    None => DEFAULT_PORT,
                },
                None => DEFAULT_PORT,
            },
            auth_service_url: Self::text_or(lookup(env, "AUTH_SERVICE_URL"), "http://localhost:3010"),
            chunker_service_url: Self::text_or(
                lookup(env, "CHUNKER_SERVICE_URL"),
                "http://localhost:3017",
            ),
            embedding_service_url: Self::text_or(
                lookup(env, "EMBEDDING_SERVICE_URL"),
                "http://localhost:8082",
            ),
            graph_service_url: Self::text_or(
                lookup(env, "RELATION_GRAPH_SERVICE_URL"),
                "http://localhost:3018",
            ),
            embedding_enabled: Self::is_on(lookup(env, "EMBEDDING_ENABLED")),
            graph_rag_enabled: Self::is_on(lookup(env, "GRAPH_RAG_ENABLED")),
            database_url: lookup(env, "DATABASE_URL"),
            redis_url: lookup(env, "REDIS_URL"),
            local_sync_path_default: lookup(env, "LOCAL_SYNC_PATH_DEFAULT"),
            jwt_secret: lookup(env, "JWT_SECRET"),
            jwt_public_key_path: lookup(env, "JWT_PUBLIC_KEY_PATH"),
            internal_api_key: lookup(env, "INTERNAL_API_KEY"),
            auth0_domain: lookup(env, "AUTH0_DOMAIN"),
            auth0_audience: lookup(env, "AUTH0_AUDIENCE"),
        }
    }

    /// What a variable holds, or the usual value where it is not set.
    fn text_or(value: Option<String>, usual: &str) -> (r: String)
        ensures
            r@ == or_default(value.deep_view(), usual@),
    {
        match value {
            Some(text) => text,
            None => String::from_str(usual),
        }
    }

    /// Whether a switch is on.
    fn is_on(value: Option<String>) -> (r: bool)
        ensures
            r == switched_on(value.deep_view()),
    {
        match value {
            Some(text) => to_lowercase(text.as_str()).as_str().eq("true"),
            None => true,
        }
    }

    /// The directory that is to be synced for a profile: what the variable of the profile
    /// holds among `env`; and for no profile, the default directory of the configuration.
    pub fn get_local_sync_path(&self, profile: Option<&str>, env: &Vec<(String, String)>) -> (r:
        Option<String>)
        ensures
            r.deep_view() == match profile {
                Some(name) => variable(env.deep_view(), profile_variable(name@)),
                None => self.local_sync_path_default.deep_view(),
            },
    {
        match profile {
            Some(name) => {
                let variable_name = String::from_str("LOCAL_SYNC_PATH_").concat(
                    to_uppercase(name).as_str(),
                );
                lookup(env, variable_name.as_str())
            },
            None => clone_text(&self.local_sync_path_default),
        }
    }
}

} // verus!
