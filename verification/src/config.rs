//! The host agent's settings: defaults, and what each launch changes.
use std::path::PathBuf;
use vstd::prelude::*;

verus! {

#[verifier::external_type_specification]
#[verifier::external_body]
pub struct ExPathBuf(PathBuf);

/// A TURN relay server.
#[derive(Debug, Clone)]
pub struct TurnConfig {
    pub url: String,
    pub username: String,
    pub credential: String,
}

/// The host agent's settings.
#[derive(Debug, Clone)]
pub struct Config {
    pub host_id: String,
    /// One-time password, regenerated every launch and never stored.
    pub password: String,
    pub signaling_server_url: String,
    pub stun_servers: Vec<String>,
    pub turn_server: Option<TurnConfig>,
    pub allowed_dirs: Vec<PathBuf>,
    /// When false, the viewer can watch but not control.
    pub allow_control: bool,
}

/// What the network layer needs of the settings.
#[derive(Debug, Clone)]
pub struct NetworkConfig {
    pub host_id: String,
    pub password: String,
    pub signaling_server_url: String,
    pub stun_servers: Vec<String>,
}

/// Remote control is allowed unless the settings say otherwise.
pub fn default_allow_control() -> (b: bool)
    ensures
        b,
{
    true
}

/// ASCII lower case of a character; other characters are unchanged.
pub open spec fn ascii_lower(c: char) -> char {
    if 'A' <= c <= 'Z' {
        ((c as u32) + 32) as char
    } else {
        c
    }
}

/// Equality up to ASCII case.
pub open spec fn eq_ignore_ascii_case_spec(a: Seq<char>, b: Seq<char>) -> bool {
    a.len() == b.len() && forall|i: int| 0 <= i < a.len() ==> ascii_lower(#[trigger] a[i]) == ascii_lower(b[i])
}

fn lower_char(c: char) -> (r: char)
    ensures
        r == ascii_lower(c),
{
    if 'A' <= c && c <= 'Z' {
        ((c as u8) + 32) as char
    } else {
        c
    }
}

/// `str::eq_ignore_ascii_case`: equal up to the case of ASCII letters.
pub fn eq_ignore_ascii_case(a: &str, b: &str) -> (r: bool)
    ensures
        r == eq_ignore_ascii_case_spec(a@, b@),
{
    let n = a.unicode_len();
    if n != b.unicode_len() {
        return false;
    }
    let mut i: usize = 0;
    while i < n
        invariant
            n == a@.len(),
            n == b@.len(),
            i <= n,
            forall|j: int| 0 <= j < i ==> ascii_lower(#[trigger] a@[j]) == ascii_lower(b@[j]),
        decreases n - i,
    {
        if lower_char(a.get_char(i)) != lower_char(b.get_char(i)) {
            return false;
        }
        i += 1;
    }
    true
}

/// How an `ALLOW_CONTROL` setting reads: off for `0` and for `false` in any
/// case, on otherwise.
pub open spec fn allow_control_spec(v: Seq<char>) -> bool {
    !(v == "0"@ || eq_ignore_ascii_case_spec(v, "false"@))
}

/// Reads an `ALLOW_CONTROL` setting.
pub fn parse_allow_control(v: &str) -> (b: bool)
    ensures
        b == allow_control_spec(v@),
{
    !(crate::wire::str_eq(v, "0") || eq_ignore_ascii_case(v, "false"))
}

/// The TURN settings from the values of `TURN_URL`, `TURN_USERNAME` and
/// `TURN_CREDENTIAL`: none without a URL; a missing name or credential is empty.
pub fn turn_config_from(url: Option<String>, username: Option<String>, credential: Option<String>) -> (t: Option<TurnConfig>)
    ensures
        match url {
            None => t is None,
            Some(u) => t matches Some(c) && c.url == u && c.username@ == (match username {
                Some(n) => n@,
                None => Seq::empty(),
            }) && c.credential@ == (match credential {
                Some(n) => n@,
                None => Seq::empty(),
            }),
        },
{
    match url {
        None => None,
        Some(url) => {
            let username = match username {
                Some(n) => n,
                None => String::new(),
            };
            let credential = match credential {
                Some(n) => n,
                None => String::new(),
            };
            Some(TurnConfig { url, username, credential })
        },
    }
}

/// The signaling server used when none is configured.
pub open spec fn default_signaling_url() -> Seq<char> {
    "ws://localhost:8080"@
}

/// The STUN servers configured by default.
pub open spec fn default_stun_servers() -> Seq<Seq<char>> {
    seq!["stun:stun.l.google.com:19302"@, "stun:stun1.l.google.com:19302"@]
}

impl Config {
    /// Settings for a first launch: the given credentials, the signaling
    /// server from `SIGNALING_URL` or the local default, the default STUN
    /// servers, the TURN settings from the environment, file access under
    /// `allowed_dir` (the home directory, or `/`), remote control allowed.
    pub fn default_config(
        host_id: String,
        password: String,
        signaling_url_env: Option<String>,
        turn_server: Option<TurnConfig>,
        allowed_dir: PathBuf,
    ) -> (c: Config)
        ensures
            c.host_id == host_id,
            c.password == password,
            c.signaling_server_url@ == (match signaling_url_env {
                Some(u) => u@,
                None => default_signaling_url(),
            }),
            c.stun_servers@.map_values(|s: String| s@) == default_stun_servers(),
            c.turn_server == turn_server,
            c.allowed_dirs@ == seq![allowed_dir],
            c.allow_control,
    {
        let signaling_server_url = match signaling_url_env {
            Some(u) => u,
            None => "ws://localhost:8080".to_string(),
        };
        let stun_servers = vec![
            "stun:stun.l.google.com:19302".to_string(),
            "stun:stun1.l.google.com:19302".to_string(),
        ];
        let allowed_dirs = vec![allowed_dir];
        let c = Config {
            host_id,
            password,
            signaling_server_url,
            stun_servers,
            turn_server,
            allowed_dirs,
            allow_control: default_allow_control(),
        };
        assert(c.stun_servers@.map_values(|s: String| s@) =~= default_stun_servers());
        c
    }

    /// What every launch changes: a fresh one-time password; the signaling
    /// server from `SIGNALING_URL` when set; `allow_control` from
    /// `ALLOW_CONTROL` when set; the TURN settings from the environment when
    /// none are stored.
    pub fn apply_launch_settings(
        &mut self,
        password: String,
        signaling_url_env: Option<String>,
        allow_control_env: Option<String>,
        turn_from_env: Option<TurnConfig>,
    )
        ensures
            final(self).host_id == old(self).host_id,
            final(self).password == password,
            final(self).signaling_server_url == (match signaling_url_env {
                Some(u) => u,
                None => old(self).signaling_server_url,
            }),
            final(self).allow_control == (match allow_control_env {
                Some(v) => allow_control_spec(v@),
                None => old(self).allow_control,
            }),
            final(self).turn_server == (match old(self).turn_server {
                Some(t) => Some(t),
                None => turn_from_env,
            }),
            final(self).stun_servers == old(self).stun_servers,
            final(self).allowed_dirs == old(self).allowed_dirs,
    {
        self.password = password;
        match signaling_url_env {
            Some(u) => {
                self.signaling_server_url = u;
            },
            None => {},
        }
        match allow_control_env {
            Some(v) => {
                self.allow_control = parse_allow_control(v.as_str());
            },
            None => {},
        }
        if self.turn_server.is_none() {
            self.turn_server = turn_from_env;
        }
    }

    /// The settings the network layer needs.
    pub fn network_config(&self) -> (n: NetworkConfig)
        ensures
            n.host_id == self.host_id,
            n.password == self.password,
            n.signaling_server_url == self.signaling_server_url,
            n.stun_servers@.map_values(|s: String| s@) == self.stun_servers@.map_values(|s: String| s@),
    {
        let mut stun_servers: Vec<String> = Vec::new();
        let mut i: usize = 0;
        while i < self.stun_servers.len()
            invariant
                i <= self.stun_servers@.len(),
                stun_servers@.len() == i,
                forall|j: int| 0 <= j < i ==> #[trigger] stun_servers@[j] == self.stun_servers@[j],
            decreases self.stun_servers@.len() - i,
        {
            stun_servers.push(self.stun_servers[i].clone());
            i += 1;
        }
        let n = NetworkConfig {
            host_id: self.host_id.clone(),
            password: self.password.clone(),
            signaling_server_url: self.signaling_server_url.clone(),
            stun_servers,
        };
        assert(n.stun_servers@ =~= self.stun_servers@);
        n
    }
}

} // verus!
