use vstd::prelude::*;

verus! {

/// The settings handed to the backend child process.
#[derive(Debug)]
pub struct BackendConfig {
    /// Address the backend treats as its target.
    pub backend_addr: String,
    /// Address the backend binds its service on.
    pub http_addr: String,
    pub use_tls: bool,
    /// Allow-list of origins.
    pub allow_origins: String,
}

/// A configuration seen as plain values.
pub struct ConfigModel {
    pub backend_addr: Seq<char>,
    pub http_addr: Seq<char>,
    pub use_tls: bool,
    pub allow_origins: Seq<char>,
}

impl View for BackendConfig {
    type V = ConfigModel;

    open spec fn view(&self) -> ConfigModel {
        ConfigModel {
            backend_addr: self.backend_addr@,
            http_addr: self.http_addr@,
            use_tls: self.use_tls,
            allow_origins: self.allow_origins@,
        }
    }
}

pub open spec fn option_view(c: Option<BackendConfig>) -> Option<ConfigModel> {
    match c {
        Some(c) => Some(c@),
        None => None,
    }
}

/// Every field of the configuration is defined and no string is empty.
pub open spec fn is_complete(c: ConfigModel) -> bool {
    c.backend_addr.len() > 0 && c.http_addr.len() > 0 && c.allow_origins.len() > 0
}

pub open spec fn default_model() -> ConfigModel {
    ConfigModel {
        backend_addr: "localhost:8081"@,
        http_addr: ":9000"@,
        use_tls: false,
        allow_origins: "http://localhost:5173"@,
    }
}

/// Config-priority resolution: a supplied configuration is used verbatim when
/// it is complete; otherwise the built-in defaults are used as a whole, so no
/// resolved configuration mixes fields of two sources.
pub open spec fn resolved(supplied: Option<ConfigModel>) -> ConfigModel {
    match supplied {
        Some(c) => if is_complete(c) {
            c
        } else {
            default_model()
        },
        None => default_model(),
    }
}

pub open spec fn tls_text(use_tls: bool) -> Seq<char> {
    if use_tls {
        "true"@
    } else {
        "false"@
    }
}

/// The environment variables the child is launched with, in order.
pub open spec fn env_model(c: ConfigModel) -> Seq<(Seq<char>, Seq<char>)> {
    seq![
        ("GRPS_BACKEND_ADDR"@, c.backend_addr),
        ("GRPS_HTTP_ADDR"@, c.http_addr),
        ("GRPS_BACKEND_USE_TLS"@, tls_text(c.use_tls)),
        ("GRPS_ALLOW_ORIGINS"@, c.allow_origins),
        ("GRPS_AUTO_ALLOW_DEV_ORIGINS"@, "true"@),
    ]
}

/// The configuration that the launch environment spells out: present only
/// when all four variables are set and TLS reads `"true"` or `"false"`.
pub open spec fn env_config_model(
    backend_addr: Option<Seq<char>>,
    http_addr: Option<Seq<char>>,
    use_tls: Option<Seq<char>>,
    allow_origins: Option<Seq<char>>,
) -> Option<ConfigModel> {
    match (backend_addr, http_addr, use_tls, allow_origins) {
        (Some(b), Some(h), Some(t), Some(o)) => if t == "true"@ || t == "false"@ {
            Some(ConfigModel { backend_addr: b, http_addr: h, use_tls: t == "true"@, allow_origins: o })
        } else {
            None
        },
        _ => None,
    }
}

pub open spec fn string_option_view(s: Option<String>) -> Option<Seq<char>> {
    match s {
        Some(s) => Some(s@),
        None => None,
    }
}

pub open spec fn pairs_view(v: Seq<(String, String)>) -> Seq<(Seq<char>, Seq<char>)> {
    v.map_values(|p: (String, String)| (p.0@, p.1@))
}

/// Resolution never fails and always yields a complete configuration, with
/// or without a supplied one.
pub proof fn lemma_resolution_complete(supplied: Option<ConfigModel>)
    ensures
        is_complete(resolved(supplied)),
{
    reveal_strlit("localhost:8081");
    reveal_strlit(":9000");
    reveal_strlit("http://localhost:5173");
}

impl BackendConfig {
    /// A copy with the same field values.
    pub fn duplicate(&self) -> (r: BackendConfig)
        ensures
            r@ == self@,
    {
        BackendConfig {
            backend_addr: self.backend_addr.clone(),
            http_addr: self.http_addr.clone(),
            use_tls: self.use_tls,
            allow_origins: self.allow_origins.clone(),
        }
    }

    pub fn is_complete(&self) -> (r: bool)
        ensures
            r == is_complete(self@),
    {
        !self.backend_addr.as_str().is_empty() && !self.http_addr.as_str().is_empty()
            && !self.allow_origins.as_str().is_empty()
    }
}

/// The built-in configuration.
pub fn default_config() -> (c: BackendConfig)
    ensures
        c@ == default_model(),
{
    BackendConfig {
        backend_addr: "localhost:8081".to_owned(),
        http_addr: ":9000".to_owned(),
        use_tls: false,
        allow_origins: "http://localhost:5173".to_owned(),
    }
}

/// Resolves an optional caller-supplied configuration into a complete one.
pub fn resolve_config(supplied: Option<BackendConfig>) -> (c: BackendConfig)
    ensures
        c@ == resolved(option_view(supplied)),
        is_complete(c@),
{
    proof {
        lemma_resolution_complete(option_view(supplied));
    }
    match supplied {
        Some(c) => if c.is_complete() {
            c
        } else {
            default_config()
        },
        None => default_config(),
    }
}

/// Reads a configuration from the values of `GRPS_BACKEND_ADDR`,
/// `GRPS_HTTP_ADDR`, `GRPS_BACKEND_USE_TLS` and `GRPS_ALLOW_ORIGINS` in the
/// host's environment. It is meant as the supplied configuration of the
/// launch-time start, so that resolution falls back to it as a whole, and to
/// the defaults when it is absent or incomplete.
pub fn config_from_env(
    backend_addr: Option<String>,
    http_addr: Option<String>,
    use_tls: Option<String>,
    allow_origins: Option<String>,
) -> (r: Option<BackendConfig>)
    ensures
        option_view(r) == env_config_model(
            string_option_view(backend_addr),
            string_option_view(http_addr),
            string_option_view(use_tls),
            string_option_view(allow_origins),
        ),
{
    match (backend_addr, http_addr, use_tls, allow_origins) {
        (Some(b), Some(h), Some(t), Some(o)) => {
            let on = t == "true".to_owned();
            let off = t == "false".to_owned();
            if on || off {
                Some(BackendConfig { backend_addr: b, http_addr: h, use_tls: on, allow_origins: o })
            } else {
                None
            }
        },
        _ => None,
    }
}

/// The environment handed to the child: one variable per field, TLS written
/// as `"true"` or `"false"`, and the flag that permits development origins.
pub fn child_environment(config: &BackendConfig) -> (r: Vec<(String, String)>)
    ensures
        pairs_view(r@) == env_model(config@),
{
    let tls = if config.use_tls {
        "true".to_owned()
    } else {
        "false".to_owned()
    };
    let r = vec![
        ("GRPS_BACKEND_ADDR".to_owned(), config.backend_addr.clone()),
        ("GRPS_HTTP_ADDR".to_owned(), config.http_addr.clone()),
        ("GRPS_BACKEND_USE_TLS".to_owned(), tls),
        ("GRPS_ALLOW_ORIGINS".to_owned(), config.allow_origins.clone()),
        ("GRPS_AUTO_ALLOW_DEV_ORIGINS".to_owned(), "true".to_owned()),
    ];
    assert(pairs_view(r@) =~= env_model(config@));
    r
}

} // verus!
