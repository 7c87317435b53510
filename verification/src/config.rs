//! The settings of the page and how they are resolved from the environment.

use vstd::prelude::*;

verus! {

/// One of the seven settings.
#[derive(Debug, Clone, Copy, PartialEq, Eq, Structural)]
pub enum Setting {
    ListenAddr,
    Asn,
    AsName,
    RouterDomain,
    RouterId,
    AddressV4,
    AddressV6,
}

/// The name of the environment variable that holds a setting.
pub open spec fn key_of(setting: Setting) -> Seq<char> {
    match setting {
        Setting::ListenAddr => "LISTEN_ADDR"@,
        Setting::Asn => "ASN"@,
        Setting::AsName => "AS_NAME"@,
        Setting::RouterDomain => "ROUTER_DOMAIN"@,
        Setting::RouterId => "ROUTER_ID"@,
        Setting::AddressV4 => "ADDRESS_V4"@,
        Setting::AddressV6 => "ADDRESS_V6"@,
    }
}

/// The value of a setting that the environment does not give.
pub open spec fn default_of(setting: Setting) -> Seq<char> {
    match setting {
        Setting::ListenAddr => "[::]:8080"@,
        Setting::Asn => "AS63806"@,
        Setting::AsName => "MENHERA"@,
        Setting::RouterDomain => "nc.menhera.org"@,
        Setting::RouterId => "rv128"@,
        Setting::AddressV4 => "43.228.174.128"@,
        Setting::AddressV6 => "2001:df3:14c0:1128::1"@,
    }
}

impl Setting {
    /// The seven settings, in the order in which they are asked for and
    /// written down.
    pub fn all() -> (list: Vec<Setting>)
        ensures
            list@ == seq![
                Setting::ListenAddr,
                Setting::Asn,
                Setting::AsName,
                Setting::RouterDomain,
                Setting::RouterId,
                Setting::AddressV4,
                Setting::AddressV6,
            ],
    {
        let mut list = Vec::new();
        list.push(Setting::ListenAddr);
        list.push(Setting::Asn);
        list.push(Setting::AsName);
        list.push(Setting::RouterDomain);
        list.push(Setting::RouterId);
        list.push(Setting::AddressV4);
        list.push(Setting::AddressV6);
        assert(list@ =~= seq![
            Setting::ListenAddr,
            Setting::Asn,
            Setting::AsName,
            Setting::RouterDomain,
            Setting::RouterId,
            Setting::AddressV4,
            Setting::AddressV6,
        ]);
        list
    }

    /// The name of the environment variable that holds this setting.
    pub fn key(self) -> (name: &'static str)
        ensures
            name@ == key_of(self),
    {
        match self {
            Setting::ListenAddr => "LISTEN_ADDR",
            Setting::Asn => "ASN",
            Setting::AsName => "AS_NAME",
            Setting::RouterDomain => "ROUTER_DOMAIN",
            Setting::RouterId => "ROUTER_ID",
            Setting::AddressV4 => "ADDRESS_V4",
            Setting::AddressV6 => "ADDRESS_V6",
        }
    }

    /// The value of this setting where the environment gives none.
    pub fn default_value(self) -> (value: &'static str)
        ensures
            value@ == default_of(self),
    {
        match self {
            Setting::ListenAddr => "[::]:8080",
            Setting::Asn => "AS63806",
            Setting::AsName => "MENHERA",
            Setting::RouterDomain => "nc.menhera.org",
            Setting::RouterId => "rv128",
            Setting::AddressV4 => "43.228.174.128",
            Setting::AddressV6 => "2001:df3:14c0:1128::1",
        }
    }
}

/// What was found in the environment: for each setting the value of its
/// variable, or `None` where the variable is absent or could not be read.
#[derive(Debug, Clone, PartialEq, Eq)]
pub struct Environment {
    pub listen_addr: Option<String>,
    pub asn: Option<String>,
    pub as_name: Option<String>,
    pub router_domain: Option<String>,
    pub router_id: Option<String>,
    pub address_v4: Option<String>,
    pub address_v6: Option<String>,
}

/// The characters of a value that may be absent.
pub open spec fn found(value: Option<String>) -> Option<Seq<char>> {
    match value {
        Some(text) => Some(text@),
        None => None,
    }
}

/// What an [`Environment`] stands for.
pub ghost struct EnvironmentView {
    pub listen_addr: Option<Seq<char>>,
    pub asn: Option<Seq<char>>,
    pub as_name: Option<Seq<char>>,
    pub router_domain: Option<Seq<char>>,
    pub router_id: Option<Seq<char>>,
    pub address_v4: Option<Seq<char>>,
    pub address_v6: Option<Seq<char>>,
}

impl EnvironmentView {
    /// What the environment holds for a setting.
    pub open spec fn get(self, setting: Setting) -> Option<Seq<char>> {
        match setting {
            Setting::ListenAddr => self.listen_addr,
            Setting::Asn => self.asn,
            Setting::AsName => self.as_name,
            Setting::RouterDomain => self.router_domain,
            Setting::RouterId => self.router_id,
            Setting::AddressV4 => self.address_v4,
            Setting::AddressV6 => self.address_v6,
        }
    }

    /// This environment with one setting replaced.
    pub open spec fn with(self, setting: Setting, value: Option<Seq<char>>) -> EnvironmentView {
        match setting {
            Setting::ListenAddr => EnvironmentView { listen_addr: value, ..self },
            Setting::Asn => EnvironmentView { asn: value, ..self },
            Setting::AsName => EnvironmentView { as_name: value, ..self },
            Setting::RouterDomain => EnvironmentView { router_domain: value, ..self },
            Setting::RouterId => EnvironmentView { router_id: value, ..self },
            Setting::AddressV4 => EnvironmentView { address_v4: value, ..self },
            Setting::AddressV6 => EnvironmentView { address_v6: value, ..self },
        }
    }

    /// The environment in which no setting is given.
    pub open spec fn empty() -> EnvironmentView {
        EnvironmentView {
            listen_addr: None,
            asn: None,
            as_name: None,
            router_domain: None,
            router_id: None,
            address_v4: None,
            address_v6: None,
        }
    }
}

impl View for Environment {
    type V = EnvironmentView;

    open spec fn view(&self) -> EnvironmentView {
        EnvironmentView {
            listen_addr: found(self.listen_addr),
            asn: found(self.asn),
            as_name: found(self.as_name),
            router_domain: found(self.router_domain),
            router_id: found(self.router_id),
            address_v4: found(self.address_v4),
            address_v6: found(self.address_v6),
        }
    }
}

impl Environment {
    /// The environment in which no setting is given.
    pub fn empty() -> (env: Environment)
        ensures
            env@ == EnvironmentView::empty(),
    {
        Environment {
            listen_addr: None,
            asn: None,
            as_name: None,
            router_domain: None,
            router_id: None,
            address_v4: None,
            address_v6: None,
        }
    }

    /// This environment with one setting replaced by what a lookup gave.
    pub fn with(self, setting: Setting, value: Option<String>) -> (env: Environment)
        ensures
            env@ == self@.with(setting, found(value)),
    {
        let mut env = self;
        match setting {
            Setting::ListenAddr => {
                env.listen_addr = value;
            },
            Setting::Asn => {
                env.asn = value;
            },
            Setting::AsName => {
                env.as_name = value;
            },
            Setting::RouterDomain => {
                env.router_domain = value;
            },
            Setting::RouterId => {
                env.router_id = value;
            },
            Setting::AddressV4 => {
                env.address_v4 = value;
            },
            Setting::AddressV6 => {
                env.address_v6 = value;
            },
        }
        env
    }
}

/// The configuration record: a value for each of the seven settings.
#[derive(Debug, Clone, PartialEq, Eq)]
pub struct Config {
    pub listen_address: String,
    pub asn: String,
    pub as_name: String,
    pub router_domain: String,
    pub router_id: String,
    pub address_v4: String,
    pub address_v6: String,
}

/// What a [`Config`] stands for.
pub ghost struct ConfigView {
    pub listen_address: Seq<char>,
    pub asn: Seq<char>,
    pub as_name: Seq<char>,
    pub router_domain: Seq<char>,
    pub router_id: Seq<char>,
    pub address_v4: Seq<char>,
    pub address_v6: Seq<char>,
}

impl ConfigView {
    /// The value of a setting.
    pub open spec fn get(self, setting: Setting) -> Seq<char> {
        match setting {
            Setting::ListenAddr => self.listen_address,
            Setting::Asn => self.asn,
            Setting::AsName => self.as_name,
            Setting::RouterDomain => self.router_domain,
            Setting::RouterId => self.router_id,
            Setting::AddressV4 => self.address_v4,
            Setting::AddressV6 => self.address_v6,
        }
    }

    /// This record with one setting replaced.
    pub open spec fn with(self, setting: Setting, value: Seq<char>) -> ConfigView {
        match setting {
            Setting::ListenAddr => ConfigView { listen_address: value, ..self },
            Setting::Asn => ConfigView { asn: value, ..self },
            Setting::AsName => ConfigView { as_name: value, ..self },
            Setting::RouterDomain => ConfigView { router_domain: value, ..self },
            Setting::RouterId => ConfigView { router_id: value, ..self },
            Setting::AddressV4 => ConfigView { address_v4: value, ..self },
            Setting::AddressV6 => ConfigView { address_v6: value, ..self },
        }
    }
}

impl View for Config {
    type V = ConfigView;

    open spec fn view(&self) -> ConfigView {
        ConfigView {
            listen_address: self.listen_address@,
            asn: self.asn@,
            as_name: self.as_name@,
            router_domain: self.router_domain@,
            router_id: self.router_id@,
            address_v4: self.address_v4@,
            address_v6: self.address_v6@,
        }
    }
}

/// The value of one setting: what the environment gives, else the default.
pub open spec fn resolved_value(env: EnvironmentView, setting: Setting) -> Seq<char> {
    match env.get(setting) {
        Some(text) => text,
        None => default_of(setting),
    }
}

/// The configuration record that an environment resolves to.
pub open spec fn resolved(env: EnvironmentView) -> ConfigView {
    ConfigView {
        listen_address: resolved_value(env, Setting::ListenAddr),
        asn: resolved_value(env, Setting::Asn),
        as_name: resolved_value(env, Setting::AsName),
        router_domain: resolved_value(env, Setting::RouterDomain),
        router_id: resolved_value(env, Setting::RouterId),
        address_v4: resolved_value(env, Setting::AddressV4),
        address_v6: resolved_value(env, Setting::AddressV6),
    }
}

fn value_or_default(value: Option<String>, setting: Setting) -> (text: String)
    ensures
        text@ == match found(value) {
            Some(given) => given,
            None => default_of(setting),
        },
{
    match value {
        Some(given) => given,
        None => String::from_str(setting.default_value()),
    }
}

impl Config {
    /// Resolves the configuration from what was found in the environment.
    /// Nothing is validated and nothing can fail: each setting takes the
    /// value found for it, and its default where none was found.
    pub fn resolve(env: Environment) -> (config: Config)
        ensures
            config@ == resolved(env@),
            forall|setting: Setting| #[trigger]
                config@.get(setting) == resolved_value(env@, setting),
    {
        Config {
            listen_address: value_or_default(env.listen_addr, Setting::ListenAddr),
            asn: value_or_default(env.asn, Setting::Asn),
            as_name: value_or_default(env.as_name, Setting::AsName),
            router_domain: value_or_default(env.router_domain, Setting::RouterDomain),
            router_id: value_or_default(env.router_id, Setting::RouterId),
            address_v4: value_or_default(env.address_v4, Setting::AddressV4),
            address_v6: value_or_default(env.address_v6, Setting::AddressV6),
        }
    }

    /// The value of a setting.
    pub fn get(&self, setting: Setting) -> (value: &str)
        ensures
            value@ == self@.get(setting),
    {
        match setting {
            Setting::ListenAddr => self.listen_address.as_str(),
            Setting::Asn => self.asn.as_str(),
            Setting::AsName => self.as_name.as_str(),
            Setting::RouterDomain => self.router_domain.as_str(),
            Setting::RouterId => self.router_id.as_str(),
            Setting::AddressV4 => self.address_v4.as_str(),
            Setting::AddressV6 => self.address_v6.as_str(),
        }
    }

    /// This record with one setting replaced.
    pub fn with(self, setting: Setting, value: String) -> (config: Config)
        ensures
            config@ == self@.with(setting, value@),
    {
        let mut config = self;
        match setting {
            Setting::ListenAddr => {
                config.listen_address = value;
            },
            Setting::Asn => {
                config.asn = value;
            },
            Setting::AsName => {
                config.as_name = value;
            },
            Setting::RouterDomain => {
                config.router_domain = value;
            },
            Setting::RouterId => {
                config.router_id = value;
            },
            Setting::AddressV4 => {
                config.address_v4 = value;
            },
            Setting::AddressV6 => {
                config.address_v6 = value;
            },
        }
        config
    }

    /// The address to listen on. `parsed` says whether the configured
    /// listen address was accepted as a socket address; where it was not,
    /// the default takes its place.
    pub fn listen_target(&self, parsed: bool) -> (target: String)
        ensures
            target@ == listen_target_of(self@, parsed),
    {
        if parsed {
            self.listen_address.clone()
        } else {
            String::from_str(Setting::ListenAddr.default_value())
        }
    }
}

/// The address to listen on: the configured one where it was accepted as a
/// socket address, else the default.
pub open spec fn listen_target_of(config: ConfigView, parsed: bool) -> Seq<char> {
    if parsed {
        config.listen_address
    } else {
        default_of(Setting::ListenAddr)
    }
}

/// An environment that gives nothing resolves to the seven defaults.
pub proof fn lemma_empty_environment_gives_defaults(setting: Setting)
    ensures
        resolved(EnvironmentView::empty()).get(setting) == default_of(setting),
{
}

/// Every setting of the resolved record is the value found for it, or its
/// default where none was found.
pub proof fn lemma_resolved_is_complete(env: EnvironmentView, setting: Setting)
    ensures
        resolved(env).get(setting) == resolved_value(env, setting),
        env.get(setting) is Some ==> resolved(env).get(setting) == env.get(setting)->0,
        env.get(setting) is None ==> resolved(env).get(setting) == default_of(setting),
{
}

} // verus!
