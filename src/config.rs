use vstd::prelude::*;

verus! {

/// An opaque JSON value, carried through the passthrough document without
/// being interpreted.
#[verifier::external_type_specification]
#[verifier::external_body]
pub struct ExJsonValue(serde_json::Value);

pub const DEFAULT_WEB_PORT: u16 = 33211;

pub open spec fn default_clash_ui() -> Seq<char> {
    "https://yacd.haishan.me/"@
}

pub open spec fn default_controller() -> Seq<char> {
    "127.0.0.1:9090"@
}

/// The application settings document.
#[derive(Debug, Clone)]
pub struct ISword {
    pub web_port: u16,
    pub web_allow_lan: bool,
    pub web_secret: Option<String>,
    /// External dashboard that overrides the bundled one.
    pub web_ui: Option<String>,
    /// Default dashboard for the core's own controller.
    pub clash_ui: Option<String>,
    pub core_name: Option<String>,
}

impl ISword {
    /// The documented defaults: local-only on the default port, the default
    /// dashboard, and no secret, overriding dashboard or selected core.
    pub open spec fn is_default(self) -> bool {
        &&& self.web_port == DEFAULT_WEB_PORT
        &&& !self.web_allow_lan
        &&& self.web_secret is None
        &&& self.web_ui is None
        &&& self.clash_ui is Some && self.clash_ui.unwrap()@ == default_clash_ui()
        &&& self.core_name is None
    }
}

impl Default for ISword {
    fn default() -> (r: ISword)
        ensures
            r.is_default(),
    {
        ISword {
            web_port: DEFAULT_WEB_PORT,
            web_allow_lan: false,
            web_secret: None,
            web_ui: None,
            clash_ui: Some(String::from_str("https://yacd.haishan.me/")),
            core_name: None,
        }
    }
}

/// The core's logging section.
#[derive(Debug, Clone)]
pub struct ILog {
    pub disabled: Option<bool>,
    pub level: Option<String>,
    pub output: Option<String>,
    pub timestamp: Option<bool>,
}

impl ILog {
    /// Logging enabled at level `info` into `box.log`, with timestamps.
    pub open spec fn is_default(self) -> bool {
        &&& self.disabled == Some(false)
        &&& self.level is Some && self.level.unwrap()@ == "info"@
        &&& self.output is Some && self.output.unwrap()@ == "box.log"@
        &&& self.timestamp == Some(true)
    }
}

impl Default for ILog {
    fn default() -> (r: ILog)
        ensures
            r.is_default(),
    {
        ILog {
            disabled: Some(false),
            level: Some(String::from_str("info")),
            output: Some(String::from_str("box.log")),
            timestamp: Some(true),
        }
    }
}

/// The core's DNS section; `final_server` is the field named `final`.
#[derive(Debug, Clone)]
pub struct IDns {
    pub final_server: Option<String>,
    pub strategy: Option<String>,
    pub disable_cache: Option<bool>,
    pub disable_expire: Option<bool>,
    pub rules: Option<serde_json::Value>,
    pub servers: Option<serde_json::Value>,
}

/// The core's routing section; `final_server` is the field named `final`.
#[derive(Debug, Clone)]
pub struct IRoute {
    pub geoip: Option<IGeoSiteIP>,
    pub geosite: Option<IGeoSiteIP>,
    pub final_server: Option<String>,
    pub auto_detect_interface: Option<bool>,
    pub override_android_vpn: Option<bool>,
    pub default_interface: Option<String>,
    pub default_mark: Option<u16>,
    pub rules: Option<serde_json::Value>,
}

/// Where a geo database lives and how it is fetched.
#[derive(Debug, Clone)]
pub struct IGeoSiteIP {
    pub path: Option<String>,
    pub download_url: Option<String>,
    pub download_detour: Option<String>,
}

/// The core's experimental section: its controller and statistics APIs.
#[derive(Debug, Clone)]
pub struct IExperimental {
    pub clash_api: Option<IClashAPI>,
    pub v2ray_api: Option<IV2rayAPI>,
}

impl IExperimental {
    /// Only the controller API, itself at its defaults.
    pub open spec fn is_default(self) -> bool {
        &&& self.clash_api is Some && self.clash_api.unwrap().is_default()
        &&& self.v2ray_api is None
    }
}

impl Default for IExperimental {
    fn default() -> (r: IExperimental)
        ensures
            r.is_default(),
    {
        IExperimental { clash_api: Some(IClashAPI::default()), v2ray_api: None }
    }
}

/// The core's dashboard-compatible controller.
#[derive(Debug, Clone)]
pub struct IClashAPI {
    pub external_controller: String,
    pub external_ui: Option<String>,
    pub secret: Option<String>,
    pub direct_io: Option<bool>,
    pub default_mode: Option<String>,
    pub store_selected: Option<bool>,
    pub cache_file: Option<String>,
}

/// The controller address used when a document names none.
pub fn default_external_controller() -> (r: String)
    ensures
        r@ == default_controller(),
{
    String::from_str("127.0.0.1:9090")
}

impl IClashAPI {
    /// The default controller address and nothing else.
    pub open spec fn is_default(self) -> bool {
        &&& self.external_controller@ == default_controller()
        &&& self.external_ui is None
        &&& self.secret is None
        &&& self.direct_io is None
        &&& self.default_mode is None
        &&& self.store_selected is None
        &&& self.cache_file is None
    }
}

impl Default for IClashAPI {
    fn default() -> (r: IClashAPI)
        ensures
            r.is_default(),
    {
        IClashAPI {
            external_controller: default_external_controller(),
            external_ui: None,
            secret: None,
            direct_io: None,
            default_mode: None,
            store_selected: None,
            cache_file: None,
        }
    }
}

/// The core's statistics API.
#[derive(Debug, Clone)]
pub struct IV2rayAPI {
    pub listen: Option<String>,
    pub stats: Option<serde_json::Value>,
}

/// The passthrough document handed to the core. Only the sections below are
/// recognised; `inbounds` and `outbounds` are carried as they are.
#[derive(Debug, Clone)]
pub struct ISingBox {
    pub log: Option<ILog>,
    pub dns: Option<IDns>,
    pub route: Option<IRoute>,
    pub experimental: Option<IExperimental>,
    pub inbounds: Option<serde_json::Value>,
    pub outbounds: Option<serde_json::Value>,
}

impl ISingBox {
    /// The first-run document: default logging and the default controller,
    /// every other section absent.
    pub open spec fn is_default(self) -> bool {
        &&& self.log is Some && self.log.unwrap().is_default()
        &&& self.dns is None
        &&& self.route is None
        &&& self.experimental is Some && self.experimental.unwrap().is_default()
        &&& self.inbounds is None
        &&& self.outbounds is None
    }
}

impl Default for ISingBox {
    fn default() -> (r: ISingBox)
        ensures
            r.is_default(),
    {
        ISingBox {
            log: Some(ILog::default()),
            dns: None,
            route: None,
            experimental: Some(IExperimental::default()),
            inbounds: None,
            outbounds: None,
        }
    }
}

} // verus!
