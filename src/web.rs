use vstd::prelude::*;
use crate::store::Sword;

verus! {

/// The request methods the control API tells apart.
#[derive(Debug, Clone, Copy, PartialEq, Eq, Structural)]
pub enum Method {
    Get,
    Put,
    Other,
}

/// The handlers of the control API.
#[derive(Debug, Clone, Copy, PartialEq, Eq, Structural)]
pub enum Endpoint {
    GetVersion,
    GetConfig,
    PutConfig,
    GetSingBox,
    PutSingBox,
}

/// Where a request goes: to a handler, or back with an error status.
#[derive(Debug, Clone, Copy, PartialEq, Eq, Structural)]
pub enum Routed {
    Handle(Endpoint),
    Unauthorized,
    MethodNotAllowed,
    NotFound,
}

pub const STATUS_OK: u16 = 200;
pub const STATUS_NO_CONTENT: u16 = 204;
pub const STATUS_BAD_REQUEST: u16 = 400;
pub const STATUS_UNAUTHORIZED: u16 = 401;
pub const STATUS_NOT_FOUND: u16 = 404;
pub const STATUS_METHOD_NOT_ALLOWED: u16 = 405;
pub const STATUS_INTERNAL_ERROR: u16 = 500;

/// A request passes where no secret is set, or where its `Authorization`
/// header is exactly `Bearer <secret>`.
pub open spec fn authorized(secret: Option<String>, header: Option<String>) -> bool {
    match secret {
        None => true,
        Some(t) => header is Some && header.unwrap()@ == "Bearer "@ + t@,
    }
}

/// Checks a request's `Authorization` header against the configured secret.
pub fn with_auth(secret: &Option<String>, header: &Option<String>) -> (r: bool)
    ensures
        r == authorized(*secret, *header),
{
    match secret {
        None => true,
        Some(t) => match header {
            None => false,
            Some(h) => {
                let expected = String::from_str("Bearer ").concat(t.as_str());
                *h == expected
            },
        },
    }
}

/// Where the control API sends a request for `path` with `method`, given
/// whether it passed the bearer check. The version probe needs no token; the
/// two documents do, and an unauthorized request to them is refused before
/// its method is looked at.
pub open spec fn route_of(method: Method, path: Seq<char>, authorized: bool) -> Routed {
    if path == "/api/version"@ {
        if method == Method::Get {
            Routed::Handle(Endpoint::GetVersion)
        } else {
            Routed::MethodNotAllowed
        }
    } else if path == "/api/config"@ || path == "/api/sing_box"@ {
        if !authorized {
            Routed::Unauthorized
        } else if method == Method::Get {
            if path == "/api/config"@ {
                Routed::Handle(Endpoint::GetConfig)
            } else {
                Routed::Handle(Endpoint::GetSingBox)
            }
        } else if method == Method::Put {
            if path == "/api/config"@ {
                Routed::Handle(Endpoint::PutConfig)
            } else {
                Routed::Handle(Endpoint::PutSingBox)
            }
        } else {
            Routed::MethodNotAllowed
        }
    } else {
        Routed::NotFound
    }
}

/// Routes a request of the control API.
pub fn route(method: Method, path: &str, authorized: bool) -> (r: Routed)
    ensures
        r == route_of(method, path@, authorized),
{
    let p = String::from_str(path);
    if p == String::from_str("/api/version") {
        if method == Method::Get {
            Routed::Handle(Endpoint::GetVersion)
        } else {
            Routed::MethodNotAllowed
        }
    } else {
        let is_config = p == String::from_str("/api/config");
        let is_sing_box = p == String::from_str("/api/sing_box");
        if !is_config && !is_sing_box {
            Routed::NotFound
        } else if !authorized {
            Routed::Unauthorized
        } else if method == Method::Get {
            if is_config {
                Routed::Handle(Endpoint::GetConfig)
            } else {
                Routed::Handle(Endpoint::GetSingBox)
            }
        } else if method == Method::Put {
            if is_config {
                Routed::Handle(Endpoint::PutConfig)
            } else {
                Routed::Handle(Endpoint::PutSingBox)
            }
        } else {
            Routed::MethodNotAllowed
        }
    }
}

/// Routes a request, checking its `Authorization` header against the secret
/// configured in `store`.
pub fn route_request(store: &Sword, method: Method, path: &str, header: &Option<String>) -> (r:
    Routed)
    ensures
        r == route_of(method, path@, authorized(store.config.web_secret, *header)),
{
    let ok = with_auth(&store.config.web_secret, header);
    route(method, path, ok)
}

/// The handler of a routed request, or the status it is refused with.
pub fn dispatch(r: Routed) -> (d: Result<Endpoint, u16>)
    ensures
        d == match r {
            Routed::Handle(e) => Ok::<Endpoint, u16>(e),
            Routed::Unauthorized => Err(STATUS_UNAUTHORIZED),
            Routed::MethodNotAllowed => Err(STATUS_METHOD_NOT_ALLOWED),
            Routed::NotFound => Err(STATUS_NOT_FOUND),
        },
{
    match r {
        Routed::Handle(e) => Ok(e),
        Routed::Unauthorized => Err(STATUS_UNAUTHORIZED),
        Routed::MethodNotAllowed => Err(STATUS_METHOD_NOT_ALLOWED),
        Routed::NotFound => Err(STATUS_NOT_FOUND),
    }
}

/// The status of a document replacement: no content once persisted, an
/// internal error where writing the file failed. A body that is not JSON of
/// the document's shape is refused with `STATUS_BAD_REQUEST` before this.
pub fn put_status(persisted: bool) -> (s: u16)
    ensures
        s == if persisted { STATUS_NO_CONTENT } else { STATUS_INTERNAL_ERROR },
{
    if persisted {
        STATUS_NO_CONTENT
    } else {
        STATUS_INTERNAL_ERROR
    }
}

/// The address the server binds: every interface where LAN access is
/// allowed, the loopback interface otherwise.
pub open spec fn bind_ip(allow_lan: bool) -> Seq<u8> {
    if allow_lan {
        seq![0u8, 0u8, 0u8, 0u8]
    } else {
        seq![127u8, 0u8, 0u8, 1u8]
    }
}

/// The address and port that a (re)started server binds.
#[derive(Debug, Clone, Copy)]
pub struct ServerLaunch {
    pub ip: [u8; 4],
    pub port: u16,
}

/// The address and port the server binds under the settings of `store`.
pub fn server_launch(store: &Sword) -> (r: ServerLaunch)
    ensures
        r.ip@ == bind_ip(store.config.web_allow_lan),
        r.port == store.config.web_port,
{
    let ip: [u8; 4] = if store.config.web_allow_lan {
        [0u8, 0u8, 0u8, 0u8]
    } else {
        [127u8, 0u8, 0u8, 1u8]
    };
    assert(ip@ =~= bind_ip(store.config.web_allow_lan));
    ServerLaunch { ip, port: store.config.web_port }
}

/// Owner of at most one live server task.
#[derive(Debug, Clone)]
pub struct Web {
    pub web_handler: Option<u64>,
}

impl Web {
    /// No server running yet.
    pub fn new() -> (r: Web)
        ensures
            r.web_handler is None,
    {
        Web { web_handler: None }
    }

    /// Starts (or restarts) the server. The task held so far is given up and
    /// its id returned, to be aborted unconditionally; then the new server's
    /// address comes from the settings in `store`.
    pub fn run_web(&mut self, store: &Sword) -> (r: (Option<u64>, ServerLaunch))
        ensures
            r.0 == old(self).web_handler,
            final(self).web_handler is None,
            r.1.ip@ == bind_ip(store.config.web_allow_lan),
            r.1.port == store.config.web_port,
    {
        let aborted = self.web_handler;
        self.web_handler = None;
        (aborted, server_launch(store))
    }

    /// Records that the new server runs as task `id`.
    pub fn web_started(&mut self, id: u64)
        ensures
            final(self).web_handler == Some(id),
    {
        self.web_handler = Some(id);
    }
}

} // verus!
