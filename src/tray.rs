use vstd::prelude::*;
use crate::config::{IClashAPI, ISingBox};

verus! {

/// What a click on a tray menu item asks for.
#[derive(Debug, Clone)]
pub enum MenuCommand {
    Dashboard,
    ClashDashboard,
    RunCore,
    RunServer,
    OpenSwordConfig,
    OpenSingConfig,
    OpenCoreDir,
    OpenLogsDir,
    Quit,
    /// Select and start the core of this name.
    ChangeCore(String),
    /// An item that asks for nothing.
    Ignore,
}

/// The prefix of the menu item that selects a core.
pub open spec fn core_item_prefix() -> Seq<char> {
    "service_core_"@
}

/// The command of a menu item with a fixed id.
pub open spec fn fixed_command(id: Seq<char>) -> Option<MenuCommand> {
    if id == "dashboard"@ {
        Some(MenuCommand::Dashboard)
    } else if id == "clash_dashboard"@ {
        Some(MenuCommand::ClashDashboard)
    } else if id == "run_core"@ {
        Some(MenuCommand::RunCore)
    } else if id == "run_server"@ {
        Some(MenuCommand::RunServer)
    } else if id == "open_sword_config"@ {
        Some(MenuCommand::OpenSwordConfig)
    } else if id == "open_sing_config"@ {
        Some(MenuCommand::OpenSingConfig)
    } else if id == "open_core_dir"@ {
        Some(MenuCommand::OpenCoreDir)
    } else if id == "open_logs_dir"@ {
        Some(MenuCommand::OpenLogsDir)
    } else if id == "quit"@ {
        Some(MenuCommand::Quit)
    } else {
        None
    }
}

fn eq_str(a: &str, b: &str) -> (r: bool)
    ensures
        r == (a@ == b@),
{
    String::from_str(a) == String::from_str(b)
}

/// One entry of the tray's core menu.
#[derive(Debug, Clone)]
pub struct CoreMenuItem {
    pub id: String,
    pub title: String,
    pub selected: bool,
}

/// The tray menu's decisions; app code draws the menu and carries out the
/// commands.
#[derive(Debug, Clone, Copy)]
pub struct Tray {}

impl Tray {
    /// The command of the tray menu item `id`.
    pub fn on_event(&self, id: &str) -> (r: MenuCommand)
        ensures
            fixed_command(id@) is Some ==> r == fixed_command(id@).unwrap(),
            fixed_command(id@) is None && core_item_prefix().is_prefix_of(id@) ==> r is ChangeCore
                && r->ChangeCore_0@ == id@.skip(core_item_prefix().len() as int),
            fixed_command(id@) is None && !core_item_prefix().is_prefix_of(id@) ==> r is Ignore,
    {
        if eq_str(id, "dashboard") {
            MenuCommand::Dashboard
        } else if eq_str(id, "clash_dashboard") {
            MenuCommand::ClashDashboard
        } else if eq_str(id, "run_core") {
            MenuCommand::RunCore
        } else if eq_str(id, "run_server") {
            MenuCommand::RunServer
        } else if eq_str(id, "open_sword_config") {
            MenuCommand::OpenSwordConfig
        } else if eq_str(id, "open_sing_config") {
            MenuCommand::OpenSingConfig
        } else if eq_str(id, "open_core_dir") {
            MenuCommand::OpenCoreDir
        } else if eq_str(id, "open_logs_dir") {
            MenuCommand::OpenLogsDir
        } else if eq_str(id, "quit") {
            MenuCommand::Quit
        } else {
            proof {
                reveal_strlit("service_core_");
            }
            let n = id.unicode_len();
            let p: usize = 13;
            if n >= p && eq_str(id.substring_char(0, p), "service_core_") {
                assert(core_item_prefix().is_prefix_of(id@)) by {
                    assert(id@.subrange(0, 13) =~= core_item_prefix());
                }
                let rest = String::from_str(id.substring_char(p, n));
                assert(rest@ =~= id@.skip(13));
                MenuCommand::ChangeCore(rest)
            } else {
                assert(!core_item_prefix().is_prefix_of(id@)) by {
                    if core_item_prefix().is_prefix_of(id@) {
                        assert(id@.subrange(0, 13) =~= core_item_prefix());
                    }
                }
                MenuCommand::Ignore
            }
        }
    }


    /// One menu entry per installed core, in order, each with the id that selects
    /// it and checked where it is the selected core.
    pub fn tray_menu(cores: &Vec<String>, selected: &Option<String>) -> (r: Vec<CoreMenuItem>)
        ensures
            r@.len() == cores@.len(),
            forall|i: int|
                0 <= i < r@.len() ==> {
                    &&& #[trigger] r@[i].id@ == core_item_prefix() + cores@[i]@
                    &&& r@[i].title@ == cores@[i]@
                    &&& r@[i].selected == (selected is Some && selected.unwrap()@ == cores@[i]@)
                },
    {
        proof {
            reveal_strlit("service_core_");
        }
        let mut out: Vec<CoreMenuItem> = Vec::new();
        let mut i: usize = 0;
        while i < cores.len()
            invariant
                i <= cores@.len(),
                out@.len() == i,
                forall|j: int|
                    0 <= j < i ==> {
                        &&& #[trigger] out@[j].id@ == core_item_prefix() + cores@[j]@
                        &&& out@[j].title@ == cores@[j]@
                        &&& out@[j].selected == (selected is Some && selected.unwrap()@ == cores@[j]@)
                    },
            decreases cores@.len() - i,
        {
            let core = &cores[i];
            let id = String::from_str("service_core_").concat(core.as_str());
            let sel = match selected {
                Some(s) => *s == *core,
                None => false,
            };
            let item = CoreMenuItem { id, title: core.clone(), selected: sel };
            let ghost before = out@;
            out.push(item);
            assert(forall|j: int| 0 <= j < i ==> out@[j] == before[j]);
            assert(out@[i as int] == item);
            i = i + 1;
        }
        out
    }
}

/// Clicking the menu entry of a core asks to select that core: its id is no
/// fixed id, and carries the core's name after the core prefix.
pub proof fn lemma_menu_item_selects_core(core: Seq<char>)
    ensures
        fixed_command(core_item_prefix() + core) is None,
        core_item_prefix().is_prefix_of(core_item_prefix() + core),
        (core_item_prefix() + core).skip(core_item_prefix().len() as int) == core,
{
    let id = core_item_prefix() + core;
    reveal_strlit("service_core_");
    reveal_strlit("dashboard");
    reveal_strlit("clash_dashboard");
    reveal_strlit("run_core");
    reveal_strlit("run_server");
    reveal_strlit("open_sword_config");
    reveal_strlit("open_sing_config");
    reveal_strlit("open_core_dir");
    reveal_strlit("open_logs_dir");
    reveal_strlit("quit");
    assert(id[0] == 's');
    assert(id[0] != "dashboard"@[0]);
    assert(id[0] != "clash_dashboard"@[0]);
    assert(id[0] != "run_core"@[0]);
    assert(id[0] != "run_server"@[0]);
    assert(id[0] != "open_sword_config"@[0]);
    assert(id[0] != "open_sing_config"@[0]);
    assert(id[0] != "open_core_dir"@[0]);
    assert(id[0] != "open_logs_dir"@[0]);
    assert(id[0] != "quit"@[0]);
    assert(id.subrange(0, core_item_prefix().len() as int) =~= core_item_prefix());
    assert(id.skip(core_item_prefix().len() as int) =~= core);
}

/// The decimal digits of `n`.
pub open spec fn decimal(n: nat) -> Seq<char>
    decreases n,
{
    if n < 10 {
        seq!["0123456789"@[n as int]]
    } else {
        decimal(n / 10) + seq!["0123456789"@[(n % 10) as int]]
    }
}

fn digit(d: u64) -> (r: String)
    requires
        d < 10,
    ensures
        r@ == seq!["0123456789"@[d as int]],
{
    proof {
        reveal_strlit("0123456789");
    }
    let r = String::from_str("0123456789".substring_char(d as usize, (d + 1) as usize));
    assert(r@ =~= seq!["0123456789"@[d as int]]);
    r
}

/// `n` written in decimal, as `to_string` writes an unsigned integer.
pub fn to_decimal(n: u64) -> (r: String)
    ensures
        r@ == decimal(n as nat),
    decreases n,
{
    if n < 10 {
        digit(n)
    } else {
        let head = to_decimal(n / 10);
        let last = digit(n % 10);
        head.concat(last.as_str())
    }
}

/// The link that opens the control plane's dashboard: the configured
/// dashboard, else the bundled one on `port`, pointed at the local API, with
/// the secret as token where one is set.
pub open spec fn dashboard_link(port: u16, secret: Option<String>, web_ui: Option<String>) -> Seq<
    char,
> {
    let url = match web_ui {
        Some(u) => u@,
        None => "http://localhost:"@ + decimal(port as nat),
    };
    let link = url + "?server=127.0.0.1&port="@ + decimal(port as nat);
    match secret {
        Some(s) => link + "&token="@ + s@,
        None => link,
    }
}

/// Builds the link that opens the control plane's dashboard.
pub fn dashboard_url(port: u16, secret: &Option<String>, web_ui: &Option<String>) -> (r: String)
    ensures
        r@ == dashboard_link(port, *secret, *web_ui),
{
    let p = to_decimal(port as u64);
    let url = match web_ui {
        Some(u) => u.clone(),
        None => String::from_str("http://localhost:").concat(p.as_str()),
    };
    let link = url.concat("?server=127.0.0.1&port=").concat(p.as_str());
    match secret {
        Some(s) => link.concat("&token=").concat(s.as_str()),
        None => link,
    }
}

/// The dashboard that the core's controller is opened in.
pub open spec fn clash_dashboard_base() -> Seq<char> {
    "https://yacd.haishan.me/"@
}

/// The link that opens the core's controller at `host`:`port` in the
/// dashboard, with its secret where one is set.
pub open spec fn clash_link(host: Seq<char>, port: u16, secret: Option<String>) -> Seq<char> {
    let link = clash_dashboard_base() + "?host="@ + host + "&port="@ + decimal(port as nat);
    match secret {
        Some(s) => link + "&secret="@ + s@,
        None => link,
    }
}

/// Builds the link that opens the core's controller in the dashboard.
pub fn clash_url(host: &str, port: u16, secret: &Option<String>) -> (r: String)
    ensures
        r@ == clash_link(host@, port, *secret),
{
    let p = to_decimal(port as u64);
    let link = String::from_str("https://yacd.haishan.me/").concat("?host=").concat(host).concat(
        "&port=",
    ).concat(p.as_str());
    match secret {
        Some(s) => link.concat("&secret=").concat(s.as_str()),
        None => link,
    }
}

/// The controller API of a passthrough document, if it has one.
pub open spec fn controller_of(sb: ISingBox) -> Option<IClashAPI> {
    match sb.experimental {
        Some(e) => e.clash_api,
        None => None,
    }
}

/// The controller API of a passthrough document, if it has one; its address
/// and secret make the link of `clash_url`.
pub fn clash_controller(sb: &ISingBox) -> (r: Option<&IClashAPI>)
    ensures
        r is Some <==> controller_of(*sb) is Some,
        r is Some ==> *r.unwrap() == controller_of(*sb).unwrap(),
{
    match &sb.experimental {
        None => None,
        Some(e) => match &e.clash_api {
            None => None,
            Some(c) => Some(c),
        },
    }
}

} // verus!
