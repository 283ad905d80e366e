use vstd::prelude::*;
use crate::dirs::{core_file, core_file_name, join, joined};
use crate::error::ServiceError;
use crate::registry::{core_list, core_names, CoreEntry};
use crate::store::Sword;
use crate::web::{bind_ip, server_launch, ServerLaunch};

verus! {

/// The core process currently owned: the id that app code gave its child, and
/// the core it runs.
#[derive(Debug, Clone)]
pub struct RunningCore {
    pub id: u64,
    pub core: String,
}

/// What to spawn for a core: the program and its arguments.
#[derive(Debug, Clone)]
pub struct CoreLaunch {
    pub core: String,
    pub program: String,
    pub args: Vec<String>,
}

/// The arguments that run a core on the passthrough document in `config_dir`.
pub open spec fn core_args(config_dir: Seq<char>) -> Seq<Seq<char>> {
    seq!["run"@, "-c"@, "config.json"@, "-D"@, config_dir]
}

/// Owner of at most one live core process and at most one live server task.
#[derive(Debug, Clone)]
pub struct Service {
    pub core_handler: Option<RunningCore>,
    pub web_handler: Option<u64>,
}

impl Service {
    /// The id of the core process owned, if any.
    pub open spec fn core_id(self) -> Option<u64> {
        match self.core_handler {
            Some(c) => Some(c.id),
            None => None,
        }
    }

    /// The processes this supervisor owns.
    pub open spec fn owned(self) -> Set<u64> {
        match self.core_handler {
            Some(c) => set![c.id],
            None => Set::empty(),
        }
    }

    /// This supervisor with its core handle given up.
    pub open spec fn without_core(self) -> Service {
        Service { core_handler: None, ..self }
    }

    /// This supervisor once it owns the process `id` running `core`.
    pub open spec fn with_core(self, id: u64, core: String) -> Service {
        Service { core_handler: Some(RunningCore { id, core }), ..self }
    }

    /// Nothing running yet.
    pub fn new() -> (r: Service)
        ensures
            r.core_handler is None,
            r.web_handler is None,
    {
        Service { core_handler: None, web_handler: None }
    }

    /// Starts (or restarts) the core named `core_name` from `core_dir`. The
    /// process held so far is given up first and its id returned, to be killed
    /// whatever happens next; how that kill goes has no bearing on the new
    /// launch. Then the launch of the selected core is planned (its executable
    /// carries the `.exe` suffix where `windows`), or `NotFound` comes where no
    /// core is selected.
    pub fn run_core(
        &mut self,
        core_name: Option<String>,
        core_dir: &str,
        config_dir: &str,
        windows: bool,
    ) -> (r: (Option<u64>, Result<CoreLaunch, ServiceError>))
        ensures
            r.0 == old(self).core_id(),
            *final(self) == old(self).without_core(),
            core_name is None ==> r.1 == Err::<CoreLaunch, ServiceError>(ServiceError::NotFound),
            core_name is Some ==> r.1 is Ok,
            r.1 is Ok ==> ({
                let l = r.1->Ok_0;
                &&& l.core == core_name.unwrap()
                &&& l.program@ == joined(core_dir@, core_file(core_name.unwrap()@, windows))
                &&& l.args@.map_values(|a: String| a@) == core_args(config_dir@)
            }),
    {
        let killed = match &self.core_handler {
            Some(c) => Some(c.id),
            None => None,
        };
        self.core_handler = None;
        match core_name {
            None => (killed, Err(ServiceError::NotFound)),
            Some(name) => {
                let file = core_file_name(name.as_str(), windows);
                let program = join(core_dir, file.as_str());
                let args = vec![
                    String::from_str("run"),
                    String::from_str("-c"),
                    String::from_str("config.json"),
                    String::from_str("-D"),
                    String::from_str(config_dir),
                ];
                assert(args@.map_values(|a: String| a@) =~= core_args(config_dir@));
                (killed, Ok(CoreLaunch { core: name, program, args }))
            },
        }
    }

    /// The names of the installed cores among the entries of the core
    /// directory: the stems of its regular files, in directory order.
    pub fn list_core(entries: &Vec<CoreEntry>) -> (r: Vec<String>)
        ensures
            r@.map_values(|s: String| s@) == core_list(entries@),
    {
        core_names(entries)
    }

    /// Starts (or restarts) the server. The task held so far is given up and
    /// its id returned, to be aborted unconditionally; then the new server's
    /// address comes from the settings in `store`.
    pub fn run_web_server(&mut self, store: &Sword) -> (r: (Option<u64>, ServerLaunch))
        ensures
            r.0 == old(self).web_handler,
            final(self).web_handler is None,
            final(self).core_handler == old(self).core_handler,
            r.1.ip@ == bind_ip(store.config.web_allow_lan),
            r.1.port == store.config.web_port,
    {
        let aborted = self.web_handler;
        self.web_handler = None;
        (aborted, server_launch(store))
    }

    /// Records that the new server runs as task `id`.
    pub fn web_started(&mut self, id: u64)
        ensures
            final(self).web_handler == Some(id),
            final(self).core_handler == old(self).core_handler,
    {
        self.web_handler = Some(id);
    }

    /// Records that the planned core was spawned as process `id`.
    pub fn core_started(&mut self, id: u64, core: String)
        ensures
            *final(self) == old(self).with_core(id, core),
    {
        self.core_handler = Some(RunningCore { id, core });
    }

    /// Gives up the core process, if any, and returns its id to be killed.
    /// Stopping twice is harmless: the second call returns `None`.
    pub fn stop_core(&mut self) -> (r: Option<u64>)
        ensures
            r == old(self).core_id(),
            *final(self) == old(self).without_core(),
    {
        let killed = match &self.core_handler {
            Some(c) => Some(c.id),
            None => None,
        };
        self.core_handler = None;
        killed
    }

    /// Selects the core `name` in `store`, where `exists` tells whether its
    /// executable was found in the core directory. Where it was not, fails with
    /// `NotFound` and leaves the configuration as it was. The caller then
    /// persists the configuration and restarts the core.
    pub fn change_core(store: &mut Sword, name: String, exists: bool) -> (r: Result<
        (),
        ServiceError,
    >)
        ensures
            r == switch_result(exists),
            *final(store) == switched(*old(store), name, exists),
    {
        if !exists {
            return Err(ServiceError::NotFound);
        }
        store.config.core_name = Some(name);
        assert(store.config == old(store).with_core_name(name).config);
        Ok(())
    }
}

/// The result of selecting a core whose executable exists or not.
pub open spec fn switch_result(exists: bool) -> Result<(), ServiceError> {
    if exists {
        Ok(())
    } else {
        Err(ServiceError::NotFound)
    }
}

/// The store after selecting the core `name`: changed only where its
/// executable exists.
pub open spec fn switched(s: Sword, name: String, exists: bool) -> Sword {
    if exists {
        s.with_core_name(name)
    } else {
        s
    }
}

/// Selecting a core whose executable does not exist fails with `NotFound`,
/// and a read afterwards reports the selection made before.
pub proof fn lemma_invalid_switch_keeps_core(s: Sword, name: String)
    ensures
        switch_result(false) == Err::<(), ServiceError>(ServiceError::NotFound),
        switched(s, name, false).read_config().core_name == s.read_config().core_name,
        switched(s, name, false) == s,
{
}

/// Starting the core twice in a row leaves exactly one live process, the
/// second one, running the core selected for it; the first start's process is
/// the one the second start kills. `live` is the set of processes alive, which
/// at first are those the supervisor owns; a start kills the id it returns and
/// adds the one it spawns.
pub proof fn lemma_restart_twice(s0: Service, id1: u64, core1: String, id2: u64, core2: String)
    ensures
        ({
            let live0 = s0.owned();
            let k1 = s0.core_id();
            let s1 = s0.without_core().with_core(id1, core1);
            let live1 = (if k1 is Some { live0.remove(k1.unwrap()) } else { live0 }).insert(id1);
            let k2 = s1.core_id();
            let s2 = s1.without_core().with_core(id2, core2);
            let live2 = (if k2 is Some { live1.remove(k2.unwrap()) } else { live1 }).insert(id2);
            &&& k2 == Some(id1)
            &&& live2 == set![id2]
            &&& s2.owned() == live2
            &&& s2.core_handler == Some(RunningCore { id: id2, core: core2 })
        }),
{
    let live0 = s0.owned();
    let k1 = s0.core_id();
    let s1 = s0.without_core().with_core(id1, core1);
    let live1 = (if k1 is Some { live0.remove(k1.unwrap()) } else { live0 }).insert(id1);
    assert(live1 =~= set![id1]);
    let live2 = live1.remove(id1).insert(id2);
    assert(live2 =~= set![id2]);
}

} // verus!
