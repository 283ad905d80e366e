use vstd::prelude::*;
use crate::config::{ISword, ISingBox};

verus! {

/// The core selected by a configured name, else the first installed core.
pub open spec fn selected_core(configured: Option<String>, listed: Seq<String>) -> Option<String> {
    if configured is Some {
        configured
    } else if listed.len() > 0 {
        Some(listed[0])
    } else {
        None
    }
}

fn clone_opt_string(o: &Option<String>) -> (r: Option<String>)
    ensures
        r == *o,
{
    match o {
        Some(s) => Some(s.clone()),
        None => None,
    }
}

/// The one authoritative in-memory copy of both configuration documents.
/// Each change here is to be followed by a full overwrite of the backing file.
#[derive(Debug, Clone)]
pub struct Sword {
    pub config: ISword,
    pub sing_box: ISingBox,
}

impl Sword {
    /// This store with its settings document replaced by `v`.
    pub open spec fn with_config(self, v: ISword) -> Sword {
        Sword { config: v, ..self }
    }

    /// This store with its passthrough document replaced by `v`.
    pub open spec fn with_sing_box(self, v: ISingBox) -> Sword {
        Sword { sing_box: v, ..self }
    }

    /// This store with `name` as the selected core, all else kept.
    pub open spec fn with_core_name(self, name: String) -> Sword {
        self.with_config(ISword { core_name: Some(name), ..self.config })
    }

    /// This store once the settings document found on disk, if any, is taken in.
    pub open spec fn loaded_config(self, on_disk: Option<ISword>) -> Sword {
        match on_disk {
            Some(v) => self.with_config(v),
            None => self,
        }
    }

    /// This store once the passthrough document found on disk, if any, is taken in.
    pub open spec fn loaded_sing_box(self, on_disk: Option<ISingBox>) -> Sword {
        match on_disk {
            Some(v) => self.with_sing_box(v),
            None => self,
        }
    }

    /// The settings document a read returns.
    pub open spec fn read_config(self) -> ISword {
        self.config
    }

    /// The passthrough document a read returns.
    pub open spec fn read_sing_box(self) -> ISingBox {
        self.sing_box
    }

    /// Both documents at their defaults, before anything is loaded.
    pub fn new() -> (r: Sword)
        ensures
            r.config.is_default(),
            r.sing_box.is_default(),
    {
        Sword { config: ISword::default(), sing_box: ISingBox::default() }
    }

    /// Takes in the settings document found on disk, if any. Returns whether
    /// the current document must be written out because no file existed.
    pub fn init_config(&mut self, on_disk: Option<ISword>) -> (must_write: bool)
        ensures
            must_write == (on_disk is None),
            *final(self) == old(self).loaded_config(on_disk),
    {
        match on_disk {
            Some(v) => {
                self.config = v;
                false
            },
            None => true,
        }
    }

    /// Takes in the passthrough document found on disk, if any. Returns
    /// whether the current document must be written out because no file existed.
    pub fn init_sing_box(&mut self, on_disk: Option<ISingBox>) -> (must_write: bool)
        ensures
            must_write == (on_disk is None),
            *final(self) == old(self).loaded_sing_box(on_disk),
    {
        match on_disk {
            Some(v) => {
                self.sing_box = v;
                false
            },
            None => true,
        }
    }

    /// Replaces the whole settings document.
    pub fn set_config(&mut self, value: ISword)
        ensures
            *final(self) == old(self).with_config(value),
    {
        self.config = value;
    }

    /// Replaces the whole passthrough document.
    pub fn set_sing_box(&mut self, value: ISingBox)
        ensures
            *final(self) == old(self).with_sing_box(value),
    {
        self.sing_box = value;
    }

    /// The current settings document.
    pub fn config(&self) -> (r: &ISword)
        ensures
            *r == self.read_config(),
    {
        &self.config
    }

    /// The current passthrough document.
    pub fn sing_box(&self) -> (r: &ISingBox)
        ensures
            *r == self.read_sing_box(),
    {
        &self.sing_box
    }

    /// Port, LAN access, secret and dashboard override of the control API.
    pub fn web_info(&self) -> (r: (u16, bool, Option<String>, Option<String>))
        ensures
            r == (self.config.web_port, self.config.web_allow_lan, self.config.web_secret,
                self.config.web_ui),
    {
        (
            self.config.web_port,
            self.config.web_allow_lan,
            clone_opt_string(&self.config.web_secret),
            clone_opt_string(&self.config.web_ui),
        )
    }

    /// The selected core: the configured name, else the first of `listed`
    /// (the installed cores in directory order).
    pub fn core_name(&self, listed: &Vec<String>) -> (r: Option<String>)
        ensures
            r == selected_core(self.config.core_name, listed@),
    {
        match &self.config.core_name {
            Some(name) => Some(name.clone()),
            None => {
                if listed.len() > 0 {
                    Some(listed[0].clone())
                } else {
                    None
                }
            },
        }
    }
}

/// On a first run, with no file on disk, a fresh store keeps its defaults:
/// the documents it asks to write out are the documented defaults.
pub proof fn lemma_first_run_defaults(s: Sword)
    requires
        s.config.is_default(),
        s.sing_box.is_default(),
    ensures
        s.loaded_config(None).read_config().is_default(),
        s.loaded_sing_box(None).read_sing_box().is_default(),
{
}

/// Replacing a document and then reading it gives back exactly the value
/// written, and leaves the other document as it was.
pub proof fn lemma_replace_then_read(s: Sword, v: ISword, w: ISingBox)
    ensures
        s.with_config(v).read_config() == v,
        s.with_config(v).read_sing_box() == s.read_sing_box(),
        s.with_sing_box(w).read_sing_box() == w,
        s.with_sing_box(w).read_config() == s.read_config(),
{
}

} // verus!
