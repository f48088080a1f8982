//! The settings domain: where runtimes come from and where they go.
use vstd::prelude::*;

use crate::draft::Snapshot;

verus! {

/// An HTTP proxy used for downloads.
#[derive(Clone, Debug, PartialEq, Eq)]
pub struct Proxy {
    pub enabled: bool,
    pub address: String,
}

impl Proxy {
    /// An exact copy.
    pub fn copy(&self) -> (r: Proxy)
        ensures
            r == *self,
    {
        Proxy { enabled: self.enabled, address: self.address.clone() }
    }
}

/// The settings document.
#[derive(Clone, Debug, PartialEq, Eq)]
pub struct ISettings {
    /// Base URL of the distribution mirror.
    pub mirror: Option<String>,
    /// Directory the runtimes are installed into.
    pub directory: Option<String>,
    pub proxy: Option<Proxy>,
    pub no_proxy: Option<bool>,
}

impl View for ISettings {
    type V = ISettings;

    open spec fn view(&self) -> ISettings {
        *self
    }
}

/// An exact copy of an optional string.
pub fn copy_text(s: &Option<String>) -> (r: Option<String>)
    ensures
        r == *s,
{
    match s {
        Some(t) => Some(t.clone()),
        None => None,
    }
}

impl Snapshot for ISettings {
    fn snapshot(&self) -> (r: Self) {
        let proxy = match &self.proxy {
            Some(p) => Some(p.copy()),
            None => None,
        };
        ISettings {
            mirror: copy_text(&self.mirror),
            directory: copy_text(&self.directory),
            proxy,
            no_proxy: self.no_proxy,
        }
    }
}

} // verus!
