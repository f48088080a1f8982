//! Turning the settings and a requested version into a download request.
use vstd::prelude::*;

use crate::error::CoreError;
use crate::settings::{ISettings, Proxy};

verus! {

/// Everything a runtime download needs to know.
#[derive(Clone, Debug, PartialEq, Eq)]
pub struct FetchRequest {
    /// Directory the runtime is installed into.
    pub dest: String,
    pub mirror: String,
    pub version: String,
    pub no_proxy: Option<bool>,
    pub proxy: Option<Proxy>,
}

/// The download request for `version` under `settings`. Fails when no
/// version is given, then when the settings lack a mirror, then when they
/// lack an install directory.
pub fn install_request(settings: &ISettings, version: &Option<String>) -> (r: Result<
    FetchRequest,
    CoreError,
>)
    ensures
        version is None ==> r == Err::<FetchRequest, CoreError>(CoreError::VersionMissing),
        version is Some && settings.mirror is None ==> r == Err::<FetchRequest, CoreError>(
            CoreError::MirrorMissing,
        ),
        version is Some && settings.mirror is Some && settings.directory is None ==> r == Err::<
            FetchRequest,
            CoreError,
        >(CoreError::DirectoryMissing),
        r is Ok <==> version is Some && settings.mirror is Some && settings.directory is Some,
        match r {
            Ok(q) => {
                &&& Some(q.version) == *version
                &&& Some(q.mirror) == settings.mirror
                &&& Some(q.dest) == settings.directory
                &&& q.no_proxy == settings.no_proxy
                &&& q.proxy == settings.proxy
            },
            Err(_) => true,
        },
{
    let version = match version {
        Some(v) => v.clone(),
        None => return Err(CoreError::VersionMissing),
    };
    let mirror = match &settings.mirror {
        Some(m) => m.clone(),
        None => return Err(CoreError::MirrorMissing),
    };
    let dest = match &settings.directory {
        Some(d) => d.clone(),
        None => return Err(CoreError::DirectoryMissing),
    };
    let proxy = match &settings.proxy {
        Some(p) => Some(Proxy { enabled: p.enabled, address: p.address.clone() }),
        None => None,
    };
    let no_proxy = settings.no_proxy;
    Ok(FetchRequest { dest, mirror, version, no_proxy, proxy })
}

} // verus!
