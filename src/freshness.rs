//! Deciding whether cached data is older than what the catalog reports.
use vstd::prelude::*;

use crate::catalog::CatalogError;
use crate::mtime_format::Timestamp;
use crate::plugin::{Plugin, PluginName};
use crate::sync::CDragon;

verus! {

/// The synchronisation state of the local data.
#[derive(Clone, Copy, Debug, PartialEq, Eq, Structural)]
pub enum Status {
    Uninitialized,
    OutOfDate,
    UpToDate,
}

impl Status {
    /// The state's name, as shown to users.
    pub fn as_str(&self) -> (r: &'static str)
        ensures
            *self == Status::Uninitialized ==> r@ == "Uninitialized"@,
            *self == Status::OutOfDate ==> r@ == "OutOfDate"@,
            *self == Status::UpToDate ==> r@ == "UpToDate"@,
    {
        match self {
            Status::Uninitialized => "Uninitialized",
            Status::OutOfDate => "OutOfDate",
            Status::UpToDate => "UpToDate",
        }
    }
}

/// Cached data dated `cached` is out of date exactly when the catalog's date is later.
pub open spec fn freshness_of(cached: Timestamp, remote: Timestamp) -> Status {
    if cached.secs < remote.secs {
        Status::OutOfDate
    } else {
        Status::UpToDate
    }
}

/// Compares a cached modification time with the catalog's current one.
pub fn freshness(cached: Timestamp, remote: Timestamp) -> (r: Status)
    ensures
        r == freshness_of(cached, remote),
{
    if cached.is_before(&remote) {
        Status::OutOfDate
    } else {
        Status::UpToDate
    }
}

/// The modification time of the first plugin of the list named `name`.
pub open spec fn plugin_mtime(plugins: Seq<Plugin>, name: PluginName) -> Option<Timestamp>
    decreases plugins.len(),
{
    if plugins.len() == 0 {
        None
    } else if plugins[0].name == name {
        Some(plugins[0].mtime)
    } else {
        plugin_mtime(plugins.drop_first(), name)
    }
}

proof fn lemma_plugin_mtime_skip(plugins: Seq<Plugin>, name: PluginName, i: int)
    requires
        0 <= i <= plugins.len(),
        forall|j: int| 0 <= j < i ==> (#[trigger] plugins[j]).name != name,
    ensures
        plugin_mtime(plugins, name) == plugin_mtime(plugins.subrange(i, plugins.len() as int), name),
    decreases i,
{
    if i > 0 {
        let rest = plugins.drop_first();
        assert forall|j: int| 0 <= j < i - 1 implies (#[trigger] rest[j]).name != name by {
            assert(rest[j] == plugins[j + 1]);
        }
        lemma_plugin_mtime_skip(rest, name, i - 1);
        assert(rest.subrange(i - 1, rest.len() as int) =~= plugins.subrange(i, plugins.len() as int));
    } else {
        assert(plugins.subrange(0, plugins.len() as int) =~= plugins);
    }
}

/// Looks up the modification time of the plugin named `name`.
fn find_mtime(plugins: &Vec<Plugin>, name: PluginName) -> (r: Option<Timestamp>)
    ensures
        r == plugin_mtime(plugins@, name),
{
    let mut i: usize = 0;
    while i < plugins.len()
        invariant
            i <= plugins@.len(),
            forall|j: int| 0 <= j < i ==> (#[trigger] plugins@[j]).name != name,
        decreases plugins.len() - i,
    {
        if plugins[i].name == name {
            proof {
                lemma_plugin_mtime_skip(plugins@, name, i as int);
                let tail = plugins@.subrange(i as int, plugins@.len() as int);
                assert(tail[0] == plugins@[i as int]);
            }
            return Some(plugins[i].mtime);
        }
        i = i + 1;
    }
    proof {
        lemma_plugin_mtime_skip(plugins@, name, i as int);
    }
    None
}

/// What a freshness check can tell from the cache alone.
#[derive(Clone, Copy, Debug, PartialEq, Eq, Structural)]
pub enum StatusCheck {
    /// The state is known without asking the catalog.
    Decided(Status),
    /// The plugin was cached with this modification time; the catalog's must be fetched.
    NeedsRemote(Timestamp),
}

/// The cold-start rule: without a cached list, or without the plugin in it, data is out of
/// date; otherwise the cached date has to be compared with the catalog's.
pub open spec fn status_check_of(cached: Option<Seq<Plugin>>, name: PluginName) -> StatusCheck {
    match cached {
        None => StatusCheck::Decided(Status::OutOfDate),
        Some(list) => match plugin_mtime(list, name) {
            None => StatusCheck::Decided(Status::OutOfDate),
            Some(t) => StatusCheck::NeedsRemote(t),
        },
    }
}

/// The status once the catalog's plugin list has been fetched (or failed to be).
pub open spec fn status_of(
    cached_date: Timestamp,
    remote: Result<Seq<Plugin>, CatalogError>,
    name: PluginName,
) -> Result<Status, CatalogError> {
    match remote {
        Err(e) => Err(e),
        Ok(list) => match plugin_mtime(list, name) {
            None => Err(CatalogError::MissingPlugin(name)),
            Some(t) => Ok(freshness_of(cached_date, t)),
        },
    }
}

/// The cached list as a sequence, if there is one.
pub open spec fn cached_view(cached: Option<Vec<Plugin>>) -> Option<Seq<Plugin>> {
    match cached {
        None => None,
        Some(v) => Some(v@),
    }
}

/// The fetched list as a sequence, or the fetch's error.
pub open spec fn remote_view(remote: Result<Vec<Plugin>, CatalogError>) -> Result<
    Seq<Plugin>,
    CatalogError,
> {
    match remote {
        Err(e) => Err(e),
        Ok(v) => Ok(v@),
    }
}

impl CDragon {
    /// The modification time of the plugin named `name` in the cached list, if the cache
    /// holds a list and the plugin is in it.
    pub fn cached_plugin_updated_date(cached: &Option<Vec<Plugin>>, name: &PluginName) -> (r:
        Option<Timestamp>)
        ensures
            r == (match cached_view(*cached) {
                None => None,
                Some(list) => plugin_mtime(list, *name),
            }),
    {
        match cached {
            None => None,
            Some(list) => find_mtime(list, *name),
        }
    }

    /// The modification time that the catalog's plugin list gives for `name`.
    pub fn network_plugin_updated_date(plugins: &Vec<Plugin>, name: &PluginName) -> (r: Result<
        Timestamp,
        CatalogError,
    >)
        ensures
            r == (match plugin_mtime(plugins@, *name) {
                None => Err(CatalogError::MissingPlugin(*name)),
                Some(t) => Ok::<Timestamp, CatalogError>(t),
            }),
    {
        match find_mtime(plugins, *name) {
            None => Err(CatalogError::MissingPlugin(*name)),
            Some(t) => Ok(t),
        }
    }

    /// First step of a freshness check, from the cached plugin list alone. It writes nothing.
    pub fn status_check(cached: &Option<Vec<Plugin>>, plugin_name: PluginName) -> (r: StatusCheck)
        ensures
            r == status_check_of(cached_view(*cached), plugin_name),
    {
        match Self::cached_plugin_updated_date(cached, &plugin_name) {
            None => StatusCheck::Decided(Status::OutOfDate),
            Some(t) => StatusCheck::NeedsRemote(t),
        }
    }

    /// Second step of a freshness check: compares the cached date with the fetched list's.
    /// A failed fetch, or a list without the plugin, fails the check rather than pick a status.
    pub fn status(
        cached_date: Timestamp,
        remote: &Result<Vec<Plugin>, CatalogError>,
        plugin_name: PluginName,
    ) -> (r: Result<Status, CatalogError>)
        ensures
            r == status_of(cached_date, remote_view(*remote), plugin_name),
    {
        match remote {
            Err(e) => Err(*e),
            Ok(list) => match Self::network_plugin_updated_date(list, &plugin_name) {
                Err(e) => Err(e),
                Ok(t) => Ok(freshness(cached_date, t)),
            },
        }
    }
}

/// With no cached plugin list, a freshness check finds the data out of date, whatever the
/// plugin's name.
pub proof fn lemma_cold_start_out_of_date(name: PluginName)
    ensures
        status_check_of(None, name) == StatusCheck::Decided(Status::OutOfDate),
{
}

/// A plugin cached at `cached` and dated `remote` by the catalog is out of date exactly when
/// `cached` is earlier than `remote`, and up to date otherwise.
pub proof fn lemma_out_of_date_iff_earlier(
    cached: Timestamp,
    remote: Timestamp,
    list: Seq<Plugin>,
    name: PluginName,
)
    requires
        plugin_mtime(list, name) == Some(remote),
    ensures
        status_of(cached, Ok(list), name) == Ok::<Status, CatalogError>(Status::OutOfDate)
            <==> cached.secs < remote.secs,
        status_of(cached, Ok(list), name) == Ok::<Status, CatalogError>(Status::UpToDate)
            <==> cached.secs >= remote.secs,
{
}

} // verus!
