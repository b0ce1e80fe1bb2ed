use vstd::prelude::*;

use crate::constants::MYSQL_HANDLERTON_INTERFACE_VERSION;

verus! {

/// The type of plugin being declared.
///
/// The server may add more types, so the set is open.
#[derive(PartialEq, Eq, Structural, Clone, Copy, Debug)]
#[non_exhaustive]
pub enum PluginType {
    /// User-Defined Function.
    Udf,
    /// Storage engine.
    Storage,
}

impl PluginType {
    /// The number that stands for the type in a descriptor.
    pub open spec fn spec_value(self) -> i32 {
        match self {
            PluginType::Udf => 0,
            PluginType::Storage => 1,
        }
    }

    /// The number that stands for the type in a descriptor.
    pub fn value(self) -> (r: i32)
        ensures
            r == self.spec_value(),
    {
        match self {
            PluginType::Udf => 0,
            PluginType::Storage => 1,
        }
    }
}

/// The license under which the plugin is being published.
#[derive(PartialEq, Eq, Structural, Clone, Copy, Debug)]
pub enum License {
    /// A proprietary license.
    Proprietary,
    /// The GNU General Public License.
    Gpl,
    /// The BSD license.
    Bsd,
}

impl License {
    /// The number that stands for the license in a descriptor.
    pub open spec fn spec_value(self) -> i32 {
        match self {
            License::Proprietary => 0,
            License::Gpl => 1,
            License::Bsd => 2,
        }
    }

    /// The number that stands for the license in a descriptor.
    pub fn value(self) -> (r: i32)
        ensures
            r == self.spec_value(),
    {
        match self {
            License::Proprietary => 0,
            License::Gpl => 1,
            License::Bsd => 2,
        }
    }
}

/// Information about a storage engine plugin.
#[derive(PartialEq, Eq, Structural, Clone, Copy, Debug)]
pub struct StorageEngineInfo {
    /// This needs to be set to `MYSQL_HANDLERTON_INTERFACE_VERSION`.
    pub interface_version: i32,
}

impl StorageEngineInfo {
    /// Storage engine information stamped with the handlerton interface
    /// revision of the release this library is built against.
    pub fn current() -> (r: Self)
        ensures
            r.interface_version == MYSQL_HANDLERTON_INTERFACE_VERSION,
    {
        StorageEngineInfo { interface_version: MYSQL_HANDLERTON_INTERFACE_VERSION }
    }
}

/// Whether the server shows a component in its introspection views.
#[derive(PartialEq, Eq, Structural, Clone, Copy, Debug)]
pub enum ShowCompOption {
    /// Shown.
    Yes,
    /// Not shown.
    No,
    /// Disabled.
    Disabled,
}

impl ShowCompOption {
    /// The number that stands for the option in a handlerton.
    pub open spec fn spec_value(self) -> i32 {
        match self {
            ShowCompOption::Yes => 0,
            ShowCompOption::No => 1,
            ShowCompOption::Disabled => 2,
        }
    }

    /// The number that stands for the option in a handlerton.
    pub fn value(self) -> (r: i32)
        ensures
            r == self.spec_value(),
    {
        match self {
            ShowCompOption::Yes => 0,
            ShowCompOption::No => 1,
            ShowCompOption::Disabled => 2,
        }
    }
}

/// Legacy database type: the historical number of a storage engine, kept
/// for compatibility with table files on disk. Numbers are never reassigned.
#[derive(PartialEq, Eq, Structural, Clone, Copy, Debug)]
pub enum LegacyDbType {
    Unknown,
    DiabIsam,
    Hash,
    MIsam,
    PIsam,
    RmsIsam,
    Heam,
    Isam,
    MrgIsam,
    MyIsam,
    MrgMyIsam,
    BerkeleyDb,
    InnoDb,
    Gemini,
    NDbCluster,
    ExampleDb,
    ArchiveDb,
    CsvDb,
    FederatedDb,
    BlackholeDb,
    PartitionDb,
    /// No longer used.
    Binlog,
    Solid,
    Pbxt,
    TableFunction,
    MemCache,
    Falcon,
    Maria,
    /// Performance schema engine.
    PerformanceSchema,
    TempTable,
    FirstDynamic,
    /// Must be last.
    Default,
}

impl LegacyDbType {
    /// The number that stands for the engine in a handlerton and on disk.
    pub open spec fn spec_value(self) -> i32 {
        match self {
            LegacyDbType::Unknown => 0,
            LegacyDbType::DiabIsam => 1,
            LegacyDbType::Hash => 2,
            LegacyDbType::MIsam => 3,
            LegacyDbType::PIsam => 4,
            LegacyDbType::RmsIsam => 5,
            LegacyDbType::Heam => 6,
            LegacyDbType::Isam => 7,
            LegacyDbType::MrgIsam => 8,
            LegacyDbType::MyIsam => 9,
            LegacyDbType::MrgMyIsam => 10,
            LegacyDbType::BerkeleyDb => 11,
            LegacyDbType::InnoDb => 12,
            LegacyDbType::Gemini => 13,
            LegacyDbType::NDbCluster => 14,
            LegacyDbType::ExampleDb => 15,
            LegacyDbType::ArchiveDb => 16,
            LegacyDbType::CsvDb => 17,
            LegacyDbType::FederatedDb => 18,
            LegacyDbType::BlackholeDb => 19,
            LegacyDbType::PartitionDb => 20,
            LegacyDbType::Binlog => 21,
            LegacyDbType::Solid => 22,
            LegacyDbType::Pbxt => 23,
            LegacyDbType::TableFunction => 24,
            LegacyDbType::MemCache => 25,
            LegacyDbType::Falcon => 26,
            LegacyDbType::Maria => 27,
            LegacyDbType::PerformanceSchema => 28,
            LegacyDbType::TempTable => 29,
            LegacyDbType::FirstDynamic => 42,
            LegacyDbType::Default => 127,
        }
    }

    /// The number that stands for the engine in a handlerton and on disk.
    pub fn value(self) -> (r: i32)
        ensures
            r == self.spec_value(),
    {
        match self {
            LegacyDbType::Unknown => 0,
            LegacyDbType::DiabIsam => 1,
            LegacyDbType::Hash => 2,
            LegacyDbType::MIsam => 3,
            LegacyDbType::PIsam => 4,
            LegacyDbType::RmsIsam => 5,
            LegacyDbType::Heam => 6,
            LegacyDbType::Isam => 7,
            LegacyDbType::MrgIsam => 8,
            LegacyDbType::MyIsam => 9,
            LegacyDbType::MrgMyIsam => 10,
            LegacyDbType::BerkeleyDb => 11,
            LegacyDbType::InnoDb => 12,
            LegacyDbType::Gemini => 13,
            LegacyDbType::NDbCluster => 14,
            LegacyDbType::ExampleDb => 15,
            LegacyDbType::ArchiveDb => 16,
            LegacyDbType::CsvDb => 17,
            LegacyDbType::FederatedDb => 18,
            LegacyDbType::BlackholeDb => 19,
            LegacyDbType::PartitionDb => 20,
            LegacyDbType::Binlog => 21,
            LegacyDbType::Solid => 22,
            LegacyDbType::Pbxt => 23,
            LegacyDbType::TableFunction => 24,
            LegacyDbType::MemCache => 25,
            LegacyDbType::Falcon => 26,
            LegacyDbType::Maria => 27,
            LegacyDbType::PerformanceSchema => 28,
            LegacyDbType::TempTable => 29,
            LegacyDbType::FirstDynamic => 42,
            LegacyDbType::Default => 127,
        }
    }
}

} // verus!

verus! {

/// The handlerton ("handler singleton"): the record the server allocates
/// for a storage engine and hands to the engine's `init` hook.
///
/// `C`, `K` and `S` are the types of the close-connection,
/// kill-connection and pre-data-dictionary-shutdown notification hooks.
/// The plugin may set `state` in its `init` hook; the server owns the
/// other fields.
#[derive(Clone, Copy, Debug)]
pub struct Handlerton<C, K, S> {
    /// Whether the plugin should be shown.
    pub state: ShowCompOption,
    /// Historical number used for table files to determine the storage engine.
    pub db_type: LegacyDbType,
    /// Memory area of the storage engine.
    pub slot: u32,
    /// Size of the per-savepoint data area the storage engine asks for (0 is fine).
    pub savepoint_offset: u32,
    /// Close-connection notification.
    pub close_connection: Option<C>,
    /// Terminate-connection or statement notification.
    pub kill_connection: Option<K>,
    /// Shut down all background tasks that might access the data dictionary,
    /// before the main shutdown.
    pub pre_dd_shutdown: Option<S>,
}

impl<C, K, S> Handlerton<C, K, S> {
    /// Sets whether the server shows the storage engine; the one field an
    /// `init` hook may write. Every other field keeps its value.
    pub fn set_state(&mut self, state: ShowCompOption)
        ensures
            *final(self) == (Handlerton { state, ..*old(self) }),
    {
        self.state = state;
    }
}

/// Whether a lifecycle hook's status code reports success: 0 is success,
/// any other value is failure.
pub fn status_succeeded(status: i32) -> (r: bool)
    ensures
        r == (status == 0),
{
    status == 0
}

/// A plugin descriptor: what the server's loader reads about one plugin.
///
/// `F` is the type of the lifecycle hooks (`init`, `check_uninstall`,
/// `deinit`). Names are NUL-terminated byte strings. A descriptor whose
/// fields are all zero or absent is the sentinel that ends a table.
#[derive(Clone, Copy, Debug)]
pub struct Plugin<'a, F> {
    /// The type of the plugin.
    pub plugin_type: PluginType,
    /// The info record of the plugin's type (storage engines: a
    /// `StorageEngineInfo`).
    pub info: Option<&'a StorageEngineInfo>,
    /// The name of the plugin.
    pub name: Option<&'a [u8]>,
    /// The author (person or organization).
    pub author: Option<&'a [u8]>,
    /// The description.
    pub descr: Option<&'a [u8]>,
    /// The license under which the plugin is published.
    pub license: License,
    /// Hook invoked when the plugin is loaded.
    pub init: Option<F>,
    /// Hook invoked when the plugin is uninstalled.
    pub check_uninstall: Option<F>,
    /// Hook invoked when the plugin is unloaded.
    pub deinit: Option<F>,
    /// Version number of the plugin.
    pub version: u32,
    /// Address of the server status variables (0: none).
    pub status_vars: usize,
    /// Address of the system variable definitions (0: none).
    pub system_vars: usize,
    /// Reserved for dependency checking (0: none).
    pub reserved: usize,
    /// Flags for the plugin.
    pub flags: u64,
}

impl<'a, F> Plugin<'a, F> {
    /// The descriptor with every field zero or absent.
    pub open spec fn spec_zero() -> Self {
        Plugin {
            plugin_type: PluginType::Udf,
            info: None,
            name: None,
            author: None,
            descr: None,
            license: License::Proprietary,
            init: None,
            check_uninstall: None,
            deinit: None,
            version: 0,
            status_vars: 0,
            system_vars: 0,
            reserved: 0,
            flags: 0,
        }
    }

    /// Whether every field is zero or absent: the server takes such a
    /// descriptor for the end of the table.
    pub open spec fn spec_is_zero(self) -> bool {
        self == Self::spec_zero()
    }

    /// Creates a descriptor with every field zero or absent.
    pub fn zero() -> (r: Self)
        ensures
            r == Self::spec_zero(),
    {
        Plugin {
            plugin_type: PluginType::Udf,
            info: None,
            name: None,
            author: None,
            descr: None,
            license: License::Proprietary,
            init: None,
            check_uninstall: None,
            deinit: None,
            version: 0,
            status_vars: 0,
            system_vars: 0,
            reserved: 0,
            flags: 0,
        }
    }

    /// Whether every field is zero or absent.
    pub fn is_zero(&self) -> (r: bool)
        ensures
            r == self.spec_is_zero(),
    {
        let udf = match self.plugin_type {
            PluginType::Udf => true,
            PluginType::Storage => false,
        };
        let proprietary = match self.license {
            License::Proprietary => true,
            _ => false,
        };
        udf && self.info.is_none() && self.name.is_none() && self.author.is_none()
            && self.descr.is_none() && proprietary && self.init.is_none()
            && self.check_uninstall.is_none() && self.deinit.is_none() && self.version == 0
            && self.status_vars == 0 && self.system_vars == 0 && self.reserved == 0
            && self.flags == 0
    }
}

} // verus!
