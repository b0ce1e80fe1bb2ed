use mysql_plugin_api::constants::{MYSQL_HANDLERTON_INTERFACE_VERSION, MYSQL_PLUGIN_INTERFACE_VERSION};
use mysql_plugin_api::declare::{DeclareError, PluginTable};
use mysql_plugin_api::types::{
    status_succeeded, Handlerton, LegacyDbType, License, Plugin, PluginType, ShowCompOption,
    StorageEngineInfo,
};

type Hton = Handlerton<(), (), ()>;

type Hook = fn(&mut Hton) -> i32;

static EXAMPLE_STORAGE_ENGINE: StorageEngineInfo = StorageEngineInfo {
    interface_version: MYSQL_HANDLERTON_INTERFACE_VERSION,
};

fn example_init(hton: &mut Hton) -> i32 {
    hton.set_state(ShowCompOption::Yes);
    0
}

fn failing_init(_hton: &mut Hton) -> i32 {
    1
}

fn example_plugin() -> Plugin<'static, Hook> {
    Plugin {
        plugin_type: PluginType::Storage,
        info: Some(&EXAMPLE_STORAGE_ENGINE),
        name: Some(b"example\0"),
        author: Some(b"Felix Bytow\0"),
        descr: Some(b"Example storage engine in Rust\0"),
        license: License::Bsd,
        ..Plugin::zero()
    }
}

fn named(name: &'static [u8], version: u32) -> Plugin<'static, Hook> {
    Plugin { name: Some(name), version, ..example_plugin() }
}

fn new_hton() -> Hton {
    Handlerton {
        state: ShowCompOption::No,
        db_type: LegacyDbType::Unknown,
        slot: 0,
        savepoint_offset: 0,
        close_connection: None,
        kill_connection: None,
        pre_dd_shutdown: None,
    }
}

#[test]
fn declare_single_storage_plugin() {
    let table = PluginTable::declare(vec![example_plugin()]).unwrap();
    let decls = table.declarations();
    assert_eq!(decls.len(), 2);
    assert_eq!(table.plugin_count(), 1);
    let first = &decls[0];
    assert_eq!(first.plugin_type, PluginType::Storage);
    assert_eq!(first.license, License::Bsd);
    assert_eq!(first.name, Some(&b"example\0"[..]));
    assert_eq!(first.author, Some(&b"Felix Bytow\0"[..]));
    assert_eq!(first.descr, Some(&b"Example storage engine in Rust\0"[..]));
    assert_eq!(first.info.unwrap().interface_version, 20487680);
    assert!(first.init.is_none() && first.deinit.is_none() && first.check_uninstall.is_none());
    assert!(decls[1].is_zero());
    assert_eq!(
        table.sizeof_struct(),
        std::mem::size_of::<Plugin<'static, Hook>>() as i32
    );
    assert_eq!(table.interface_version(), MYSQL_PLUGIN_INTERFACE_VERSION);
    assert_eq!(table.interface_version(), 0x010B);
}

#[test]
fn table_keeps_order_and_ends_with_sentinel() {
    let table = PluginTable::declare(vec![
        named(b"first\0", 1),
        named(b"second\0", 2),
        named(b"third\0", 3),
    ])
    .unwrap();
    let decls = table.declarations();
    assert_eq!(decls.len(), 4);
    assert_eq!(table.plugin_count(), 3);
    assert_eq!(decls[0].name, Some(&b"first\0"[..]));
    assert_eq!(decls[1].name, Some(&b"second\0"[..]));
    assert_eq!(decls[2].name, Some(&b"third\0"[..]));
    assert_eq!(decls[0].version, 1);
    assert_eq!(decls[1].version, 2);
    assert_eq!(decls[2].version, 3);
    assert!(!decls[2].is_zero());
    assert!(decls[3].is_zero());
}

#[test]
fn descriptor_round_trips_through_table() {
    let original = Plugin {
        version: 0x0001,
        flags: 4,
        status_vars: 0x1000,
        init: Some(example_init as Hook),
        ..example_plugin()
    };
    let table = PluginTable::declare(vec![original]).unwrap();
    let back = table.get(0);
    assert_eq!(back.plugin_type, original.plugin_type);
    assert_eq!(back.license, original.license);
    assert_eq!(back.name, original.name);
    assert_eq!(back.author, original.author);
    assert_eq!(back.descr, original.descr);
    assert_eq!(back.info, original.info);
    assert_eq!(back.version, 1);
    assert_eq!(back.flags, 4);
    assert_eq!(back.status_vars, 0x1000);
    assert!(back.init.is_some());
    assert!(table.get(1).is_zero());
}

#[test]
fn init_hook_shows_engine_and_succeeds() {
    let plugin = Plugin { init: Some(example_init as Hook), ..example_plugin() };
    let table = PluginTable::declare(vec![plugin]).unwrap();
    let mut hton = new_hton();
    let init = table.get(0).init.unwrap();
    let status = init(&mut hton);
    assert_eq!(hton.state, ShowCompOption::Yes);
    assert_eq!(status, 0);
    assert!(status_succeeded(status));
}

#[test]
fn failing_init_hook_reports_failure() {
    let plugin = Plugin { init: Some(failing_init as Hook), ..example_plugin() };
    let table = PluginTable::declare(vec![plugin]).unwrap();
    let mut hton = new_hton();
    let init = table.get(0).init.unwrap();
    let status = init(&mut hton);
    assert_eq!(status, 1);
    assert!(!status_succeeded(status));
}

#[test]
fn empty_list_is_refused() {
    let r = PluginTable::<Hook>::declare(Vec::new());
    assert!(matches!(r, Err(DeclareError::Empty)));
}

#[test]
fn sentinel_inside_list_is_refused() {
    let r = PluginTable::declare(vec![example_plugin(), Plugin::zero(), named(b"late\0", 2)]);
    assert!(matches!(r, Err(DeclareError::SentinelEntry(1))));
}

#[test]
fn sentinel_at_end_of_list_is_refused() {
    let r = PluginTable::declare(vec![example_plugin(), Plugin::zero()]);
    assert!(matches!(r, Err(DeclareError::SentinelEntry(1))));
}

#[test]
fn first_sentinel_is_reported() {
    let r = PluginTable::<Hook>::declare(vec![Plugin::zero(), example_plugin(), Plugin::zero()]);
    assert!(matches!(r, Err(DeclareError::SentinelEntry(0))));
}
