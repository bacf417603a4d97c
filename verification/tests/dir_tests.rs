use judge_core::dir_utils::{
    BaseDir, DirAction, DirHandle, Local, LocalConfig, Tmpfs, TmpfsConfig,
};

fn local_handle(config: LocalConfig) -> Local {
    Local::from(&config)
}

#[test]
fn local_config_defaults() {
    let c = LocalConfig::default();
    assert!(!c.create_if_not_exist);
    assert!(c.create_recursively);
    assert!(!c.clean);
    assert_eq!(c.path, "");
    assert!(c.permissions.is_none());
    assert!(c.read_only);
}

#[test]
fn tmpfs_config_defaults() {
    let c = TmpfsConfig::default();
    assert_eq!(c.size, 64);
    assert_eq!(c.inodes, 1024);
    assert_eq!(c.path, "");
    assert_eq!(c.flag, 0);
    assert_eq!(c.permissions, 777);
    assert!(!c.read_only);
}

#[test]
fn config_new_sets_path() {
    assert_eq!(LocalConfig::new(String::from("/tmp/a")).path, "/tmp/a");
    assert_eq!(TmpfsConfig::new(String::from("/tmp/b")).path, "/tmp/b");
}

#[test]
fn from_config_starts_unprovisioned() {
    let l = local_handle(LocalConfig::new(String::from("/tmp/x")));
    assert_eq!(l.src, "/tmp/x");
    assert!(!l.created);
    assert!(!l.mounted);
    assert!(l.target.is_none());
}

#[test]
fn create_is_idempotent_on_local() {
    let mut config = LocalConfig::new(String::from("/tmp/x"));
    config.create_if_not_exist = true;
    let mut l = local_handle(config);
    assert!(l.create(false, Ok(())).is_ok());
    assert!(l.created);
    // a second create is a no-op and succeeds, even if the caller would
    // have reported a filesystem error
    assert!(l.create(false, Err(String::from("boom"))).is_ok());
    assert!(l.created);
}

#[test]
fn create_is_idempotent_on_tmpfs() {
    let mut t = Tmpfs::from(&TmpfsConfig::new(String::from("/tmp/y")));
    assert!(t.create(false, Ok(())).is_ok());
    assert!(t.created);
    assert!(t.create(false, Err(String::from("boom"))).is_ok());
    assert!(t.created);
}

#[test]
fn create_surfaces_filesystem_error() {
    let mut config = LocalConfig::new(String::from("/tmp/x"));
    config.create_if_not_exist = true;
    let mut l = local_handle(config);
    let r = l.create(false, Err(String::from("permission denied")));
    assert_eq!(r, Err(String::from("permission denied")));
    assert!(!l.created);
}

#[test]
fn create_on_existing_directory_needs_no_work() {
    let mut l = local_handle(LocalConfig::new(String::from("/tmp/x")));
    match l.create_action(true) {
        DirAction::Nothing => {},
        _ => panic!("an existing directory needs no filesystem work"),
    }
    assert!(l.create(true, Ok(())).is_ok());
    assert!(l.created);
}

#[test]
fn clean_never_touches_uncreated_handle() {
    let mut config = LocalConfig::new(String::from("/tmp/x"));
    config.clean = true;
    let mut l = local_handle(config);
    match l.clean_action() {
        DirAction::Nothing => {},
        _ => panic!("an uncreated handle asks for no teardown"),
    }
    assert!(l.clean(Ok(())).is_ok());
    assert!(!l.created);
}

#[test]
fn clean_respects_disabled_cleanup() {
    let mut config = LocalConfig::new(String::from("/tmp/x"));
    config.create_if_not_exist = true;
    config.clean = false;
    let mut l = local_handle(config);
    l.create(false, Ok(())).unwrap();
    match l.clean_action() {
        DirAction::Nothing => {},
        _ => panic!("cleanup is disabled, nothing may be deleted"),
    }
    assert!(l.clean(Ok(())).is_ok());
    assert!(l.created);
}

#[test]
fn clean_tears_down_created_tmpfs() {
    let mut t = Tmpfs::from(&TmpfsConfig::new(String::from("/tmp/y")));
    t.create(true, Ok(())).unwrap();
    match t.clean_action() {
        DirAction::UnmountRemove { mount_path, dir } => {
            assert_eq!(mount_path, "/tmp/y");
            assert_eq!(dir, "/tmp/y");
        },
        _ => panic!("a created ephemeral handle unmounts and removes"),
    }
    assert!(t.clean(Ok(())).is_ok());
    assert!(!t.created);
}

#[test]
fn tmpfs_mount_options_string() {
    let t = Tmpfs::from(&TmpfsConfig::new(String::from("/tmp/y")));
    match t.create_action(false) {
        DirAction::MountTmpfs { dir, make_dir, mode, mount_path, data, flag } => {
            assert_eq!(dir, "/tmp/y");
            assert!(make_dir);
            assert_eq!(mode, 777);
            assert_eq!(mount_path, "/tmp/y");
            assert_eq!(data, "size=64M,nr_inodes=1024");
            assert_eq!(flag, 0);
        },
        _ => panic!("an uncreated ephemeral handle mounts"),
    }
}

#[test]
fn read_only_bind_string() {
    let mut config = LocalConfig::new(String::from("/srv/data"));
    config.read_only = true;
    let mut l = local_handle(config);
    let s = l.get_bind_string(&String::from("/data"));
    assert_eq!(s, "--bindmount_ro=/srv/data:/data");
    assert!(l.mounted);
    assert_eq!(l.target.as_deref(), Some("/data"));
}

#[test]
fn writable_bind_string() {
    let mut config = LocalConfig::new(String::from("/srv/data"));
    config.read_only = false;
    let mut l = local_handle(config);
    let s = l.get_bind_string(&String::from("/data"));
    assert_eq!(s, "--bindmount=/srv/data:/data");
}

#[test]
fn tmpfs_bind_string_is_writable_by_default() {
    let mut t = Tmpfs::from(&TmpfsConfig::new(String::from("/tmp/box")));
    let s = t.get_bind_string(&String::from("/sandbox"));
    assert_eq!(s, "--bindmount=/tmp/box:/sandbox");
}

#[test]
fn handle_enum_delegates() {
    let mut config = LocalConfig::new(String::from("/srv/in"));
    config.read_only = true;
    let mut h = DirHandle::Bind(Local::from(&config));
    assert!(h.read_only());
    assert_eq!(h.get_src(), "/srv/in");
    let s = h.get_bind_string(&String::from("/in"));
    assert_eq!(s, "--bindmount_ro=/srv/in:/in");
    assert!(h.create(true, Ok(())).is_ok());
    assert!(h.create(true, Err(String::from("boom"))).is_ok());
}
