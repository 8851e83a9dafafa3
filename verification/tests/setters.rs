use mount_options::MountOptions;

#[test]
fn default_has_nothing_set() {
    let options = MountOptions::default();
    assert_eq!(options.uid, None);
    assert_eq!(options.gid, None);
    assert_eq!(options.fs_name, None);
    assert_eq!(options.rootmode, None);
    assert!(!options.allow_root);
    assert!(!options.allow_other);
    assert_eq!(options.read_only, None);
    assert!(!options.nonempty);
    assert!(!options.default_permissions);
    assert!(!options.dont_mask);
    assert!(!options.no_open_support);
    assert!(!options.no_open_dir_support);
    assert!(!options.handle_killpriv);
    assert!(!options.write_back);
    assert!(!options.force_readdir_plus);
    assert_eq!(options.custom_options, None);
}

#[test]
fn each_setter_stores_its_value() {
    let mut options = MountOptions::default();
    options.uid(1);
    assert_eq!(options.uid, Some(1));
    options.gid(2);
    assert_eq!(options.gid, Some(2));
    options.fs_name(String::from("data"));
    assert_eq!(options.fs_name, Some(String::from("data")));
    options.rootmode(3);
    assert_eq!(options.rootmode, Some(3));
    options.allow_root(true);
    assert!(options.allow_root);
    options.allow_other(true);
    assert!(options.allow_other);
    options.read_only(true);
    assert_eq!(options.read_only, Some(true));
    options.nonempty(true);
    assert!(options.nonempty);
    options.default_permissions(true);
    assert!(options.default_permissions);
    options.dont_mask(true);
    assert!(options.dont_mask);
    options.no_open_support(true);
    assert!(options.no_open_support);
    options.no_open_dir_support(true);
    assert!(options.no_open_dir_support);
    options.handle_killpriv(true);
    assert!(options.handle_killpriv);
    options.write_back(true);
    assert!(options.write_back);
    options.force_readdir_plus(true);
    assert!(options.force_readdir_plus);
    options.custom_options(String::from("foo=bar"));
    assert_eq!(options.custom_options, Some(String::from("foo=bar")));
}

#[test]
fn a_setter_touches_no_other_setting() {
    let mut options = MountOptions::default();
    options.uid(7);
    let mut expected = MountOptions::default();
    expected.uid = Some(7);
    assert_eq!(options, expected);

    options.write_back(true);
    expected.write_back = true;
    assert_eq!(options, expected);

    options.custom_options(String::from("x"));
    expected.custom_options = Some(String::from("x"));
    assert_eq!(options, expected);

    options.read_only(false);
    expected.read_only = Some(false);
    assert_eq!(options, expected);
}

#[test]
fn setters_chain() {
    let mut options = MountOptions::default();
    options
        .uid(10)
        .gid(20)
        .fs_name(String::from("chained"))
        .rootmode(30)
        .allow_root(true)
        .allow_other(true)
        .read_only(false)
        .nonempty(true)
        .default_permissions(true)
        .dont_mask(true)
        .no_open_support(true)
        .no_open_dir_support(true)
        .handle_killpriv(true)
        .write_back(true)
        .force_readdir_plus(true)
        .custom_options(String::from("tail"));
    let expected = MountOptions {
        uid: Some(10),
        gid: Some(20),
        fs_name: Some(String::from("chained")),
        rootmode: Some(30),
        allow_root: true,
        allow_other: true,
        read_only: Some(false),
        nonempty: true,
        default_permissions: true,
        dont_mask: true,
        no_open_support: true,
        no_open_dir_support: true,
        handle_killpriv: true,
        write_back: true,
        force_readdir_plus: true,
        custom_options: Some(String::from("tail")),
    };
    assert_eq!(options, expected);
}

#[test]
fn no_value_is_refused_when_set() {
    let mut options = MountOptions::default();
    options.uid(u32::MAX).gid(0).rootmode(0o777777);
    assert_eq!(options.uid, Some(u32::MAX));
    assert_eq!(options.gid, Some(0));
    assert_eq!(options.rootmode, Some(0o777777));
    options.fs_name(String::new()).custom_options(String::from(",,=,"));
    assert_eq!(options.fs_name, Some(String::new()));
    assert_eq!(options.custom_options, Some(String::from(",,=,")));
}

#[test]
fn a_second_call_replaces_the_first() {
    let mut options = MountOptions::default();
    options.uid(1).uid(2);
    options.gid(3).gid(4);
    options.fs_name(String::from("a")).fs_name(String::from("b"));
    options.rootmode(5).rootmode(6);
    options.allow_root(true).allow_root(false);
    options.allow_other(false).allow_other(true);
    options.read_only(true).read_only(false);
    options.nonempty(true).nonempty(false);
    options.default_permissions(false).default_permissions(true);
    options.dont_mask(true).dont_mask(false);
    options.no_open_support(false).no_open_support(true);
    options.no_open_dir_support(true).no_open_dir_support(false);
    options.handle_killpriv(false).handle_killpriv(true);
    options.write_back(true).write_back(false);
    options.force_readdir_plus(false).force_readdir_plus(true);
    options
        .custom_options(String::from("first"))
        .custom_options(String::from("second"));

    let mut once = MountOptions::default();
    once.uid(2)
        .gid(4)
        .fs_name(String::from("b"))
        .rootmode(6)
        .allow_root(false)
        .allow_other(true)
        .read_only(false)
        .nonempty(false)
        .default_permissions(true)
        .dont_mask(false)
        .no_open_support(true)
        .no_open_dir_support(false)
        .handle_killpriv(true)
        .write_back(false)
        .force_readdir_plus(true)
        .custom_options(String::from("second"));
    assert_eq!(options, once);
    assert_eq!(options.build_as(3, 0, 0), once.build_as(3, 0, 0));
    assert_eq!(
        options.build_as(3, 0, 0),
        "fd=3,user_id=2,group_id=4,rootmode=6,allow_other,default_permissions,second"
    );
    assert_eq!(
        options.build_with_unprivileged_as(0, 0),
        "user_id=2,group_id=4,rootmode=6,fsname=b,allow_other,default_permissions,second"
    );
    assert_eq!(options.build_nmount(), once.build_nmount());
}

#[test]
fn clone_is_equal_and_independent() {
    let mut options = MountOptions::default();
    options.uid(5).fs_name(String::from("n"));
    let copy = options.clone();
    assert_eq!(copy, options);
    options.uid(6);
    assert_eq!(copy.uid, Some(5));
    assert_ne!(copy, options);
}
