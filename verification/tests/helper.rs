use mount_options::MountOptions;

#[test]
fn helper_scenario_with_a_filesystem_name() {
    let mut options = MountOptions::default();
    options.fs_name(String::from("mydata"));
    let rendered = options.build_with_unprivileged_as(1000, 1001);
    assert_eq!(rendered, "user_id=1000,group_id=1001,rootmode=40000,fsname=mydata");
    assert!(rendered.split(',').any(|entry| entry == "fsname=mydata"));
    assert!(!rendered.contains("fd="));

    let rendered = options.build_with_unprivileged();
    assert!(rendered.split(',').any(|entry| entry == "fsname=mydata"));
    assert!(!rendered.contains("fd="));
}

#[test]
fn unset_options_for_a_helper() {
    let options = MountOptions::default();
    assert_eq!(
        options.build_with_unprivileged_as(5, 6),
        "user_id=5,group_id=6,rootmode=40000,fsname=fuse"
    );
}

#[test]
fn unset_options_for_a_helper_take_the_ids_of_the_process() {
    let options = MountOptions::default();
    let uid = nix::unistd::geteuid().as_raw();
    let gid = nix::unistd::getegid().as_raw();
    assert_eq!(
        options.build_with_unprivileged(),
        format!("user_id={},group_id={},rootmode=40000,fsname=fuse", uid, gid)
    );
    assert_eq!(
        options.build_with_unprivileged(),
        options.build_with_unprivileged_as(uid, gid)
    );
}

#[test]
fn helper_string_with_everything_set() {
    let mut options = MountOptions::default();
    options
        .uid(1)
        .gid(2)
        .rootmode(3)
        .fs_name(String::from("name"))
        .allow_root(true)
        .allow_other(true)
        .read_only(true)
        .default_permissions(true)
        .custom_options(String::from("foo=bar"));
    let expected =
        "user_id=1,group_id=2,rootmode=3,fsname=name,allow_root,allow_other,ro,default_permissions,foo=bar";
    assert_eq!(options.build_with_unprivileged_as(8, 9), expected);
    assert_eq!(options.build_with_unprivileged(), expected);
}

#[test]
fn helper_string_differs_from_the_descriptor_string_in_two_entries() {
    let mut options = MountOptions::default();
    options
        .uid(1)
        .gid(2)
        .allow_other(true)
        .custom_options(String::from("x=y"));
    assert_eq!(
        options.build_as(7, 0, 0),
        "fd=7,user_id=1,group_id=2,rootmode=40000,allow_other,x=y"
    );
    assert_eq!(
        options.build_with_unprivileged_as(0, 0),
        "user_id=1,group_id=2,rootmode=40000,fsname=fuse,allow_other,x=y"
    );
}

#[test]
fn custom_options_end_the_helper_string() {
    let mut options = MountOptions::default();
    options.custom_options(String::from("foo=bar")).read_only(true);
    let rendered = options.build_with_unprivileged_as(2, 3);
    assert_eq!(rendered, "user_id=2,group_id=3,rootmode=40000,fsname=fuse,ro,foo=bar");
    assert!(rendered.ends_with(",foo=bar"));
}

#[test]
fn read_only_false_does_not_render_ro_for_a_helper() {
    let mut options = MountOptions::default();
    options.read_only(false);
    assert_eq!(
        options.build_with_unprivileged_as(2, 3),
        "user_id=2,group_id=3,rootmode=40000,fsname=fuse"
    );
    options.read_only(true);
    assert_eq!(
        options.build_with_unprivileged_as(2, 3),
        "user_id=2,group_id=3,rootmode=40000,fsname=fuse,ro"
    );
}

#[test]
fn helper_string_leaves_out_the_other_settings() {
    let mut options = MountOptions::default();
    options
        .nonempty(true)
        .dont_mask(true)
        .no_open_support(true)
        .no_open_dir_support(true)
        .handle_killpriv(true)
        .write_back(true)
        .force_readdir_plus(true);
    assert_eq!(
        options.build_with_unprivileged_as(2, 3),
        "user_id=2,group_id=3,rootmode=40000,fsname=fuse"
    );
}

#[test]
fn a_filesystem_name_is_rendered_as_given() {
    let mut options = MountOptions::default();
    options.fs_name(String::new());
    assert_eq!(
        options.build_with_unprivileged_as(2, 3),
        "user_id=2,group_id=3,rootmode=40000,fsname="
    );
    options.fs_name(String::from("a,b=c \u{4e2d}"));
    assert_eq!(
        options.build_with_unprivileged_as(2, 3),
        "user_id=2,group_id=3,rootmode=40000,fsname=a,b=c \u{4e2d}"
    );
}
