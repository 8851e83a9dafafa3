use mount_options::{MountOptions, NmountOption};

fn valued(name: &str, value: &str) -> NmountOption {
    NmountOption { name: String::from(name), value: Some(String::from(value)) }
}

fn bare(name: &str) -> NmountOption {
    NmountOption { name: String::from(name), value: None }
}

#[test]
fn unset_options_give_the_two_fixed_entries() {
    let entries = MountOptions::default().build_nmount();
    assert_eq!(entries.len(), 2);
    assert_eq!(entries, vec![valued("fstype", "fusefs"), valued("from", "/dev/fuse")]);
}

#[test]
fn named_options_with_everything_they_show() {
    let mut options = MountOptions::default();
    options
        .fs_name(String::from("mydata"))
        .default_permissions(true)
        .allow_other(true);
    assert_eq!(
        options.build_nmount(),
        vec![
            valued("fstype", "fusefs"),
            valued("from", "/dev/fuse"),
            bare("allow_other"),
            bare("default_permissions"),
            valued("subtype=", "mydata"),
        ]
    );
}

#[test]
fn named_options_one_at_a_time() {
    let mut options = MountOptions::default();
    options.allow_other(true);
    assert_eq!(
        options.build_nmount(),
        vec![valued("fstype", "fusefs"), valued("from", "/dev/fuse"), bare("allow_other")]
    );
    let mut options = MountOptions::default();
    options.default_permissions(true);
    assert_eq!(
        options.build_nmount(),
        vec![
            valued("fstype", "fusefs"),
            valued("from", "/dev/fuse"),
            bare("default_permissions"),
        ]
    );
    let mut options = MountOptions::default();
    options.fs_name(String::from("n"));
    assert_eq!(
        options.build_nmount(),
        vec![valued("fstype", "fusefs"), valued("from", "/dev/fuse"), valued("subtype=", "n")]
    );
}

#[test]
fn named_options_leave_out_the_other_settings() {
    let mut options = MountOptions::default();
    options
        .uid(1)
        .gid(2)
        .rootmode(3)
        .allow_root(true)
        .read_only(true)
        .nonempty(true)
        .dont_mask(true)
        .no_open_support(true)
        .no_open_dir_support(true)
        .handle_killpriv(true)
        .write_back(true)
        .force_readdir_plus(true)
        .custom_options(String::from("foo=bar"));
    assert_eq!(
        options.build_nmount(),
        vec![valued("fstype", "fusefs"), valued("from", "/dev/fuse")]
    );
}

#[test]
fn switched_off_flags_have_no_named_option() {
    let mut options = MountOptions::default();
    options
        .allow_other(true)
        .allow_other(false)
        .default_permissions(false);
    assert_eq!(
        options.build_nmount(),
        vec![valued("fstype", "fusefs"), valued("from", "/dev/fuse")]
    );
}
