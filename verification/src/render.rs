//! The two flat renderings of mount options: the option string of a mount call that is
//! handed an open descriptor, and the option string handed to a mount helper that opens
//! the descriptor itself.

use crate::decimal::{decimal_int, decimal_nat, push_decimal_i32, push_decimal_u32};
use crate::model::MountOptionsView;
use crate::options::MountOptions;
use crate::process::{effective_gid, effective_uid};
use vstd::prelude::*;
use vstd::string::StringExecFns;

verus! {

/// The root inode's mode that is rendered where none was set.
pub const DEFAULT_ROOTMODE: u32 = 40000;

/// The filesystem name that is rendered where none was set.
pub open spec fn default_fs_name() -> Seq<char> {
    "fuse"@
}

/// The texts of a list of strings, in order.
pub open spec fn texts(entries: Seq<String>) -> Seq<Seq<char>> {
    entries.map_values(|entry: String| entry@)
}

/// The entries in order, with one comma between each two neighbours.
pub open spec fn comma_joined(entries: Seq<Seq<char>>) -> Seq<char>
    decreases entries.len(),
{
    if entries.len() == 0 {
        Seq::empty()
    } else if entries.len() == 1 {
        entries[0]
    } else {
        comma_joined(entries.drop_last()) + seq![','] + entries.last()
    }
}

/// The entry `name`, where `present` holds, and no entry otherwise.
pub open spec fn flag_entry(present: bool, name: Seq<char>) -> Seq<Seq<char>> {
    if present {
        seq![name]
    } else {
        Seq::empty()
    }
}

/// The bare flags that both flat renderings carry, in their fixed order. `ro` stands for a
/// read-only setting of `true` alone.
pub open spec fn flag_entries(o: MountOptionsView) -> Seq<Seq<char>> {
    flag_entry(o.allow_root, "allow_root"@) + flag_entry(o.allow_other, "allow_other"@)
        + flag_entry(o.read_only == Some(true), "ro"@) + flag_entry(
        o.default_permissions,
        "default_permissions"@,
    )
}

/// The `user_id` entry: the owner that was set, or else the user id of the process.
pub open spec fn user_id_entry(o: MountOptionsView, process_uid: u32) -> Seq<char> {
    "user_id="@ + decimal_nat(
        match o.uid {
            Some(uid) => uid,
            None => process_uid,
        } as nat,
    )
}

/// The `group_id` entry: the group that was set, or else the group id of the process.
pub open spec fn group_id_entry(o: MountOptionsView, process_gid: u32) -> Seq<char> {
    "group_id="@ + decimal_nat(
        match o.gid {
            Some(gid) => gid,
            None => process_gid,
        } as nat,
    )
}

/// The `rootmode` entry: the mode that was set, or else the default one.
pub open spec fn rootmode_entry(o: MountOptionsView) -> Seq<char> {
    "rootmode="@ + decimal_nat(
        match o.rootmode {
            Some(rootmode) => rootmode,
            None => DEFAULT_ROOTMODE,
        } as nat,
    )
}

/// The `fsname` entry: the name that was set, or else the default one.
pub open spec fn fsname_entry(o: MountOptionsView) -> Seq<char> {
    "fsname="@ + match o.fs_name {
        Some(name) => name,
        None => default_fs_name(),
    }
}

/// The entries of the option string for a mount call that is handed the descriptor `fd`.
pub open spec fn descriptor_entries(
    o: MountOptionsView,
    fd: int,
    process_uid: u32,
    process_gid: u32,
) -> Seq<Seq<char>> {
    seq![
        "fd="@ + decimal_int(fd),
        user_id_entry(o, process_uid),
        group_id_entry(o, process_gid),
        rootmode_entry(o),
    ] + flag_entries(o)
}

/// The entries of the option string for a mount helper, which opens the descriptor itself.
pub open spec fn helper_entries(
    o: MountOptionsView,
    process_uid: u32,
    process_gid: u32,
) -> Seq<Seq<char>> {
    seq![
        user_id_entry(o, process_uid),
        group_id_entry(o, process_gid),
        rootmode_entry(o),
        fsname_entry(o),
    ] + flag_entries(o)
}

/// The entries joined by commas and closed by the custom text, where there is one: a comma
/// and then the text as it stands.
pub open spec fn closed_by(entries: Seq<Seq<char>>, custom: Option<Seq<char>>) -> Seq<char> {
    match custom {
        Some(text) => comma_joined(entries) + seq![','] + text,
        None => comma_joined(entries),
    }
}

/// The option string for a mount call that is handed the descriptor `fd`, in a process with
/// the given ids.
pub open spec fn descriptor_options(
    o: MountOptionsView,
    fd: int,
    process_uid: u32,
    process_gid: u32,
) -> Seq<char> {
    closed_by(descriptor_entries(o, fd, process_uid, process_gid), o.custom_options)
}

/// The option string for a mount helper, in a process with the given ids.
pub open spec fn helper_options(o: MountOptionsView, process_uid: u32, process_gid: u32) -> Seq<
    char,
> {
    closed_by(helper_entries(o, process_uid, process_gid), o.custom_options)
}

/// `key` followed by the decimal numeral of `value`.
fn unsigned_entry(key: &str, value: u32) -> (entry: String)
    ensures
        entry@ == key@ + decimal_nat(value as nat),
{
    let mut entry = String::from_str(key);
    push_decimal_u32(&mut entry, value);
    entry
}

/// `key` followed by the decimal numeral of `value`, signed where it is negative.
fn signed_entry(key: &str, value: i32) -> (entry: String)
    ensures
        entry@ == key@ + decimal_int(value as int),
{
    let mut entry = String::from_str(key);
    push_decimal_i32(&mut entry, value);
    entry
}

/// `key` followed by `value`.
fn text_entry(key: &str, value: &str) -> (entry: String)
    ensures
        entry@ == key@ + value@,
{
    let mut entry = String::from_str(key);
    entry.append(value);
    entry
}

/// Appends one entry to a list of entries.
fn push_entry(entries: &mut Vec<String>, entry: String)
    ensures
        texts(final(entries)@) == texts(old(entries)@).push(entry@),
{
    entries.push(entry);
    assert(texts(entries@) =~= texts(old(entries)@).push(entry@));
}

/// The entries joined into one string, with a comma between each two neighbours.
fn join_with_commas(entries: &Vec<String>) -> (joined: String)
    ensures
        joined@ == comma_joined(texts(entries@)),
{
    let mut joined = String::new();
    let mut i: usize = 0;
    while i < entries.len()
        invariant
            i <= entries.len(),
            joined@ == comma_joined(texts(entries@).take(i as int)),
        decreases entries.len() - i,
    {
        if i > 0 {
            joined.append(",");
        }
        joined.append(entries[i].as_str());
        proof {
            reveal_strlit(",");
            let all = texts(entries@);
            assert(all.take(i + 1).drop_last() =~= all.take(i as int));
            assert(joined@ =~= comma_joined(all.take(i + 1)));
        }
        i += 1;
    }
    assert(texts(entries@).take(i as int) =~= texts(entries@));
    joined
}

impl MountOptions {
    /// Appends the bare flags that are switched on.
    fn push_flags(&self, entries: &mut Vec<String>)
        ensures
            texts(final(entries)@) == texts(old(entries)@) + flag_entries(self@),
    {
        if self.allow_root {
            push_entry(entries, String::from_str("allow_root"));
        }
        if self.allow_other {
            push_entry(entries, String::from_str("allow_other"));
        }
        if let Some(true) = self.read_only {
            push_entry(entries, String::from_str("ro"));
        }
        if self.default_permissions {
            push_entry(entries, String::from_str("default_permissions"));
        }
        assert(texts(entries@) =~= texts(old(entries)@) + flag_entries(self@));
    }

    /// Joins the entries and closes them with the custom text, where there is one.
    fn close(&self, entries: &Vec<String>) -> (options: String)
        ensures
            options@ == closed_by(texts(entries@), self@.custom_options),
    {
        let mut options = join_with_commas(entries);
        if let Some(custom_options) = &self.custom_options {
            options.append(",");
            options.append(custom_options.as_str());
            proof {
                reveal_strlit(",");
                assert(options@ =~= comma_joined(texts(entries@)) + seq![','] + custom_options@);
            }
        }
        options
    }

    /// Renders the option string for a mount call that is handed the open descriptor `fd`,
    /// in a process whose user and group ids are `process_uid` and `process_gid`.
    ///
    /// The entries are `fd`, `user_id`, `group_id` and `rootmode`, then the flags
    /// `allow_root`, `allow_other`, `ro` and `default_permissions` that are switched on,
    /// joined by commas, then a comma and the custom text where one was set. No other
    /// setting appears. The descriptor is only written down: it is neither used nor closed.
    pub fn build_as(&self, fd: i32, process_uid: u32, process_gid: u32) -> (options: String)
        ensures
            options@ == descriptor_options(self@, fd as int, process_uid, process_gid),
    {
        let mut entries: Vec<String> = Vec::new();
        push_entry(&mut entries, signed_entry("fd=", fd));
        push_entry(
            &mut entries,
            unsigned_entry(
                "user_id=",
                match self.uid {
                    Some(uid) => uid,
                    None => process_uid,
                },
            ),
        );
        push_entry(
            &mut entries,
            unsigned_entry(
                "group_id=",
                match self.gid {
                    Some(gid) => gid,
                    None => process_gid,
                },
            ),
        );
        push_entry(
            &mut entries,
            unsigned_entry(
                "rootmode=",
                match self.rootmode {
                    Some(rootmode) => rootmode,
                    None => DEFAULT_ROOTMODE,
                },
            ),
        );
        assert(texts(entries@) =~= seq![
            "fd="@ + decimal_int(fd as int),
            user_id_entry(self@, process_uid),
            group_id_entry(self@, process_gid),
            rootmode_entry(self@),
        ]);
        self.push_flags(&mut entries);
        self.close(&entries)
    }

    /// Renders the option string for a mount helper, which opens the descriptor itself, in
    /// a process whose user and group ids are `process_uid` and `process_gid`.
    ///
    /// The entries are `user_id`, `group_id`, `rootmode` and `fsname`, then the flags
    /// `allow_root`, `allow_other`, `ro` and `default_permissions` that are switched on,
    /// joined by commas, then a comma and the custom text where one was set.
    pub fn build_with_unprivileged_as(&self, process_uid: u32, process_gid: u32) -> (options:
        String)
        ensures
            options@ == helper_options(self@, process_uid, process_gid),
    {
        let mut entries: Vec<String> = Vec::new();
        push_entry(
            &mut entries,
            unsigned_entry(
                "user_id=",
                match self.uid {
                    Some(uid) => uid,
                    None => process_uid,
                },
            ),
        );
        push_entry(
            &mut entries,
            unsigned_entry(
                "group_id=",
                match self.gid {
                    Some(gid) => gid,
                    None => process_gid,
                },
            ),
        );
        push_entry(
            &mut entries,
            unsigned_entry(
                "rootmode=",
                match self.rootmode {
                    Some(rootmode) => rootmode,
                    None => DEFAULT_ROOTMODE,
                },
            ),
        );
        push_entry(
            &mut entries,
            text_entry(
                "fsname=",
                match &self.fs_name {
                    Some(name) => name.as_str(),
                    None => "fuse",
                },
            ),
        );
        assert(texts(entries@) =~= seq![
            user_id_entry(self@, process_uid),
            group_id_entry(self@, process_gid),
            rootmode_entry(self@),
            fsname_entry(self@),
        ]);
        self.push_flags(&mut entries);
        self.close(&entries)
    }

    /// Renders the option string for a mount call that is handed the open descriptor `fd`.
    ///
    /// An owner or a group that was not set is replaced by the effective id of the calling
    /// process, which is asked for only then. The result is what `build_as` renders for
    /// those ids.
    pub fn build(&self, fd: i32) -> (options: String)
        ensures
            exists|process_uid: u32, process_gid: u32|
                options@ == #[trigger] descriptor_options(
                    self@,
                    fd as int,
                    process_uid,
                    process_gid,
                ),
            self@.uid is Some && self@.gid is Some ==> forall|process_uid: u32, process_gid: u32|
                options@ == #[trigger] descriptor_options(
                    self@,
                    fd as int,
                    process_uid,
                    process_gid,
                ),
    {
        let process_uid = match self.uid {
            Some(uid) => uid,
            None => effective_uid(),
        };
        let process_gid = match self.gid {
            Some(gid) => gid,
            None => effective_gid(),
        };
        self.build_as(fd, process_uid, process_gid)
    }

    /// Renders the option string for a mount helper, which opens the descriptor itself.
    ///
    /// An owner or a group that was not set is replaced by the effective id of the calling
    /// process, which is asked for only then. The result is what
    /// `build_with_unprivileged_as` renders for those ids.
    pub fn build_with_unprivileged(&self) -> (options: String)
        ensures
            exists|process_uid: u32, process_gid: u32|
                options@ == #[trigger] helper_options(self@, process_uid, process_gid),
            self@.uid is Some && self@.gid is Some ==> forall|process_uid: u32, process_gid: u32|
                options@ == #[trigger] helper_options(self@, process_uid, process_gid),
    {
        let process_uid = match self.uid {
            Some(uid) => uid,
            None => effective_uid(),
        };
        let process_gid = match self.gid {
            Some(gid) => gid,
            None => effective_gid(),
        };
        self.build_with_unprivileged_as(process_uid, process_gid)
    }
}

} // verus!
