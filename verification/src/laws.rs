//! What holds of the renderings for all options: the statements that callers may rely on
//! beyond the contract of a single function.

use crate::decimal::{decimal_int, decimal_nat};
use crate::model::MountOptionsView;
use crate::nmount::nmount_entries;
use crate::render::{
    comma_joined, descriptor_entries, descriptor_options, flag_entries, fsname_entry,
    helper_entries, helper_options,
};
use vstd::prelude::*;

verus! {

/// Two sets of options render alike: each of the three renderings gives the same result
/// for both, whatever the descriptor and the ids of the process.
pub open spec fn render_alike(a: MountOptionsView, b: MountOptionsView) -> bool {
    &&& forall|fd: int, process_uid: u32, process_gid: u32|
        #![trigger descriptor_options(a, fd, process_uid, process_gid)]
        #![trigger descriptor_options(b, fd, process_uid, process_gid)]
        descriptor_options(a, fd, process_uid, process_gid) == descriptor_options(
            b,
            fd,
            process_uid,
            process_gid,
        )
    &&& forall|process_uid: u32, process_gid: u32|
        #![trigger helper_options(a, process_uid, process_gid)]
        #![trigger helper_options(b, process_uid, process_gid)]
        helper_options(a, process_uid, process_gid) == helper_options(
            b,
            process_uid,
            process_gid,
        )
    &&& nmount_entries(a) == nmount_entries(b)
}

/// With nothing set, the option string for a descriptor holds the descriptor, the user id
/// and the group id of the process and the root mode `40000`, and nothing else: no flag
/// follows, and no comma ends the string.
pub proof fn unset_options_render_the_four_entries(fd: int, process_uid: u32, process_gid: u32)
    ensures
        descriptor_options(MountOptionsView::unset(), fd, process_uid, process_gid) == "fd="@
            + decimal_int(fd) + ",user_id="@ + decimal_nat(process_uid as nat) + ",group_id="@
            + decimal_nat(process_gid as nat) + ",rootmode=40000"@,
        descriptor_options(MountOptionsView::unset(), fd, process_uid, process_gid).last() != ',',
{
    reveal_strlit("fd=");
    reveal_strlit("user_id=");
    reveal_strlit("group_id=");
    reveal_strlit("rootmode=");
    reveal_strlit(",user_id=");
    reveal_strlit(",group_id=");
    reveal_strlit(",rootmode=40000");
    reveal_with_fuel(decimal_nat, 5);
    reveal_with_fuel(comma_joined, 4);
    let rendered = descriptor_options(MountOptionsView::unset(), fd, process_uid, process_gid);
    assert(rendered =~= "fd="@ + decimal_int(fd) + ",user_id="@ + decimal_nat(process_uid as nat)
        + ",group_id="@ + decimal_nat(process_gid as nat) + ",rootmode=40000"@);
}

/// Switching `allow_other` on and then off again leaves options in which it was off as
/// they were: every rendering is the one of options in which it was never set.
pub proof fn allow_other_on_then_off_is_never_set(o: MountOptionsView)
    requires
        !o.allow_other,
    ensures
        o.with_allow_other(true).with_allow_other(false) == o,
        render_alike(o.with_allow_other(true).with_allow_other(false), o),
{
}

/// A read-only setting of `false` renders as no setting at all: every rendering is the one
/// of options in which it was never made, and `ro` is not among the entries. Only a
/// setting of `true` puts `ro` there.
pub proof fn read_only_false_renders_as_unset(
    o: MountOptionsView,
    fd: int,
    process_uid: u32,
    process_gid: u32,
)
    ensures
        render_alike(o.with_read_only(false), o.without_read_only()),
        !descriptor_entries(o.with_read_only(false), fd, process_uid, process_gid).contains("ro"@),
        !helper_entries(o.with_read_only(false), process_uid, process_gid).contains("ro"@),
        descriptor_entries(o.with_read_only(true), fd, process_uid, process_gid).contains("ro"@),
        helper_entries(o.with_read_only(true), process_uid, process_gid).contains("ro"@),
{
    reveal_strlit("ro");
    reveal_strlit("fd=");
    reveal_strlit("user_id=");
    reveal_strlit("group_id=");
    reveal_strlit("rootmode=");
    reveal_strlit("fsname=");
    reveal_strlit("allow_root");
    reveal_strlit("allow_other");
    reveal_strlit("default_permissions");
    let off = o.with_read_only(false);
    let on = o.with_read_only(true);
    let flags = flag_entries(off);
    assert forall|i: int| 0 <= i < flags.len() implies flags[i].len() > 2 by {}
    let d = descriptor_entries(off, fd, process_uid, process_gid);
    assert forall|i: int| 0 <= i < d.len() implies d[i] != "ro"@ by {
        if i >= 4 {
            assert(d[i] == flags[i - 4]);
        } else {
            assert(d[i][0] != 'r' || d[i].len() > 2);
        }
    }
    let h = helper_entries(off, process_uid, process_gid);
    assert forall|i: int| 0 <= i < h.len() implies h[i] != "ro"@ by {
        if i >= 4 {
            assert(h[i] == flags[i - 4]);
        } else {
            assert(h[i][0] != 'r' || h[i].len() > 2);
        }
    }
    let before: int = (if o.allow_root {
        1int
    } else {
        0int
    }) + (if o.allow_other {
        1int
    } else {
        0int
    });
    assert(flag_entries(on)[before] == "ro"@);
    assert(descriptor_entries(on, fd, process_uid, process_gid)[4 + before] == "ro"@);
    assert(helper_entries(on, process_uid, process_gid)[4 + before] == "ro"@);
}

/// Custom text closes the option string, whatever else is set and in whatever order it was
/// set: the string is the one that the same options give without custom text, then a comma,
/// then the text as it was given.
pub proof fn custom_options_close_the_string(
    o: MountOptionsView,
    custom: Seq<char>,
    fd: int,
    process_uid: u32,
    process_gid: u32,
)
    ensures
        descriptor_options(o.with_custom_options(custom), fd, process_uid, process_gid)
            == descriptor_options(o.without_custom_options(), fd, process_uid, process_gid)
            + seq![','] + custom,
        (seq![','] + custom).is_suffix_of(
            descriptor_options(o.with_custom_options(custom), fd, process_uid, process_gid),
        ),
        helper_options(o.with_custom_options(custom), process_uid, process_gid) == helper_options(
            o.without_custom_options(),
            process_uid,
            process_gid,
        ) + seq![','] + custom,
        (seq![','] + custom).is_suffix_of(
            helper_options(o.with_custom_options(custom), process_uid, process_gid),
        ),
{
    let set = o.with_custom_options(custom);
    let bare = o.without_custom_options();
    assert(flag_entries(set) == flag_entries(bare));
    assert(descriptor_entries(set, fd, process_uid, process_gid) == descriptor_entries(
        bare,
        fd,
        process_uid,
        process_gid,
    ));
    assert(helper_entries(set, process_uid, process_gid) == helper_entries(
        bare,
        process_uid,
        process_gid,
    ));
    comma_and_text_end_the_string(
        descriptor_options(bare, fd, process_uid, process_gid),
        custom,
    );
    comma_and_text_end_the_string(helper_options(bare, process_uid, process_gid), custom);
}

/// A comma and a text that are appended to a string are its suffix.
proof fn comma_and_text_end_the_string(base: Seq<char>, text: Seq<char>)
    ensures
        (seq![','] + text).is_suffix_of(base + seq![','] + text),
{
    let whole = base + seq![','] + text;
    assert(whole.subrange(whole.len() - (seq![','] + text).len(), whole.len() as int) =~= seq![',']
        + text);
}

/// Setting the custom text before or after another setting gives the same options.
pub proof fn custom_options_commute_with_other_setters(
    o: MountOptionsView,
    custom: Seq<char>,
    number: u32,
    flag: bool,
    name: Seq<char>,
)
    ensures
        o.with_custom_options(custom).with_uid(number) == o.with_uid(number).with_custom_options(
            custom,
        ),
        o.with_custom_options(custom).with_gid(number) == o.with_gid(number).with_custom_options(
            custom,
        ),
        o.with_custom_options(custom).with_fs_name(name) == o.with_fs_name(
            name,
        ).with_custom_options(custom),
        o.with_custom_options(custom).with_rootmode(number) == o.with_rootmode(
            number,
        ).with_custom_options(custom),
        o.with_custom_options(custom).with_allow_root(flag) == o.with_allow_root(
            flag,
        ).with_custom_options(custom),
        o.with_custom_options(custom).with_allow_other(flag) == o.with_allow_other(
            flag,
        ).with_custom_options(custom),
        o.with_custom_options(custom).with_read_only(flag) == o.with_read_only(
            flag,
        ).with_custom_options(custom),
        o.with_custom_options(custom).with_nonempty(flag) == o.with_nonempty(
            flag,
        ).with_custom_options(custom),
        o.with_custom_options(custom).with_default_permissions(flag) == o.with_default_permissions(
            flag,
        ).with_custom_options(custom),
        o.with_custom_options(custom).with_dont_mask(flag) == o.with_dont_mask(
            flag,
        ).with_custom_options(custom),
        o.with_custom_options(custom).with_no_open_support(flag) == o.with_no_open_support(
            flag,
        ).with_custom_options(custom),
        o.with_custom_options(custom).with_no_open_dir_support(flag) == o.with_no_open_dir_support(
            flag,
        ).with_custom_options(custom),
        o.with_custom_options(custom).with_handle_killpriv(flag) == o.with_handle_killpriv(
            flag,
        ).with_custom_options(custom),
        o.with_custom_options(custom).with_write_back(flag) == o.with_write_back(
            flag,
        ).with_custom_options(custom),
        o.with_custom_options(custom).with_force_readdir_plus(flag) == o.with_force_readdir_plus(
            flag,
        ).with_custom_options(custom),
{
}

/// A setter called twice leaves the second value alone: the options, and so every
/// rendering of them, are those of the second call without the first.
pub proof fn last_setting_wins(
    o: MountOptionsView,
    first_number: u32,
    second_number: u32,
    first_flag: bool,
    second_flag: bool,
    first_text: Seq<char>,
    second_text: Seq<char>,
)
    ensures
        o.with_uid(first_number).with_uid(second_number) == o.with_uid(second_number),
        o.with_gid(first_number).with_gid(second_number) == o.with_gid(second_number),
        o.with_fs_name(first_text).with_fs_name(second_text) == o.with_fs_name(second_text),
        o.with_rootmode(first_number).with_rootmode(second_number) == o.with_rootmode(
            second_number,
        ),
        o.with_allow_root(first_flag).with_allow_root(second_flag) == o.with_allow_root(
            second_flag,
        ),
        o.with_allow_other(first_flag).with_allow_other(second_flag) == o.with_allow_other(
            second_flag,
        ),
        o.with_read_only(first_flag).with_read_only(second_flag) == o.with_read_only(second_flag),
        o.with_nonempty(first_flag).with_nonempty(second_flag) == o.with_nonempty(second_flag),
        o.with_default_permissions(first_flag).with_default_permissions(second_flag)
            == o.with_default_permissions(second_flag),
        o.with_dont_mask(first_flag).with_dont_mask(second_flag) == o.with_dont_mask(second_flag),
        o.with_no_open_support(first_flag).with_no_open_support(second_flag)
            == o.with_no_open_support(second_flag),
        o.with_no_open_dir_support(first_flag).with_no_open_dir_support(second_flag)
            == o.with_no_open_dir_support(second_flag),
        o.with_handle_killpriv(first_flag).with_handle_killpriv(second_flag)
            == o.with_handle_killpriv(second_flag),
        o.with_write_back(first_flag).with_write_back(second_flag) == o.with_write_back(
            second_flag,
        ),
        o.with_force_readdir_plus(first_flag).with_force_readdir_plus(second_flag)
            == o.with_force_readdir_plus(second_flag),
        o.with_custom_options(first_text).with_custom_options(second_text)
            == o.with_custom_options(second_text),
        render_alike(o.with_uid(first_number).with_uid(second_number), o.with_uid(second_number)),
        render_alike(o.with_gid(first_number).with_gid(second_number), o.with_gid(second_number)),
        render_alike(
            o.with_fs_name(first_text).with_fs_name(second_text),
            o.with_fs_name(second_text),
        ),
        render_alike(
            o.with_rootmode(first_number).with_rootmode(second_number),
            o.with_rootmode(second_number),
        ),
        render_alike(
            o.with_allow_root(first_flag).with_allow_root(second_flag),
            o.with_allow_root(second_flag),
        ),
        render_alike(
            o.with_allow_other(first_flag).with_allow_other(second_flag),
            o.with_allow_other(second_flag),
        ),
        render_alike(
            o.with_read_only(first_flag).with_read_only(second_flag),
            o.with_read_only(second_flag),
        ),
        render_alike(
            o.with_nonempty(first_flag).with_nonempty(second_flag),
            o.with_nonempty(second_flag),
        ),
        render_alike(
            o.with_default_permissions(first_flag).with_default_permissions(second_flag),
            o.with_default_permissions(second_flag),
        ),
        render_alike(
            o.with_dont_mask(first_flag).with_dont_mask(second_flag),
            o.with_dont_mask(second_flag),
        ),
        render_alike(
            o.with_no_open_support(first_flag).with_no_open_support(second_flag),
            o.with_no_open_support(second_flag),
        ),
        render_alike(
            o.with_no_open_dir_support(first_flag).with_no_open_dir_support(second_flag),
            o.with_no_open_dir_support(second_flag),
        ),
        render_alike(
            o.with_handle_killpriv(first_flag).with_handle_killpriv(second_flag),
            o.with_handle_killpriv(second_flag),
        ),
        render_alike(
            o.with_write_back(first_flag).with_write_back(second_flag),
            o.with_write_back(second_flag),
        ),
        render_alike(
            o.with_force_readdir_plus(first_flag).with_force_readdir_plus(second_flag),
            o.with_force_readdir_plus(second_flag),
        ),
        render_alike(
            o.with_custom_options(first_text).with_custom_options(second_text),
            o.with_custom_options(second_text),
        ),
{
}

/// Where owner and group are both set, the ids of the process do not show in a rendering.
pub proof fn set_owner_hides_the_process(
    o: MountOptionsView,
    fd: int,
    process_uid: u32,
    process_gid: u32,
    other_uid: u32,
    other_gid: u32,
)
    requires
        o.uid is Some,
        o.gid is Some,
    ensures
        descriptor_options(o, fd, process_uid, process_gid) == descriptor_options(
            o,
            fd,
            other_uid,
            other_gid,
        ),
        helper_options(o, process_uid, process_gid) == helper_options(o, other_uid, other_gid),
{
}

/// The entries for a mount helper are those for a descriptor without the `fd` entry and
/// with the `fsname` entry after `rootmode`; the flags and their order are the same.
pub proof fn helper_entries_trade_fd_for_fsname(
    o: MountOptionsView,
    fd: int,
    process_uid: u32,
    process_gid: u32,
)
    ensures
        helper_entries(o, process_uid, process_gid) == descriptor_entries(
            o,
            fd,
            process_uid,
            process_gid,
        ).subrange(1, 4) + seq![fsname_entry(o)] + flag_entries(o),
        descriptor_entries(o, fd, process_uid, process_gid).subrange(
            4,
            descriptor_entries(o, fd, process_uid, process_gid).len() as int,
        ) == flag_entries(o),
{
    let d = descriptor_entries(o, fd, process_uid, process_gid);
    assert(helper_entries(o, process_uid, process_gid) =~= d.subrange(1, 4) + seq![
        fsname_entry(o),
    ] + flag_entries(o));
    assert(d.subrange(4, d.len() as int) =~= flag_entries(o));
}

/// The option string for a descriptor shows owner, group, root mode, `allow_root`,
/// `allow_other`, a read-only setting of `true`, `default_permissions` and the custom text,
/// and no other setting: options that agree on these give the same string.
pub proof fn descriptor_options_read_eight_settings(
    a: MountOptionsView,
    b: MountOptionsView,
    fd: int,
    process_uid: u32,
    process_gid: u32,
)
    requires
        a.uid == b.uid,
        a.gid == b.gid,
        a.rootmode == b.rootmode,
        a.allow_root == b.allow_root,
        a.allow_other == b.allow_other,
        (a.read_only == Some(true)) == (b.read_only == Some(true)),
        a.default_permissions == b.default_permissions,
        a.custom_options == b.custom_options,
    ensures
        descriptor_options(a, fd, process_uid, process_gid) == descriptor_options(
            b,
            fd,
            process_uid,
            process_gid,
        ),
{
}

/// The option string for a mount helper shows what the one for a descriptor shows, and the
/// filesystem name: options that agree on these give the same string.
pub proof fn helper_options_read_nine_settings(
    a: MountOptionsView,
    b: MountOptionsView,
    process_uid: u32,
    process_gid: u32,
)
    requires
        a.uid == b.uid,
        a.gid == b.gid,
        a.rootmode == b.rootmode,
        a.fs_name == b.fs_name,
        a.allow_root == b.allow_root,
        a.allow_other == b.allow_other,
        (a.read_only == Some(true)) == (b.read_only == Some(true)),
        a.default_permissions == b.default_permissions,
        a.custom_options == b.custom_options,
    ensures
        helper_options(a, process_uid, process_gid) == helper_options(b, process_uid, process_gid),
{
}

/// The named options show `allow_other`, `default_permissions` and the filesystem name,
/// and no other setting: options that agree on these give the same list.
pub proof fn nmount_entries_read_three_settings(a: MountOptionsView, b: MountOptionsView)
    requires
        a.allow_other == b.allow_other,
        a.default_permissions == b.default_permissions,
        a.fs_name == b.fs_name,
    ensures
        nmount_entries(a) == nmount_entries(b),
{
}

} // verus!
