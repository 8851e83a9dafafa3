//! The mathematical model of a set of mount options.

use vstd::prelude::*;

verus! {

/// What a `MountOptions` value holds, field by field, with each text as a sequence of
/// characters.
///
/// `None` means that the setting was never made, and that a rendering falls back on its
/// default. No setting implies another.
pub struct MountOptionsView {
    pub uid: Option<u32>,
    pub gid: Option<u32>,
    pub fs_name: Option<Seq<char>>,
    pub rootmode: Option<u32>,
    pub allow_root: bool,
    pub allow_other: bool,
    pub read_only: Option<bool>,
    pub nonempty: bool,
    pub default_permissions: bool,
    pub dont_mask: bool,
    pub no_open_support: bool,
    pub no_open_dir_support: bool,
    pub handle_killpriv: bool,
    pub write_back: bool,
    pub force_readdir_plus: bool,
    pub custom_options: Option<Seq<char>>,
}

impl MountOptionsView {
    /// The options in which nothing has been set.
    pub open spec fn unset() -> MountOptionsView {
        MountOptionsView {
            uid: None,
            gid: None,
            fs_name: None,
            rootmode: None,
            allow_root: false,
            allow_other: false,
            read_only: None,
            nonempty: false,
            default_permissions: false,
            dont_mask: false,
            no_open_support: false,
            no_open_dir_support: false,
            handle_killpriv: false,
            write_back: false,
            force_readdir_plus: false,
            custom_options: None,
        }
    }

    /// These options with the owner set to `uid`.
    pub open spec fn with_uid(self, uid: u32) -> MountOptionsView {
        MountOptionsView { uid: Some(uid), ..self }
    }

    /// These options with the owning group set to `gid`.
    pub open spec fn with_gid(self, gid: u32) -> MountOptionsView {
        MountOptionsView { gid: Some(gid), ..self }
    }

    /// These options with the filesystem name set to `name`.
    pub open spec fn with_fs_name(self, name: Seq<char>) -> MountOptionsView {
        MountOptionsView { fs_name: Some(name), ..self }
    }

    /// These options with the mode of the root inode set to `rootmode`.
    pub open spec fn with_rootmode(self, rootmode: u32) -> MountOptionsView {
        MountOptionsView { rootmode: Some(rootmode), ..self }
    }

    /// These options with `allow_root` switched as given.
    pub open spec fn with_allow_root(self, allow_root: bool) -> MountOptionsView {
        MountOptionsView { allow_root, ..self }
    }

    /// These options with `allow_other` switched as given.
    pub open spec fn with_allow_other(self, allow_other: bool) -> MountOptionsView {
        MountOptionsView { allow_other, ..self }
    }

    /// These options with the read-only setting made, as given.
    pub open spec fn with_read_only(self, read_only: bool) -> MountOptionsView {
        MountOptionsView { read_only: Some(read_only), ..self }
    }

    /// These options with `nonempty` switched as given.
    pub open spec fn with_nonempty(self, nonempty: bool) -> MountOptionsView {
        MountOptionsView { nonempty, ..self }
    }

    /// These options with `default_permissions` switched as given.
    pub open spec fn with_default_permissions(self, default_permissions: bool) -> MountOptionsView {
        MountOptionsView { default_permissions, ..self }
    }

    /// These options with `dont_mask` switched as given.
    pub open spec fn with_dont_mask(self, dont_mask: bool) -> MountOptionsView {
        MountOptionsView { dont_mask, ..self }
    }

    /// These options with `no_open_support` switched as given.
    pub open spec fn with_no_open_support(self, no_open_support: bool) -> MountOptionsView {
        MountOptionsView { no_open_support, ..self }
    }

    /// These options with `no_open_dir_support` switched as given.
    pub open spec fn with_no_open_dir_support(self, no_open_dir_support: bool) -> MountOptionsView {
        MountOptionsView { no_open_dir_support, ..self }
    }

    /// These options with `handle_killpriv` switched as given.
    pub open spec fn with_handle_killpriv(self, handle_killpriv: bool) -> MountOptionsView {
        MountOptionsView { handle_killpriv, ..self }
    }

    /// These options with `write_back` switched as given.
    pub open spec fn with_write_back(self, write_back: bool) -> MountOptionsView {
        MountOptionsView { write_back, ..self }
    }

    /// These options with `force_readdir_plus` switched as given.
    pub open spec fn with_force_readdir_plus(self, force_readdir_plus: bool) -> MountOptionsView {
        MountOptionsView { force_readdir_plus, ..self }
    }

    /// These options with the custom text set to `custom_options`.
    pub open spec fn with_custom_options(self, custom_options: Seq<char>) -> MountOptionsView {
        MountOptionsView { custom_options: Some(custom_options), ..self }
    }

    /// These options with the read-only setting never made.
    pub open spec fn without_read_only(self) -> MountOptionsView {
        MountOptionsView { read_only: None, ..self }
    }

    /// These options with no custom text.
    pub open spec fn without_custom_options(self) -> MountOptionsView {
        MountOptionsView { custom_options: None, ..self }
    }
}

/// The characters of a text that may be absent.
pub open spec fn text_of(text: Option<String>) -> Option<Seq<char>> {
    match text {
        Some(s) => Some(s@),
        None => None,
    }
}

} // verus!
