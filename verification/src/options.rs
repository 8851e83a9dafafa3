//! The accumulator of mount options and its setters.

use crate::model::{text_of, MountOptionsView};
use vstd::prelude::*;

verus! {

/// Mount options of a user-space filesystem.
///
/// A value starts with nothing set, is changed by any number of setters in any order, and is
/// then rendered for one kind of mount interface. A setter replaces what an earlier call of
/// it stored and touches no other setting; no value is checked when it is set.
#[derive(Debug, Clone, PartialEq, Eq)]
pub struct MountOptions {
    /// Owner of the mount; unset, the user id of the process.
    pub uid: Option<u32>,
    /// Owning group of the mount; unset, the group id of the process.
    pub gid: Option<u32>,
    /// Name of the filesystem in the mount table; unset, `fuse`.
    pub fs_name: Option<String>,
    /// Mode of the root inode; unset, `40000`.
    pub rootmode: Option<u32>,
    /// Root may reach a mount that another user owns.
    pub allow_root: bool,
    /// Every user may reach the mount.
    pub allow_other: bool,
    /// `Some(true)` mounts read-only; `Some(false)` and `None` leave the mount writable.
    pub read_only: Option<bool>,
    /// The mount point may be a directory that is not empty.
    pub nonempty: bool,
    /// The kernel checks permissions by the file mode.
    pub default_permissions: bool,
    /// The umask is not applied when a file is created.
    pub dont_mask: bool,
    /// The kernel may open a file without sending a message.
    pub no_open_support: bool,
    /// The kernel may open a directory without sending a message.
    pub no_open_dir_support: bool,
    /// The filesystem itself drops set-id bits and capabilities when a file changes.
    pub handle_killpriv: bool,
    /// Buffered writes go through a write-back cache.
    pub write_back: bool,
    /// Directory listings are served in their enriched form only.
    pub force_readdir_plus: bool,
    /// Text that closes the rendered options, exactly as it was given.
    pub custom_options: Option<String>,
}

impl View for MountOptions {
    type V = MountOptionsView;

    open spec fn view(&self) -> MountOptionsView {
        MountOptionsView {
            uid: self.uid,
            gid: self.gid,
            fs_name: text_of(self.fs_name),
            rootmode: self.rootmode,
            allow_root: self.allow_root,
            allow_other: self.allow_other,
            read_only: self.read_only,
            nonempty: self.nonempty,
            default_permissions: self.default_permissions,
            dont_mask: self.dont_mask,
            no_open_support: self.no_open_support,
            no_open_dir_support: self.no_open_dir_support,
            handle_killpriv: self.handle_killpriv,
            write_back: self.write_back,
            force_readdir_plus: self.force_readdir_plus,
            custom_options: text_of(self.custom_options),
        }
    }
}

impl Default for MountOptions {
    /// The options in which nothing has been set.
    fn default() -> (options: Self)
        ensures
            options@ == MountOptionsView::unset(),
    {
        MountOptions {
            uid: None,
            gid: None,
            fs_name: None,
            rootmode: None,
            allow_root: false,
            allow_other: false,
            read_only: None,
            nonempty: false,
            default_permissions: false,
            dont_mask: false,
            no_open_support: false,
            no_open_dir_support: false,
            handle_killpriv: false,
            write_back: false,
            force_readdir_plus: false,
            custom_options: None,
        }
    }
}

impl MountOptions {
    /// Sets the user id that owns the mount. Unset, the user id of the process is rendered.
    pub fn uid(&mut self, uid: u32) -> (ret: &mut Self)
        ensures
            ret@ == old(self)@.with_uid(uid),
            *final(self) == *final(ret),
    {
        self.uid = Some(uid);
        self
    }

    /// Sets the group id that owns the mount. Unset, the group id of the process is rendered.
    pub fn gid(&mut self, gid: u32) -> (ret: &mut Self)
        ensures
            ret@ == old(self)@.with_gid(gid),
            *final(self) == *final(ret),
    {
        self.gid = Some(gid);
        self
    }

    /// Sets the name of the filesystem. Unset, `fuse` is rendered where a name is.
    pub fn fs_name(&mut self, name: String) -> (ret: &mut Self)
        ensures
            ret@ == old(self)@.with_fs_name(name@),
            *final(self) == *final(ret),
    {
        self.fs_name = Some(name);
        self
    }

    /// Sets the mode of the root inode. Unset, `40000` is rendered.
    pub fn rootmode(&mut self, rootmode: u32) -> (ret: &mut Self)
        ensures
            ret@ == old(self)@.with_rootmode(rootmode),
            *final(self) == *final(ret),
    {
        self.rootmode = Some(rootmode);
        self
    }

    /// Lets root reach a mount that another user owns, or not.
    pub fn allow_root(&mut self, allow_root: bool) -> (ret: &mut Self)
        ensures
            ret@ == old(self)@.with_allow_root(allow_root),
            *final(self) == *final(ret),
    {
        self.allow_root = allow_root;
        self
    }

    /// Lets every user reach the mount, or not.
    pub fn allow_other(&mut self, allow_other: bool) -> (ret: &mut Self)
        ensures
            ret@ == old(self)@.with_allow_other(allow_other),
            *final(self) == *final(ret),
    {
        self.allow_other = allow_other;
        self
    }

    /// Records whether the mount is read-only. Only `true` is rendered, as `ro`.
    pub fn read_only(&mut self, read_only: bool) -> (ret: &mut Self)
        ensures
            ret@ == old(self)@.with_read_only(read_only),
            *final(self) == *final(ret),
    {
        self.read_only = Some(read_only);
        self
    }

    /// Lets the mount point be a directory that is not empty, or not.
    pub fn nonempty(&mut self, nonempty: bool) -> (ret: &mut Self)
        ensures
            ret@ == old(self)@.with_nonempty(nonempty),
            *final(self) == *final(ret),
    {
        self.nonempty = nonempty;
        self
    }

    /// Leaves permission checks to the kernel, by the file mode, or not.
    pub fn default_permissions(&mut self, default_permissions: bool) -> (ret: &mut Self)
        ensures
            ret@ == old(self)@.with_default_permissions(default_permissions),
            *final(self) == *final(ret),
    {
        self.default_permissions = default_permissions;
        self
    }

    /// Keeps the umask from being applied when a file is created, or not.
    pub fn dont_mask(&mut self, dont_mask: bool) -> (ret: &mut Self)
        ensures
            ret@ == old(self)@.with_dont_mask(dont_mask),
            *final(self) == *final(ret),
    {
        self.dont_mask = dont_mask;
        self
    }

    /// Lets the kernel open a file without sending a message, or not.
    pub fn no_open_support(&mut self, no_open_support: bool) -> (ret: &mut Self)
        ensures
            ret@ == old(self)@.with_no_open_support(no_open_support),
            *final(self) == *final(ret),
    {
        self.no_open_support = no_open_support;
        self
    }

    /// Lets the kernel open a directory without sending a message, or not.
    pub fn no_open_dir_support(&mut self, no_open_dir_support: bool) -> (ret: &mut Self)
        ensures
            ret@ == old(self)@.with_no_open_dir_support(no_open_dir_support),
            *final(self) == *final(ret),
    {
        self.no_open_dir_support = no_open_dir_support;
        self
    }

    /// Makes the filesystem itself drop set-id bits and capabilities when a file is written,
    /// truncated or given a new owner, or not.
    pub fn handle_killpriv(&mut self, handle_killpriv: bool) -> (ret: &mut Self)
        ensures
            ret@ == old(self)@.with_handle_killpriv(handle_killpriv),
            *final(self) == *final(ret),
    {
        self.handle_killpriv = handle_killpriv;
        self
    }

    /// Sends buffered writes through a write-back cache, or not.
    pub fn write_back(&mut self, write_back: bool) -> (ret: &mut Self)
        ensures
            ret@ == old(self)@.with_write_back(write_back),
            *final(self) == *final(ret),
    {
        self.write_back = write_back;
        self
    }

    /// Serves directory listings in their enriched form only, or not.
    pub fn force_readdir_plus(&mut self, force_readdir_plus: bool) -> (ret: &mut Self)
        ensures
            ret@ == old(self)@.with_force_readdir_plus(force_readdir_plus),
            *final(self) == *final(ret),
    {
        self.force_readdir_plus = force_readdir_plus;
        self
    }

    /// Sets the text that closes the rendered options. It is rendered as it is given: nothing
    /// reads or checks it.
    pub fn custom_options(&mut self, custom_options: String) -> (ret: &mut Self)
        ensures
            ret@ == old(self)@.with_custom_options(custom_options@),
            *final(self) == *final(ret),
    {
        self.custom_options = Some(custom_options);
        self
    }
}

} // verus!
