//! The rendering of mount options for a mount call that takes its options by name, as a
//! list of names with or without a value.

use crate::model::{text_of, MountOptionsView};
use crate::options::MountOptions;
use vstd::prelude::*;
use vstd::string::StringExecFns;

verus! {

/// One option of a mount call that takes its options by name: a name alone, or a name and
/// the text that belongs to it.
#[derive(Debug, Clone, PartialEq, Eq)]
pub struct NmountOption {
    pub name: String,
    pub value: Option<String>,
}

/// What an `NmountOption` holds, with each text as a sequence of characters.
pub struct NmountOptionView {
    pub name: Seq<char>,
    pub value: Option<Seq<char>>,
}

impl View for NmountOption {
    type V = NmountOptionView;

    open spec fn view(&self) -> NmountOptionView {
        NmountOptionView { name: self.name@, value: text_of(self.value) }
    }
}

/// The option that gives `name` the text `value`.
pub open spec fn valued(name: Seq<char>, value: Seq<char>) -> NmountOptionView {
    NmountOptionView { name, value: Some(value) }
}

/// The option that is `name` alone.
pub open spec fn bare(name: Seq<char>) -> NmountOptionView {
    NmountOptionView { name, value: None }
}

/// What a list of options holds, in order.
pub open spec fn option_views(entries: Seq<NmountOption>) -> Seq<NmountOptionView> {
    entries.map_values(|entry: NmountOption| entry@)
}

/// The named options of a mount: the filesystem type and the device, which are always
/// there, then `allow_other` and `default_permissions` where they are switched on, then
/// the filesystem name under `subtype=` where one was set. No other setting has a named
/// option.
pub open spec fn nmount_entries(o: MountOptionsView) -> Seq<NmountOptionView> {
    seq![valued("fstype"@, "fusefs"@), valued("from"@, "/dev/fuse"@)] + (if o.allow_other {
        seq![bare("allow_other"@)]
    } else {
        Seq::empty()
    }) + (if o.default_permissions {
        seq![bare("default_permissions"@)]
    } else {
        Seq::empty()
    }) + (match o.fs_name {
        Some(name) => seq![valued("subtype="@, name)],
        None => Seq::empty(),
    })
}

/// Appends one option to a list of options.
fn push_option(entries: &mut Vec<NmountOption>, name: &str, value: Option<String>)
    ensures
        option_views(final(entries)@) == option_views(old(entries)@).push(
            NmountOptionView { name: name@, value: text_of(value) },
        ),
{
    let entry = NmountOption { name: String::from_str(name), value };
    entries.push(entry);
    assert(option_views(entries@) =~= option_views(old(entries)@).push(
        NmountOptionView { name: name@, value: text_of(value) },
    ));
}

impl MountOptions {
    /// Renders the options for a mount call that takes its options by name.
    ///
    /// The list holds `fstype` with `fusefs` and `from` with `/dev/fuse`, then
    /// `allow_other` and `default_permissions` without a value where they are switched on,
    /// then `subtype=` with the filesystem name where one was set. Owner, group, root mode,
    /// `allow_root`, the read-only setting and the custom text have no entry here.
    pub fn build_nmount(&self) -> (entries: Vec<NmountOption>)
        ensures
            option_views(entries@) == nmount_entries(self@),
    {
        let mut entries: Vec<NmountOption> = Vec::new();
        push_option(&mut entries, "fstype", Some(String::from_str("fusefs")));
        push_option(&mut entries, "from", Some(String::from_str("/dev/fuse")));
        if self.allow_other {
            push_option(&mut entries, "allow_other", None);
        }
        if self.default_permissions {
            push_option(&mut entries, "default_permissions", None);
        }
        if let Some(fs_name) = &self.fs_name {
            push_option(&mut entries, "subtype=", Some(fs_name.clone()));
        }
        assert(option_views(entries@) =~= nmount_entries(self@));
        entries
    }
}

} // verus!
