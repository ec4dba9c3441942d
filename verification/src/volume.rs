//! The volume contract: a partition or another container of a filesystem.

use crate::cancellable::Cancellable;
use crate::file::local::LocalFile;
use crate::mount::{Mount, ServicePlan};
use vstd::prelude::*;

verus! {

/// The answers of a volume that have a default.
#[derive(Debug, Clone, Copy, PartialEq, Eq, Structural)]
pub enum VolumeDefault {
    /// The symbolic icon.
    SymbolicIcon,
    /// The activation root.
    ActivationRoot,
    /// The sort key.
    SortKey,
}

/// A volume: something that can be mounted.
pub trait Volume {
    /// Whether the volume gives an answer of its own in place of a default.
    /// A volume that does not say keeps every default.
    open spec fn replaces(&self, part: VolumeDefault) -> bool {
        false
    }

    /// The name of the volume.
    fn get_name(&self) -> String;

    /// The name of the volume's icon.
    fn get_icon(&self) -> String;

    /// The name of the volume's symbolic icon: none, unless the volume says
    /// otherwise.
    fn get_symbolic_icon(&self) -> (r: Option<String>)
        ensures
            !self.replaces(VolumeDefault::SymbolicIcon) ==> r is None,
    {
        None
    }

    /// The UUID of the volume.
    fn get_uuid(&self) -> Option<String>;

    /// The identifier of the drive that holds the volume, by which the
    /// device service finds it.
    fn get_drive(&self) -> Option<String>;

    /// The mount of the volume, if it is mounted.
    fn get_mount(&self) -> Option<Box<dyn Mount>>;

    /// Whether the volume can be mounted.
    fn can_mount(&self) -> bool;

    /// Whether the volume can be ejected.
    fn can_eject(&self) -> bool;

    /// Whether the volume is to be mounted without being asked.
    fn should_automount(&self) -> bool;

    /// What is to be done to mount the volume.
    fn mount(&self, cancellable: Option<&Cancellable>) -> ServicePlan;

    /// What is to be done to eject the volume.
    fn eject(&self, cancellable: Option<&Cancellable>) -> ServicePlan;

    /// The identifier of the given kind: `unix-device`, `label`, `uuid`.
    fn get_identifier(&self, kind: &str) -> Option<String>;

    /// The kinds of identifier that the volume has.
    fn enumerate_identifiers(&self) -> Vec<String>;

    /// The root under which the volume is activated: none, unless the
    /// volume says otherwise.
    fn get_activation_root(&self) -> (r: Option<LocalFile>)
        ensures
            !self.replaces(VolumeDefault::ActivationRoot) ==> r is None,
    {
        None
    }

    /// A key to sort volumes by: none, unless the volume says otherwise.
    fn get_sort_key(&self) -> (r: Option<String>)
        ensures
            !self.replaces(VolumeDefault::SortKey) ==> r is None,
    {
        None
    }
}

} // verus!
