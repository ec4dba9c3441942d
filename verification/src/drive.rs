//! The drive contract: a physical or logical device.

use crate::cancellable::Cancellable;
use crate::mount::ServicePlan;
use crate::volume::Volume;
use vstd::prelude::*;

verus! {

/// The answers of a drive that have a default.
#[derive(Debug, Clone, Copy, PartialEq, Eq, Structural)]
pub enum DriveDefault {
    /// The symbolic icon.
    SymbolicIcon,
    /// The sort key.
    SortKey,
}

/// A drive: a device that may hold media and volumes.
pub trait Drive {
    /// Whether the drive gives an answer of its own in place of a default.
    /// A drive that does not say keeps every default.
    open spec fn replaces(&self, part: DriveDefault) -> bool {
        false
    }

    /// The name of the drive.
    fn get_name(&self) -> String;

    /// The name of the drive's icon.
    fn get_icon(&self) -> String;

    /// The name of the drive's symbolic icon: none, unless the drive says
    /// otherwise.
    fn get_symbolic_icon(&self) -> (r: Option<String>)
        ensures
            !self.replaces(DriveDefault::SymbolicIcon) ==> r is None,
    {
        None
    }

    /// Whether the drive has volumes.
    fn has_volumes(&self) -> bool;

    /// The volumes on the drive.
    fn get_volumes(&self) -> Vec<Box<dyn Volume>>;

    /// Whether the drive itself can be removed.
    fn is_removable(&self) -> bool;

    /// Whether the drive takes media that can be removed.
    fn is_media_removable(&self) -> bool;

    /// Whether media is in the drive.
    fn has_media(&self) -> bool;

    /// Whether the drive notices by itself when media changes.
    fn is_media_check_automatic(&self) -> bool;

    /// Whether the drive can be polled for media.
    fn can_poll_for_media(&self) -> bool;

    /// Whether the drive can eject its media.
    fn can_eject(&self) -> bool;

    /// What is to be done to eject the drive.
    fn eject(&self, cancellable: Option<&Cancellable>) -> ServicePlan;

    /// What is to be done to poll the drive for media.
    fn poll_for_media(&self, cancellable: Option<&Cancellable>) -> ServicePlan;

    /// The identifier of the given kind, such as `unix-device`.
    fn get_identifier(&self, kind: &str) -> Option<String>;

    /// The kinds of identifier that the drive has.
    fn enumerate_identifiers(&self) -> Vec<String>;

    /// A key to sort drives by: none, unless the drive says otherwise.
    fn get_sort_key(&self) -> (r: Option<String>)
        ensures
            !self.replaces(DriveDefault::SortKey) ==> r is None,
    {
        None
    }
}

} // verus!
