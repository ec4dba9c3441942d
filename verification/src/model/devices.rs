//! The devices model: the mounts, drives and volumes that were seen last.

use crate::backend::mount::{MountBackend, UnixMount};
use crate::backend::udisks2::{UDisks2Drive, UDisks2Volume};
use crate::cancellable::{checkpoint, Cancellable};
use crate::error::{IOErrorEnum, NpioResult};
use vstd::prelude::*;

verus! {

/// What was seen last of mounts, drives and volumes. Each list is kept
/// until a load replaces it; an empty list counts as not loaded.
pub struct DevicesModel {
    mounts: Vec<UnixMount>,
    drives: Vec<UDisks2Drive>,
    volumes: Vec<UDisks2Volume>,
}

/// The list that is kept after a load was tried: what was kept before if
/// that is not empty; else what the load gave, if it gave anything; else
/// the empty list.
pub open spec fn kept_after<T>(cached: Seq<T>, loaded: Option<Vec<T>>) -> Seq<T> {
    if cached.len() > 0 {
        cached
    } else {
        match loaded {
            Some(list) => list@,
            None => cached,
        }
    }
}

impl DevicesModel {
    /// The mounts that are kept.
    pub closed spec fn spec_mounts(&self) -> Seq<UnixMount> {
        self.mounts@
    }

    /// The drives that are kept.
    pub closed spec fn spec_drives(&self) -> Seq<UDisks2Drive> {
        self.drives@
    }

    /// The volumes that are kept.
    pub closed spec fn spec_volumes(&self) -> Seq<UDisks2Volume> {
        self.volumes@
    }

    /// A model that has seen nothing yet.
    pub fn new() -> (r: Self)
        ensures
            r.spec_mounts().len() == 0,
            r.spec_drives().len() == 0,
            r.spec_volumes().len() == 0,
    {
        DevicesModel { mounts: Vec::new(), drives: Vec::new(), volumes: Vec::new() }
    }

    /// Takes in what was loaded. Under a cancelled token the call fails
    /// with `Cancelled` and keeps everything. Else the mounts are replaced;
    /// the drives and the volumes are replaced where the device service
    /// gave them, and kept where it did not.
    pub fn load(
        &mut self,
        mounts: Vec<UnixMount>,
        drives: Option<Vec<UDisks2Drive>>,
        volumes: Option<Vec<UDisks2Volume>>,
        cancellable: Option<&Cancellable>,
    ) -> (r: NpioResult<()>)
        ensures
            r is Err <==> (cancellable matches Some(c) && c@),
            r matches Err(e) ==> e.spec_kind() == IOErrorEnum::Cancelled && final(self).spec_mounts() == old(self).spec_mounts() && final(self).spec_drives() == old(self).spec_drives() && final(self).spec_volumes() == old(self).spec_volumes(),
            r is Ok ==> final(self).spec_mounts() == mounts@ && final(self).spec_drives() == (
            match drives {
                Some(d) => d@,
                None => old(self).spec_drives(),
            }) && final(self).spec_volumes() == (match volumes {
                Some(v) => v@,
                None => old(self).spec_volumes(),
            }),
    {
        match checkpoint(cancellable) {
            Err(e) => Err(e),
            Ok(()) => {
                self.mounts = mounts;
                match drives {
                    Some(d) => {
                        self.drives = d;
                    },
                    None => {},
                }
                match volumes {
                    Some(v) => {
                        self.volumes = v;
                    },
                    None => {},
                }
                Ok(())
            },
        }
    }

    /// Loads again; the same as `load`.
    pub fn refresh(
        &mut self,
        mounts: Vec<UnixMount>,
        drives: Option<Vec<UDisks2Drive>>,
        volumes: Option<Vec<UDisks2Volume>>,
        cancellable: Option<&Cancellable>,
    ) -> (r: NpioResult<()>)
        ensures
            r is Err <==> (cancellable matches Some(c) && c@),
            r matches Err(e) ==> e.spec_kind() == IOErrorEnum::Cancelled && final(self).spec_mounts() == old(self).spec_mounts() && final(self).spec_drives() == old(self).spec_drives() && final(self).spec_volumes() == old(self).spec_volumes(),
            r is Ok ==> final(self).spec_mounts() == mounts@ && final(self).spec_drives() == (
            match drives {
                Some(d) => d@,
                None => old(self).spec_drives(),
            }) && final(self).spec_volumes() == (match volumes {
                Some(v) => v@,
                None => old(self).spec_volumes(),
            }),
    {
        self.load(mounts, drives, volumes, cancellable)
    }

    /// Whether the mounts have to be loaded before they are read: when none
    /// is kept.
    pub fn needs_mounts(&self) -> (r: bool)
        ensures
            r == (self.spec_mounts().len() == 0),
    {
        self.mounts.len() == 0
    }

    /// Whether the drives have to be loaded before they are read.
    pub fn needs_drives(&self) -> (r: bool)
        ensures
            r == (self.spec_drives().len() == 0),
    {
        self.drives.len() == 0
    }

    /// Whether the volumes have to be loaded before they are read.
    pub fn needs_volumes(&self) -> (r: bool)
        ensures
            r == (self.spec_volumes().len() == 0),
    {
        self.volumes.len() == 0
    }

    /// The mounts: those that are kept, if any; else those that a load
    /// gave, which are kept from now on; else none.
    pub fn get_mounts(&mut self, loaded: Option<Vec<UnixMount>>) -> (r: &Vec<UnixMount>)
        ensures
            final(self).spec_mounts() == kept_after(old(self).spec_mounts(), loaded),
            r@ == final(self).spec_mounts(),
            final(self).spec_drives() == old(self).spec_drives(),
            final(self).spec_volumes() == old(self).spec_volumes(),
    {
        if self.mounts.len() == 0 {
            match loaded {
                Some(list) => {
                    self.mounts = list;
                },
                None => {},
            }
        }
        &self.mounts
    }

    /// The drives: those that are kept, if any; else those that a load
    /// gave, which are kept from now on; else none.
    pub fn get_drives(&mut self, loaded: Option<Vec<UDisks2Drive>>) -> (r: &Vec<UDisks2Drive>)
        ensures
            final(self).spec_drives() == kept_after(old(self).spec_drives(), loaded),
            r@ == final(self).spec_drives(),
            final(self).spec_mounts() == old(self).spec_mounts(),
            final(self).spec_volumes() == old(self).spec_volumes(),
    {
        if self.drives.len() == 0 {
            match loaded {
                Some(list) => {
                    self.drives = list;
                },
                None => {},
            }
        }
        &self.drives
    }

    /// The volumes: those that are kept, if any; else those that a load
    /// gave, which are kept from now on; else none.
    pub fn get_volumes(&mut self, loaded: Option<Vec<UDisks2Volume>>) -> (r: &Vec<UDisks2Volume>)
        ensures
            final(self).spec_volumes() == kept_after(old(self).spec_volumes(), loaded),
            r@ == final(self).spec_volumes(),
            final(self).spec_mounts() == old(self).spec_mounts(),
            final(self).spec_drives() == old(self).spec_drives(),
    {
        if self.volumes.len() == 0 {
            match loaded {
                Some(list) => {
                    self.volumes = list;
                },
                None => {},
            }
        }
        &self.volumes
    }

    /// The most specific of the given mounts that holds `path`. Fails with
    /// `Cancelled` exactly under a cancelled token.
    pub fn get_mount_for_path<'a>(
        &self,
        mounts: &'a Vec<UnixMount>,
        path: &str,
        cancellable: Option<&Cancellable>,
    ) -> (r: NpioResult<Option<&'a UnixMount>>)
        ensures
            r is Err <==> (cancellable matches Some(c) && c@),
            r matches Err(e) ==> e.spec_kind() == IOErrorEnum::Cancelled,
            r matches Ok(found) ==> match found {
                Some(m) => exists|i: int|
                    crate::backend::mount::most_specific(mounts@, path@, i) && *m == mounts@[i],
                None => forall|i: int| !crate::backend::mount::holds(mounts@, path@, i),
            },
    {
        match checkpoint(cancellable) {
            Err(e) => Err(e),
            Ok(()) => Ok(MountBackend::new().get_mount_for_path(mounts, path)),
        }
    }
}

impl Default for DevicesModel {
    fn default() -> (r: Self) {
        DevicesModel::new()
    }
}

} // verus!
