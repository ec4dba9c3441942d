//! The mount contract: a filesystem that is mounted at a path.

use crate::cancellable::Cancellable;
use crate::error::{IOErrorEnum, NpioError};
use crate::file::local::LocalFile;
use vstd::prelude::*;

verus! {

/// A call to the device service: a method of an interface of an object,
/// with its options.
#[derive(Debug, Clone, PartialEq, Eq)]
pub struct ServiceCall {
    pub object_path: String,
    pub interface: String,
    pub method: String,
    pub options: Vec<(String, bool)>,
}

/// What one option of a call holds.
pub open spec fn option_views(options: Seq<(String, bool)>) -> Seq<(Seq<char>, bool)> {
    Seq::new(options.len(), |i: int| (options[i].0@, options[i].1))
}

impl ServiceCall {
    /// The call names this method of this interface of this object, with
    /// these options.
    pub open spec fn is(
        &self,
        object_path: Seq<char>,
        interface: Seq<char>,
        method: Seq<char>,
        options: Seq<(Seq<char>, bool)>,
    ) -> bool {
        &&& self.object_path@ == object_path
        &&& self.interface@ == interface
        &&& self.method@ == method
        &&& option_views(self.options@) == options
    }

    /// The call of `method` on `interface` of the object at `object_path`,
    /// with no option or with one.
    pub fn new(object_path: &str, interface: &str, method: &str, option: Option<(&str, bool)>) -> (r:
        Self)
        ensures
            r.is(
                object_path@,
                interface@,
                method@,
                match option {
                    Some((name, value)) => seq![(name@, value)],
                    None => Seq::empty(),
                },
            ),
    {
        let mut options: Vec<(String, bool)> = Vec::new();
        match option {
            Some((name, value)) => {
                options.push((name.to_owned(), value));
                assert(option_views(options@) =~= seq![(name@, value)]);
            },
            None => {
                assert(option_views(options@) =~= Seq::empty());
            },
        }
        ServiceCall {
            object_path: object_path.to_owned(),
            interface: interface.to_owned(),
            method: method.to_owned(),
            options,
        }
    }
}

/// What is to be done for a request to the device service: the calls to make
/// in order, and the failure to report once they are made, if any. A call
/// that fails ends the plan with that call's failure.
#[derive(Debug)]
pub struct ServicePlan {
    pub calls: Vec<ServiceCall>,
    pub failure: Option<NpioError>,
}

impl ServicePlan {
    /// The plan makes no call and fails with an error of this kind.
    pub open spec fn fails_at_once(&self, kind: IOErrorEnum) -> bool {
        &&& self.calls@.len() == 0
        &&& self.failure matches Some(e)
        &&& e.spec_kind() == kind
    }

    /// The plan makes no call and succeeds.
    pub open spec fn is_empty(&self) -> bool {
        self.calls@.len() == 0 && self.failure is None
    }

    /// The plan that makes no call and succeeds.
    pub fn nothing() -> (r: Self)
        ensures
            r.is_empty(),
    {
        ServicePlan { calls: Vec::new(), failure: None }
    }

    /// The plan that makes no call and fails.
    pub fn refuse(kind: IOErrorEnum, message: &str) -> (r: Self)
        ensures
            r.fails_at_once(kind),
            r.failure->Some_0.spec_message() == message@,
    {
        ServicePlan { calls: Vec::new(), failure: Some(NpioError::new(kind, message)) }
    }

    /// The plan that makes no call and fails with `error`.
    pub fn fail(error: NpioError) -> (r: Self)
        ensures
            r.fails_at_once(error.spec_kind()),
            r.failure == Some(error),
    {
        ServicePlan { calls: Vec::new(), failure: Some(error) }
    }

    /// The plan that makes one call and succeeds if the call does.
    pub fn one(call: ServiceCall) -> (r: Self)
        ensures
            r.calls@ == seq![call],
            r.failure is None,
    {
        let mut calls: Vec<ServiceCall> = Vec::new();
        calls.push(call);
        ServicePlan { calls, failure: None }
    }
}

/// The answers of a mount that have a default.
#[derive(Debug, Clone, Copy, PartialEq, Eq, Structural)]
pub enum MountDefault {
    /// The place to open first.
    DefaultLocation,
    /// The symbolic icon.
    SymbolicIcon,
    /// Mounting again.
    Remount,
    /// The sort key.
    SortKey,
}

/// A mount: a root directory, and what can be done with it.
pub trait Mount {
    /// The path of the root directory of the mount. A mount that does not
    /// say leaves it open.
    open spec fn spec_root(&self) -> Seq<char> {
        arbitrary()
    }

    /// Whether the mount gives an answer of its own in place of a default.
    /// A mount that does not say keeps every default.
    open spec fn replaces(&self, part: MountDefault) -> bool {
        false
    }

    /// The root directory of the mount.
    fn get_root(&self) -> (r: LocalFile)
        ensures
            r@ == self.spec_root(),
    ;

    /// The place to open first on the mount: its root, unless the mount
    /// says otherwise.
    fn get_default_location(&self) -> (r: Option<LocalFile>)
        ensures
            !self.replaces(MountDefault::DefaultLocation) ==> (r matches Some(location)
                && location@ == self.spec_root()),
    {
        Some(self.get_root())
    }

    /// The name of the mount.
    fn get_name(&self) -> String;

    /// The name of the mount's icon.
    fn get_icon(&self) -> String;

    /// The name of the mount's symbolic icon: none, unless the mount says
    /// otherwise.
    fn get_symbolic_icon(&self) -> (r: Option<String>)
        ensures
            !self.replaces(MountDefault::SymbolicIcon) ==> r is None,
    {
        None
    }

    /// The UUID of the mount.
    fn get_uuid(&self) -> Option<String>;

    /// The identifier of the volume that the mount is of, by which the
    /// device service finds it.
    fn get_volume(&self) -> Option<String>;

    /// The identifier of the drive that the mount is on, by which the device
    /// service finds it.
    fn get_drive(&self) -> Option<String>;

    /// Whether the mount can be unmounted.
    fn can_unmount(&self) -> bool;

    /// Whether the mount can be ejected.
    fn can_eject(&self) -> bool;

    /// What is to be done to unmount the mount.
    fn unmount(&self, cancellable: Option<&Cancellable>) -> ServicePlan;

    /// What is to be done to eject the mount.
    fn eject(&self, cancellable: Option<&Cancellable>) -> ServicePlan;

    /// What is to be done to mount the mount again. Unless the mount says
    /// otherwise, nothing is called and the plan fails with `NotSupported`,
    /// whatever the token holds.
    fn remount(&self, cancellable: Option<&Cancellable>) -> (r: ServicePlan)
        ensures
            !self.replaces(MountDefault::Remount) ==> r.fails_at_once(IOErrorEnum::NotSupported)
                && r.failure->Some_0.spec_message() == "Remount not supported"@,
    {
        ServicePlan::refuse(IOErrorEnum::NotSupported, "Remount not supported")
    }

    /// A key to sort mounts by: none, unless the mount says otherwise.
    fn get_sort_key(&self) -> (r: Option<String>)
        ensures
            !self.replaces(MountDefault::SortKey) ==> r is None,
    {
        None
    }
}

} // verus!
