//! The block-device service: what its objects and properties mean.
//!
//! The service is reached over a message bus. This module holds what is
//! decided on the answers: which objects are drives and volumes, what a
//! missing or mistyped property is taken for, how a drive or a volume is
//! named, and which calls a request turns into.

use crate::cancellable::{checkpoint, Cancellable};
use crate::drive::Drive;
use crate::error::{IOErrorEnum, NpioError, NpioResult};
use crate::file::local::LocalFile;
use crate::mount::{Mount, MountDefault, ServiceCall, ServicePlan};
use crate::path;
use crate::text::{
    append_str, clone_opt, contains, from_chars, has_sub, opt_view, pieces, split, str_eq,
    string_views, to_chars, utf8_lossy, lossy_text, lowercase_of, Sep,
};
use crate::volume::Volume;
use vstd::prelude::*;

verus! {

/// The name of the service on the bus.
pub const UDISKS2_SERVICE: &'static str = "org.freedesktop.UDisks2";

/// The object of the service that lists all others.
pub const UDISKS2_MANAGER_PATH: &'static str = "/org/freedesktop/UDisks2/Manager";

/// The interface of drives.
pub const DRIVE_INTERFACE: &'static str = "org.freedesktop.UDisks2.Drive";

/// The interface of block devices.
pub const BLOCK_INTERFACE: &'static str = "org.freedesktop.UDisks2.Block";

/// The interface of filesystems.
pub const FILESYSTEM_INTERFACE: &'static str = "org.freedesktop.UDisks2.Filesystem";

/// An item of an inner array of a property.
#[derive(Debug, Clone, Copy, PartialEq, Eq, Structural)]
pub enum Scalar {
    U8(u8),
    Other,
}

/// An item of an array of a property.
#[derive(Debug)]
pub enum Element {
    Array(Vec<Scalar>),
    Other,
}

/// The value of a property, as far as this crate reads it.
#[derive(Debug)]
pub enum PropertyValue {
    Str(String),
    Bool(bool),
    Array(Vec<Element>),
    Other,
}

/// The text of a property: empty where the property could not be had or is
/// no string.
pub open spec fn str_of(fetched: Option<PropertyValue>) -> Seq<char> {
    match fetched {
        Some(PropertyValue::Str(s)) => s@,
        _ => Seq::empty(),
    }
}

/// The truth value of a property: false where the property could not be had
/// or is no truth value.
pub open spec fn bool_of(fetched: Option<PropertyValue>) -> bool {
    match fetched {
        Some(PropertyValue::Bool(b)) => b,
        _ => false,
    }
}

/// The text of a property, if the property could be had and is a string.
pub open spec fn str_opt_of(fetched: Option<PropertyValue>) -> Option<Seq<char>> {
    match fetched {
        Some(PropertyValue::Str(s)) => Some(s@),
        _ => None,
    }
}

/// The bytes of an inner array: an item that is no byte counts as 0.
pub open spec fn bytes_of(items: Seq<Scalar>) -> Seq<u8> {
    Seq::new(
        items.len(),
        |i: int|
            match items[i] {
                Scalar::U8(b) => b,
                Scalar::Other => 0u8,
            },
    )
}

/// The byte strings among the items of an array, in order.
pub open spec fn arrays_of(items: Seq<Element>) -> Seq<Seq<u8>>
    decreases items.len(),
{
    if items.len() == 0 {
        Seq::empty()
    } else {
        let init = arrays_of(items.drop_last());
        match items.last() {
            Element::Array(inner) => init.push(bytes_of(inner@)),
            Element::Other => init,
        }
    }
}

/// The mount points that a property lists: none where the property could
/// not be had or is no array.
pub open spec fn mount_points_of(fetched: Option<PropertyValue>) -> Seq<Seq<u8>> {
    match fetched {
        Some(PropertyValue::Array(items)) => arrays_of(items@),
        _ => Seq::empty(),
    }
}

/// What a list of byte strings holds.
pub open spec fn byte_views(v: Seq<Vec<u8>>) -> Seq<Seq<u8>> {
    Seq::new(v.len(), |i: int| v[i]@)
}

/// The text of a property.
pub fn property_str(fetched: &Option<PropertyValue>) -> (r: String)
    ensures
        r@ == str_of(*fetched),
{
    match fetched {
        Some(PropertyValue::Str(s)) => s.clone(),
        _ => String::new(),
    }
}

/// The truth value of a property.
pub fn property_bool(fetched: &Option<PropertyValue>) -> (r: bool)
    ensures
        r == bool_of(*fetched),
{
    match fetched {
        Some(PropertyValue::Bool(b)) => *b,
        _ => false,
    }
}

/// The text of a property, if it has one.
pub fn property_str_opt(fetched: &Option<PropertyValue>) -> (r: Option<String>)
    ensures
        opt_view(r) == str_opt_of(*fetched),
{
    match fetched {
        Some(PropertyValue::Str(s)) => Some(s.clone()),
        _ => None,
    }
}

/// The bytes of an inner array.
fn scalar_bytes(items: &Vec<Scalar>) -> (r: Vec<u8>)
    ensures
        r@ == bytes_of(items@),
{
    let mut out: Vec<u8> = Vec::new();
    let mut i: usize = 0;
    while i < items.len()
        invariant
            i <= items.len(),
            out@ == bytes_of(items@).take(i as int),
        decreases items.len() - i,
    {
        let b: u8 = match items[i] {
            Scalar::U8(b) => b,
            Scalar::Other => 0,
        };
        out.push(b);
        assert(bytes_of(items@).take(i + 1) == bytes_of(items@).take(i as int).push(b));
        i = i + 1;
    }
    assert(bytes_of(items@).take(items.len() as int) == bytes_of(items@));
    out
}

/// The mount points that a property lists.
pub fn property_mount_points(fetched: &Option<PropertyValue>) -> (r: Vec<Vec<u8>>)
    ensures
        byte_views(r@) == mount_points_of(*fetched),
{
    let mut out: Vec<Vec<u8>> = Vec::new();
    match fetched {
        Some(PropertyValue::Array(items)) => {
            let mut i: usize = 0;
            assert(byte_views(out@) =~= arrays_of(items@.take(0)));
            while i < items.len()
                invariant
                    i <= items.len(),
                    byte_views(out@) == arrays_of(items@.take(i as int)),
                decreases items.len() - i,
            {
                proof {
                    assert(items@.take(i + 1).drop_last() == items@.take(i as int));
                    assert(items@.take(i + 1).last() == items@[i as int]);
                }
                match &items[i] {
                    Element::Array(inner) => {
                        let ghost before = byte_views(out@);
                        let bytes = scalar_bytes(inner);
                        out.push(bytes);
                        assert(byte_views(out@) == before.push(bytes@));
                    },
                    Element::Other => {},
                }
                i = i + 1;
            }
            assert(items@.take(items.len() as int) == items@);
        },
        _ => {
            assert(byte_views(out@) =~= Seq::<Seq<u8>>::empty());
        },
    }
    out
}

/// The last piece of an object path, which names the object where nothing
/// better does.
pub open spec fn last_segment(object_path: Seq<char>) -> Seq<char> {
    pieces(object_path, Sep::Slash, true).last()
}

/// The last piece of an object path.
pub fn path_last_segment(object_path: &str) -> (r: String)
    ensures
        r@ == last_segment(object_path@),
{
    let p = to_chars(object_path);
    let mut parts = split(&p, Sep::Slash, true);
    match parts.pop() {
        Some(last) => from_chars(&last),
        None => {
            proof {
                crate::text::lemma_pieces_nonempty(object_path@, Sep::Slash);
            }
            String::new()
        },
    }
}

/// The properties of a drive, as they were fetched: `None` for one that
/// could not be had.
#[derive(Debug)]
pub struct DriveProperties {
    pub vendor: Option<PropertyValue>,
    pub model: Option<PropertyValue>,
    pub removable: Option<PropertyValue>,
    pub media_removable: Option<PropertyValue>,
    pub media_available: Option<PropertyValue>,
    pub ejectable: Option<PropertyValue>,
    pub device: Option<PropertyValue>,
}

/// The name of a drive: vendor and model where both are known, the model
/// alone where only it is, else the last piece of the object path.
pub open spec fn drive_name(object_path: Seq<char>, vendor: Seq<char>, model: Seq<char>) -> Seq<
    char,
> {
    if vendor.len() > 0 && model.len() > 0 {
        vendor + seq![' '] + model
    } else if model.len() > 0 {
        model
    } else {
        last_segment(object_path)
    }
}

/// The icon of a drive, by its model in lower case: optical where the model
/// of a removable drive holds `cd`, `dvd` or `optical`, removable media for
/// other removable drives, a hard disk else.
pub open spec fn icon_by_model(is_removable: bool, lower_model: Seq<char>) -> Seq<char> {
    if is_removable {
        if contains(lower_model, "cd"@) || contains(lower_model, "dvd"@) || contains(
            lower_model,
            "optical"@,
        ) {
            "drive-optical"@
        } else {
            "drive-removable-media"@
        }
    } else {
        "drive-harddisk"@
    }
}

/// The icon of a drive: the icon by its model in lower case.
pub open spec fn drive_icon(is_removable: bool, model: Seq<char>) -> Seq<char> {
    icon_by_model(is_removable, lowercase_of(model))
}

/// The icon of a drive, by its model in lower case.
pub fn drive_icon_by_model(is_removable: bool, lower_model: &str) -> (r: String)
    ensures
        r@ == icon_by_model(is_removable, lower_model@),
{
    if is_removable {
        let lower = to_chars(lower_model);
        if has_sub(&lower, &to_chars("cd")) || has_sub(&lower, &to_chars("dvd")) || has_sub(
            &lower,
            &to_chars("optical"),
        ) {
            "drive-optical".to_owned()
        } else {
            "drive-removable-media".to_owned()
        }
    } else {
        "drive-harddisk".to_owned()
    }
}

/// A drive of the block-device service.
#[derive(Debug)]
pub struct UDisks2Drive {
    pub path: String,
    pub name: String,
    pub vendor: String,
    pub model: String,
    pub is_removable: bool,
    pub is_media_removable: bool,
    pub has_media: bool,
    pub can_eject: bool,
    pub device: Option<String>,
}

impl UDisks2Drive {
    /// The drive at `path` with the properties that were fetched for it.
    pub fn new(path: &str, properties: &DriveProperties) -> (r: Self)
        ensures
            r.path@ == path@,
            r.vendor@ == str_of(properties.vendor),
            r.model@ == str_of(properties.model),
            r.name@ == drive_name(path@, str_of(properties.vendor), str_of(properties.model)),
            r.is_removable == bool_of(properties.removable),
            r.is_media_removable == bool_of(properties.media_removable),
            r.has_media == bool_of(properties.media_available),
            r.can_eject == bool_of(properties.ejectable),
            opt_view(r.device) == str_opt_of(properties.device),
    {
        let vendor = property_str(&properties.vendor);
        let model = property_str(&properties.model);
        let is_removable = property_bool(&properties.removable);
        let is_media_removable = property_bool(&properties.media_removable);
        let has_media = property_bool(&properties.media_available);
        let can_eject = property_bool(&properties.ejectable);
        let device = property_str_opt(&properties.device);
        let v = to_chars(vendor.as_str());
        let m = to_chars(model.as_str());
        let name = if v.len() > 0 && m.len() > 0 {
            let mut out: Vec<char> = Vec::new();
            crate::text::append(&mut out, &v);
            out.push(' ');
            crate::text::append(&mut out, &m);
            assert(out@ =~= v@ + seq![' '] + m@);
            from_chars(&out)
        } else if m.len() > 0 {
            model.clone()
        } else {
            path_last_segment(path)
        };
        UDisks2Drive {
            path: path.to_owned(),
            name,
            vendor,
            model,
            is_removable,
            is_media_removable,
            has_media,
            can_eject,
            device,
        }
    }

    /// The name of the drive's icon.
    pub fn get_icon_name(&self) -> (r: String)
        ensures
            r@ == drive_icon(self.is_removable, self.model@),
    {
        let lower = self.model.as_str().to_lowercase();
        drive_icon_by_model(self.is_removable, lower.as_str())
    }
}

impl Drive for UDisks2Drive {
    fn get_name(&self) -> (r: String)
        ensures
            r@ == self.name@,
    {
        self.name.clone()
    }

    fn get_icon(&self) -> (r: String)
        ensures
            r@ == drive_icon(self.is_removable, self.model@),
    {
        self.get_icon_name()
    }

    fn has_volumes(&self) -> (r: bool)
        ensures
            r == self.has_media,
    {
        self.has_media
    }

    fn get_volumes(&self) -> (r: Vec<Box<dyn Volume>>)
        ensures
            r@.len() == 0,
    {
        Vec::new()
    }

    fn is_removable(&self) -> (r: bool)
        ensures
            r == self.is_removable,
    {
        self.is_removable
    }

    fn is_media_removable(&self) -> (r: bool)
        ensures
            r == self.is_media_removable,
    {
        self.is_media_removable
    }

    fn has_media(&self) -> (r: bool)
        ensures
            r == self.has_media,
    {
        self.has_media
    }

    fn is_media_check_automatic(&self) -> (r: bool)
        ensures
            r,
    {
        true
    }

    fn can_poll_for_media(&self) -> (r: bool)
        ensures
            !r,
    {
        false
    }

    fn can_eject(&self) -> (r: bool)
        ensures
            r == self.can_eject,
    {
        self.can_eject
    }

    /// Under a cancelled token the plan fails with `Cancelled`; for a drive
    /// that cannot eject, with `NotSupported`; else it is the one call
    /// `Eject`, without options.
    fn eject(&self, cancellable: Option<&Cancellable>) -> (r: ServicePlan)
        ensures
            (cancellable matches Some(c) && c@) ==> r.fails_at_once(IOErrorEnum::Cancelled),
            !(cancellable matches Some(c) && c@) && !self.can_eject ==> r.fails_at_once(
                IOErrorEnum::NotSupported,
            ),
            !(cancellable matches Some(c) && c@) && self.can_eject ==> r.failure is None
                && r.calls@.len() == 1 && r.calls@[0].is(
                self.path@,
                DRIVE_INTERFACE@,
                "Eject"@,
                Seq::empty(),
            ),
    {
        match checkpoint(cancellable) {
            Err(e) => ServicePlan::fail(e),
            Ok(()) => {
                if !self.can_eject {
                    ServicePlan::refuse(IOErrorEnum::NotSupported, "Drive is not ejectable")
                } else {
                    ServicePlan::one(
                        ServiceCall::new(self.path.as_str(), DRIVE_INTERFACE, "Eject", None),
                    )
                }
            },
        }
    }

    /// The service notices media by itself: there is nothing to do.
    fn poll_for_media(&self, cancellable: Option<&Cancellable>) -> (r: ServicePlan)
        ensures
            r.is_empty(),
    {
        ServicePlan::nothing()
    }

    fn get_identifier(&self, kind: &str) -> (r: Option<String>)
        ensures
            opt_view(r) == if kind@ == "unix-device"@ {
                opt_view(self.device)
            } else {
                None
            },
    {
        if str_eq(kind, "unix-device") {
            clone_opt(&self.device)
        } else {
            None
        }
    }

    fn enumerate_identifiers(&self) -> (r: Vec<String>)
        ensures
            string_views(r@) == if self.device is Some {
                seq!["unix-device"@]
            } else {
                Seq::empty()
            },
    {
        let mut result: Vec<String> = Vec::new();
        if self.device.is_some() {
            result.push("unix-device".to_owned());
            assert(string_views(result@) =~= seq!["unix-device"@]);
        } else {
            assert(string_views(result@) =~= Seq::<Seq<char>>::empty());
        }
        result
    }
}

/// The properties of a volume, as they were fetched: `None` for one that
/// could not be had.
#[derive(Debug)]
pub struct VolumeProperties {
    pub label: Option<PropertyValue>,
    pub uuid: Option<PropertyValue>,
    pub device: Option<PropertyValue>,
    pub mount_points: Option<PropertyValue>,
}

/// The name of a volume: its label, else its UUID, else the last piece of
/// the object path.
pub open spec fn volume_name(
    object_path: Seq<char>,
    label: Option<Seq<char>>,
    uuid: Option<Seq<char>>,
) -> Seq<char> {
    match label {
        Some(l) => l,
        None => match uuid {
            Some(u) => u,
            None => last_segment(object_path),
        },
    }
}

/// Where a volume is mounted: at the first of its mount points, read as
/// text; nowhere if it has none.
pub open spec fn volume_mount_point(fetched: Option<PropertyValue>) -> Option<Seq<char>> {
    let points = mount_points_of(fetched);
    if points.len() > 0 {
        Some(lossy_text(points[0]))
    } else {
        None
    }
}

/// The icon of a volume: optical where the device's name holds `sr`, flash
/// where it holds `mmc`, a hard disk else.
pub open spec fn volume_icon(device: Option<Seq<char>>) -> Seq<char> {
    match device {
        Some(d) => if contains(d, "sr"@) {
            "drive-optical"@
        } else if contains(d, "mmc"@) {
            "media-flash"@
        } else {
            "drive-harddisk"@
        },
        None => "drive-harddisk"@,
    }
}

/// A mount of a volume of the block-device service.
#[derive(Debug)]
pub struct UDisks2Mount {
    pub path: String,
    pub mount_point: Option<String>,
    pub volume_path: String,
}

/// A volume of the block-device service.
#[derive(Debug)]
pub struct UDisks2Volume {
    pub path: String,
    pub name: String,
    pub uuid: Option<String>,
    pub label: Option<String>,
    pub mount_point: Option<String>,
    pub device: Option<String>,
    pub can_mount: bool,
    pub can_eject: bool,
}

/// The call that unmounts the filesystem of the object at `object_path`.
pub open spec fn is_unmount_call(call: ServiceCall, object_path: Seq<char>) -> bool {
    call.is(object_path, FILESYSTEM_INTERFACE@, "Unmount"@, seq![("force"@, false)])
}

/// The call that mounts the filesystem of the object at `object_path`.
pub open spec fn is_mount_call(call: ServiceCall, object_path: Seq<char>) -> bool {
    call.is(
        object_path,
        FILESYSTEM_INTERFACE@,
        "Mount"@,
        seq![("auth.no_user_interaction"@, true)],
    )
}

/// The call that unmounts the filesystem of the object at `object_path`.
fn unmount_call(object_path: &str) -> (r: ServiceCall)
    ensures
        is_unmount_call(r, object_path@),
{
    ServiceCall::new(object_path, FILESYSTEM_INTERFACE, "Unmount", Some(("force", false)))
}

impl UDisks2Volume {
    /// The volume at `path` with the properties that were fetched for it.
    /// A volume can be mounted exactly when it is mounted nowhere.
    pub fn new(path: &str, properties: &VolumeProperties) -> (r: Self)
        ensures
            r.path@ == path@,
            opt_view(r.label) == str_opt_of(properties.label),
            opt_view(r.uuid) == str_opt_of(properties.uuid),
            opt_view(r.device) == str_opt_of(properties.device),
            opt_view(r.mount_point) == volume_mount_point(properties.mount_points),
            r.name@ == volume_name(
                path@,
                str_opt_of(properties.label),
                str_opt_of(properties.uuid),
            ),
            r.can_mount == volume_mount_point(properties.mount_points).is_none(),
            !r.can_eject,
    {
        let label = property_str_opt(&properties.label);
        let uuid = property_str_opt(&properties.uuid);
        let device = property_str_opt(&properties.device);
        let points = property_mount_points(&properties.mount_points);
        let mount_point = if points.len() > 0 {
            assert(byte_views(points@)[0] == points@[0]@);
            Some(utf8_lossy(&points[0]))
        } else {
            None
        };
        let name = match &label {
            Some(l) => l.clone(),
            None => match &uuid {
                Some(u) => u.clone(),
                None => path_last_segment(path),
            },
        };
        let can_mount = mount_point.is_none();
        UDisks2Volume {
            path: path.to_owned(),
            name,
            uuid,
            label,
            mount_point,
            device,
            can_mount,
            can_eject: false,
        }
    }

    /// The name of the volume's icon.
    pub fn get_icon_name(&self) -> (r: String)
        ensures
            r@ == volume_icon(opt_view(self.device)),
    {
        match &self.device {
            Some(d) => {
                let chars = to_chars(d.as_str());
                if has_sub(&chars, &to_chars("sr")) {
                    "drive-optical".to_owned()
                } else if has_sub(&chars, &to_chars("mmc")) {
                    "media-flash".to_owned()
                } else {
                    "drive-harddisk".to_owned()
                }
            },
            None => "drive-harddisk".to_owned(),
        }
    }

    /// The mount of the volume, if it is mounted: at the volume's mount
    /// point, and known to the service under the volume's path.
    pub fn mounted(&self) -> (r: Option<UDisks2Mount>)
        ensures
            r is Some <==> self.mount_point is Some,
            r matches Some(m) ==> m.path@ == self.path@ && m.volume_path@ == self.path@
                && opt_view(m.mount_point) == opt_view(self.mount_point),
    {
        if self.mount_point.is_some() {
            Some(
                UDisks2Mount {
                    path: self.path.clone(),
                    mount_point: clone_opt(&self.mount_point),
                    volume_path: self.path.clone(),
                },
            )
        } else {
            None
        }
    }
}

impl Volume for UDisks2Volume {
    fn get_name(&self) -> (r: String)
        ensures
            r@ == self.name@,
    {
        self.name.clone()
    }

    fn get_icon(&self) -> (r: String)
        ensures
            r@ == volume_icon(opt_view(self.device)),
    {
        self.get_icon_name()
    }

    fn get_uuid(&self) -> (r: Option<String>)
        ensures
            opt_view(r) == opt_view(self.uuid),
    {
        clone_opt(&self.uuid)
    }

    fn get_drive(&self) -> (r: Option<String>)
        ensures
            r is None,
    {
        None
    }

    fn get_mount(&self) -> (r: Option<Box<dyn Mount>>)
        ensures
            r is Some <==> self.mount_point is Some,
    {
        match self.mounted() {
            Some(m) => {
                let b: Box<dyn Mount> = Box::new(m);
                Some(b)
            },
            None => None,
        }
    }

    fn can_mount(&self) -> (r: bool)
        ensures
            r == self.can_mount,
    {
        self.can_mount
    }

    fn can_eject(&self) -> (r: bool)
        ensures
            r == self.can_eject,
    {
        self.can_eject
    }

    fn should_automount(&self) -> (r: bool)
        ensures
            r,
    {
        true
    }

    /// Under a cancelled token the plan fails with `Cancelled`; for a
    /// volume that cannot be mounted, with `NotSupported`; else it is the
    /// one call `Mount`, which is not to ask the user anything.
    fn mount(&self, cancellable: Option<&Cancellable>) -> (r: ServicePlan)
        ensures
            (cancellable matches Some(c) && c@) ==> r.fails_at_once(IOErrorEnum::Cancelled),
            !(cancellable matches Some(c) && c@) && !self.can_mount ==> r.fails_at_once(
                IOErrorEnum::NotSupported,
            ),
            !(cancellable matches Some(c) && c@) && self.can_mount ==> r.failure is None
                && r.calls@.len() == 1 && is_mount_call(r.calls@[0], self.path@),
    {
        match checkpoint(cancellable) {
            Err(e) => ServicePlan::fail(e),
            Ok(()) => {
                if !self.can_mount {
                    ServicePlan::refuse(IOErrorEnum::NotSupported, "Volume cannot be mounted")
                } else {
                    ServicePlan::one(
                        ServiceCall::new(
                            self.path.as_str(),
                            FILESYSTEM_INTERFACE,
                            "Mount",
                            Some(("auth.no_user_interaction", true)),
                        ),
                    )
                }
            },
        }
    }

    /// Under a cancelled token the plan fails with `Cancelled`; for a
    /// volume that cannot be ejected, with `NotSupported`; else it unmounts
    /// the volume if it is mounted, without force.
    fn eject(&self, cancellable: Option<&Cancellable>) -> (r: ServicePlan)
        ensures
            (cancellable matches Some(c) && c@) ==> r.fails_at_once(IOErrorEnum::Cancelled),
            !(cancellable matches Some(c) && c@) && !self.can_eject ==> r.fails_at_once(
                IOErrorEnum::NotSupported,
            ),
            !(cancellable matches Some(c) && c@) && self.can_eject ==> r.failure is None && (
            if self.mount_point is Some {
                r.calls@.len() == 1 && is_unmount_call(r.calls@[0], self.path@)
            } else {
                r.calls@.len() == 0
            }),
    {
        match checkpoint(cancellable) {
            Err(e) => ServicePlan::fail(e),
            Ok(()) => {
                if !self.can_eject {
                    ServicePlan::refuse(IOErrorEnum::NotSupported, "Volume cannot be ejected")
                } else if self.mount_point.is_some() {
                    ServicePlan::one(unmount_call(self.path.as_str()))
                } else {
                    ServicePlan::nothing()
                }
            },
        }
    }

    fn get_identifier(&self, kind: &str) -> (r: Option<String>)
        ensures
            opt_view(r) == if kind@ == "uuid"@ {
                opt_view(self.uuid)
            } else if kind@ == "label"@ {
                opt_view(self.label)
            } else if kind@ == "unix-device"@ {
                opt_view(self.device)
            } else {
                None
            },
    {
        if str_eq(kind, "uuid") {
            clone_opt(&self.uuid)
        } else if str_eq(kind, "label") {
            clone_opt(&self.label)
        } else if str_eq(kind, "unix-device") {
            clone_opt(&self.device)
        } else {
            None
        }
    }

    fn enumerate_identifiers(&self) -> (r: Vec<String>)
        ensures
            string_views(r@) == (if self.uuid is Some {
                seq!["uuid"@]
            } else {
                Seq::empty()
            }) + (if self.label is Some {
                seq!["label"@]
            } else {
                Seq::empty()
            }) + (if self.device is Some {
                seq!["unix-device"@]
            } else {
                Seq::empty()
            }),
    {
        let mut result: Vec<String> = Vec::new();
        let ghost mut so_far: Seq<Seq<char>> = Seq::empty();
        assert(string_views(result@) =~= so_far);
        if self.uuid.is_some() {
            result.push("uuid".to_owned());
            proof {
                so_far = so_far.push("uuid"@);
            }
            assert(string_views(result@) =~= so_far);
        }
        if self.label.is_some() {
            result.push("label".to_owned());
            proof {
                so_far = so_far.push("label"@);
            }
            assert(string_views(result@) =~= so_far);
        }
        if self.device.is_some() {
            result.push("unix-device".to_owned());
            proof {
                so_far = so_far.push("unix-device"@);
            }
            assert(string_views(result@) =~= so_far);
        }
        assert(so_far =~= (if self.uuid is Some {
            seq!["uuid"@]
        } else {
            Seq::empty()
        }) + (if self.label is Some {
            seq!["label"@]
        } else {
            Seq::empty()
        }) + (if self.device is Some {
            seq!["unix-device"@]
        } else {
            Seq::empty()
        }));
        result
    }
}

/// The name of a mount: the file name of its mount point, where it has
/// one.
pub open spec fn mount_name(mount_point: Option<Seq<char>>) -> Seq<char> {
    match mount_point {
        Some(mp) => match path::file_name(mp) {
            Some(name) => name,
            None => "Unknown Mount"@,
        },
        None => "Unknown Mount"@,
    }
}

impl Mount for UDisks2Mount {
    /// The root of the mount is its mount point, or the root directory for
    /// what is not mounted.
    open spec fn spec_root(&self) -> Seq<char> {
        match self.mount_point {
            Some(mp) => mp@,
            None => "/"@,
        }
    }

    /// Mounting again has an answer of its own here.
    open spec fn replaces(&self, part: MountDefault) -> bool {
        part == MountDefault::Remount
    }

    /// The mount point, or the root directory for what is not mounted.
    fn get_root(&self) -> (r: LocalFile)
        ensures
            r@ == match self.mount_point {
                Some(mp) => mp@,
                None => "/"@,
            },
            r.is_text(),
    {
        match &self.mount_point {
            Some(mp) => LocalFile::new(mp.as_str()),
            None => LocalFile::new("/"),
        }
    }

    fn get_name(&self) -> (r: String)
        ensures
            r@ == mount_name(opt_view(self.mount_point)),
    {
        match &self.mount_point {
            Some(mp) => {
                let chars = to_chars(mp.as_str());
                match path::path_file_name(&chars) {
                    Some(name) => from_chars(&name),
                    None => "Unknown Mount".to_owned(),
                }
            },
            None => "Unknown Mount".to_owned(),
        }
    }

    fn get_icon(&self) -> (r: String)
        ensures
            r@ == "drive-harddisk"@,
    {
        "drive-harddisk".to_owned()
    }

    fn get_uuid(&self) -> (r: Option<String>)
        ensures
            r is None,
    {
        None
    }

    fn get_volume(&self) -> (r: Option<String>)
        ensures
            opt_view(r) == Some(self.volume_path@),
    {
        Some(self.volume_path.clone())
    }

    fn get_drive(&self) -> (r: Option<String>)
        ensures
            r is None,
    {
        None
    }

    fn can_unmount(&self) -> (r: bool)
        ensures
            r == self.mount_point is Some,
    {
        self.mount_point.is_some()
    }

    fn can_eject(&self) -> (r: bool)
        ensures
            !r,
    {
        false
    }

    /// Under a cancelled token the plan fails with `Cancelled`; for what is
    /// not mounted, with `NotSupported`; else it is the one call `Unmount`,
    /// without force.
    fn unmount(&self, cancellable: Option<&Cancellable>) -> (r: ServicePlan)
        ensures
            (cancellable matches Some(c) && c@) ==> r.fails_at_once(IOErrorEnum::Cancelled),
            !(cancellable matches Some(c) && c@) && self.mount_point is None ==> r.fails_at_once(
                IOErrorEnum::NotSupported,
            ),
            !(cancellable matches Some(c) && c@) && self.mount_point is Some ==> r.failure is None
                && r.calls@.len() == 1 && is_unmount_call(r.calls@[0], self.path@),
    {
        match checkpoint(cancellable) {
            Err(e) => ServicePlan::fail(e),
            Ok(()) => {
                if self.mount_point.is_none() {
                    ServicePlan::refuse(IOErrorEnum::NotSupported, "Mount is not mounted")
                } else {
                    ServicePlan::one(unmount_call(self.path.as_str()))
                }
            },
        }
    }

    /// Under a cancelled token the plan fails with `Cancelled` at once.
    /// Else what is mounted is unmounted first, and in either case the plan
    /// ends with `NotSupported`: the drive to eject is not known here.
    fn eject(&self, cancellable: Option<&Cancellable>) -> (r: ServicePlan)
        ensures
            (cancellable matches Some(c) && c@) ==> r.fails_at_once(IOErrorEnum::Cancelled),
            !(cancellable matches Some(c) && c@) ==> {
                &&& r.failure matches Some(e)
                &&& e.spec_kind() == IOErrorEnum::NotSupported
                &&& if self.mount_point is Some {
                    r.calls@.len() == 1 && is_unmount_call(r.calls@[0], self.path@)
                } else {
                    r.calls@.len() == 0
                }
            },
    {
        match checkpoint(cancellable) {
            Err(e) => ServicePlan::fail(e),
            Ok(()) => {
                let mut calls: Vec<ServiceCall> = Vec::new();
                if self.mount_point.is_some() {
                    calls.push(unmount_call(self.path.as_str()));
                }
                ServicePlan {
                    calls,
                    failure: Some(
                        NpioError::new(IOErrorEnum::NotSupported, "Eject requires drive lookup"),
                    ),
                }
            },
        }
    }

    /// Under a cancelled token the plan fails with `Cancelled`; else with
    /// `NotSupported`, mounted or not.
    fn remount(&self, cancellable: Option<&Cancellable>) -> (r: ServicePlan)
        ensures
            (cancellable matches Some(c) && c@) ==> r.fails_at_once(IOErrorEnum::Cancelled),
            !(cancellable matches Some(c) && c@) ==> r.fails_at_once(IOErrorEnum::NotSupported),
    {
        match checkpoint(cancellable) {
            Err(e) => ServicePlan::fail(e),
            Ok(()) => {
                if self.mount_point.is_none() {
                    ServicePlan::refuse(IOErrorEnum::NotSupported, "Mount is not mounted")
                } else {
                    ServicePlan::refuse(IOErrorEnum::NotSupported, "Remount is not supported")
                }
            },
        }
    }
}

/// An object that the service manages: its path and the names of its
/// interfaces.
#[derive(Debug)]
pub struct ManagedObject {
    pub path: String,
    pub interfaces: Vec<String>,
}

/// Whether the object is one of the kind that `marker` and `interface`
/// tell: its path holds the marker and it offers the interface.
pub open spec fn object_is(object: ManagedObject, marker: Seq<char>, interface: Seq<char>) -> bool {
    contains(object.path@, marker) && string_views(object.interfaces@).contains(interface)
}

/// The paths of the objects of a kind, in the order of the objects.
pub open spec fn selected(objects: Seq<ManagedObject>, marker: Seq<char>, interface: Seq<char>)
    -> Seq<Seq<char>>
    decreases objects.len(),
{
    if objects.len() == 0 {
        Seq::empty()
    } else {
        let init = selected(objects.drop_last(), marker, interface);
        if object_is(objects.last(), marker, interface) {
            init.push(objects.last().path@)
        } else {
            init
        }
    }
}

/// Whether `name` is among `names`.
fn has_name(names: &Vec<String>, name: &str) -> (r: bool)
    ensures
        r == string_views(names@).contains(name@),
{
    let mut i: usize = 0;
    while i < names.len()
        invariant
            i <= names.len(),
            forall|j: int| 0 <= j < i ==> string_views(names@)[j] != name@,
        decreases names.len() - i,
    {
        if str_eq(names[i].as_str(), name) {
            assert(string_views(names@)[i as int] == name@);
            return true;
        }
        i = i + 1;
    }
    false
}

/// The paths of the objects of a kind.
fn select(objects: &Vec<ManagedObject>, marker: &str, interface: &str) -> (r: Vec<String>)
    ensures
        string_views(r@) == selected(objects@, marker@, interface@),
{
    let mut out: Vec<String> = Vec::new();
    let m = to_chars(marker);
    let mut i: usize = 0;
    assert(string_views(out@) =~= selected(objects@.take(0), marker@, interface@));
    while i < objects.len()
        invariant
            i <= objects.len(),
            m@ == marker@,
            string_views(out@) == selected(objects@.take(i as int), marker@, interface@),
        decreases objects.len() - i,
    {
        proof {
            assert(objects@.take(i + 1).drop_last() == objects@.take(i as int));
            assert(objects@.take(i + 1).last() == objects@[i as int]);
        }
        let p = to_chars(objects[i].path.as_str());
        if has_sub(&p, &m) && has_name(&objects[i].interfaces, interface) {
            let ghost before = string_views(out@);
            out.push(objects[i].path.clone());
            assert(string_views(out@) == before.push(objects@[i as int].path@));
        }
        i = i + 1;
    }
    assert(objects@.take(objects.len() as int) == objects@);
    out
}

/// The client of the block-device service.
#[derive(Debug, Clone, Copy, PartialEq, Eq, Structural)]
pub struct UDisks2Backend {}

/// The mount points of the mounted volumes, in the order of the volumes.
pub open spec fn mounted_points(volumes: Seq<UDisks2Volume>) -> Seq<Seq<char>>
    decreases volumes.len(),
{
    if volumes.len() == 0 {
        Seq::empty()
    } else {
        let init = mounted_points(volumes.drop_last());
        match volumes.last().mount_point {
            Some(mp) => init.push(mp@),
            None => init,
        }
    }
}

/// The mount points of a list of mounts; the empty text for one that has
/// none.
pub open spec fn points_of(mounts: Seq<UDisks2Mount>) -> Seq<Seq<char>> {
    Seq::new(
        mounts.len(),
        |i: int|
            match mounts[i].mount_point {
                Some(mp) => mp@,
                None => Seq::empty(),
            },
    )
}

/// The first volume that is mounted at `mount_path`.
pub open spec fn first_mounted_at(volumes: Seq<UDisks2Volume>, mount_path: Seq<char>) -> Option<
    int,
> {
    if exists|i: int| mounted_at(volumes, mount_path, i) {
        Some(
            choose|i: int|
                mounted_at(volumes, mount_path, i) && forall|j: int|
                    0 <= j < i ==> !mounted_at(volumes, mount_path, j),
        )
    } else {
        None
    }
}

/// The volume at position `i` is mounted at `mount_path`.
pub open spec fn mounted_at(volumes: Seq<UDisks2Volume>, mount_path: Seq<char>, i: int) -> bool {
    0 <= i < volumes.len() && opt_view(volumes[i].mount_point) == Some(mount_path)
}

impl UDisks2Backend {
    /// A client that is not connected yet.
    pub fn new() -> (r: Self) {
        UDisks2Backend {  }
    }

    /// The paths of the drives among the managed objects: those whose path
    /// holds `/drives/` and that offer the drive interface. Fails with
    /// `Cancelled` exactly under a cancelled token.
    pub fn get_drives(&self, objects: &Vec<ManagedObject>, cancellable: Option<&Cancellable>) -> (r:
        NpioResult<Vec<String>>)
        ensures
            r is Err <==> (cancellable matches Some(c) && c@),
            r matches Err(e) ==> e.spec_kind() == IOErrorEnum::Cancelled,
            r matches Ok(paths) ==> string_views(paths@) == selected(
                objects@,
                "/drives/"@,
                DRIVE_INTERFACE@,
            ),
    {
        match checkpoint(cancellable) {
            Err(e) => Err(e),
            Ok(()) => Ok(select(objects, "/drives/", DRIVE_INTERFACE)),
        }
    }

    /// The paths of the volumes among the managed objects: those whose path
    /// holds `/block_devices/` and that offer the filesystem interface.
    /// Fails with `Cancelled` exactly under a cancelled token.
    pub fn get_volumes(&self, objects: &Vec<ManagedObject>, cancellable: Option<&Cancellable>) -> (r:
        NpioResult<Vec<String>>)
        ensures
            r is Err <==> (cancellable matches Some(c) && c@),
            r matches Err(e) ==> e.spec_kind() == IOErrorEnum::Cancelled,
            r matches Ok(paths) ==> string_views(paths@) == selected(
                objects@,
                "/block_devices/"@,
                FILESYSTEM_INTERFACE@,
            ),
    {
        match checkpoint(cancellable) {
            Err(e) => Err(e),
            Ok(()) => Ok(select(objects, "/block_devices/", FILESYSTEM_INTERFACE)),
        }
    }

    /// The mounts of the volumes that are mounted, in the order of the
    /// volumes. Fails with `Cancelled` exactly under a cancelled token.
    pub fn get_mounts(&self, volumes: &Vec<UDisks2Volume>, cancellable: Option<&Cancellable>) -> (r:
        NpioResult<Vec<UDisks2Mount>>)
        ensures
            r is Err <==> (cancellable matches Some(c) && c@),
            r matches Err(e) ==> e.spec_kind() == IOErrorEnum::Cancelled,
            r matches Ok(mounts) ==> points_of(mounts@) == mounted_points(volumes@) && forall|
                i: int,
            |
                0 <= i < mounts@.len() ==> (#[trigger] mounts@[i]).mount_point is Some,
    {
        match checkpoint(cancellable) {
            Err(e) => Err(e),
            Ok(()) => {
                let mut out: Vec<UDisks2Mount> = Vec::new();
                let mut i: usize = 0;
                assert(points_of(out@) =~= mounted_points(volumes@.take(0)));
                while i < volumes.len()
                    invariant
                        i <= volumes.len(),
                        points_of(out@) == mounted_points(volumes@.take(i as int)),
                        forall|j: int|
                            0 <= j < out@.len() ==> (#[trigger] out@[j]).mount_point is Some,
                    decreases volumes.len() - i,
                {
                    proof {
                        assert(volumes@.take(i + 1).drop_last() == volumes@.take(i as int));
                        assert(volumes@.take(i + 1).last() == volumes@[i as int]);
                    }
                    match volumes[i].mounted() {
                        Some(m) => {
                            let ghost before = points_of(out@);
                            let ghost mp = m.mount_point->Some_0@;
                            out.push(m);
                            assert(points_of(out@) =~= before.push(mp));
                        },
                        None => {},
                    }
                    i = i + 1;
                }
                assert(volumes@.take(volumes.len() as int) == volumes@);
                Ok(out)
            },
        }
    }

    /// What is to be done to unmount what is mounted at `mount_path`: the
    /// plan of the first volume that is mounted there. Under a cancelled
    /// token the plan fails with `Cancelled`; where no volume is mounted
    /// there, with `NotFound`.
    pub fn unmount_mount(
        &self,
        volumes: &Vec<UDisks2Volume>,
        mount_path: &str,
        cancellable: Option<&Cancellable>,
    ) -> (r: ServicePlan)
        ensures
            (cancellable matches Some(c) && c@) ==> r.fails_at_once(IOErrorEnum::Cancelled),
            !(cancellable matches Some(c) && c@) ==> match first_mounted_at(
                volumes@,
                mount_path@,
            ) {
                Some(i) => r.failure is None && r.calls@.len() == 1 && is_unmount_call(
                    r.calls@[0],
                    volumes@[i].path@,
                ),
                None => r.fails_at_once(IOErrorEnum::NotFound) && r.failure->Some_0.spec_message()
                    == "Mount not found: "@ + mount_path@,
            },
    {
        match checkpoint(cancellable) {
            Err(e) => ServicePlan::fail(e),
            Ok(()) => {
                let mut i: usize = 0;
                while i < volumes.len()
                    invariant
                        i <= volumes.len(),
                        !(cancellable matches Some(c) && c@),
                        forall|j: int| 0 <= j < i ==> !mounted_at(volumes@, mount_path@, j),
                    decreases volumes.len() - i,
                {
                    let hit = match &volumes[i].mount_point {
                        Some(mp) => str_eq(mp.as_str(), mount_path),
                        None => false,
                    };
                    if hit {
                        proof {
                            let at = i as int;
                            assert(mounted_at(volumes@, mount_path@, at));
                            let found = first_mounted_at(volumes@, mount_path@)->Some_0;
                            assert(mounted_at(volumes@, mount_path@, found));
                            if found < at {
                                assert(!mounted_at(volumes@, mount_path@, found));
                            }
                            if at < found {
                                assert(!mounted_at(volumes@, mount_path@, at));
                            }
                        }
                        return ServicePlan::one(unmount_call(volumes[i].path.as_str()));
                    }
                    i = i + 1;
                }
                let mut message: Vec<char> = Vec::new();
                append_str(&mut message, "Mount not found: ");
                append_str(&mut message, mount_path);
                let text = from_chars(&message);
                ServicePlan::refuse(IOErrorEnum::NotFound, text.as_str())
            },
        }
    }
}

impl Default for UDisks2Backend {
    fn default() -> (r: Self) {
        UDisks2Backend::new()
    }
}

} // verus!
