//! A unified, URI-addressed view of files, directories and storage devices.
//!
//! The crate holds the rules of the virtual filesystem as plain functions on
//! plain values: how a URI names a backend, what a metadata bag holds, how a
//! directory listing follows change events, how the mount table is read.
//! Verus proves each function of the crate against its contract. The few
//! contracts that speak of functions of other crates and of the standard
//! library are stated and believed, not proved; each says so where it
//! stands.

pub mod backend;
pub mod cancellable;
pub mod drive;
pub mod error;
pub mod file;
pub mod file_enumerator;
pub mod file_info;
pub mod iostream;
pub mod job;
pub mod metadata;
pub mod model;
pub mod monitor;
pub mod mount;
pub mod path;
pub mod service;
pub mod text;
pub mod volume;


pub use backend::local::LocalBackend;
pub use backend::mount::MountBackend;
pub use backend::thumbnail::{ThumbnailBackend, ThumbnailSize};
pub use backend::udisks2::UDisks2Backend;
pub use backend::{Backend, BackendRegistry};
pub use cancellable::Cancellable;
pub use drive::Drive;
pub use error::{IOErrorEnum, NpioError, NpioResult};
pub use file::local::LocalFile;
pub use file::{File, FileQueryInfoFlags};
pub use file_enumerator::FileEnumerator;
pub use file_info::{FileAttributeType, FileInfo, FileType};
pub use iostream::{InputStream, OutputStream};
pub use job::CopyFlags;
pub use metadata::MimeResolver;
pub use model::devices::DevicesModel;
pub use model::directory::{DirectoryModel, DirectoryUpdate};
pub use monitor::{FileMonitor, FileMonitorEvent};
pub use mount::Mount;
pub use service::places::{
    get_directory_icon_name, get_home_file, get_home_icon_name, get_user_special_file,
    UserDirectory,
};
pub use service::thumbnail::{
    ThumbnailEvent, ThumbnailImage, ThumbnailImageCache, ThumbnailService,
};
pub use service::volumemonitor::{VolumeMonitor, VolumeMonitorEvent};
pub use volume::Volume;
