use npio::backend::local::LocalBackend;
use npio::backend::{normalize_uri, uri_scheme, Backend, BackendRegistry};
use npio::error::{IOErrorEnum, NpioError, NpioResult};
use npio::file::local::LocalFile;
use npio::File;

/// A backend for tests: it serves one scheme and answers to a name.
struct NamedBackend {
    scheme: &'static str,
    name: &'static str,
}

impl Backend for NamedBackend {
    type Handle = LocalFile;

    fn scheme(&self) -> &'static str {
        self.scheme
    }

    fn get_file_for_uri(&self, uri: &str) -> NpioResult<LocalFile> {
        if uri.starts_with("file://") {
            LocalBackend::new().get_file_for_uri(uri)
        } else {
            Err(NpioError::new(IOErrorEnum::InvalidArg, self.name))
        }
    }
}

fn registry() -> BackendRegistry<LocalBackend> {
    let mut registry = BackendRegistry::new();
    registry.register(LocalBackend::new());
    registry
}

#[test]
fn test_scheme_of_uri() {
    assert_eq!(uri_scheme("file:///tmp/x"), "file");
    assert_eq!(uri_scheme("sftp://host/x"), "sftp");
    assert_eq!(uri_scheme("/tmp/x"), "file");
    assert_eq!(uri_scheme(""), "file");
    assert_eq!(uri_scheme("://x"), "");
    // The first `://` parts the scheme.
    assert_eq!(uri_scheme("a://b://c"), "a");
    // Schemes are not folded to lower case.
    assert_eq!(uri_scheme("FILE:///x"), "FILE");
}

#[test]
fn test_normalize_uri() {
    assert_eq!(normalize_uri("file:///tmp/x"), "file:///tmp/x");
    assert_eq!(normalize_uri("/tmp/x"), "file:///tmp/x");
    assert_eq!(normalize_uri("sftp://h/x"), "sftp://h/x");
    assert_eq!(normalize_uri(""), "file://");
}

#[test]
fn test_resolve_keeps_the_uri() {
    let registry = registry();
    for uri in ["file:///tmp/test.png", "file:///", "file://", "file:///a b/ü", "file://file://x"] {
        let file = registry.get_file_for_uri(uri).expect("the local backend takes the URI");
        assert_eq!(file.uri(), uri);
    }
}

#[test]
fn test_resolve_without_scheme_is_local() {
    let registry = registry();
    let file = registry.get_file_for_uri("/tmp/x").expect("a path is taken for a local URI");
    assert_eq!(file.uri(), "file:///tmp/x");
    assert_eq!(file.path(), "/tmp/x");
}

#[test]
fn test_resolve_unknown_scheme() {
    let registry = registry();
    let e = registry.get_file_for_uri("sftp://host/x").err().expect("no backend serves sftp");
    assert_eq!(*e.kind(), IOErrorEnum::NotSupported);
    assert_eq!(e.message(), "No backend found for scheme: sftp");
    // Schemes are told apart by case.
    let e = registry.get_file_for_uri("FILE:///x").err().expect("no backend serves FILE");
    assert_eq!(*e.kind(), IOErrorEnum::NotSupported);
    let empty: BackendRegistry<LocalBackend> = BackendRegistry::new();
    let e = empty.get_file_for_uri("file:///x").err().expect("nothing is registered");
    assert_eq!(*e.kind(), IOErrorEnum::NotSupported);
    assert_eq!(e.message(), "No backend found for scheme: file");
}

#[test]
fn test_last_registration_wins() {
    let mut registry = BackendRegistry::new();
    registry.register(NamedBackend { scheme: "file", name: "first" });
    registry.register(NamedBackend { scheme: "mem", name: "memory" });
    registry.register(NamedBackend { scheme: "file", name: "second" });
    assert_eq!(registry.get_backend("file").map(|b| b.name), Some("second"));
    assert_eq!(registry.get_backend("mem").map(|b| b.name), Some("memory"));
    assert!(registry.get_backend("sftp").is_none());
    let e = registry.get_file_for_uri("mem://x").err().expect("the backend refuses");
    assert_eq!(*e.kind(), IOErrorEnum::InvalidArg);
    assert_eq!(e.message(), "memory");
}

#[test]
fn test_local_backend() {
    let backend = LocalBackend::new();
    assert_eq!(backend.scheme(), "file");
    let file = backend.get_file_for_uri("file:///home/u").expect("a local URI");
    assert_eq!(file.path(), "/home/u");
    let e = backend.get_file_for_uri("/home/u").err().expect("no scheme");
    assert_eq!(*e.kind(), IOErrorEnum::InvalidArg);
    let e = backend.get_file_for_uri("http://x").err().expect("another scheme");
    assert_eq!(*e.kind(), IOErrorEnum::InvalidArg);
    assert_eq!(LocalBackend::default(), backend);
}
