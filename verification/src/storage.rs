//! The blob store that holds the function binaries: where each binary
//! lies. Writing and reading the files belong to the caller.

use crate::settings::{StorageKind, StorageSettings};
use vstd::prelude::*;
use vstd::string::*;

verus! {

/// A medium that holds function binaries, each under a name.
pub trait Storage {
    /// The address of the binary called `name`.
    spec fn location_spec(&self, name: Seq<char>) -> Seq<char>;

    /// Returns the address at which the binary called `name` is stored and
    /// fetched.
    fn location(&self, name: &str) -> (path: String)
        ensures
            path@ == self.location_spec(name@),
    ;
}

/// A directory of the local file system.
#[derive(Debug, Clone)]
pub struct LocalStorage {
    base_dir: String,
}

impl LocalStorage {
    /// The directory that holds the binaries.
    pub closed spec fn directory(self) -> Seq<char> {
        self.base_dir@
    }

    /// The store in `directory`.
    pub fn new(directory: String) -> (store: Self)
        ensures
            store.directory() == directory@,
    {
        LocalStorage { base_dir: directory }
    }

    /// Returns the directory that holds the binaries.
    pub fn base_dir(&self) -> (directory: &str)
        ensures
            directory@ == self.directory(),
    {
        self.base_dir.as_str()
    }
}

impl Storage for LocalStorage {
    open spec fn location_spec(&self, name: Seq<char>) -> Seq<char> {
        self.directory() + "/"@ + name + ".wasm"@
    }

    fn location(&self, name: &str) -> (path: String) {
        self.base_dir.clone().concat("/").concat(name).concat(".wasm")
    }
}

/// The store that the settings ask for.
pub fn init(settings: &StorageSettings) -> (store: LocalStorage)
    ensures
        settings.medium matches StorageKind::Local { directory } && store.directory()
            == directory@,
{
    match &settings.medium {
        StorageKind::Local { directory } => LocalStorage::new(directory.clone()),
    }
}

} // verus!
