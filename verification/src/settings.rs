//! The settings the service is started with.

use vstd::prelude::*;

verus! {

/// All settings.
#[derive(Debug)]
pub struct Settings {
    pub http: HttpSettings,
    pub storage: StorageSettings,
    pub compiler: CompilerSettings,
    pub registry: RegistrySettings,
    pub db_url: String,
}

/// Where the HTTP server listens and what it serves.
#[derive(Debug)]
pub struct HttpSettings {
    pub host: String,
    pub port: u16,
    pub assets_directory: String,
}

/// The medium that holds the function binaries.
#[derive(Debug)]
pub enum StorageKind {
    /// A directory of the local file system.
    Local { directory: String },
}

/// The blob store.
#[derive(Debug)]
pub struct StorageSettings {
    pub medium: StorageKind,
}

/// The source-to-wasm compiler.
#[derive(Debug)]
pub struct CompilerSettings {
    pub source_dir: String,
}

/// The worker registry: the depth of each worker's dispatch channel and the
/// deadline of an invocation, in seconds.
#[derive(Debug, Clone, Copy)]
pub struct RegistrySettings {
    pub channel_size: usize,
    pub timeout_secs: usize,
}

} // verus!
