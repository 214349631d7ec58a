//! Finding, fetching and checking the native binaries of a release.
pub mod adapter_github;
pub mod binaries_resolver;
