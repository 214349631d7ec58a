//! Settings of the application and the resolution of the native binaries it
//! depends on: which published asset fits the running platform, where it is
//! cached, how a transfer is retried and how a download is checked against its
//! checksum sidecar.
pub mod app_config;
pub mod binaries;
pub mod checksum;
pub mod consts;
pub mod download_utils;
pub mod internal_wallet;
pub mod network;
pub mod text;
