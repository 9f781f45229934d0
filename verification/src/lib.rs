//! A personal package manager for AppImage bundles: the rules by which a
//! bundle is fetched, indexed, linked into the user's PATH and shown to the
//! desktop.
pub mod appimage;
pub mod args;
pub mod desktop;
pub mod downloader;
pub mod error;
pub mod github;
pub mod guarantees;
pub mod host;
pub mod index;
pub mod manager;
pub mod paths;
pub mod symlink;
pub mod text;

pub use crate::appimage::{AppImage, Source, SourceMetadata};
pub use crate::args::{Cli, Command, InstallArgs, RemoveArgs, UpdateArgs};
pub use crate::desktop::{Desktop, Integration};
pub use crate::downloader::{Download, Downloader, ResponseHead};
pub use crate::error::{DownloadCause, Error, IoFailure, IoKind};
pub use crate::github::{get_github_release_url, Asset, Release, Resolver};
pub use crate::host::{run_script, Action, Event, Script, Task};
pub use crate::index::{Fetch, Index, Lookup};
pub use crate::manager::{Install, Installed, Listing, PackageManager, Removal, Update};
pub use crate::paths::{appimages_dir, desktops_dir, icons_dir, index_dir, zap_rs_home};
pub use crate::symlink::SymlinkManager;
