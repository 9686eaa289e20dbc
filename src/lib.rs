//! Scanning a media collection: grouping the files of each directory into works, reading their
//! sidecar metadata, and handing the results to a caller that polls for them.
//!
//! The library decides; its caller does the input and output. The caller walks the collection
//! with a [`DirectoryWalk`], which tells it which directory to list next and takes each listing
//! back. It shares the groups found among workers with [`chunk_bounds`]. For each group a worker
//! classifies the files with [`classify_assets`], reads the sidecar file and measures the images
//! that it names, and builds the work with [`build_work`]. What the workers and the monitor of a
//! scan report is recorded in a [`ScanState`], which a poll drains.
pub mod distribute;
pub mod lists;
pub mod metadata;
pub mod page;
pub mod paths;
pub mod scan;
pub mod text;
pub mod walk;
pub mod work;

pub use distribute::{chunk_bounds, chunk_size, worker_count};
pub use lists::{decode_list, encode_list};
pub use metadata::{
    add_metadata_from_metafile, field_from_name, parse_field, parse_metafile_field, parse_size,
    MetadataField,
};
pub use page::{get_page_index, page_key_of, sort_by_page};
pub use scan::{MonitorAction, PollResponse, ScanState, UnitOutcome};
pub use walk::{AssetGroup, DirectoryListing, DirectoryWalk, PendingDirectory};
pub use work::{
    add_image_asset, add_novel_asset, build_work, classify_assets, get_required_metadata, role_of,
    Asset, AssetRole, AssetRoles, ImageAsset, ImageDimensions, Work,
};
