//! The unit of output, a work, and how the files of one directory become one.
use crate::metadata::{add_metadata_from_metafile, metadata_applied};
use crate::page::{sort_by_page, sorted_by_page};
use crate::paths::{
    extension, extension_of, file_name_of, opt_view, parent_of, path_file_name, path_parent,
    path_relative_to, relative_to,
};
use crate::text::{chars_end_with, chars_of, ends_with, string_views, text_equals};
use vstd::prelude::*;

verus! {

broadcast use vstd::seq_lib::group_to_multiset_ensures, vstd::seq::Seq::lemma_filter_push;

/// The width and height of an image, in pixels.
#[derive(Clone, Copy, Debug, PartialEq, Eq, Structural)]
pub struct ImageDimensions {
    pub width: usize,
    pub height: usize,
}

/// A file of a work, by name and full path.
#[derive(Clone, Debug)]
pub struct Asset {
    pub name: String,
    pub path: String,
}

/// An image of a work, with its measured size.
#[derive(Clone, Debug)]
pub struct ImageAsset {
    pub name: String,
    pub path: String,
    pub dimensions: ImageDimensions,
}

/// One work of the collection: the images, long text and metadata found in one directory.
#[derive(Clone, Debug)]
pub struct Work {
    pub key: u64,
    pub path: String,
    pub relative_path: String,
    pub title: String,
    pub user_name: String,
    pub image_assets: Vec<ImageAsset>,
    pub novel_asset: Option<Asset>,
    pub id: Option<u64>,
    pub user_id: Option<u64>,
    pub url: Option<String>,
    pub image_url: Option<String>,
    pub thumbnail_url: Option<String>,
    pub age_restriction: Option<String>,
    pub ai: Option<bool>,
    pub description: Option<String>,
    pub tags: Option<Vec<String>>,
    pub dimensions: Option<ImageDimensions>,
    pub bookmarks: Option<u64>,
    pub upload_time: Option<String>,
}

/// What an asset is, as plain values.
pub struct AssetModel {
    pub name: Seq<char>,
    pub path: Seq<char>,
}

/// What an image asset is, as plain values.
pub struct ImageAssetModel {
    pub name: Seq<char>,
    pub path: Seq<char>,
    pub dimensions: ImageDimensions,
}

/// What a work is, as plain values.
pub struct WorkModel {
    pub key: u64,
    pub path: Seq<char>,
    pub relative_path: Seq<char>,
    pub title: Seq<char>,
    pub user_name: Seq<char>,
    pub image_assets: Seq<ImageAssetModel>,
    pub novel_asset: Option<AssetModel>,
    pub id: Option<u64>,
    pub user_id: Option<u64>,
    pub url: Option<Seq<char>>,
    pub image_url: Option<Seq<char>>,
    pub thumbnail_url: Option<Seq<char>>,
    pub age_restriction: Option<Seq<char>>,
    pub ai: Option<bool>,
    pub description: Option<Seq<char>>,
    pub tags: Option<Seq<Seq<char>>>,
    pub dimensions: Option<ImageDimensions>,
    pub bookmarks: Option<u64>,
    pub upload_time: Option<Seq<char>>,
}

impl View for Asset {
    type V = AssetModel;

    open spec fn view(&self) -> AssetModel {
        AssetModel { name: self.name@, path: self.path@ }
    }
}

impl View for ImageAsset {
    type V = ImageAssetModel;

    open spec fn view(&self) -> ImageAssetModel {
        ImageAssetModel { name: self.name@, path: self.path@, dimensions: self.dimensions }
    }
}

impl View for Work {
    type V = WorkModel;

    open spec fn view(&self) -> WorkModel {
        WorkModel {
            key: self.key,
            path: self.path@,
            relative_path: self.relative_path@,
            title: self.title@,
            user_name: self.user_name@,
            image_assets: self.image_assets@.map_values(|a: ImageAsset| a@),
            novel_asset: match self.novel_asset {
                Some(a) => Some(a@),
                None => None,
            },
            id: self.id,
            user_id: self.user_id,
            url: opt_view(self.url),
            image_url: opt_view(self.image_url),
            thumbnail_url: opt_view(self.thumbnail_url),
            age_restriction: opt_view(self.age_restriction),
            ai: self.ai,
            description: opt_view(self.description),
            tags: match self.tags {
                Some(t) => Some(string_views(t@)),
                None => None,
            },
            dimensions: self.dimensions,
            bookmarks: self.bookmarks,
            upload_time: opt_view(self.upload_time),
        }
    }
}

/// The text of an optional name, or the empty text where there is none.
pub open spec fn name_or_empty(o: Option<Seq<char>>) -> Seq<char> {
    match o {
        Some(n) => n,
        None => Seq::empty(),
    }
}

/// The name of the directory that holds the work's directory.
pub open spec fn parent_name(dir: Seq<char>) -> Seq<char> {
    match path_parent(dir) {
        Some(parent) => name_or_empty(path_file_name(parent)),
        None => Seq::empty(),
    }
}

/// What a work holds before its metadata and assets are read: the fields that its path gives.
pub open spec fn required_metadata(collection: Seq<char>, dir: Seq<char>) -> WorkModel {
    WorkModel {
        key: 0,
        path: dir,
        relative_path: name_or_empty(path_relative_to(dir, collection)),
        title: name_or_empty(path_file_name(dir)),
        user_name: parent_name(dir),
        image_assets: Seq::empty(),
        novel_asset: None,
        id: None,
        user_id: None,
        url: None,
        image_url: None,
        thumbnail_url: None,
        age_restriction: None,
        ai: None,
        description: None,
        tags: None,
        dimensions: None,
        bookmarks: None,
        upload_time: None,
    }
}

/// The work with its long text set to the file at `path`, where that path has a file name.
pub open spec fn with_novel_asset(w: WorkModel, path: Seq<char>) -> WorkModel {
    match path_file_name(path) {
        Some(name) => WorkModel { novel_asset: Some(AssetModel { name, path }), ..w },
        None => w,
    }
}

/// The work with the image at `path` appended, where it has a file name and could be measured.
pub open spec fn with_image_asset(
    w: WorkModel,
    path: Seq<char>,
    dimensions: Option<ImageDimensions>,
) -> WorkModel {
    match (path_file_name(path), dimensions) {
        (Some(name), Some(d)) => WorkModel {
            image_assets: w.image_assets.push(ImageAssetModel { name, path, dimensions: d }),
            ..w
        },
        _ => w,
    }
}

fn name_or_empty_string(o: Option<String>) -> (r: String)
    ensures
        r@ == name_or_empty(opt_view(o)),
{
    match o {
        Some(n) => n,
        None => String::new(),
    }
}

/// A work that holds only what the path of its directory gives: its path, its path relative to
/// the collection (empty where the collection is not a prefix), its title (the directory's name)
/// and its user name (the name of the directory above).
pub fn get_required_metadata(collection_path: &str, work_path: &str) -> (r: Work)
    ensures
        r@ == required_metadata(collection_path@, work_path@),
{
    let user_name = match parent_of(work_path) {
        Some(parent) => name_or_empty_string(file_name_of(parent.as_str())),
        None => String::new(),
    };
    let r = Work {
        key: 0,
        path: work_path.to_string(),
        relative_path: name_or_empty_string(relative_to(work_path, collection_path)),
        title: name_or_empty_string(file_name_of(work_path)),
        user_name,
        image_assets: Vec::new(),
        novel_asset: None,
        id: None,
        user_id: None,
        url: None,
        image_url: None,
        thumbnail_url: None,
        age_restriction: None,
        ai: None,
        description: None,
        tags: None,
        dimensions: None,
        bookmarks: None,
        upload_time: None,
    };
    assert(r@.image_assets == Seq::<ImageAssetModel>::empty());
    r
}

/// Sets the work's long text to the file at `novel_asset_path`, where that path has a file name.
pub fn add_novel_asset(novel_asset_path: &str, work: &mut Work)
    ensures
        final(work)@ == with_novel_asset(old(work)@, novel_asset_path@),
{
    if let Some(name) = file_name_of(novel_asset_path) {
        work.novel_asset = Some(Asset { name, path: novel_asset_path.to_string() });
    }
}

/// Appends the image at `image_path` to the work, where the path has a file name and the image
/// could be measured (`dimensions` is its measured size).
pub fn add_image_asset(
    image_path: &str,
    dimensions: Option<ImageDimensions>,
    work: &mut Work,
)
    ensures
        final(work)@ == with_image_asset(old(work)@, image_path@, dimensions),
{
    if let Some(name) = file_name_of(image_path) {
        if let Some(d) = dimensions {
            let ghost before = work.image_assets@;
            let asset = ImageAsset { name, path: image_path.to_string(), dimensions: d };
            work.image_assets.push(asset);
            assert(work.image_assets@.map_values(|a: ImageAsset| a@) == before.map_values(
                |a: ImageAsset| a@,
            ).push(asset@));
        }
    }
}

/// What a file is to a work.
#[derive(Clone, Copy, Debug, PartialEq, Eq, Structural)]
pub enum AssetRole {
    Image,
    Novel,
    Metadata,
    Other,
}

/// The file name suffix of the sidecar metadata file.
pub open spec fn metadata_suffix() -> Seq<char> {
    "-meta.txt"@
}

pub open spec fn is_image_extension(e: Seq<char>) -> bool {
    ||| e == "jpg"@
    ||| e == "png"@
    ||| e == "gif"@
    ||| e == "webm"@
    ||| e == "webp"@
    ||| e == "apng"@
}

pub open spec fn is_novel_extension(e: Seq<char>) -> bool {
    e == "txt"@ || e == "epub"@
}

/// The role of a file by its name: a name ending in `-meta.txt` is the sidecar metadata file;
/// otherwise the extension decides between an image, a long text and a file of no use.
pub open spec fn name_role(name: Seq<char>) -> AssetRole {
    if ends_with(name, metadata_suffix()) {
        AssetRole::Metadata
    } else {
        match extension_of(name) {
            Some(e) => if is_image_extension(e) {
                AssetRole::Image
            } else if is_novel_extension(e) {
                AssetRole::Novel
            } else {
                AssetRole::Other
            },
            None => AssetRole::Other,
        }
    }
}

/// The role of a file by its path: that of its file name, if it has one.
pub open spec fn path_role(p: Seq<char>) -> AssetRole {
    match path_file_name(p) {
        Some(name) => name_role(name),
        None => AssetRole::Other,
    }
}

/// The files of the given role, in their order.
pub open spec fn files_with_role(files: Seq<String>, role: AssetRole) -> Seq<String> {
    files.filter(|f: String| path_role(f@) == role)
}

/// The last file of the given role.
pub open spec fn last_with_role(files: Seq<String>, role: AssetRole) -> Option<String>
    decreases files.len(),
{
    if files.len() == 0 {
        None
    } else if path_role(files.last()@) == role {
        Some(files.last())
    } else {
        last_with_role(files.drop_last(), role)
    }
}

fn is_image_ext(e: &str) -> (r: bool)
    ensures
        r == is_image_extension(e@),
{
    text_equals(e, "jpg") || text_equals(e, "png") || text_equals(e, "gif") || text_equals(
        e,
        "webm",
    ) || text_equals(e, "webp") || text_equals(e, "apng")
}

/// The role of a file, by its name.
pub fn role_of(path: &str) -> (r: AssetRole)
    ensures
        r == path_role(path@),
{
    match file_name_of(path) {
        Some(name) => {
            let chars = chars_of(name.as_str());
            if chars_end_with(&chars, "-meta.txt") {
                AssetRole::Metadata
            } else {
                match extension(name.as_str()) {
                    Some(e) => if is_image_ext(e) {
                        AssetRole::Image
                    } else if text_equals(e, "txt") || text_equals(e, "epub") {
                        AssetRole::Novel
                    } else {
                        AssetRole::Other
                    },
                    None => AssetRole::Other,
                }
            }
        },
        None => AssetRole::Other,
    }
}

/// The files of one directory, sorted by role.
pub struct AssetRoles {
    pub images: Vec<String>,
    pub novel: Option<String>,
    pub metadata: Option<String>,
}

impl AssetRoles {
    /// Whether the directory is a work: it has an image or a sidecar metadata file.
    pub fn is_work(&self) -> (r: bool)
        ensures
            r == (self.images.len() > 0 || self.metadata is Some),
    {
        self.images.len() > 0 || self.metadata.is_some()
    }
}

/// Sorts the files of a directory by role: the images, in ascending order of page number (those
/// without one last), the last long text, and the last sidecar metadata file.
pub fn classify_assets(asset_paths: &Vec<String>) -> (r: AssetRoles)
    ensures
        r.images@.to_multiset() == files_with_role(asset_paths@, AssetRole::Image).to_multiset(),
        sorted_by_page(r.images@),
        r.novel == last_with_role(asset_paths@, AssetRole::Novel),
        r.metadata == last_with_role(asset_paths@, AssetRole::Metadata),
{
    let mut images: Vec<String> = Vec::new();
    let mut novel: Option<String> = None;
    let mut metadata: Option<String> = None;
    let mut i: usize = 0;
    while i < asset_paths.len()
        invariant
            i <= asset_paths.len(),
            images@ == files_with_role(asset_paths@.take(i as int), AssetRole::Image),
            novel == last_with_role(asset_paths@.take(i as int), AssetRole::Novel),
            metadata == last_with_role(asset_paths@.take(i as int), AssetRole::Metadata),
        decreases asset_paths.len() - i,
    {
        let ghost prefix = asset_paths@.take(i as int);
        let ghost next = asset_paths@.take(i + 1);
        assert(next == prefix.push(asset_paths@[i as int]));
        assert(next.drop_last() == prefix);
        let role = role_of(asset_paths[i].as_str());
        match role {
            AssetRole::Image => {
                images.push(asset_paths[i].clone());
            },
            AssetRole::Novel => {
                novel = Some(asset_paths[i].clone());
            },
            AssetRole::Metadata => {
                metadata = Some(asset_paths[i].clone());
            },
            AssetRole::Other => {},
        }
        i += 1;
    }
    assert(asset_paths@.take(asset_paths.len() as int) == asset_paths@);
    AssetRoles { images: sort_by_page(&images), novel, metadata }
}

/// The work with the images appended in order, each with its measured size.
pub open spec fn images_added(
    w: WorkModel,
    images: Seq<String>,
    dimensions: Seq<Option<ImageDimensions>>,
) -> WorkModel
    decreases images.len(),
{
    if images.len() == 0 {
        w
    } else {
        with_image_asset(
            images_added(w, images.drop_last(), dimensions.take(images.len() - 1)),
            images.last()@,
            dimensions[images.len() - 1],
        )
    }
}

/// The work of a directory: the fields of its path, then those of its sidecar text, then its
/// images in order, then its long text.
pub open spec fn built_work(
    collection: Seq<char>,
    dir: Seq<char>,
    images: Seq<String>,
    novel: Option<String>,
    metadata: Option<Seq<char>>,
    dimensions: Seq<Option<ImageDimensions>>,
) -> WorkModel {
    let base = required_metadata(collection, dir);
    let with_metadata = match metadata {
        Some(text) => metadata_applied(base, text),
        None => base,
    };
    let with_images = images_added(with_metadata, images, dimensions);
    match novel {
        Some(p) => with_novel_asset(with_images, p@),
        None => with_images,
    }
}

/// The work that the directory `work_path` makes, or `None` where it is no work (it has neither
/// an image nor a sidecar file). `metadata` is the text of the sidecar file and
/// `image_dimensions` the measured size of each image of `roles`, in order, where it could be
/// measured.
pub fn build_work(
    collection_path: &str,
    work_path: &str,
    roles: &AssetRoles,
    metadata: Option<&str>,
    image_dimensions: &Vec<Option<ImageDimensions>>,
) -> (r: Option<Work>)
    requires
        image_dimensions.len() == roles.images.len(),
    ensures
        r is Some <==> (roles.images.len() > 0 || roles.metadata is Some),
        r matches Some(w) ==> w@ == built_work(
            collection_path@,
            work_path@,
            roles.images@,
            roles.novel,
            match metadata {
                Some(text) => Some(text@),
                None => None,
            },
            image_dimensions@,
        ),
{
    if !roles.is_work() {
        return None;
    }
    let mut work = get_required_metadata(collection_path, work_path);
    if let Some(text) = metadata {
        add_metadata_from_metafile(text, &mut work);
    }
    let ghost with_metadata = work@;
    let mut i: usize = 0;
    while i < roles.images.len()
        invariant
            i <= roles.images.len() == image_dimensions.len(),
            work@ == images_added(
                with_metadata,
                roles.images@.take(i as int),
                image_dimensions@.take(i as int),
            ),
        decreases roles.images.len() - i,
    {
        assert(roles.images@.take(i + 1).drop_last() == roles.images@.take(i as int));
        assert(image_dimensions@.take(i + 1).take(i as int) == image_dimensions@.take(i as int));
        add_image_asset(roles.images[i].as_str(), image_dimensions[i], &mut work);
        i += 1;
    }
    assert(roles.images@.take(roles.images.len() as int) == roles.images@);
    assert(image_dimensions@.take(roles.images.len() as int) == image_dimensions@);
    if let Some(novel) = &roles.novel {
        add_novel_asset(novel.as_str(), &mut work);
    }
    Some(work)
}

} // verus!
