//! Data carried between the browser front end and the directory back end:
//! file listings, per-image metadata, and the actions a user can ask for.

use vstd::prelude::*;

verus! {

/// Default bounding box, in pixels, for a resize action.
pub const RESIZE_DEFAULT_X: u32 = 800;

/// Default bounding box, in pixels, for a resize action.
pub const RESIZE_DEFAULT_Y: u32 = 800;

/// One page of directory contents, together with the total count of
/// eligible files in the directory.
#[derive(Clone, Debug, PartialEq, Eq)]
pub struct FileList {
    pub files: Vec<String>,
    pub total_files: usize,
}

impl FileList {
    /// A listing with no files at all.
    pub fn empty() -> (r: FileList)
        ensures
            r.files@.len() == 0,
            r.total_files == 0,
    {
        FileList { files: Vec::new(), total_files: 0 }
    }
}

impl FileList {
    /// One page of an already filtered listing: at most `limit` files from
    /// `offset` on, clamped to the listing's end, with the total count of
    /// files alongside.
    pub fn page(files: &Vec<String>, offset: u32, limit: u32) -> (r: FileList)
        ensures
            r.total_files == files@.len(),
            ({
                let n = files@.len() as int;
                let lo = if offset as int <= n {
                    offset as int
                } else {
                    n
                };
                let hi = if n - lo < limit as int {
                    n
                } else {
                    lo + limit as int
                };
                r.files.deep_view() == files.deep_view().subrange(lo, hi)
            }),
    {
        let ghost dv = files.deep_view();
        let n = files.len();
        proof {
            assert(dv.len() == n);
        }
        let lo: usize = if offset as usize <= n {
            offset as usize
        } else {
            n
        };
        let hi: usize = if n - lo < limit as usize {
            n
        } else {
            lo + limit as usize
        };
        let mut out: Vec<String> = Vec::new();
        let mut i: usize = lo;
        while i < hi
            invariant
                lo <= i <= hi <= n,
                n == files@.len(),
                dv == files.deep_view(),
                dv.len() == n,
                out.deep_view() == dv.subrange(lo as int, i as int),
            decreases hi - i,
        {
            let ghost prev = out.deep_view();
            out.push(files[i].clone());
            proof {
                assert(out.deep_view() =~= prev.push(dv[i as int]));
                assert(prev.push(dv[i as int]) =~= dv.subrange(lo as int, i + 1));
            }
            i += 1;
        }
        FileList { files: out, total_files: n }
    }
}

/// The image container formats the decoder distinguishes.
#[derive(Clone, Copy, Debug, PartialEq, Eq, Structural)]
pub enum ImageFormat {
    Png,
    Jpeg,
    Gif,
    WebP,
    Pnm,
    Tiff,
    Tga,
    Dds,
    Bmp,
    Ico,
    Hdr,
    OpenExr,
    Farbfeld,
    Avif,
    Unknown,
}

/// Everything the viewer knows about one image file.
#[derive(Clone, Debug, PartialEq, Eq)]
pub struct ImageData {
    pub content_type: String,
    pub file_path: String,
    pub file_url: Option<String>,
    pub file_size: Option<u64>,
    pub file_dimensions: Option<(u32, u32)>,
    pub file_type: Option<ImageFormat>,
}

/// A request for one page of a directory listing.
#[derive(Clone, Debug, PartialEq, Eq)]
pub struct PathArgs<'a> {
    pub path: &'a str,
    pub limit: u32,
    pub offset: u32,
}

/// The light-weight reference to an image handed between views.
#[derive(Clone, Debug, PartialEq, Eq)]
pub struct ImagePassed {
    pub path: String,
    pub file_url: String,
    pub image_format: Option<ImageFormat>,
}

/// What the user asked to do with an image.
#[derive(Clone, Debug, PartialEq, Eq)]
pub enum ImageAction {
    Delete,
    Resize { x: u32, y: u32 },
    Rename { new_path: String },
}

/// What `mime_guess::from_path(..).first()` returns: the media type guessed
/// from the path's extension, a function of the path's characters alone.
pub uninterp spec fn mime_of(path: Seq<char>) -> Option<Seq<char>>;

/// Relies on `mime_guess::from_path`: the first guess for the path's media
/// type, looked up in a fixed table by file extension.
#[verifier::external_body]
pub(crate) fn guess_mime_type(path: &str) -> (r: Option<String>)
    ensures
        match r {
            Some(m) => mime_of(path@) == Some(m@),
            None => mime_of(path@) is None,
        },
{
    mime_guess::from_path(path).first().map(|m| m.to_string())
}

/// The media type recorded for a browsed file: the guess from the file
/// extension, or `image/jpeg` when the extension is unknown.
pub open spec fn content_type_of(path: Seq<char>) -> Seq<char> {
    match mime_of(path) {
        Some(m) => m,
        None => "image/jpeg"@,
    }
}

impl ImageData {
    /// The browser's record of a listed file, before its pixels are read:
    /// path and URL, and a media type derived from the URL.
    pub fn for_listing(file_path: String, file_url: String) -> (r: ImageData)
        ensures
            r.content_type@ == content_type_of(file_url@),
            r.file_path == file_path,
            r.file_url == Some(file_url),
            r.file_size is None,
            r.file_dimensions is None,
            r.file_type is None,
    {
        let content_type = match guess_mime_type(file_url.as_str()) {
            Some(m) => m,
            None => {
                let d: &str = "image/jpeg";
                d.to_owned()
            },
        };
        ImageData {
            content_type,
            file_path,
            file_url: Some(file_url),
            file_size: None,
            file_dimensions: None,
            file_type: None,
        }
    }

    /// Full metadata for an opened image, assembled from what the
    /// filesystem reported. Returns nothing when no media type is known for
    /// the path.
    pub fn try_from_parts(passed: ImagePassed, file_size: u64, file_dimensions: (u32, u32)) -> (r:
        Option<ImageData>)
        ensures
            match r {
                Some(d) => {
                    &&& mime_of(passed.path@) == Some(d.content_type@)
                    &&& d.file_path == passed.path
                    &&& d.file_url == Some(passed.file_url)
                    &&& d.file_size == Some(file_size)
                    &&& d.file_dimensions == Some(file_dimensions)
                    &&& d.file_type == passed.image_format
                },
                None => mime_of(passed.path@) is None,
            },
    {
        let content_type = match guess_mime_type(passed.path.as_str()) {
            Some(m) => m,
            None => {
                return None;
            },
        };
        Some(
            ImageData {
                content_type,
                file_path: passed.path,
                file_url: Some(passed.file_url),
                file_size: Some(file_size),
                file_dimensions: Some(file_dimensions),
                file_type: passed.image_format,
            },
        )
    }

    /// The bare record the editor starts from when only a path is known.
    pub fn from_passed(input: ImagePassed) -> (r: ImageData)
        ensures
            r.content_type@.len() == 0,
            r.file_path == input.path,
            r.file_url is None,
            r.file_size is None,
            r.file_dimensions is None,
            r.file_type is None,
    {
        ImageData {
            content_type: String::new(),
            file_path: input.path,
            file_url: None,
            file_size: None,
            file_dimensions: None,
            file_type: None,
        }
    }
}

impl ImagePassed {
    /// The reference handed to the viewer for an image the browser listed;
    /// nothing when the browser never learned the image's URL.
    pub fn from_image_data(input: &ImageData) -> (r: Option<ImagePassed>)
        ensures
            match r {
                Some(p) => {
                    &&& input.file_url == Some(p.file_url)
                    &&& p.path == input.file_path
                    &&& p.image_format is None
                },
                None => input.file_url is None,
            },
    {
        match &input.file_url {
            Some(u) => Some(
                ImagePassed {
                    path: input.file_path.clone(),
                    file_url: u.clone(),
                    image_format: None,
                },
            ),
            None => None,
        }
    }
}

} // verus!
