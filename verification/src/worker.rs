//! The background worker's logic: one request in, exactly one response out,
//! requests handled strictly in arrival order, one at a time. Reading files
//! and talking to the object store happen outside this crate; decoding a
//! thumbnail from bytes is delegated to the image decoder behind a single
//! trusted boundary.

use vstd::prelude::*;

use crate::cache::{ThumbBitmap, ThumbImageMsg};
use crate::state::{prefixed, AppMsg};
use crate::upload::{config_loaded, run_upload, HeadOutcome, PutOutcome, UploadEvent};
use crate::{THUMBNAIL_HEIGHT, THUMBNAIL_WIDTH};

verus! {

/// What `image::load_from_memory` followed by `DynamicImage::thumbnail` and
/// `to_rgba8` produces: pixel bytes with their dimensions, or nothing when
/// the bytes decode to no image. A function of the bytes and bounds alone.
pub uninterp spec fn thumbnail_of(bytes: Seq<u8>, max_w: u32, max_h: u32) -> Option<
    (Seq<u8>, u32, u32),
>;

/// Relies on `image::load_from_memory`, `DynamicImage::thumbnail` and
/// `to_rgba8`: decodes the bytes, scales the image to fit within the given
/// bounds keeping its aspect ratio, and lays it out as four bytes per
/// pixel. Whether and how the bytes decode depends on the bytes alone; the
/// resulting dimensions are at least one and within positive bounds.
#[verifier::external_body]
fn decode_and_resize(bytes: &[u8], max_w: u32, max_h: u32) -> (r: Result<(Vec<u8>, u32, u32), String>)
    ensures
        match r {
            Ok(t) => {
                &&& thumbnail_of(bytes@, max_w, max_h) == Some((t.0@, t.1, t.2))
                &&& t.0@.len() == 4 * (t.1 as int) * (t.2 as int)
                &&& t.1 >= 1 && t.2 >= 1
                &&& (max_w >= 1 ==> t.1 <= max_w)
                &&& (max_h >= 1 ==> t.2 <= max_h)
            },
            Err(_) => thumbnail_of(bytes@, max_w, max_h) is None,
        },
{
    let img = match image::load_from_memory(bytes) {
        Ok(i) => i,
        Err(e) => return Err(e.to_string()),
    };
    let thumb = img.thumbnail(max_w, max_h);
    let (w, h) = (thumb.width(), thumb.height());
    Ok((thumb.to_rgba8().into_raw(), w, h))
}

/// Decodes image bytes into a bitmap no larger than the given bounds.
pub fn decode_thumbnail(bytes: &[u8], max_w: u32, max_h: u32) -> (r: Result<ThumbBitmap, String>)
    ensures
        match r {
            Ok(b) => {
                &&& thumbnail_of(bytes@, max_w, max_h) == Some((b.rgba@, b.width, b.height))
                &&& b.wf()
                &&& b.width >= 1 && b.height >= 1
                &&& (max_w >= 1 ==> b.width <= max_w)
                &&& (max_h >= 1 ==> b.height <= max_h)
            },
            Err(_) => thumbnail_of(bytes@, max_w, max_h) is None,
        },
{
    match decode_and_resize(bytes, max_w, max_h) {
        Ok((rgba, width, height)) => Ok(ThumbBitmap { rgba, width, height }),
        Err(e) => Err(e),
    }
}

/// What the response to one load request must hold: a thumbnail under the
/// requested path and page when the bytes decoded, a failure report naming
/// the file otherwise.
pub open spec fn load_response_spec(
    resp: AppMsg,
    filepath: Seq<char>,
    page: usize,
    read: Result<Vec<u8>, String>,
) -> bool {
    match read {
        Ok(bytes) => match thumbnail_of(bytes@, THUMBNAIL_WIDTH, THUMBNAIL_HEIGHT) {
            Some(t) => {
                &&& resp matches AppMsg::ThumbImageResponse(r) && r.filepath@ == filepath
                    && r.page == page && (r.image matches Some(b) && b.rgba@ == t.0 && b.width
                    == t.1 && b.height == t.2)
            },
            None => {
                &&& resp matches AppMsg::ImageLoadFailed { filename, error } && filename@
                    == filepath
            },
        },
        Err(e) => {
            &&& resp matches AppMsg::ImageLoadFailed { filename, error } && filename@ == filepath
                && error == e
        },
    }
}

/// Turns what was read from disk into the one response for a load request:
/// decode failures and read failures are reported, never retried.
pub fn handle_load(filepath: String, page: usize, read: Result<Vec<u8>, String>) -> (resp: AppMsg)
    ensures
        load_response_spec(resp, filepath@, page, read),
{
    match read {
        Ok(bytes) => match decode_thumbnail(bytes.as_slice(), THUMBNAIL_WIDTH, THUMBNAIL_HEIGHT) {
            Ok(bitmap) => AppMsg::ThumbImageResponse(
                ThumbImageMsg { filepath, page, image: Some(bitmap) },
            ),
            Err(error) => AppMsg::ImageLoadFailed { filename: filepath, error },
        },
        Err(error) => AppMsg::ImageLoadFailed { filename: filepath, error },
    }
}

/// The outside work one request needs before it can be answered: the file's
/// bytes for a load, the store's answers for an upload, nothing else.
#[derive(Debug, PartialEq, Eq)]
pub enum WorkResult {
    ReadFile(Result<Vec<u8>, String>),
    StoreAnswers(Vec<UploadEvent>),
    NoWork,
}

/// The result kind each request kind needs.
pub open spec fn result_fits(req: AppMsg, result: WorkResult) -> bool {
    match req {
        AppMsg::LoadImage(_) => result matches WorkResult::ReadFile(_),
        AppMsg::UploadImage(_) => result matches WorkResult::StoreAnswers(_),
        AppMsg::NewAppState(_) => result matches WorkResult::NoWork,
        AppMsg::Error(_) => result matches WorkResult::NoWork,
        _ => false,
    }
}

/// The response answers the request: it reports on the very file or state
/// the request named.
pub open spec fn responds_to(resp: AppMsg, req: AppMsg) -> bool {
    match req {
        AppMsg::LoadImage(m) => {
            ||| resp matches AppMsg::ThumbImageResponse(t) && t.filepath@ == m.filepath@
                && t.page == m.page
            ||| resp matches AppMsg::ImageLoadFailed { filename, error } && filename@
                == m.filepath@
        },
        AppMsg::NewAppState(_) => resp == req,
        AppMsg::UploadImage(fp) => {
            ||| resp matches AppMsg::UploadComplete(f) && f@ == fp@
            ||| resp matches AppMsg::UploadAborted(_)
            ||| resp matches AppMsg::Error(_)
        },
        AppMsg::Error(_) => resp matches AppMsg::Error(_),
        _ => false,
    }
}

/// Answers one request: state changes pass through unchanged, loads carry
/// the decode's outcome, uploads carry the coordinator's outcome, and a
/// stray error is bounced back as an error.
pub fn handle_request(req: AppMsg, result: WorkResult) -> (resp: AppMsg)
    requires
        result_fits(req, result),
    ensures
        responds_to(resp, req),
        (match (req, result) {
            (AppMsg::LoadImage(m), WorkResult::ReadFile(read)) => load_response_spec(
                resp,
                m.filepath@,
                m.page,
                read,
            ),
            (AppMsg::NewAppState(_), _) => resp == req,
            (AppMsg::Error(e), _) => {
                &&& resp matches AppMsg::Error(m) && m@ == "The frontend sent Error("@ + e@
                    + ") to the backend!"@
            },
            (AppMsg::UploadImage(fp), WorkResult::StoreAnswers(events)) => {
                &&& events@.len() >= 1 ==> (events@[0] matches UploadEvent::ConfigOutcome {
                    loaded: false,
                    error,
                } ==> (resp matches AppMsg::UploadAborted(m) && m@
                    == "Failed to create S3 Client: "@ + error@))
                &&& events@.len() >= 2 && config_loaded(events@[0]) ==> (events@[1] matches
                    UploadEvent::HeadDone(HeadOutcome::Found(meta)) ==> (resp matches
                AppMsg::UploadAborted(m) && m@ == "File Exists in s3: "@ + meta@))
                &&& events@.len() >= 3 && config_loaded(events@[0]) && events@[1]
                    == UploadEvent::HeadDone(HeadOutcome::NotFound) ==> (events@[2] matches
                    UploadEvent::PutDone(PutOutcome::Completed(_)) ==> (resp matches
                AppMsg::UploadComplete(f) && f@ == fp@))
            },
            _ => true,
        }),
{
    match (req, result) {
        (AppMsg::LoadImage(m), WorkResult::ReadFile(read)) => handle_load(
            m.filepath,
            m.page,
            read,
        ),
        (AppMsg::NewAppState(s), _) => AppMsg::NewAppState(s),
        (AppMsg::UploadImage(fp), WorkResult::StoreAnswers(events)) => run_upload(fp, events),
        (AppMsg::Error(e), _) => {
            let m = prefixed("The frontend sent Error(", e.as_str());
            let m2 = prefixed(m.as_str(), ") to the backend!");
            AppMsg::Error(m2)
        },
        _ => vstd::pervasive::unreached(),
    }
}

/// Drains a queue of requests strictly in arrival order and produces
/// exactly one response per request: the response at each position answers
/// the request at the same position, so responses come back in the order
/// the requests were submitted.
pub fn respond_all(requests: Vec<AppMsg>, results: Vec<WorkResult>) -> (responses: Vec<AppMsg>)
    requires
        requests@.len() == results@.len(),
        forall|i: int|
            0 <= i < requests@.len() ==> result_fits(#[trigger] requests@[i], results@[i]),
    ensures
        responses@.len() == requests@.len(),
        forall|i: int|
            0 <= i < requests@.len() ==> responds_to(#[trigger] responses@[i], requests@[i]),
        forall|i: int|
            0 <= i < requests@.len() ==> ((#[trigger] requests@[i]) matches AppMsg::NewAppState(
                _,
            ) ==> responses@[i] == requests@[i]),
{
    let mut reqs = requests;
    let mut ress = results;
    let mut out: Vec<AppMsg> = Vec::new();
    while reqs.len() > 0
        invariant
            reqs@.len() == ress@.len(),
            out@.len() + reqs@.len() == requests@.len(),
            reqs@ == requests@.subrange(out@.len() as int, requests@.len() as int),
            ress@ == results@.subrange(out@.len() as int, results@.len() as int),
            results@.len() == requests@.len(),
            forall|i: int|
                0 <= i < requests@.len() ==> result_fits(#[trigger] requests@[i], results@[i]),
            forall|i: int| 0 <= i < out@.len() ==> responds_to(#[trigger] out@[i], requests@[i]),
            forall|i: int|
                0 <= i < out@.len() ==> ((#[trigger] requests@[i]) matches AppMsg::NewAppState(
                    _,
                ) ==> out@[i] == requests@[i]),
        decreases reqs@.len(),
    {
        let ghost done = out@.len() as int;
        let rq = reqs.remove(0);
        let rs = ress.remove(0);
        proof {
            assert(rq == requests@[done]);
            assert(rs == results@[done]);
            assert(reqs@ =~= requests@.subrange(done + 1, requests@.len() as int));
            assert(ress@ =~= results@.subrange(done + 1, results@.len() as int));
        }
        let resp = handle_request(rq, rs);
        out.push(resp);
    }
    out
}

} // verus!
