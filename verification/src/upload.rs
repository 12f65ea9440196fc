//! Coordination of one upload to the S3-compatible object store: derive the
//! remote key, check whether the object already exists, and only on a clean
//! not-found answer stream the file up. The store itself is driven outside
//! this crate; this module decides, step by step, what to do next.

use vstd::prelude::*;
use vstd::string::*;

use crate::filter::{base_name, base_name_str};
use crate::state::{prefixed, AppMsg};

verus! {

/// The outcomes the object-store layer distinguishes.
#[derive(Clone, Debug, PartialEq, Eq)]
pub enum S3Result {
    DeleteFailure(String),
    FileOpenFail(String),
    HeadError(String),
    Success,
    UploadFailure(String),
    FileNotFound,
}

impl S3Result {
    /// A one-line description of the outcome.
    pub open spec fn spec_describe(&self) -> Seq<char> {
        match self {
            S3Result::DeleteFailure(s) => "DeleteFailure: "@ + s@,
            S3Result::FileOpenFail(s) => "FileOpenFail: "@ + s@,
            S3Result::HeadError(s) => "HeadError: "@ + s@,
            S3Result::Success => "Success"@,
            S3Result::UploadFailure(s) => "UploadFailure: "@ + s@,
            S3Result::FileNotFound => "FileNotFound"@,
        }
    }

    /// Writes the outcome out as one line, for error reports.
    pub fn describe(&self) -> (r: String)
        ensures
            r@ == self.spec_describe(),
    {
        match self {
            S3Result::DeleteFailure(s) => prefixed("DeleteFailure: ", s.as_str()),
            S3Result::FileOpenFail(s) => prefixed("FileOpenFail: ", s.as_str()),
            S3Result::HeadError(s) => prefixed("HeadError: ", s.as_str()),
            S3Result::Success => {
                let t: &str = "Success";
                t.to_owned()
            },
            S3Result::UploadFailure(s) => prefixed("UploadFailure: ", s.as_str()),
            S3Result::FileNotFound => {
                let t: &str = "FileNotFound";
                t.to_owned()
            },
        }
    }
}

/// What the store's existence check reported, brought back as plain values:
/// the object was found, it was absent, or the check itself failed in one of
/// the transport's ways.
#[derive(Clone, Debug, PartialEq, Eq)]
pub enum HeadOutcome {
    /// The object exists; carries a description of its metadata.
    Found(String),
    /// The store answered and the object is not there.
    NotFound,
    ConstructionFailure(String),
    TimeoutError(String),
    DispatchFailure(String),
    ResponseError(String),
    ServiceOther(String),
}

/// The failure text for a head outcome that is neither found nor not-found.
pub open spec fn head_failure_text(h: HeadOutcome) -> Seq<char> {
    match h {
        HeadOutcome::Found(_) => Seq::empty(),
        HeadOutcome::NotFound => Seq::empty(),
        HeadOutcome::ConstructionFailure(e) => "ConstructionFailure: "@ + e@,
        HeadOutcome::TimeoutError(e) => "TimeoutError: "@ + e@,
        HeadOutcome::DispatchFailure(e) => "DispatchFailure: "@ + e@,
        HeadOutcome::ResponseError(e) => "ResponseError: "@ + e@,
        HeadOutcome::ServiceOther(e) => "ServiceError: "@ + e@,
    }
}

fn head_failure_string(h: &HeadOutcome) -> (r: String)
    ensures
        r@ == head_failure_text(*h),
{
    match h {
        HeadOutcome::Found(_) => String::new(),
        HeadOutcome::NotFound => String::new(),
        HeadOutcome::ConstructionFailure(e) => prefixed("ConstructionFailure: ", e.as_str()),
        HeadOutcome::TimeoutError(e) => prefixed("TimeoutError: ", e.as_str()),
        HeadOutcome::DispatchFailure(e) => prefixed("DispatchFailure: ", e.as_str()),
        HeadOutcome::ResponseError(e) => prefixed("ResponseError: ", e.as_str()),
        HeadOutcome::ServiceOther(e) => prefixed("ServiceError: ", e.as_str()),
    }
}

/// Sorts an existence-check answer into found metadata, or the typed
/// failure the caller reports.
pub fn classify_head(h: HeadOutcome) -> (r: Result<String, S3Result>)
    ensures
        match h {
            HeadOutcome::Found(meta) => r == Ok::<String, S3Result>(meta),
            HeadOutcome::NotFound => r == Err::<String, S3Result>(S3Result::FileNotFound),
            _ => r matches Err(S3Result::HeadError(m)) && m@ == head_failure_text(h),
        },
{
    match h {
        HeadOutcome::Found(meta) => Ok(meta),
        HeadOutcome::NotFound => Err(S3Result::FileNotFound),
        other => {
            let m = head_failure_string(&other);
            Err(S3Result::HeadError(m))
        },
    }
}

/// What the store's put reported, brought back as plain values.
#[derive(Clone, Debug, PartialEq, Eq)]
pub enum PutOutcome {
    /// The object was stored; carries a description of the response.
    Completed(String),
    /// The local file could not be opened.
    FileOpenFail(String),
    /// The store rejected or dropped the upload.
    UploadFailure(String),
}

/// Sorts a put answer into the stored response, or the typed failure the
/// caller reports.
pub fn classify_put(p: PutOutcome) -> (r: Result<String, S3Result>)
    ensures
        match p {
            PutOutcome::Completed(m) => r == Ok::<String, S3Result>(m),
            PutOutcome::FileOpenFail(e) => r matches Err(S3Result::FileOpenFail(m)) && m@
                == "Failed to open file: "@ + e@,
            PutOutcome::UploadFailure(e) => r matches Err(S3Result::UploadFailure(m)) && m@
                == "Failed to upload file: "@ + e@,
        },
{
    match p {
        PutOutcome::Completed(m) => Ok(m),
        PutOutcome::FileOpenFail(e) => Err(
            S3Result::FileOpenFail(prefixed("Failed to open file: ", e.as_str())),
        ),
        PutOutcome::UploadFailure(e) => Err(
            S3Result::UploadFailure(prefixed("Failed to upload file: ", e.as_str())),
        ),
    }
}

/// Where one upload stands.
#[derive(Debug, PartialEq, Eq)]
pub enum UploadStep {
    /// Waiting for the store configuration to load.
    NeedConfig { filepath: String },
    /// Waiting for the existence check on the derived key.
    NeedHead { filepath: String, key: String },
    /// Waiting for the put of the file under the key.
    NeedPut { filepath: String, key: String },
    /// The outcome has been reported; nothing more will be asked for.
    Finished,
}

/// An answer from the outside work the coordinator asked for.
#[derive(Debug, PartialEq, Eq)]
pub enum UploadEvent {
    /// Whether the configuration loaded; `error` describes the failure.
    ConfigOutcome { loaded: bool, error: String },
    HeadDone(HeadOutcome),
    PutDone(PutOutcome),
}

/// The next piece of outside work, or the response to send back.
#[derive(Debug, PartialEq, Eq)]
pub enum UploadCommand {
    /// Load the store configuration.
    LoadConfig,
    /// Ask the store whether `key` exists.
    DoHead { key: String },
    /// Stream the local file to the store under `key`.
    DoPut { key: String, filepath: String },
    /// Report this response to the controller.
    Emit { response: AppMsg },
    /// Nothing is left to do.
    NoCommand,
}

/// Opens the upload of `filepath`: the configuration is wanted first.
pub fn upload_start(filepath: String) -> (r: (UploadStep, UploadCommand))
    ensures
        r.0 == (UploadStep::NeedConfig { filepath }),
        r.1 == UploadCommand::LoadConfig,
{
    (UploadStep::NeedConfig { filepath }, UploadCommand::LoadConfig)
}

/// Advances one upload by one answer. Total: every step and event pair has
/// a defined successor. A put is commanded only on the one path where the
/// existence check just reported the key absent, so a found object is never
/// uploaded over.
pub fn upload_step(step: UploadStep, event: UploadEvent) -> (r: (UploadStep, UploadCommand))
    ensures
        r.1 matches UploadCommand::DoPut { .. } ==> step matches UploadStep::NeedHead { .. }
            && event == UploadEvent::HeadDone(HeadOutcome::NotFound),
        r.1 matches UploadCommand::Emit { response } ==> (response matches AppMsg::UploadAborted(
            _,
        ) || response matches AppMsg::UploadComplete(_) || response matches AppMsg::Error(_)),
        (match (step, event) {
            (
                UploadStep::NeedConfig { filepath },
                UploadEvent::ConfigOutcome { loaded, error },
            ) => {
                if loaded {
                    &&& r.0 matches UploadStep::NeedHead { filepath: f, key } && f == filepath
                        && key@ == base_name(filepath@)
                    &&& r.1 matches UploadCommand::DoHead { key } && key@ == base_name(filepath@)
                } else {
                    &&& r.0 is Finished
                    &&& r.1 matches UploadCommand::Emit { response } && response matches
                        AppMsg::UploadAborted(m) && m@ == "Failed to create S3 Client: "@ + error@
                }
            },
            (UploadStep::NeedHead { filepath, key }, UploadEvent::HeadDone(h)) => {
                match h {
                    HeadOutcome::Found(meta) => {
                        &&& r.0 is Finished
                        &&& r.1 matches UploadCommand::Emit { response } && response matches
                            AppMsg::UploadAborted(m) && m@ == "File Exists in s3: "@ + meta@
                    },
                    HeadOutcome::NotFound => {
                        &&& r.0 matches UploadStep::NeedPut { filepath: f, key: k } && f
                            == filepath && k == key
                        &&& r.1 matches UploadCommand::DoPut { key: k, filepath: f } && k == key
                            && f == filepath
                    },
                    _ => {
                        &&& r.0 is Finished
                        &&& r.1 matches UploadCommand::Emit { response } && response matches
                            AppMsg::Error(m) && m@ == "Failed to check existence of file in S3: "@
                            + "HeadError: "@ + head_failure_text(h)
                    },
                }
            },
            (UploadStep::NeedPut { filepath, key }, UploadEvent::PutDone(p)) => {
                match p {
                    PutOutcome::Completed(_) => {
                        &&& r.0 is Finished
                        &&& r.1 matches UploadCommand::Emit { response } && response
                            == AppMsg::UploadComplete(filepath)
                    },
                    PutOutcome::FileOpenFail(e) => {
                        &&& r.0 is Finished
                        &&& r.1 matches UploadCommand::Emit { response } && response matches
                            AppMsg::Error(m) && m@ == "FileOpenFail: "@ + "Failed to open file: "@
                            + e@
                    },
                    PutOutcome::UploadFailure(e) => {
                        &&& r.0 is Finished
                        &&& r.1 matches UploadCommand::Emit { response } && response matches
                            AppMsg::Error(m) && m@ == "UploadFailure: "@
                            + "Failed to upload file: "@ + e@
                    },
                }
            },
            (UploadStep::Finished, _) => r.0 is Finished && r.1 is NoCommand,
            _ => {
                &&& r.0 is Finished
                &&& r.1 matches UploadCommand::Emit { response } && response matches AppMsg::Error(
                    m,
                ) && m@ == "The store answered out of turn"@
            },
        }),
{
    match (step, event) {
        (UploadStep::NeedConfig { filepath }, UploadEvent::ConfigOutcome { loaded, error }) => {
            if loaded {
                let key = base_name_str(filepath.as_str());
                let key2 = key.clone();
                (UploadStep::NeedHead { filepath, key }, UploadCommand::DoHead { key: key2 })
            } else {
                let m = prefixed("Failed to create S3 Client: ", error.as_str());
                (
                    UploadStep::Finished,
                    UploadCommand::Emit { response: AppMsg::UploadAborted(m) },
                )
            }
        },
        (UploadStep::NeedHead { filepath, key }, UploadEvent::HeadDone(h)) => {
            match h {
                HeadOutcome::Found(meta) => {
                    let m = prefixed("File Exists in s3: ", meta.as_str());
                    (
                        UploadStep::Finished,
                        UploadCommand::Emit { response: AppMsg::UploadAborted(m) },
                    )
                },
                HeadOutcome::NotFound => {
                    let f2 = filepath.clone();
                    let k2 = key.clone();
                    (
                        UploadStep::NeedPut { filepath, key },
                        UploadCommand::DoPut { key: k2, filepath: f2 },
                    )
                },
                other => {
                    let detail = S3Result::HeadError(head_failure_string(&other)).describe();
                    let m = prefixed(
                        "Failed to check existence of file in S3: ",
                        detail.as_str(),
                    );
                    (UploadStep::Finished, UploadCommand::Emit { response: AppMsg::Error(m) })
                },
            }
        },
        (UploadStep::NeedPut { filepath, key: _ }, UploadEvent::PutDone(p)) => {
            match p {
                PutOutcome::Completed(_) => (
                    UploadStep::Finished,
                    UploadCommand::Emit { response: AppMsg::UploadComplete(filepath) },
                ),
                PutOutcome::FileOpenFail(e) => {
                    let m = S3Result::FileOpenFail(
                        prefixed("Failed to open file: ", e.as_str()),
                    ).describe();
                    (UploadStep::Finished, UploadCommand::Emit { response: AppMsg::Error(m) })
                },
                PutOutcome::UploadFailure(e) => {
                    let m = S3Result::UploadFailure(
                        prefixed("Failed to upload file: ", e.as_str()),
                    ).describe();
                    (UploadStep::Finished, UploadCommand::Emit { response: AppMsg::Error(m) })
                },
            }
        },
        (UploadStep::Finished, _) => (UploadStep::Finished, UploadCommand::NoCommand),
        _ => {
            let t: &str = "The store answered out of turn";
            (
                UploadStep::Finished,
                UploadCommand::Emit { response: AppMsg::Error(t.to_owned()) },
            )
        },
    }
}

/// The local path an unfinished upload is working for.
pub open spec fn step_works_for(step: UploadStep, filepath: Seq<char>) -> bool {
    match step {
        UploadStep::NeedConfig { filepath: f } => f@ == filepath,
        UploadStep::NeedHead { filepath: f, .. } => f@ == filepath,
        UploadStep::NeedPut { filepath: f, .. } => f@ == filepath,
        UploadStep::Finished => true,
    }
}

/// Runs one whole upload against the given answers, in order, and returns
/// the one response the controller sees. A completed-upload response always
/// names the file the upload was asked for, and each of the three plain
/// paths through the flow ends in its documented response.
pub fn run_upload(filepath: String, events: Vec<UploadEvent>) -> (r: AppMsg)
    ensures
        r matches AppMsg::UploadComplete(f) ==> f@ == filepath@,
        (r matches AppMsg::UploadComplete(_) || r matches AppMsg::UploadAborted(_)
            || r matches AppMsg::Error(_)),
        events@.len() >= 1 ==> (events@[0] matches UploadEvent::ConfigOutcome {
            loaded: false,
            error,
        } ==> (r matches AppMsg::UploadAborted(m) && m@ == "Failed to create S3 Client: "@
            + error@)),
        events@.len() >= 2 && config_loaded(events@[0]) ==> (events@[1] matches
        UploadEvent::HeadDone(HeadOutcome::Found(meta)) ==> (r matches AppMsg::UploadAborted(m)
            && m@ == "File Exists in s3: "@ + meta@)),
        events@.len() >= 3 && config_loaded(events@[0]) && events@[1]
            == UploadEvent::HeadDone(HeadOutcome::NotFound) ==> (events@[2] matches
        UploadEvent::PutDone(PutOutcome::Completed(_)) ==> (r matches AppMsg::UploadComplete(f)
            && f@ == filepath@)),
{
    let ghost path_view = filepath@;
    let ghost all = events@;
    let (st0, _cmd0) = upload_start(filepath);
    let mut st = st0;
    let mut evs = events;
    while evs.len() > 0
        invariant
            path_view == filepath@,
            step_works_for(st, path_view),
            all == events@,
            evs@.len() <= all.len(),
            evs@ == all.subrange(all.len() - evs@.len(), all.len() as int),
            all.len() - evs@.len() == 0 ==> st == (UploadStep::NeedConfig { filepath }),
            all.len() - evs@.len() >= 1 ==> config_loaded(all[0]),
            all.len() - evs@.len() == 1 ==> st matches UploadStep::NeedHead { .. },
            all.len() - evs@.len() >= 2 ==> all[1] == UploadEvent::HeadDone(
                HeadOutcome::NotFound,
            ),
            all.len() - evs@.len() == 2 ==> st matches UploadStep::NeedPut { .. },
            all.len() - evs@.len() <= 2,
        decreases evs.len(),
    {
        let ghost consumed = all.len() - evs@.len();
        let ev = evs.remove(0);
        proof {
            assert(ev == all[consumed as int]);
            assert(evs@ =~= all.subrange(all.len() - evs@.len(), all.len() as int));
        }
        let (nst, cmd) = upload_step(st, ev);
        st = nst;
        if let UploadCommand::Emit { response } = cmd {
            return response;
        }
    }
    let t: &str = "The store never answered";
    AppMsg::Error(t.to_owned())
}

/// The configuration answer reports a loaded configuration.
pub open spec fn config_loaded(e: UploadEvent) -> bool {
    e matches UploadEvent::ConfigOutcome { loaded: true, .. }
}

} // verus!
