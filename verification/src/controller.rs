//! The foreground controller: it owns the application state, the directory
//! snapshot and the thumbnail cache, decides when a rescan is due, issues
//! load requests for visible files that are not cached yet, and merges the
//! worker's responses back into state and cache.

use vstd::prelude::*;

use crate::cache::{ThumbCache, ThumbImageMsg};
use crate::config::Configuration;
use crate::filter::{snapshot_filter, snapshot_pred, str_eq};
use crate::state::{prefixed, AppMsg, AppState, Effect, KeyInput, UserAction};

verus! {

/// The slice of the listing that one browser page shows: the whole listing
/// while it fits on a page, otherwise the page-th chunk of `per_page`
/// files, empty when the page lies past the end.
pub open spec fn page_slice(files: Seq<Seq<char>>, per_page: int, page: int) -> Seq<Seq<char>> {
    if files.len() <= per_page {
        files
    } else if page * per_page >= files.len() {
        Seq::empty()
    } else if page * per_page + per_page <= files.len() {
        files.subrange(page * per_page, page * per_page + per_page)
    } else {
        files.subrange(page * per_page, files.len() as int)
    }
}

/// Keeps the paths that are not in the cache.
pub open spec fn pending_pred(cache: ThumbCache) -> spec_fn(Seq<char>) -> bool {
    |p: Seq<char>| !cache.has(p)
}

/// Keeps the paths that are in the cache.
pub open spec fn cached_pred(cache: ThumbCache) -> spec_fn(Seq<char>) -> bool {
    |p: Seq<char>| cache.has(p)
}

/// The foreground controller's state.
pub struct MemeTool {
    /// Current working directory.
    pub workdir: String,
    /// Filters the list of files in the browser.
    pub search_box: String,
    pub search_box_last: Option<String>,
    /// The current directory snapshot.
    pub files_list: Vec<String>,
    pub current_page: usize,
    pub app_state: AppState,
    pub last_checked_dir: Option<String>,
    pub last_checked_page: Option<usize>,
    pub per_page: usize,
    /// The thumbnail cache.
    pub browser_images: ThumbCache,
    pub allow_shortcuts: bool,
    pub editor_rename_target: String,
    pub editor_rename_has_focus: bool,
    pub configuration: Option<Configuration>,
}

impl MemeTool {
    /// A page holds at least one file, and cached paths are unique.
    pub open spec fn wf(&self) -> bool {
        self.per_page >= 1 && self.browser_images.wf()
    }

    /// Every dirty check passes: directory, page and search text are the
    /// ones last rescanned for.
    pub open spec fn checks_clean(&self) -> bool {
        &&& self.last_checked_dir matches Some(d) && d@ == self.workdir@
        &&& self.last_checked_page == Some(self.current_page)
        &&& self.search_box_last matches Some(s) && s@ == self.search_box@
    }

    /// A fresh controller looking at the given directory, on the first
    /// page, browsing, with nothing cached and nothing checked yet.
    pub fn new(workdir: String, per_page: usize) -> (r: MemeTool)
        requires
            per_page >= 1,
        ensures
            r.wf(),
            r.workdir == workdir,
            r.search_box@.len() == 0,
            r.search_box_last is None,
            r.files_list@.len() == 0,
            r.current_page == 0,
            r.app_state is Browser,
            r.last_checked_dir is None,
            r.last_checked_page is None,
            r.per_page == per_page,
            forall|p: Seq<char>| !r.browser_images.has(p),
            r.allow_shortcuts,
            r.editor_rename_target@.len() == 0,
            !r.editor_rename_has_focus,
            r.configuration is None,
    {
        MemeTool {
            workdir,
            search_box: String::new(),
            search_box_last: None,
            files_list: Vec::new(),
            current_page: 0,
            app_state: AppState::Browser,
            last_checked_dir: None,
            last_checked_page: None,
            per_page,
            browser_images: ThumbCache::new(),
            allow_shortcuts: true,
            editor_rename_target: String::new(),
            editor_rename_has_focus: false,
            configuration: None,
        }
    }

    /// The files of the current page, in snapshot order.
    pub fn get_page(&self) -> (r: Vec<String>)
        requires
            self.wf(),
        ensures
            r.deep_view() == page_slice(
                self.files_list.deep_view(),
                self.per_page as int,
                self.current_page as int,
            ),
    {
        let ghost dv = self.files_list.deep_view();
        let n = self.files_list.len();
        proof {
            assert(dv.len() == n);
        }
        if n <= self.per_page {
            clone_string_vec(&self.files_list)
        } else {
            match self.current_page.checked_mul(self.per_page) {
                None => {
                    proof {
                        assert(self.current_page * self.per_page > usize::MAX >= n);
                    }
                    Vec::new()
                },
                Some(start) => {
                    if start >= n {
                        Vec::new()
                    } else {
                        let end = if n - start < self.per_page {
                            n
                        } else {
                            start + self.per_page
                        };
                        let mut out: Vec<String> = Vec::new();
                        let mut i: usize = start;
                        while i < end
                            invariant
                                start <= i <= end <= n,
                                n == self.files_list@.len(),
                                dv == self.files_list.deep_view(),
                                dv.len() == n,
                                out.deep_view() == dv.subrange(start as int, i as int),
                            decreases end - i,
                        {
                            let ghost prev = out.deep_view();
                            out.push(self.files_list[i].clone());
                            proof {
                                assert(out.deep_view() =~= prev.push(dv[i as int]));
                                assert(prev.push(dv[i as int]) =~= dv.subrange(
                                    start as int,
                                    i + 1,
                                ));
                            }
                            i += 1;
                        }
                        out
                    }
                },
            }
        }
    }

    /// Whether a rescan is due: the directory, the page or the search text
    /// changed since the last check, or nothing was checked yet.
    pub fn needs_rescan(&self) -> (r: bool)
        ensures
            r == !self.checks_clean(),
    {
        let dir_ok = match &self.last_checked_dir {
            Some(d) => str_eq(d.as_str(), self.workdir.as_str()),
            None => false,
        };
        let page_ok = match self.last_checked_page {
            Some(p) => p == self.current_page,
            None => false,
        };
        let search_ok = match &self.search_box_last {
            Some(s) => str_eq(s.as_str(), self.search_box.as_str()),
            None => false,
        };
        !(dir_ok && page_ok && search_ok)
    }

    /// One load request, for the current page, for every file of the page
    /// that the cache does not hold.
    pub fn load_requests(&self) -> (reqs: Vec<ThumbImageMsg>)
        requires
            self.wf(),
        ensures
            ({
                let want = page_slice(
                    self.files_list.deep_view(),
                    self.per_page as int,
                    self.current_page as int,
                ).filter(pending_pred(self.browser_images));
                &&& reqs@.len() == want.len()
                &&& forall|i: int|
                    0 <= i < reqs@.len() ==> (#[trigger] reqs@[i]).filepath@ == want[i]
                        && reqs@[i].page == self.current_page && reqs@[i].image is None
            }),
    {
        let page_files = self.get_page();
        let ghost pd = page_files.deep_view();
        let ghost pred = pending_pred(self.browser_images);
        let mut reqs: Vec<ThumbImageMsg> = Vec::new();
        let mut i: usize = 0;
        while i < page_files.len()
            invariant
                self.wf(),
                i <= page_files@.len(),
                pd == page_files.deep_view(),
                pd.len() == page_files@.len(),
                pred == pending_pred(self.browser_images),
                reqs@.len() == pd.take(i as int).filter(pred).len(),
                forall|k: int|
                    0 <= k < reqs@.len() ==> (#[trigger] reqs@[k]).filepath@ == pd.take(
                        i as int,
                    ).filter(pred)[k] && reqs@[k].page == self.current_page && reqs@[k].image
                        is None,
            decreases page_files@.len() - i,
        {
            let p = &page_files[i];
            if !self.browser_images.contains(p.as_str()) {
                reqs.push(
                    ThumbImageMsg {
                        filepath: p.clone(),
                        page: self.current_page,
                        image: None,
                    },
                );
            }
            proof {
                pd.take(i as int).lemma_filter_push(pd[i as int], pred);
                assert(pd.take(i as int).push(pd[i as int]) =~= pd.take(i + 1));
            }
            i += 1;
        }
        proof {
            assert(pd.take(page_files@.len() as int) =~= pd);
        }
        reqs
    }

    /// How many files of the current page already hold a thumbnail in the
    /// cache; the rest still show a placeholder.
    pub fn loaded_on_page(&self) -> (r: usize)
        requires
            self.wf(),
        ensures
            r == page_slice(
                self.files_list.deep_view(),
                self.per_page as int,
                self.current_page as int,
            ).filter(cached_pred(self.browser_images)).len(),
    {
        let page_files = self.get_page();
        let ghost pd = page_files.deep_view();
        let ghost pred = cached_pred(self.browser_images);
        let mut count: usize = 0;
        let mut i: usize = 0;
        while i < page_files.len()
            invariant
                self.wf(),
                i <= page_files@.len(),
                pd == page_files.deep_view(),
                pd.len() == page_files@.len(),
                pred == cached_pred(self.browser_images),
                count <= i,
                count == pd.take(i as int).filter(pred).len(),
            decreases page_files@.len() - i,
        {
            if self.browser_images.contains(page_files[i].as_str()) {
                count = count + 1;
            }
            proof {
                pd.take(i as int).lemma_filter_push(pd[i as int], pred);
                assert(pd.take(i as int).push(pd[i as int]) =~= pd.take(i + 1));
            }
            i += 1;
        }
        proof {
            assert(pd.take(page_files@.len() as int) =~= pd);
        }
        count
    }

    /// One whole rescan against a fresh directory listing: filter the
    /// listing into the new snapshot, prune the cache against it before
    /// anything else is issued, record what was checked, and return the
    /// load requests for the visible files that are not cached.
    pub fn rescan(&mut self, listing: Vec<String>) -> (reqs: Vec<ThumbImageMsg>)
        requires
            old(self).wf(),
        ensures
            final(self).wf(),
            final(self).files_list.deep_view() == listing.deep_view().filter(
                snapshot_pred(old(self).search_box@),
            ),
            forall|p: Seq<char>|
                #[trigger] final(self).browser_images.has(p) <==> old(self).browser_images.has(p)
                    && final(self).files_list.deep_view().contains(p),
            forall|p: Seq<char>|
                #[trigger] final(self).browser_images.has(p) ==> final(self).browser_images.at(p)
                    == old(self).browser_images.at(p),
            ({
                let want = page_slice(
                    final(self).files_list.deep_view(),
                    old(self).per_page as int,
                    old(self).current_page as int,
                ).filter(pending_pred(final(self).browser_images));
                &&& reqs@.len() == want.len()
                &&& forall|i: int|
                    0 <= i < reqs@.len() ==> (#[trigger] reqs@[i]).filepath@ == want[i]
                        && reqs@[i].page == old(self).current_page && reqs@[i].image is None
            }),
            final(self).checks_clean(),
            final(self).workdir == old(self).workdir,
            final(self).search_box == old(self).search_box,
            final(self).current_page == old(self).current_page,
            final(self).app_state == old(self).app_state,
            final(self).per_page == old(self).per_page,
            final(self).allow_shortcuts == old(self).allow_shortcuts,
            final(self).editor_rename_target == old(self).editor_rename_target,
            final(self).editor_rename_has_focus == old(self).editor_rename_has_focus,
            final(self).configuration == old(self).configuration,
    {
        let snapshot = snapshot_filter(&listing, self.search_box.as_str());
        self.files_list = snapshot;
        self.browser_images.prune(&self.files_list);
        self.last_checked_dir = Some(self.workdir.clone());
        self.last_checked_page = Some(self.current_page);
        self.search_box_last = Some(self.search_box.clone());
        self.load_requests()
    }

    /// Forgets what was last checked, so the next dirty check rescans.
    pub fn browser_new_page(&mut self)
        ensures
            final(self).search_box_last is None,
            final(self).last_checked_dir is None,
            final(self).workdir == old(self).workdir,
            final(self).search_box == old(self).search_box,
            final(self).files_list == old(self).files_list,
            final(self).current_page == old(self).current_page,
            final(self).app_state == old(self).app_state,
            final(self).last_checked_page == old(self).last_checked_page,
            final(self).per_page == old(self).per_page,
            final(self).browser_images == old(self).browser_images,
            final(self).allow_shortcuts == old(self).allow_shortcuts,
            final(self).editor_rename_target == old(self).editor_rename_target,
            final(self).editor_rename_has_focus == old(self).editor_rename_has_focus,
            final(self).configuration == old(self).configuration,
    {
        self.search_box_last = None;
        self.last_checked_dir = None;
    }

    /// Turns to the previous page, never past the first, and forces a
    /// rescan.
    pub fn browser_prev_page(&mut self)
        ensures
            final(self).current_page == prev_page(old(self).current_page as int),
            final(self).search_box_last is None,
            final(self).last_checked_dir is None,
            final(self).workdir == old(self).workdir,
            final(self).search_box == old(self).search_box,
            final(self).files_list == old(self).files_list,
            final(self).app_state == old(self).app_state,
            final(self).last_checked_page == old(self).last_checked_page,
            final(self).per_page == old(self).per_page,
            final(self).browser_images == old(self).browser_images,
            final(self).allow_shortcuts == old(self).allow_shortcuts,
            final(self).editor_rename_target == old(self).editor_rename_target,
            final(self).editor_rename_has_focus == old(self).editor_rename_has_focus,
            final(self).configuration == old(self).configuration,
    {
        if self.current_page > 0 {
            self.current_page = self.current_page - 1;
        }
        self.browser_new_page();
    }

    /// Turns to the next page while more pages exist, and forces a rescan.
    pub fn browser_next_page(&mut self)
        requires
            old(self).wf(),
        ensures
            final(self).current_page == next_page(
                old(self).files_list@.len() as int,
                old(self).per_page as int,
                old(self).current_page as int,
            ),
            final(self).search_box_last is None,
            final(self).last_checked_dir is None,
            final(self).workdir == old(self).workdir,
            final(self).search_box == old(self).search_box,
            final(self).files_list == old(self).files_list,
            final(self).app_state == old(self).app_state,
            final(self).last_checked_page == old(self).last_checked_page,
            final(self).per_page == old(self).per_page,
            final(self).browser_images == old(self).browser_images,
            final(self).allow_shortcuts == old(self).allow_shortcuts,
            final(self).editor_rename_target == old(self).editor_rename_target,
            final(self).editor_rename_has_focus == old(self).editor_rename_has_focus,
            final(self).configuration == old(self).configuration,
    {
        if self.current_page < self.files_list.len() / self.per_page {
            self.current_page = self.current_page + 1;
        }
        self.browser_new_page();
    }

    /// Turns to the first page and forces a rescan.
    pub fn browser_first_page(&mut self)
        ensures
            final(self).current_page == 0,
            final(self).search_box_last is None,
            final(self).last_checked_dir is None,
            final(self).workdir == old(self).workdir,
            final(self).search_box == old(self).search_box,
            final(self).files_list == old(self).files_list,
            final(self).app_state == old(self).app_state,
            final(self).last_checked_page == old(self).last_checked_page,
            final(self).per_page == old(self).per_page,
            final(self).browser_images == old(self).browser_images,
            final(self).allow_shortcuts == old(self).allow_shortcuts,
            final(self).editor_rename_target == old(self).editor_rename_target,
            final(self).editor_rename_has_focus == old(self).editor_rename_has_focus,
            final(self).configuration == old(self).configuration,
    {
        self.current_page = 0;
        self.browser_new_page();
    }

    /// Reacts to one released key. Total: every mode and key pair leaves
    /// the controller in a defined mode.
    pub fn handle_key(&mut self, key: KeyInput)
        requires
            old(self).wf(),
        ensures
            final(self).wf(),
            final(self).app_state == key_next_state(old(self).app_state, key),
            final(self).search_box@ == (if key is Escape && old(self).app_state is Browser {
                Seq::<char>::empty()
            } else {
                old(self).search_box@
            }),
            final(self).current_page as int == (match key {
                KeyInput::ArrowLeft => {
                    if old(self).app_state is Browser {
                        prev_page(old(self).current_page as int)
                    } else {
                        old(self).current_page as int
                    }
                },
                KeyInput::ArrowRight => {
                    if old(self).app_state is Browser {
                        next_page(
                            old(self).files_list@.len() as int,
                            old(self).per_page as int,
                            old(self).current_page as int,
                        )
                    } else {
                        old(self).current_page as int
                    }
                },
                _ => old(self).current_page as int,
            }),
            (if (key is ArrowLeft || key is ArrowRight) && old(self).app_state is Browser {
                final(self).search_box_last is None && final(self).last_checked_dir is None
            } else {
                final(self).search_box_last == old(self).search_box_last
                    && final(self).last_checked_dir == old(self).last_checked_dir
            }),
            final(self).last_checked_page == old(self).last_checked_page,
            final(self).workdir == old(self).workdir,
            final(self).files_list == old(self).files_list,
            final(self).per_page == old(self).per_page,
            final(self).browser_images == old(self).browser_images,
            final(self).allow_shortcuts == old(self).allow_shortcuts,
            final(self).editor_rename_target == old(self).editor_rename_target,
            final(self).editor_rename_has_focus == old(self).editor_rename_has_focus,
            final(self).configuration == old(self).configuration,
    {
        match key {
            KeyInput::Delete => {
                let mut st = AppState::Browser;
                core::mem::swap(&mut st, &mut self.app_state);
                self.app_state = match st {
                    AppState::Editor { filepath } => AppState::DeletePrompt(filepath),
                    other => other,
                };
            },
            KeyInput::Escape => {
                let mut st = AppState::Browser;
                core::mem::swap(&mut st, &mut self.app_state);
                self.app_state = match st {
                    AppState::Browser => {
                        self.search_box = String::new();
                        AppState::Browser
                    },
                    AppState::Editor { filepath: _ } => AppState::Browser,
                    AppState::RenameConfirm { filepath, newfilepath: _ } => AppState::Editor {
                        filepath,
                    },
                    AppState::DeletePrompt(filepath) => AppState::Editor { filepath },
                    AppState::Configuration => AppState::Browser,
                    other => other,
                };
            },
            KeyInput::ArrowLeft => {
                if matches!(self.app_state, AppState::Browser) {
                    self.browser_prev_page();
                }
            },
            KeyInput::ArrowRight => {
                if matches!(self.app_state, AppState::Browser) {
                    self.browser_next_page();
                }
            },
            KeyInput::Enter => {},
            KeyInput::Other => {},
        }
    }

    /// Carries out one user action: moves to the defined next mode and
    /// names the outside work, if any, that the caller must now perform.
    /// Total: every mode and action pair yields a defined next mode.
    pub fn apply_action(&mut self, action: UserAction) -> (eff: Effect)
        requires
            old(self).wf(),
        ensures
            final(self).wf(),
            final(self).app_state == action_transition(old(self).app_state, action).0,
            eff == action_transition(old(self).app_state, action).1,
            (if action_resets_rename(old(self).app_state, action) {
                final(self).editor_rename_target@.len() == 0
            } else {
                final(self).editor_rename_target == old(self).editor_rename_target
            }),
            final(self).search_box@ == (if action is SearchReset && old(self).app_state
                is Browser {
                Seq::<char>::empty()
            } else {
                old(self).search_box@
            }),
            final(self).current_page as int == (if old(self).app_state is Browser {
                match action {
                    UserAction::PageFirst => 0,
                    UserAction::PagePrev => prev_page(old(self).current_page as int),
                    UserAction::PageNext => next_page(
                        old(self).files_list@.len() as int,
                        old(self).per_page as int,
                        old(self).current_page as int,
                    ),
                    _ => old(self).current_page as int,
                }
            } else {
                old(self).current_page as int
            }),
            (if is_page_nav(action) && old(self).app_state is Browser {
                final(self).search_box_last is None && final(self).last_checked_dir is None
            } else {
                final(self).search_box_last == old(self).search_box_last
                    && final(self).last_checked_dir == old(self).last_checked_dir
            }),
            final(self).last_checked_page == old(self).last_checked_page,
            final(self).workdir == old(self).workdir,
            final(self).files_list == old(self).files_list,
            final(self).per_page == old(self).per_page,
            final(self).browser_images == old(self).browser_images,
            final(self).allow_shortcuts == old(self).allow_shortcuts,
            final(self).editor_rename_has_focus == old(self).editor_rename_has_focus,
            final(self).configuration == old(self).configuration,
    {
        match action {
            UserAction::SelectImage { filepath } => {
                if matches!(self.app_state, AppState::Browser) {
                    self.editor_rename_target = String::new();
                    self.app_state = AppState::Editor { filepath };
                }
                Effect::Nothing
            },
            UserAction::OpenConfiguration => {
                if matches!(self.app_state, AppState::Browser) {
                    self.app_state = AppState::Configuration;
                }
                Effect::Nothing
            },
            UserAction::ErrorContinue => {
                let mut st = AppState::Browser;
                core::mem::swap(&mut st, &mut self.app_state);
                self.app_state = match st {
                    AppState::ShowError { message: _, next_state } => match next_state {
                        Some(b) => *b,
                        None => AppState::Browser,
                    },
                    other => other,
                };
                Effect::Nothing
            },
            UserAction::EditorBack => {
                if matches!(self.app_state, AppState::Editor { .. }) {
                    self.editor_rename_target = String::new();
                    self.app_state = AppState::Browser;
                }
                Effect::Nothing
            },
            UserAction::EditorDelete => {
                let mut st = AppState::Browser;
                core::mem::swap(&mut st, &mut self.app_state);
                match st {
                    AppState::Editor { filepath } => {
                        self.editor_rename_target = String::new();
                        self.app_state = AppState::DeletePrompt(filepath);
                    },
                    other => {
                        self.app_state = other;
                    },
                }
                Effect::Nothing
            },
            UserAction::EditorUpload => {
                let mut st = AppState::Browser;
                core::mem::swap(&mut st, &mut self.app_state);
                match st {
                    AppState::Editor { filepath } => {
                        self.editor_rename_target = String::new();
                        self.app_state = AppState::UploadPrompt(filepath);
                    },
                    other => {
                        self.app_state = other;
                    },
                }
                Effect::Nothing
            },
            UserAction::EditorRename { newfilepath } => {
                let mut st = AppState::Browser;
                core::mem::swap(&mut st, &mut self.app_state);
                match st {
                    AppState::Editor { filepath } => {
                        if str_eq(filepath.as_str(), newfilepath.as_str()) {
                            self.app_state = AppState::Editor { filepath };
                        } else {
                            self.app_state = AppState::RenameConfirm { filepath, newfilepath };
                        }
                    },
                    other => {
                        self.app_state = other;
                    },
                }
                Effect::Nothing
            },
            UserAction::Confirm => {
                let mut st = AppState::Browser;
                core::mem::swap(&mut st, &mut self.app_state);
                match st {
                    AppState::RenameConfirm { filepath, newfilepath } => {
                        let from = filepath.clone();
                        let to = newfilepath.clone();
                        self.app_state = AppState::RenameConfirm { filepath, newfilepath };
                        Effect::RenameFile { from, to }
                    },
                    AppState::DeletePrompt(filepath) => {
                        let target = filepath.clone();
                        self.app_state = AppState::DeletePrompt(filepath);
                        Effect::DeleteFile { filepath: target }
                    },
                    AppState::UploadPrompt(filepath) => {
                        let target = filepath.clone();
                        self.app_state = AppState::Uploading(filepath);
                        Effect::SendUpload { filepath: target }
                    },
                    other => {
                        self.app_state = other;
                        Effect::Nothing
                    },
                }
            },
            UserAction::Cancel => {
                let mut st = AppState::Browser;
                core::mem::swap(&mut st, &mut self.app_state);
                self.app_state = match st {
                    AppState::RenameConfirm { filepath, newfilepath: _ } => AppState::Editor {
                        filepath,
                    },
                    AppState::DeletePrompt(filepath) => AppState::Editor { filepath },
                    AppState::UploadPrompt(filepath) => AppState::Editor { filepath },
                    other => other,
                };
                Effect::Nothing
            },
            UserAction::ConfigBack => {
                if matches!(self.app_state, AppState::Configuration) {
                    self.app_state = AppState::Browser;
                    Effect::SaveConfiguration
                } else {
                    Effect::Nothing
                }
            },
            UserAction::PageFirst => {
                if matches!(self.app_state, AppState::Browser) {
                    self.browser_first_page();
                }
                Effect::Nothing
            },
            UserAction::PagePrev => {
                if matches!(self.app_state, AppState::Browser) {
                    self.browser_prev_page();
                }
                Effect::Nothing
            },
            UserAction::PageNext => {
                if matches!(self.app_state, AppState::Browser) {
                    self.browser_next_page();
                }
                Effect::Nothing
            },
            UserAction::SearchReset => {
                if matches!(self.app_state, AppState::Browser) {
                    self.search_box = String::new();
                }
                Effect::Nothing
            },
        }
    }

    /// Merges one worker response into the controller: a thumbnail goes
    /// into the cache whatever page is current, a new state replaces the
    /// mode, a finished upload opens the editor, failures show the error
    /// screen, and everything else changes nothing.
    pub fn apply_response(&mut self, msg: AppMsg)
        requires
            old(self).wf(),
        ensures
            final(self).wf(),
            final(self).workdir == old(self).workdir,
            final(self).search_box == old(self).search_box,
            final(self).search_box_last == old(self).search_box_last,
            final(self).files_list == old(self).files_list,
            final(self).current_page == old(self).current_page,
            final(self).last_checked_dir == old(self).last_checked_dir,
            final(self).last_checked_page == old(self).last_checked_page,
            final(self).per_page == old(self).per_page,
            final(self).allow_shortcuts == old(self).allow_shortcuts,
            final(self).editor_rename_has_focus == old(self).editor_rename_has_focus,
            final(self).configuration == old(self).configuration,
            (match msg {
                AppMsg::ThumbImageResponse(m) => {
                    &&& final(self).browser_images.has(m.filepath@)
                    &&& final(self).browser_images.at(m.filepath@) == m
                    &&& forall|p: Seq<char>|
                        p != m.filepath@ ==> (#[trigger] final(self).browser_images.has(p) <==>
                        old(self).browser_images.has(p))
                    &&& forall|p: Seq<char>|
                        p != m.filepath@ && #[trigger] final(self).browser_images.has(p) ==> final(self).browser_images.at(p) == old(self).browser_images.at(p)
                    &&& final(self).app_state == old(self).app_state
                    &&& final(self).editor_rename_target == old(self).editor_rename_target
                },
                AppMsg::NewAppState(s) => {
                    &&& final(self).app_state == s
                    &&& final(self).editor_rename_target@.len() == 0
                    &&& final(self).browser_images == old(self).browser_images
                },
                AppMsg::UploadComplete(filepath) => {
                    &&& final(self).app_state == (AppState::Editor { filepath })
                    &&& final(self).browser_images == old(self).browser_images
                    &&& final(self).editor_rename_target == old(self).editor_rename_target
                },
                AppMsg::Error(message) => {
                    &&& final(self).app_state == (AppState::ShowError {
                        message,
                        next_state: None,
                    })
                    &&& final(self).browser_images == old(self).browser_images
                    &&& final(self).editor_rename_target == old(self).editor_rename_target
                },
                AppMsg::UploadAborted(message) => {
                    &&& final(self).app_state == (AppState::ShowError {
                        message,
                        next_state: None,
                    })
                    &&& final(self).browser_images == old(self).browser_images
                    &&& final(self).editor_rename_target == old(self).editor_rename_target
                },
                _ => {
                    &&& final(self).app_state == old(self).app_state
                    &&& final(self).browser_images == old(self).browser_images
                    &&& final(self).editor_rename_target == old(self).editor_rename_target
                },
            }),
    {
        match msg {
            AppMsg::ThumbImageResponse(m) => {
                self.browser_images.insert(m);
            },
            AppMsg::NewAppState(s) => {
                self.editor_rename_target = String::new();
                self.app_state = s;
            },
            AppMsg::UploadComplete(filepath) => {
                self.app_state = AppState::Editor { filepath };
            },
            AppMsg::Error(message) => {
                self.app_state = AppState::ShowError { message, next_state: None };
            },
            AppMsg::UploadAborted(message) => {
                self.app_state = AppState::ShowError { message, next_state: None };
            },
            AppMsg::LoadImage(_) => {},
            AppMsg::ImageLoadFailed { filename: _, error: _ } => {},
            AppMsg::Echo(_) => {},
            AppMsg::UploadImage(_) => {},
        }
    }

    /// Applies the filesystem's answer to a confirmed rename: on success
    /// the editor follows the file to its new path and the next dirty
    /// check rescans; on failure the error screen shows, with a way back
    /// to the editor on the old path.
    pub fn apply_rename_result(
        &mut self,
        filepath: String,
        newfilename: String,
        result: Result<(), String>,
    )
        requires
            old(self).wf(),
        ensures
            final(self).wf(),
            (match result {
                Ok(_) => {
                    &&& final(self).app_state == (AppState::Editor { filepath: newfilename })
                    &&& final(self).search_box_last is None
                    &&& final(self).last_checked_dir is None
                },
                Err(e) => {
                    &&& final(self).app_state matches AppState::ShowError {
                        message,
                        next_state,
                    } && message@ == "Failed to rename file: "@ + e@ && (next_state matches Some(
                        b,
                    ) && *b == (AppState::Editor { filepath }))
                    &&& final(self).search_box_last == old(self).search_box_last
                    &&& final(self).last_checked_dir == old(self).last_checked_dir
                },
            }),
            final(self).workdir == old(self).workdir,
            final(self).search_box == old(self).search_box,
            final(self).files_list == old(self).files_list,
            final(self).current_page == old(self).current_page,
            final(self).last_checked_page == old(self).last_checked_page,
            final(self).per_page == old(self).per_page,
            final(self).browser_images == old(self).browser_images,
            final(self).allow_shortcuts == old(self).allow_shortcuts,
            final(self).editor_rename_target == old(self).editor_rename_target,
            final(self).editor_rename_has_focus == old(self).editor_rename_has_focus,
            final(self).configuration == old(self).configuration,
    {
        match result {
            Ok(_) => {
                self.browser_new_page();
                self.app_state = AppState::Editor { filepath: newfilename };
            },
            Err(e) => {
                let message = prefixed("Failed to rename file: ", e.as_str());
                self.app_state = AppState::ShowError {
                    message,
                    next_state: Some(Box::new(AppState::Editor { filepath })),
                };
            },
        }
    }

    /// Applies the filesystem's answer to a confirmed deletion: on success
    /// the browser shows again and the next dirty check rescans; on
    /// failure the error screen shows, with a way back to the editor.
    pub fn apply_delete_result(&mut self, filepath: String, result: Result<(), String>)
        requires
            old(self).wf(),
        ensures
            final(self).wf(),
            (match result {
                Ok(_) => {
                    &&& final(self).app_state is Browser
                    &&& final(self).search_box_last is None
                    &&& final(self).last_checked_dir is None
                },
                Err(e) => {
                    &&& final(self).app_state matches AppState::ShowError {
                        message,
                        next_state,
                    } && message@ == "Failed to delete file: "@ + e@ && (next_state matches Some(
                        b,
                    ) && *b == (AppState::Editor { filepath }))
                    &&& final(self).search_box_last == old(self).search_box_last
                    &&& final(self).last_checked_dir == old(self).last_checked_dir
                },
            }),
            final(self).workdir == old(self).workdir,
            final(self).search_box == old(self).search_box,
            final(self).files_list == old(self).files_list,
            final(self).current_page == old(self).current_page,
            final(self).last_checked_page == old(self).last_checked_page,
            final(self).per_page == old(self).per_page,
            final(self).browser_images == old(self).browser_images,
            final(self).allow_shortcuts == old(self).allow_shortcuts,
            final(self).editor_rename_target == old(self).editor_rename_target,
            final(self).editor_rename_has_focus == old(self).editor_rename_has_focus,
            final(self).configuration == old(self).configuration,
    {
        match result {
            Ok(_) => {
                self.browser_new_page();
                self.app_state = AppState::Browser;
            },
            Err(e) => {
                let message = prefixed("Failed to delete file: ", e.as_str());
                self.app_state = AppState::ShowError {
                    message,
                    next_state: Some(Box::new(AppState::Editor { filepath })),
                };
            },
        }
    }

    /// Applies the outcome of loading the configuration file: the loaded
    /// configuration is kept, or the error screen shows with a way back to
    /// the browser.
    pub fn apply_config_load(&mut self, result: Result<Configuration, String>)
        requires
            old(self).wf(),
        ensures
            final(self).wf(),
            (match result {
                Ok(c) => {
                    &&& final(self).configuration == Some(c)
                    &&& final(self).app_state == old(self).app_state
                },
                Err(e) => {
                    &&& final(self).configuration == old(self).configuration
                    &&& final(self).app_state matches AppState::ShowError {
                        message,
                        next_state,
                    } && message@ == "Failed to load configuration: "@ + e@ && (next_state
                        matches Some(b) && *b is Browser)
                },
            }),
            final(self).workdir == old(self).workdir,
            final(self).search_box == old(self).search_box,
            final(self).search_box_last == old(self).search_box_last,
            final(self).files_list == old(self).files_list,
            final(self).current_page == old(self).current_page,
            final(self).last_checked_dir == old(self).last_checked_dir,
            final(self).last_checked_page == old(self).last_checked_page,
            final(self).per_page == old(self).per_page,
            final(self).browser_images == old(self).browser_images,
            final(self).allow_shortcuts == old(self).allow_shortcuts,
            final(self).editor_rename_target == old(self).editor_rename_target,
            final(self).editor_rename_has_focus == old(self).editor_rename_has_focus,
    {
        match result {
            Ok(c) => {
                self.configuration = Some(c);
            },
            Err(e) => {
                let message = prefixed("Failed to load configuration: ", e.as_str());
                self.app_state = AppState::ShowError {
                    message,
                    next_state: Some(Box::new(AppState::Browser)),
                };
            },
        }
    }

    /// Applies the outcome of saving the configuration file: nothing on
    /// success, the error screen with a way back to the browser on
    /// failure.
    pub fn apply_save_result(&mut self, result: Result<(), String>)
        requires
            old(self).wf(),
        ensures
            final(self).wf(),
            (match result {
                Ok(_) => final(self).app_state == old(self).app_state,
                Err(e) => {
                    &&& final(self).app_state matches AppState::ShowError {
                        message,
                        next_state,
                    } && message@ == "Failed to save configuration: "@ + e@ && (next_state
                        matches Some(b) && *b is Browser)
                },
            }),
            final(self).workdir == old(self).workdir,
            final(self).search_box == old(self).search_box,
            final(self).search_box_last == old(self).search_box_last,
            final(self).files_list == old(self).files_list,
            final(self).current_page == old(self).current_page,
            final(self).last_checked_dir == old(self).last_checked_dir,
            final(self).last_checked_page == old(self).last_checked_page,
            final(self).per_page == old(self).per_page,
            final(self).browser_images == old(self).browser_images,
            final(self).allow_shortcuts == old(self).allow_shortcuts,
            final(self).editor_rename_target == old(self).editor_rename_target,
            final(self).editor_rename_has_focus == old(self).editor_rename_has_focus,
            final(self).configuration == old(self).configuration,
    {
        match result {
            Ok(_) => {},
            Err(e) => {
                let message = prefixed("Failed to save configuration: ", e.as_str());
                self.app_state = AppState::ShowError {
                    message,
                    next_state: Some(Box::new(AppState::Browser)),
                };
            },
        }
    }
}

/// What the editor's rename box allows: nothing while the target equals
/// the current path, a warning while the target exists or its parent does
/// not, otherwise the rename may be offered.
#[derive(Clone, Copy, Debug, PartialEq, Eq, Structural)]
pub enum RenameCheck {
    Unchanged,
    TargetExists,
    ParentMissing,
    Acceptable,
}

/// The rename box's rule as a function of the paths and what the
/// filesystem reported about the target.
pub open spec fn spec_rename_check(
    filepath: Seq<char>,
    target: Seq<char>,
    target_exists: bool,
    parent_exists: bool,
) -> RenameCheck {
    if filepath == target {
        RenameCheck::Unchanged
    } else if target_exists {
        RenameCheck::TargetExists
    } else if !parent_exists {
        RenameCheck::ParentMissing
    } else {
        RenameCheck::Acceptable
    }
}

/// Judges the editor's rename box: `target_exists` and `parent_exists`
/// are what the filesystem reported about the target path.
pub fn rename_check(filepath: &str, target: &str, target_exists: bool, parent_exists: bool) -> (r:
    RenameCheck)
    ensures
        r == spec_rename_check(filepath@, target@, target_exists, parent_exists),
{
    if str_eq(filepath, target) {
        RenameCheck::Unchanged
    } else if target_exists {
        RenameCheck::TargetExists
    } else if !parent_exists {
        RenameCheck::ParentMissing
    } else {
        RenameCheck::Acceptable
    }
}

/// The mode the controller is in after one key, from any mode: keys not
/// meaningful in the current mode leave it unchanged.
pub open spec fn key_next_state(s: AppState, key: KeyInput) -> AppState {
    match key {
        KeyInput::Delete => match s {
            AppState::Editor { filepath } => AppState::DeletePrompt(filepath),
            other => other,
        },
        KeyInput::Escape => match s {
            AppState::Browser => AppState::Browser,
            AppState::Editor { .. } => AppState::Browser,
            AppState::RenameConfirm { filepath, .. } => AppState::Editor { filepath },
            AppState::DeletePrompt(filepath) => AppState::Editor { filepath },
            AppState::Configuration => AppState::Browser,
            other => other,
        },
        _ => s,
    }
}

/// The page shown after moving forward: one further while more pages
/// exist, unchanged on the last page.
pub open spec fn next_page(files: int, per_page: int, page: int) -> int {
    if page < files / per_page {
        page + 1
    } else {
        page
    }
}

/// The page shown after moving back: one less, never below the first.
pub open spec fn prev_page(page: int) -> int {
    if page > 0 {
        page - 1
    } else {
        page
    }
}

/// The mode and the outside work one user action leads to, from any mode:
/// actions not meaningful in the current mode leave it unchanged and ask
/// for nothing. Total: every mode and action pair has a defined successor.
pub open spec fn action_transition(s: AppState, a: UserAction) -> (AppState, Effect) {
    match a {
        UserAction::SelectImage { filepath } => match s {
            AppState::Browser => (AppState::Editor { filepath }, Effect::Nothing),
            other => (other, Effect::Nothing),
        },
        UserAction::OpenConfiguration => match s {
            AppState::Browser => (AppState::Configuration, Effect::Nothing),
            other => (other, Effect::Nothing),
        },
        UserAction::ErrorContinue => match s {
            AppState::ShowError { message, next_state } => (
                match next_state {
                    Some(b) => *b,
                    None => AppState::Browser,
                },
                Effect::Nothing,
            ),
            other => (other, Effect::Nothing),
        },
        UserAction::EditorBack => match s {
            AppState::Editor { .. } => (AppState::Browser, Effect::Nothing),
            other => (other, Effect::Nothing),
        },
        UserAction::EditorDelete => match s {
            AppState::Editor { filepath } => (AppState::DeletePrompt(filepath), Effect::Nothing),
            other => (other, Effect::Nothing),
        },
        UserAction::EditorUpload => match s {
            AppState::Editor { filepath } => (AppState::UploadPrompt(filepath), Effect::Nothing),
            other => (other, Effect::Nothing),
        },
        UserAction::EditorRename { newfilepath } => match s {
            AppState::Editor { filepath } => {
                if filepath@ == newfilepath@ {
                    (AppState::Editor { filepath }, Effect::Nothing)
                } else {
                    (AppState::RenameConfirm { filepath, newfilepath }, Effect::Nothing)
                }
            },
            other => (other, Effect::Nothing),
        },
        UserAction::Confirm => match s {
            AppState::RenameConfirm { filepath, newfilepath } => (
                AppState::RenameConfirm { filepath: filepath, newfilepath: newfilepath },
                Effect::RenameFile { from: filepath, to: newfilepath },
            ),
            AppState::DeletePrompt(filepath) => (
                AppState::DeletePrompt(filepath),
                Effect::DeleteFile { filepath },
            ),
            AppState::UploadPrompt(filepath) => (
                AppState::Uploading(filepath),
                Effect::SendUpload { filepath },
            ),
            other => (other, Effect::Nothing),
        },
        UserAction::Cancel => match s {
            AppState::RenameConfirm { filepath, .. } => (
                AppState::Editor { filepath },
                Effect::Nothing,
            ),
            AppState::DeletePrompt(filepath) => (AppState::Editor { filepath }, Effect::Nothing),
            AppState::UploadPrompt(filepath) => (AppState::Editor { filepath }, Effect::Nothing),
            other => (other, Effect::Nothing),
        },
        UserAction::ConfigBack => match s {
            AppState::Configuration => (AppState::Browser, Effect::SaveConfiguration),
            other => (other, Effect::Nothing),
        },
        UserAction::PageFirst => (s, Effect::Nothing),
        UserAction::PagePrev => (s, Effect::Nothing),
        UserAction::PageNext => (s, Effect::Nothing),
        UserAction::SearchReset => (s, Effect::Nothing),
    }
}

/// Leaving the editor, or opening it from the browser, clears the rename
/// box; entering a prompt from the editor does too, since the way back
/// re-seeds it from the file's path.
pub open spec fn action_resets_rename(s: AppState, a: UserAction) -> bool {
    match a {
        UserAction::SelectImage { .. } => s is Browser,
        UserAction::EditorBack => s matches AppState::Editor { .. },
        UserAction::EditorDelete => s matches AppState::Editor { .. },
        UserAction::EditorUpload => s matches AppState::Editor { .. },
        _ => false,
    }
}

/// Whether the action turns a browser page.
pub open spec fn is_page_nav(a: UserAction) -> bool {
    a is PageFirst || a is PagePrev || a is PageNext
}

/// Clones a vector of strings.
fn clone_string_vec(v: &Vec<String>) -> (r: Vec<String>)
    ensures
        r.deep_view() == v.deep_view(),
{
    let ghost dv = v.deep_view();
    let mut r: Vec<String> = Vec::new();
    let mut i: usize = 0;
    while i < v.len()
        invariant
            i <= v@.len(),
            dv == v.deep_view(),
            dv.len() == v@.len(),
            r.deep_view() == dv.take(i as int),
        decreases v@.len() - i,
    {
        let ghost prev = r.deep_view();
        r.push(v[i].clone());
        proof {
            assert(r.deep_view() =~= prev.push(dv[i as int]));
            assert(prev.push(dv[i as int]) =~= dv.take(i + 1));
        }
        i += 1;
    }
    proof {
        assert(dv.take(v@.len() as int) =~= dv);
    }
    r
}

} // verus!
