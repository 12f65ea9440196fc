use memetool::cache::{ThumbBitmap, ThumbImageMsg};
use memetool::config::Configuration;
use memetool::controller::{rename_check, MemeTool, RenameCheck};
use memetool::state::{AppMsg, AppState, Effect, KeyInput, UserAction};
use memetool::PER_PAGE;

fn fresh(files: Vec<&str>, per_page: usize) -> MemeTool {
    let mut tool = MemeTool::new("~/Downloads".to_string(), per_page);
    let listing: Vec<String> = files.into_iter().map(|f| f.to_string()).collect();
    tool.rescan(listing);
    tool
}

fn thumb(path: &str, page: usize) -> ThumbImageMsg {
    ThumbImageMsg {
        filepath: path.to_string(),
        page,
        image: Some(ThumbBitmap { rgba: vec![0, 0, 0, 0], width: 1, height: 1 }),
    }
}

#[test]
fn a_fresh_controller_browses_page_zero() {
    let tool = MemeTool::new("~/Downloads".to_string(), PER_PAGE);
    assert!(matches!(tool.app_state, AppState::Browser));
    assert_eq!(tool.current_page, 0);
    assert!(tool.files_list.is_empty());
    assert!(tool.needs_rescan());
}

#[test]
fn scenario_prune_then_request_only_the_uncached_file() {
    let mut tool = MemeTool::new("~/Downloads".to_string(), PER_PAGE);
    tool.apply_response(AppMsg::ThumbImageResponse(thumb("a.png", 0)));
    tool.apply_response(AppMsg::ThumbImageResponse(thumb("old.png", 0)));
    let listing = vec!["a.png".to_string(), "b.jpg".to_string()];
    let requests = tool.rescan(listing);
    // After the prune the cache holds only a.png ...
    assert!(tool.browser_images.contains("a.png"));
    assert!(!tool.browser_images.contains("old.png"));
    // ... and exactly one load request goes out, for b.jpg on this page.
    assert_eq!(requests.len(), 1);
    assert_eq!(requests[0].filepath, "b.jpg");
    assert_eq!(requests[0].page, 0);
    assert!(requests[0].image.is_none());
}

#[test]
fn rescan_applies_the_search_filter_to_the_snapshot() {
    let mut tool = MemeTool::new("~/Downloads".to_string(), PER_PAGE);
    tool.search_box = "cat".to_string();
    let listing = vec![
        "cat.png".to_string(),
        "dog.png".to_string(),
        "cat.txt".to_string(),
    ];
    tool.rescan(listing);
    assert_eq!(tool.files_list, vec!["cat.png".to_string()]);
}

#[test]
fn the_dirty_check_fires_on_dir_page_or_search_changes() {
    let mut tool = fresh(vec!["a.png"], PER_PAGE);
    assert!(!tool.needs_rescan());
    tool.search_box = "x".to_string();
    assert!(tool.needs_rescan());
    tool.rescan(vec!["a.png".to_string()]);
    assert!(!tool.needs_rescan());
    tool.workdir = "/elsewhere".to_string();
    assert!(tool.needs_rescan());
    tool.rescan(vec![]);
    assert!(!tool.needs_rescan());
    tool.current_page = 1;
    assert!(tool.needs_rescan());
}

#[test]
fn get_page_chunks_the_snapshot() {
    let mut tool = fresh(vec!["a.png", "b.png", "c.png", "d.png", "e.png"], 2);
    assert_eq!(tool.get_page(), vec!["a.png".to_string(), "b.png".to_string()]);
    tool.current_page = 1;
    assert_eq!(tool.get_page(), vec!["c.png".to_string(), "d.png".to_string()]);
    tool.current_page = 2;
    assert_eq!(tool.get_page(), vec!["e.png".to_string()]);
    tool.current_page = 9;
    assert_eq!(tool.get_page(), Vec::<String>::new());
}

#[test]
fn a_short_listing_is_one_single_page() {
    let mut tool = fresh(vec!["a.png", "b.png"], PER_PAGE);
    tool.current_page = 3;
    // The whole list fits on a page, so chunking does not apply.
    assert_eq!(tool.get_page(), vec!["a.png".to_string(), "b.png".to_string()]);
}

#[test]
fn load_requests_skip_cached_files_and_carry_the_page() {
    let mut tool = fresh(vec!["a.png", "b.png", "c.png"], PER_PAGE);
    tool.apply_response(AppMsg::ThumbImageResponse(thumb("b.png", 0)));
    let requests = tool.load_requests();
    let names: Vec<&str> = requests.iter().map(|r| r.filepath.as_str()).collect();
    assert_eq!(names, vec!["a.png", "c.png"]);
    assert!(requests.iter().all(|r| r.page == 0 && r.image.is_none()));
}

#[test]
fn the_loaded_count_follows_the_cache() {
    let mut tool = fresh(vec!["a.png", "b.png", "c.png"], PER_PAGE);
    assert_eq!(tool.loaded_on_page(), 0);
    tool.apply_response(AppMsg::ThumbImageResponse(thumb("b.png", 0)));
    assert_eq!(tool.loaded_on_page(), 1);
    tool.apply_response(AppMsg::ThumbImageResponse(thumb("a.png", 0)));
    tool.apply_response(AppMsg::ThumbImageResponse(thumb("elsewhere.png", 0)));
    assert_eq!(tool.loaded_on_page(), 2);
}

#[test]
fn page_navigation_stays_within_bounds_and_forces_a_rescan() {
    let mut tool = fresh(vec!["a.png", "b.png", "c.png", "d.png", "e.png"], 2);
    tool.browser_prev_page();
    assert_eq!(tool.current_page, 0);
    tool.browser_next_page();
    assert_eq!(tool.current_page, 1);
    assert!(tool.needs_rescan());
    tool.browser_next_page();
    assert_eq!(tool.current_page, 2);
    tool.browser_next_page();
    assert_eq!(tool.current_page, 2);
    tool.browser_first_page();
    assert_eq!(tool.current_page, 0);
}

#[test]
fn keys_drive_the_documented_transitions() {
    let mut tool = fresh(vec!["a.png"], PER_PAGE);
    tool.app_state = AppState::Editor { filepath: "a.png".to_string() };
    tool.handle_key(KeyInput::Delete);
    assert_eq!(tool.app_state, AppState::DeletePrompt("a.png".to_string()));
    tool.handle_key(KeyInput::Escape);
    assert_eq!(tool.app_state, AppState::Editor { filepath: "a.png".to_string() });
    tool.handle_key(KeyInput::Escape);
    assert_eq!(tool.app_state, AppState::Browser);
    tool.search_box = "cats".to_string();
    tool.handle_key(KeyInput::Escape);
    assert_eq!(tool.search_box, "");
    tool.handle_key(KeyInput::Enter);
    assert_eq!(tool.app_state, AppState::Browser);
}

#[test]
fn arrow_keys_page_only_in_the_browser() {
    let mut tool = fresh(vec!["a.png", "b.png", "c.png", "d.png", "e.png"], 2);
    tool.handle_key(KeyInput::ArrowRight);
    assert_eq!(tool.current_page, 1);
    tool.handle_key(KeyInput::ArrowLeft);
    assert_eq!(tool.current_page, 0);
    tool.app_state = AppState::Editor { filepath: "a.png".to_string() };
    tool.handle_key(KeyInput::ArrowRight);
    assert_eq!(tool.current_page, 0);
}

#[test]
fn the_upload_prompt_confirms_into_uploading() {
    let mut tool = fresh(vec!["a.png"], PER_PAGE);
    tool.app_state = AppState::UploadPrompt("a.png".to_string());
    let eff = tool.apply_action(UserAction::Confirm);
    assert_eq!(eff, Effect::SendUpload { filepath: "a.png".to_string() });
    assert_eq!(tool.app_state, AppState::Uploading("a.png".to_string()));
}

#[test]
fn prompts_confirm_into_their_effects() {
    let mut tool = fresh(vec!["a.png"], PER_PAGE);
    tool.app_state = AppState::DeletePrompt("a.png".to_string());
    let eff = tool.apply_action(UserAction::Confirm);
    assert_eq!(eff, Effect::DeleteFile { filepath: "a.png".to_string() });
    let mut tool = fresh(vec!["a.png"], PER_PAGE);
    tool.app_state = AppState::RenameConfirm {
        filepath: "a.png".to_string(),
        newfilepath: "b.png".to_string(),
    };
    let eff = tool.apply_action(UserAction::Confirm);
    assert_eq!(
        eff,
        Effect::RenameFile { from: "a.png".to_string(), to: "b.png".to_string() }
    );
}

#[test]
fn cancel_returns_to_the_editor() {
    let mut tool = fresh(vec!["a.png"], PER_PAGE);
    tool.app_state = AppState::DeletePrompt("a.png".to_string());
    tool.apply_action(UserAction::Cancel);
    assert_eq!(tool.app_state, AppState::Editor { filepath: "a.png".to_string() });
}

#[test]
fn the_error_screen_returns_to_its_continuation() {
    let mut tool = fresh(vec!["a.png"], PER_PAGE);
    tool.app_state = AppState::ShowError {
        message: "boom".to_string(),
        next_state: Some(Box::new(AppState::Editor { filepath: "a.png".to_string() })),
    };
    tool.apply_action(UserAction::ErrorContinue);
    assert_eq!(tool.app_state, AppState::Editor { filepath: "a.png".to_string() });
    tool.app_state = AppState::ShowError { message: "boom".to_string(), next_state: None };
    tool.apply_action(UserAction::ErrorContinue);
    assert_eq!(tool.app_state, AppState::Browser);
}

fn every_state() -> Vec<AppState> {
    vec![
        AppState::Browser,
        AppState::Editor { filepath: "a.png".to_string() },
        AppState::RenameConfirm {
            filepath: "a.png".to_string(),
            newfilepath: "b.png".to_string(),
        },
        AppState::ShowError { message: "m".to_string(), next_state: None },
        AppState::ShowError {
            message: "m".to_string(),
            next_state: Some(Box::new(AppState::Configuration)),
        },
        AppState::DeletePrompt("a.png".to_string()),
        AppState::UploadPrompt("a.png".to_string()),
        AppState::Uploading("a.png".to_string()),
        AppState::Configuration,
    ]
}

fn every_action() -> Vec<UserAction> {
    vec![
        UserAction::SelectImage { filepath: "z.png".to_string() },
        UserAction::OpenConfiguration,
        UserAction::ErrorContinue,
        UserAction::PageFirst,
        UserAction::PagePrev,
        UserAction::PageNext,
        UserAction::SearchReset,
        UserAction::EditorBack,
        UserAction::EditorDelete,
        UserAction::EditorUpload,
        UserAction::EditorRename { newfilepath: "n.png".to_string() },
        UserAction::Confirm,
        UserAction::Cancel,
        UserAction::ConfigBack,
    ]
}

#[test]
fn every_action_from_every_state_yields_a_defined_state() {
    for (si, _) in every_state().iter().enumerate() {
        for (ai, _) in every_action().iter().enumerate() {
            let mut tool = fresh(vec!["a.png", "b.png", "c.png"], 2);
            tool.app_state = every_state().remove(si);
            let action = every_action().remove(ai);
            tool.apply_action(action);
            // No panic, and the controller still stands in one of the
            // defined modes; a fresh action from here is also defined.
            tool.apply_action(UserAction::ErrorContinue);
        }
    }
}

#[test]
fn every_key_from_every_state_yields_a_defined_state() {
    let keys = [
        KeyInput::Delete,
        KeyInput::Enter,
        KeyInput::Escape,
        KeyInput::ArrowLeft,
        KeyInput::ArrowRight,
        KeyInput::Other,
    ];
    for (si, _) in every_state().iter().enumerate() {
        for key in keys {
            let mut tool = fresh(vec!["a.png"], PER_PAGE);
            tool.app_state = every_state().remove(si);
            tool.handle_key(key);
        }
    }
}

#[test]
fn worker_responses_merge_into_state_and_cache() {
    let mut tool = fresh(vec!["a.png"], PER_PAGE);
    tool.apply_response(AppMsg::ThumbImageResponse(thumb("a.png", 0)));
    assert!(tool.browser_images.contains("a.png"));
    tool.apply_response(AppMsg::UploadComplete("a.png".to_string()));
    assert_eq!(tool.app_state, AppState::Editor { filepath: "a.png".to_string() });
    tool.apply_response(AppMsg::UploadAborted("exists".to_string()));
    assert_eq!(
        tool.app_state,
        AppState::ShowError { message: "exists".to_string(), next_state: None }
    );
    tool.apply_response(AppMsg::Error("bad".to_string()));
    assert_eq!(
        tool.app_state,
        AppState::ShowError { message: "bad".to_string(), next_state: None }
    );
    tool.apply_response(AppMsg::NewAppState(AppState::Configuration));
    assert_eq!(tool.app_state, AppState::Configuration);
}

#[test]
fn stale_responses_are_still_cached_for_later_pages() {
    let mut tool = fresh(vec!["a.png"], PER_PAGE);
    // A response for a page the user has left is inserted regardless.
    tool.apply_response(AppMsg::ThumbImageResponse(thumb("a.png", 7)));
    assert!(tool.browser_images.contains("a.png"));
    assert_eq!(tool.browser_images.get("a.png").unwrap().page, 7);
}

#[test]
fn rename_results_move_the_editor_or_show_the_error() {
    let mut tool = fresh(vec!["a.png"], PER_PAGE);
    tool.apply_rename_result("a.png".to_string(), "b.png".to_string(), Ok(()));
    assert_eq!(tool.app_state, AppState::Editor { filepath: "b.png".to_string() });
    assert!(tool.needs_rescan());
    let mut tool = fresh(vec!["a.png"], PER_PAGE);
    tool.apply_rename_result("a.png".to_string(), "b.png".to_string(), Err("denied".to_string()));
    assert_eq!(
        tool.app_state,
        AppState::ShowError {
            message: "Failed to rename file: denied".to_string(),
            next_state: Some(Box::new(AppState::Editor { filepath: "a.png".to_string() })),
        }
    );
}

#[test]
fn delete_results_return_to_the_browser_or_show_the_error() {
    let mut tool = fresh(vec!["a.png"], PER_PAGE);
    tool.app_state = AppState::DeletePrompt("a.png".to_string());
    tool.apply_delete_result("a.png".to_string(), Ok(()));
    assert_eq!(tool.app_state, AppState::Browser);
    assert!(tool.needs_rescan());
    let mut tool = fresh(vec!["a.png"], PER_PAGE);
    tool.apply_delete_result("a.png".to_string(), Err("busy".to_string()));
    assert_eq!(
        tool.app_state,
        AppState::ShowError {
            message: "Failed to delete file: busy".to_string(),
            next_state: Some(Box::new(AppState::Editor { filepath: "a.png".to_string() })),
        }
    );
}

#[test]
fn configuration_outcomes_are_kept_or_reported() {
    let mut tool = fresh(vec![], PER_PAGE);
    let config = Configuration::new(
        "id".to_string(),
        "secret".to_string(),
        "bucket".to_string(),
        "region".to_string(),
        None,
    );
    tool.apply_config_load(Ok(config));
    assert!(tool.configuration.is_some());
    let mut tool = fresh(vec![], PER_PAGE);
    tool.apply_config_load(Err("no file".to_string()));
    assert_eq!(
        tool.app_state,
        AppState::ShowError {
            message: "Failed to load configuration: no file".to_string(),
            next_state: Some(Box::new(AppState::Browser)),
        }
    );
    let mut tool = fresh(vec![], PER_PAGE);
    tool.apply_save_result(Err("disk full".to_string()));
    assert_eq!(
        tool.app_state,
        AppState::ShowError {
            message: "Failed to save configuration: disk full".to_string(),
            next_state: Some(Box::new(AppState::Browser)),
        }
    );
}

#[test]
fn the_rename_box_rule_orders_its_checks() {
    assert_eq!(rename_check("a.png", "a.png", false, true), RenameCheck::Unchanged);
    assert_eq!(rename_check("a.png", "b.png", true, true), RenameCheck::TargetExists);
    assert_eq!(rename_check("a.png", "b.png", false, false), RenameCheck::ParentMissing);
    assert_eq!(rename_check("a.png", "b.png", false, true), RenameCheck::Acceptable);
}
