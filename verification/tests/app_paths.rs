use yabai_get_windows::app_paths::{app_path_script, get_app_path, GetAppPathError};
use yabai_get_windows::error::{AllOrNone, LogError};
use yabai_get_windows::policy::ShouldCache;

#[test]
fn script_names_the_application() {
    assert_eq!(
        app_path_script("Finder"),
        "tell application \"System Events\" to POSIX path of (file of process \"Finder\" as alias)"
    );
    assert_eq!(
        app_path_script(""),
        "tell application \"System Events\" to POSIX path of (file of process \"\" as alias)"
    );
}

#[test]
fn a_printed_path_may_be_cached() {
    let (verdict, found) = get_app_path(Ok(b"/Applications/Safari.app/\n".to_vec()));
    assert_eq!(verdict, ShouldCache::Yes);
    match found {
        Ok(path) => assert_eq!(path, "/Applications/Safari.app/\n"),
        Err(error) => panic!("unexpected {:?}", error),
    }
}

#[test]
fn a_path_beyond_ascii_is_decoded() {
    let (verdict, found) = get_app_path(Ok(vec![0x2f, 0xc3, 0xa9, 0xe2, 0x82, 0xac]));
    assert_eq!(verdict, ShouldCache::Yes);
    assert_eq!(found.ok(), Some("/\u{e9}\u{20ac}".to_string()));
}

#[test]
fn output_that_is_no_text_is_not_cached() {
    let (verdict, found) = get_app_path(Ok(vec![0x2f, 0xff, 0xfe]));
    assert_eq!(verdict, ShouldCache::No);
    match found {
        Err(GetAppPathError::ParsingFailed(reason)) => assert!(!reason.is_empty()),
        other => panic!("unexpected {:?}", other),
    }
}

#[test]
fn a_run_that_failed_is_not_cached() {
    let (verdict, found) = get_app_path(Err("osascript: not found".to_string()));
    assert_eq!(verdict, ShouldCache::No);
    match found {
        Err(GetAppPathError::ExecutionFailed(reason)) => assert_eq!(reason, "osascript: not found"),
        other => panic!("unexpected {:?}", other),
    }
}

#[test]
fn verdicts() {
    assert!(ShouldCache::Yes.is_yes());
    assert!(!ShouldCache::No.is_yes());
    let ok: Result<u8, u8> = Ok(1);
    let err: Result<u8, u8> = Err(2);
    assert_eq!(ShouldCache::tag(ok), (ShouldCache::Yes, Ok(1)));
    assert_eq!(ShouldCache::tag(err), (ShouldCache::No, Err(2)));
}

#[test]
fn log_error_keeps_the_success() {
    let ok: Result<u8, String> = Ok(7);
    let err: Result<u8, String> = Err("no".to_string());
    assert_eq!(ok.log_error(), Some(7));
    assert_eq!(err.log_error(), None);
}

#[test]
fn all_or_none_of_a_pair() {
    assert_eq!((Some(1u8), Some("x")).all_or_none(), Some((1u8, "x")));
    assert_eq!((Some(1u8), None::<u8>).all_or_none(), None);
    assert_eq!((None::<u8>, Some(2u8)).all_or_none(), None);
    assert_eq!((None::<u8>, None::<u8>).all_or_none(), None);
}

#[test]
fn all_or_none_of_nested_options() {
    let two: Option<Option<u8>> = Some(Some(3));
    assert_eq!(AllOrNone::<u8>::all_or_none(two), Some(3));
    let inner_none: Option<Option<u8>> = Some(None);
    assert_eq!(AllOrNone::<u8>::all_or_none(inner_none), None);
    let outer_none: Option<Option<u8>> = None;
    assert_eq!(AllOrNone::<u8>::all_or_none(outer_none), None);
    let three: Option<Option<Option<u8>>> = Some(Some(Some(4)));
    assert_eq!(AllOrNone::<u8>::all_or_none(three), Some(4));
    let three_none: Option<Option<Option<u8>>> = Some(Some(None));
    assert_eq!(AllOrNone::<u8>::all_or_none(three_none), None);
    let three_mid: Option<Option<Option<u8>>> = Some(None);
    assert_eq!(AllOrNone::<u8>::all_or_none(three_mid), None);
}
