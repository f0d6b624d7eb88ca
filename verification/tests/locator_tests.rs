use plex_shell::error::ShellError;
use plex_shell::locator::get_window_by_label;

fn labels(names: &[&str]) -> Vec<String> {
    names.iter().map(|n| n.to_string()).collect()
}

#[test]
fn missing_requested_label_falls_back_to_main() {
    let windows = labels(&["main", "other"]);
    let r = get_window_by_label(&windows, &Some("missing".to_string()));
    assert_eq!(r, Ok(0));
    assert_eq!(windows[0], "main");
}

#[test]
fn requested_label_wins_when_present() {
    let windows = labels(&["main", "other"]);
    let r = get_window_by_label(&windows, &Some("other".to_string()));
    assert_eq!(r, Ok(1));
}

#[test]
fn no_request_resolves_to_main() {
    let windows = labels(&["settings", "main"]);
    let r = get_window_by_label(&windows, &None);
    assert_eq!(r, Ok(1));
}

#[test]
fn webview_label_is_the_second_fallback() {
    let windows = labels(&["settings", "plex-webview"]);
    let r = get_window_by_label(&windows, &None);
    assert_eq!(r, Ok(1));
}

#[test]
fn first_window_is_the_last_fallback() {
    let windows = labels(&["overlay", "settings"]);
    let r = get_window_by_label(&windows, &Some("missing".to_string()));
    assert_eq!(r, Ok(0));
}

#[test]
fn no_windows_means_window_not_found() {
    let windows: Vec<String> = Vec::new();
    assert_eq!(
        get_window_by_label(&windows, &None),
        Err(ShellError::WindowNotFound)
    );
    assert_eq!(
        get_window_by_label(&windows, &Some("main".to_string())),
        Err(ShellError::WindowNotFound)
    );
}

#[test]
fn first_window_with_the_label_is_chosen() {
    let windows = labels(&["settings", "main", "main"]);
    let r = get_window_by_label(&windows, &Some("main".to_string()));
    assert_eq!(r, Ok(1));
}
