use plex_shell::script::init_script;

#[test]
fn segments_are_joined_in_order() {
    let parts = vec!["a".to_string(), "b".to_string(), "c".to_string()];
    assert_eq!(init_script(&parts), "abc");
}

#[test]
fn no_segments_give_an_empty_script() {
    let parts: Vec<String> = Vec::new();
    assert_eq!(init_script(&parts), "");
}

#[test]
fn script_text_passes_through_unchanged() {
    let listener = "document.addEventListener('fullscreenchange', notify);\n".to_string();
    let banner = "console.log('listeners injected');\n".to_string();
    let parts = vec![listener.clone(), String::new(), banner.clone()];
    let joined = init_script(&parts);
    assert_eq!(joined, format!("{}{}", listener, banner));
}
