//! The startup decisions, the path derivation and the event-loop machine.

use rustui::events::{step, LoopState, UiEvent};
use rustui::launch::{ipc_response, server_command, webview_config, PageSource};
use rustui::page::LoadError;
use rustui::paths::{content_paths, parent_dir, sibling_path};

const PLACEHOLDER: &[u8] = b"<script src=\"/index.js\" type=\"module\"></script>";

#[test]
fn static_mode_uses_the_composed_page() {
    let markup = Some([b"<body>".as_slice(), PLACEHOLDER, b"</body>".as_slice()].concat());
    let script = Some(b"run();".to_vec());
    let config = webview_config(false, &markup, &script).unwrap();
    assert!(!config.devtools);
    match config.source {
        PageSource::Inline(page) => assert_eq!(
            page,
            b"<body><script type=\"module\">run();</script></body>".to_vec()
        ),
        PageSource::Live(_) => panic!("static mode must not use the live URL"),
    }
}

#[test]
fn static_mode_spawns_no_server() {
    assert!(server_command(false, &b"/srv/app".to_vec()).is_none());
}

#[test]
fn static_mode_with_missing_file_builds_no_config() {
    let script = Some(b"run();".to_vec());
    assert_eq!(
        webview_config(false, &None, &script),
        Err(LoadError::MissingMarkup)
    );
    let markup = Some(PLACEHOLDER.to_vec());
    assert_eq!(
        webview_config(false, &markup, &None),
        Err(LoadError::MissingScript)
    );
}

#[test]
fn dev_mode_uses_the_live_url_with_devtools() {
    let config = webview_config(true, &None, &None).unwrap();
    assert!(config.devtools);
    match config.source {
        PageSource::Live(url) => assert_eq!(url, b"http://localhost:5173".to_vec()),
        PageSource::Inline(_) => panic!("dev mode must use the live URL"),
    }
}

#[test]
fn dev_mode_spawns_one_server_with_the_fixed_arguments() {
    let folder = b"/srv/app".to_vec();
    let cmd = server_command(true, &folder).unwrap();
    assert_eq!(cmd.program, b"deno".to_vec());
    let expected: Vec<Vec<u8>> = vec![
        b"run".to_vec(),
        b"--allow-all".to_vec(),
        b"npm:vite".to_vec(),
        b"dev".to_vec(),
        b"--port".to_vec(),
        b"5173".to_vec(),
        b"/srv/app".to_vec(),
    ];
    assert_eq!(cmd.args, expected);
}

#[test]
fn ipc_reply_wraps_the_body_in_the_greeting() {
    assert_eq!(ipc_response(&b"world".to_vec()), b"Hello world!".to_vec());
    assert_eq!(ipc_response(&Vec::new()), b"Hello !".to_vec());
}

#[test]
fn parent_of_a_nested_path_is_its_folder() {
    assert_eq!(
        parent_dir(&b"/usr/local/bin/rustui".to_vec()),
        Some(b"/usr/local/bin".to_vec())
    );
}

#[test]
fn parent_of_a_root_entry_is_the_root() {
    assert_eq!(parent_dir(&b"/rustui".to_vec()), Some(b"/".to_vec()));
}

#[test]
fn parent_uses_the_last_separator() {
    assert_eq!(parent_dir(&b"a/b/c".to_vec()), Some(b"a/b".to_vec()));
}

#[test]
fn trailing_separators_are_ignored() {
    assert_eq!(parent_dir(&b"/opt/app/".to_vec()), Some(b"/opt".to_vec()));
    assert_eq!(parent_dir(&b"rustui/".to_vec()), Some(Vec::new()));
}

#[test]
fn a_bare_name_lies_in_the_empty_folder() {
    assert_eq!(parent_dir(&b"rustui".to_vec()), Some(Vec::new()));
}

#[test]
fn the_empty_path_and_the_root_have_no_parent() {
    assert_eq!(parent_dir(&Vec::new()), None);
    assert_eq!(parent_dir(&b"/".to_vec()), None);
    assert_eq!(parent_dir(&b"///".to_vec()), None);
}

#[test]
fn sibling_path_joins_with_one_separator() {
    assert_eq!(
        sibling_path(&b"/srv/app".to_vec(), &b"index.html".to_vec()),
        b"/srv/app/index.html".to_vec()
    );
}

#[test]
fn sibling_path_adds_no_separator_where_none_is_needed() {
    assert_eq!(
        sibling_path(&Vec::new(), &b"index.html".to_vec()),
        b"index.html".to_vec()
    );
    assert_eq!(
        sibling_path(&b"/".to_vec(), &b"index.html".to_vec()),
        b"/index.html".to_vec()
    );
}

#[test]
fn content_paths_name_the_two_bundled_files() {
    let (markup, script) = content_paths(&b"/srv/app/rustui".to_vec()).unwrap();
    assert_eq!(markup, b"/srv/app/index.html".to_vec());
    assert_eq!(script, b"/srv/app/index.js".to_vec());
}

#[test]
fn content_paths_for_a_bare_name_are_relative() {
    let (markup, script) = content_paths(&b"rustui".to_vec()).unwrap();
    assert_eq!(markup, b"index.html".to_vec());
    assert_eq!(script, b"index.js".to_vec());
}

#[test]
fn content_paths_fail_without_a_folder() {
    assert_eq!(
        content_paths(&b"/".to_vec()),
        Err(LoadError::NoParentFolder)
    );
    assert_eq!(
        content_paths(&Vec::new()),
        Err(LoadError::NoParentFolder)
    );
}

#[test]
fn close_request_alone_terminates_the_loop() {
    assert_eq!(
        step(LoopState::Running, UiEvent::CloseRequested),
        LoopState::Exiting
    );
    let others = [
        UiEvent::Resized,
        UiEvent::Moved,
        UiEvent::Focused,
        UiEvent::RedrawRequested,
        UiEvent::Other,
    ];
    for event in others {
        assert_eq!(step(LoopState::Running, event), LoopState::Running);
    }
}

#[test]
fn an_exiting_loop_stays_exiting() {
    assert_eq!(
        step(LoopState::Exiting, UiEvent::Other),
        LoopState::Exiting
    );
}
