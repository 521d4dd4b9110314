use glorp::client::{
    contains_text, find_text, game_file, hard_flip_renames, launch_args_text,
    loads_social_userscripts, new_window_state, resource_action, restores_last_position,
    webview_args, ResourceAction, WindowPosition, WindowState,
};

#[test]
fn text_search() {
    assert_eq!(find_text("abcabc", "bc", 0), Some(1));
    assert_eq!(find_text("abcabc", "bc", 2), Some(4));
    assert_eq!(find_text("abcabc", "x", 0), None);
    assert_eq!(find_text("ab", "abc", 0), None);
    assert_eq!(find_text("ab", "", 0), Some(0));
    assert!(contains_text("https://krunker.io/x", "krunker.io"));
    assert!(!contains_text("https://example.com", "krunker.io"));
}

#[test]
fn game_file_names() {
    assert_eq!(game_file("https://krunker.io/img/a.png?v=1"), "img/a.png");
    assert_eq!(game_file("https://krunker.io/sound/x.mp3"), "sound/x.mp3");
    assert_eq!(game_file("https://assets.krunker.io/a/krunker.io/b"), "a/");
    assert_eq!(game_file("https://krunker.io"), "");
    for uri in ["https://krunker.io/a?b?c", "krunker.io/", "x krunker.io/y krunker.io/z"] {
        let expected = uri.split("krunker.io/").nth(1).and_then(|s| s.split('?').next()).unwrap_or("");
        assert_eq!(game_file(uri), expected);
    }
}

#[test]
fn resource_actions() {
    assert_eq!(
        resource_action("https://matchmaker.krunker.io/game-info?game=1"),
        ResourceAction::NotifyGameUpdated
    );
    assert_eq!(
        resource_action("https://matchmaker.krunker.io/lobby-ranked"),
        ResourceAction::NotifyGameUpdated
    );
    assert_eq!(
        resource_action("https://krunker.io/textures/a.png?x"),
        ResourceAction::TrySwap { filename: "textures/a.png".to_string() }
    );
    assert_eq!(resource_action("https://ads.example.com/game-info"), ResourceAction::Block);
}

#[test]
fn new_window_placement() {
    assert_eq!(
        new_window_state(true, true, 10, 20, 300, 400),
        Some(WindowState {
            fullscreen: false,
            position: WindowPosition { left: 10, top: 20, right: 310, bottom: 420 }
        })
    );
    assert_eq!(new_window_state(true, false, 10, 20, 300, 400), None);
    assert_eq!(new_window_state(false, true, 10, 20, 300, 400), None);
    assert!(loads_social_userscripts("https://krunker.io/social.html?p=1", true));
    assert!(!loads_social_userscripts("https://krunker.io/social.html", false));
    assert!(!loads_social_userscripts("https://krunker.io/", true));
}

#[test]
fn hard_flip() {
    assert_eq!(
        hard_flip_renames(true),
        ("OLD_vk_swiftshader.dll".to_string(), "vk_swiftshader.dll".to_string())
    );
    assert_eq!(
        hard_flip_renames(false),
        ("vk_swiftshader.dll".to_string(), "OLD_vk_swiftshader.dll".to_string())
    );
}

#[test]
fn browser_arguments() {
    assert_eq!(webview_args("--a".to_string(), true), "--a --disable-frame-rate-limit");
    assert_eq!(webview_args("--a".to_string(), false), "--a");
    assert!(restores_last_position("Remember Previous"));
    assert!(!restores_last_position("Fullscreen"));
}

#[test]
fn launch_arguments() {
    assert_eq!(launch_args_text(&vec![]), None);
    assert_eq!(launch_args_text(&vec!["a".to_string()]), Some("a".to_string()));
    assert_eq!(
        launch_args_text(&vec!["--x".to_string(), "y".to_string(), "z".to_string()]),
        Some("--x y z".to_string())
    );
}
