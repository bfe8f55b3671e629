use egui_chinese_font::FontError;
use egui_chinese_font::Platform;
use egui_chinese_font::ResolveState;
use egui_chinese_font::candidate_count;
use egui_chinese_font::get_chinese_font_paths;
use egui_chinese_font::resolve_advance;
use egui_chinese_font::resolve_start;

#[test]
fn windows_paths_are_listed_in_order() {
    let paths = get_chinese_font_paths(Platform::Windows);
    assert!(!paths.is_empty());
    assert_eq!(paths.len(), 10);
    assert_eq!(paths[0], r"C:\Windows\Fonts\msyh.ttc");
    assert_eq!(paths[1], r"C:\Windows\Fonts\msyhbd.ttc");
    assert_eq!(paths[9], r"C:\Windows\Fonts\mingliu.ttc");
}

#[test]
fn macos_paths_are_listed_in_order() {
    let paths = get_chinese_font_paths(Platform::MacOs);
    assert!(!paths.is_empty());
    assert_eq!(paths.len(), 6);
    assert_eq!(paths[0], "/System/Library/Fonts/PingFang.ttc");
    assert_eq!(paths[5], "/System/Library/Fonts/Apple LiGothic Medium.ttf");
}

#[test]
fn linux_paths_are_listed_in_order() {
    let paths = get_chinese_font_paths(Platform::Linux);
    assert!(!paths.is_empty());
    assert_eq!(paths.len(), 10);
    assert_eq!(paths[0], "/usr/share/fonts/truetype/droid/DroidSansFallbackFull.ttf");
    assert_eq!(paths[9], "/usr/share/fonts/noto-cjk/NotoSansCJK-Regular.ttc");
}

#[test]
fn listing_and_resolver_share_one_list() {
    for p in [Platform::Windows, Platform::MacOs, Platform::Linux, Platform::Other] {
        assert_eq!(get_chinese_font_paths(p).len(), candidate_count(p));
    }
}

#[test]
fn unsupported_platform_fails_without_reading() {
    assert!(get_chinese_font_paths(Platform::Other).is_empty());
    let state = resolve_start(Platform::Other);
    assert!(matches!(
        state,
        ResolveState::Failed { error: FontError::UnsupportedPlatform }
    ));
}

#[test]
fn third_candidate_wins_when_first_two_are_missing() {
    let bytes = vec![0x00u8, 0x01, 0x00, 0x00, 0x42];
    let state = resolve_start(Platform::Linux);
    assert!(matches!(state, ResolveState::Probing { index: 0 }));
    let state = resolve_advance(Platform::Linux, 0, None);
    assert!(matches!(state, ResolveState::Probing { index: 1 }));
    let state = resolve_advance(Platform::Linux, 1, None);
    assert!(matches!(state, ResolveState::Probing { index: 2 }));
    let state = resolve_advance(Platform::Linux, 2, Some(bytes.clone()));
    match state {
        ResolveState::Resolved { bytes: got } => assert_eq!(got, bytes),
        other => panic!("expected Resolved, got {:?}", other),
    }
}

#[test]
fn empty_candidate_file_is_skipped() {
    // A readable but empty file is no resolution: the scan moves on.
    let state = resolve_advance(Platform::Linux, 0, Some(Vec::new()));
    assert!(matches!(state, ResolveState::Probing { index: 1 }));
    // On the last candidate an empty file exhausts the scan.
    let last = candidate_count(Platform::MacOs) - 1;
    let state = resolve_advance(Platform::MacOs, last, Some(Vec::new()));
    assert!(matches!(
        state,
        ResolveState::Failed { error: FontError::NotFound(_) }
    ));
}

#[test]
fn exhausted_scan_fails_with_not_found_only() {
    for (p, detail) in [
        (Platform::Windows, "No Chinese font found on Windows"),
        (Platform::MacOs, "No Chinese font found on macOS"),
        (Platform::Linux, "No Chinese font found on Linux"),
    ] {
        let mut state = resolve_start(p);
        let n = candidate_count(p);
        for i in 0..n {
            assert!(matches!(state, ResolveState::Probing { index } if index == i));
            state = resolve_advance(p, i, None);
        }
        match state {
            ResolveState::Failed { error: FontError::NotFound(got) } => {
                assert_eq!(got, detail);
            }
            other => panic!("expected NotFound, got {:?}", other),
        }
    }
}

#[test]
fn error_descriptions_match_display_text() {
    let e = FontError::NotFound("No Chinese font found on Linux".to_owned());
    assert_eq!(e.describe(), "Font file not found: No Chinese font found on Linux");
    let e = FontError::ReadError("permission denied".to_owned());
    assert_eq!(e.describe(), "Failed to read font file: permission denied");
    let e = FontError::UnsupportedPlatform;
    assert_eq!(e.describe(), "Platform not supported");
}
