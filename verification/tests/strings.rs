//! Tests of path normalization, splitting, decimal rendering and the
//! argument vectors handed to the capture executable.

use sc_starter::invoker::{build_capture_args, comp_arg, dec_i32, save_path_get, wrap_tool_spec};
use sc_starter::settings::{
    get_sundry_settings, classify_path, split_hotkey_entry, Action, GuiConfig, LaunchAppConfig,
    PathConfig, PathToken, SettingsCollection, Sundry,
};
use sc_starter::text::{handle_str_path, split_on};

#[test]
fn path_normalization_turns_backslashes_and_trims() {
    assert_eq!(handle_str_path("  C:\\Users\\me\\  "), "C:/Users/me");
    assert_eq!(handle_str_path("\"D:/shots//today\""), "D:/shots/today");
    assert_eq!(handle_str_path("'E:\\\\x'"), "E:/x");
    assert_eq!(handle_str_path(""), "");
    assert_eq!(handle_str_path("///"), "");
    assert_eq!(handle_str_path("plain"), "plain");
}

#[test]
fn splitting_matches_the_standard_semantics() {
    assert_eq!(split_on("a@b", '@'), vec!["a", "b"]);
    assert_eq!(split_on("", '@'), vec![""]);
    assert_eq!(split_on("@@", '@'), vec!["", "", ""]);
    assert_eq!(split_on("Win+Alt+Ctrl", '+'), vec!["Win", "Alt", "Ctrl"]);
    assert_eq!(split_on("solo", '+'), vec!["solo"]);
}

#[test]
fn hotkey_entries_split_into_modifiers_and_key() {
    let groups = split_hotkey_entry("Win+Alt+Ctrl@P").unwrap();
    assert_eq!(groups.mod_keys, vec!["Win", "Alt", "Ctrl"]);
    assert_eq!(groups.vkey, "P");
    assert!(split_hotkey_entry("justakey").is_none());
    assert!(split_hotkey_entry("a@b@c").is_none());
    let sparse = split_hotkey_entry("@Escape").unwrap();
    assert_eq!(sparse.mod_keys, vec![""]);
    assert_eq!(sparse.vkey, "Escape");
}

#[test]
fn decimal_rendering_is_exact() {
    assert_eq!(dec_i32(0), "0");
    assert_eq!(dec_i32(-1), "-1");
    assert_eq!(dec_i32(100), "100");
    assert_eq!(dec_i32(2147483647), "2147483647");
    assert_eq!(dec_i32(-2147483648), "-2147483648");
}

#[test]
fn save_path_token_is_quoted_and_forward_slashed() {
    assert_eq!(save_path_get(""), "");
    assert_eq!(save_path_get("D:\\shots"), "--path:\"D:/shots\"");
    assert_eq!(save_path_get("D:/shots"), "--path:\"D:/shots\"");
}

#[test]
fn comp_token_is_exact() {
    assert_eq!(comp_arg(-1, 100), "--comp:-1,100");
    assert_eq!(comp_arg(7, 55), "--comp:7,55");
}

#[test]
fn tool_token_is_quoted() {
    assert_eq!(wrap_tool_spec("pin,save"), "--tool:\"pin,save\"");
}

#[test]
fn capture_args_follow_the_wire_contract() {
    let gui = GuiConfig { normal: "NORMAL".to_string(), long: "LONG".to_string() };
    assert_eq!(
        build_capture_args(false, -1, 100, "D:\\shots", &gui),
        vec!["--comp:-1,100", "--path:\"D:/shots\"", "NORMAL"]
    );
    assert_eq!(
        build_capture_args(true, 3, 80, "", &gui),
        vec!["--cap:long", "--comp:3,80", "", "LONG"]
    );
    let quiet = GuiConfig { normal: String::new(), long: String::new() };
    assert_eq!(build_capture_args(false, -1, 100, "", &quiet), vec!["--comp:-1,100", ""]);
}

#[test]
fn sundry_settings_fall_back_when_absent_or_out_of_range() {
    let d = Sundry::default();
    let kept = get_sundry_settings(d, Some(true), Some(10), Some(1));
    assert!(kept.auto_start);
    assert_eq!(kept.comp_level, 10);
    assert_eq!(kept.scale_level, 1);
    let out_of_range = get_sundry_settings(d, None, Some(11), Some(0));
    assert!(!out_of_range.auto_start);
    assert_eq!(out_of_range.comp_level, -1);
    assert_eq!(out_of_range.scale_level, 100);
    let absent = get_sundry_settings(d, None, None, None);
    assert_eq!(absent, d);
}

#[test]
fn path_tokens_classify_the_three_special_markers() {
    assert_eq!(classify_path("&"), PathToken::Manual);
    assert_eq!(classify_path("@"), PathToken::Desktop);
    assert_eq!(classify_path("*"), PathToken::Pictures);
    assert_eq!(classify_path("D:/shots"), PathToken::Custom);
    assert_eq!(classify_path(""), PathToken::Custom);
    assert_eq!(classify_path("&&"), PathToken::Custom);
}

#[test]
fn compiled_in_defaults_match_the_declared_configuration() {
    let s = SettingsCollection::default();
    assert_eq!(s.keys_collection.len(), 6);
    let order: Vec<_> = s.keys_collection.iter().map(|b| b.action).collect();
    assert_eq!(
        order,
        vec![
            Action::ScreenCapture,
            Action::ScreenCaptureLong,
            Action::PinToScreen,
            Action::Exit,
            Action::OpenConf,
            Action::LaunchApp
        ]
    );
    assert_eq!(s.keys_collection[0].hotkey.vkey, 0x50);
    assert!(s.keys_collection[3].hotkey.mod_keys.shift);
    assert!(!s.keys_collection[3].hotkey.mod_keys.alt);
    assert_eq!(s.sundry, Sundry { auto_start: false, comp_level: -1, scale_level: 100 });
    assert_eq!(s.path.save_path, "");
    assert_eq!(s.path.launch_app.path, "C:/Windows/System32/notepad.exe");
    assert_eq!(
        s.gui.normal,
        "rect,ellipse,arrow,number,line,text,mosaic,eraser,|,undo,redo,|,pin,clipboard,save,close"
    );
    assert_eq!(s.gui.long, "pin,clipboard,save,close");
    let lc = LaunchAppConfig::default();
    assert_eq!(lc.path, "C:/Windows/System32/notepad.exe");
    assert!(lc.args.is_empty());
    let pc = PathConfig::default();
    assert_eq!(pc.save_path, "");
}
