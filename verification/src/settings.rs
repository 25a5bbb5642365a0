//! Configuration values as the core consumes them: shortcut bindings,
//! paths, sundry numeric settings and the two GUI toolbar strings.
//!
//! Parsing the configuration file is a collaborator's job; the core only
//! sees its output as the plain values below.  Out-of-range numeric settings
//! fall back, entry by entry, to the compiled-in defaults.

use vstd::prelude::*;

use crate::text::spec_split;
use crate::text::split_on;

verus! {

/// Windows virtual-key code of the letter A.
pub const VK_A: u32 = 0x41;

/// Windows virtual-key code of the letter L.
pub const VK_L: u32 = 0x4C;

/// Windows virtual-key code of the letter O.
pub const VK_O: u32 = 0x4F;

/// Windows virtual-key code of the letter P.
pub const VK_P: u32 = 0x50;

/// Windows virtual-key code of the letter T.
pub const VK_T: u32 = 0x54;

/// Windows virtual-key code of the escape key.
pub const VK_ESCAPE: u32 = 0x1B;

/// A set of modifier keys held together with the main key.
#[derive(Clone, Copy, Debug, PartialEq, Eq, Structural)]
pub struct ModSet {
    pub win: bool,
    pub alt: bool,
    pub ctrl: bool,
    pub shift: bool,
    /// The "no repeat" pseudo-modifier: suppress auto-repeated firings.
    pub no_repeat: bool,
}

impl ModSet {
    /// No modifiers at all.
    pub fn none() -> (r: Self)
        ensures
            r == (ModSet { win: false, alt: false, ctrl: false, shift: false, no_repeat: false }),
    {
        ModSet { win: false, alt: false, ctrl: false, shift: false, no_repeat: false }
    }
}

/// One shortcut combination: the modifier set and the main key, the latter
/// as a Windows virtual-key code.
#[derive(Clone, Copy, Debug, PartialEq, Eq, Structural)]
pub struct HotkeyValue {
    /// Modifier keys of the combination.
    pub mod_keys: ModSet,
    /// Virtual-key code of the main key.
    pub vkey: u32,
}

/// What firing a shortcut does.  The descriptor is resolved by the dispatch
/// loop; the driver performs the named action.
#[derive(Clone, Copy, Debug, PartialEq, Eq, Structural)]
pub enum Action {
    /// Capture the screen.
    ScreenCapture,
    /// Capture a long (scrolling) screenshot.
    ScreenCaptureLong,
    /// Pin the clipboard image to the screen.
    PinToScreen,
    /// Exit the launcher.
    Exit,
    /// Open the configuration file for editing.
    OpenConf,
    /// Launch (or re-surface) the configured external application.
    LaunchApp,
}

/// One configured shortcut-to-action mapping, immutable for the process
/// lifetime.
#[derive(Clone, Copy, Debug, PartialEq, Eq, Structural)]
pub struct Binding {
    /// The action this binding invokes.
    pub action: Action,
    /// The combination that fires it.
    pub hotkey: HotkeyValue,
}

/// Sundry numeric and boolean settings.
#[derive(Clone, Copy, Debug, PartialEq, Eq, Structural)]
pub struct Sundry {
    /// Create a startup shortcut for the launcher.
    pub auto_start: bool,
    /// Image compression level; -1 means "leave to the capture program".
    pub comp_level: i32,
    /// Image scale level in percent.
    pub scale_level: i32,
}

impl Sundry {
    /// The compiled-in defaults.
    pub fn default() -> (r: Self)
        ensures
            r == (Sundry { auto_start: false, comp_level: -1i32, scale_level: 100i32 }),
    {
        Sundry { auto_start: false, comp_level: -1i32, scale_level: 100i32 }
    }
}

/// Path and argument list of the external application behind the launch-app
/// binding.
#[derive(Clone, Debug)]
pub struct LaunchAppConfig {
    /// Path of the application.
    pub path: String,
    /// Arguments handed to it on spawn.
    pub args: Vec<String>,
}

impl LaunchAppConfig {
    /// The compiled-in default: the stock editor, no arguments.
    pub fn default() -> (r: Self)
        ensures
            r.path@ == "C:/Windows/System32/notepad.exe"@,
            r.args@.len() == 0,
    {
        LaunchAppConfig { path: "C:/Windows/System32/notepad.exe".to_owned(), args: Vec::new() }
    }
}

/// The configured paths: where captures are saved and what the launch-app
/// binding runs.
#[derive(Clone, Debug)]
pub struct PathConfig {
    /// Directory captures are saved to; empty means "choose manually".
    pub save_path: String,
    /// The launch-app target.
    pub launch_app: LaunchAppConfig,
}

impl PathConfig {
    /// The compiled-in defaults: no save directory, default launch target.
    pub fn default() -> (r: Self)
        ensures
            r.save_path@.len() == 0,
            r.launch_app.path@ == "C:/Windows/System32/notepad.exe"@,
            r.launch_app.args@.len() == 0,
    {
        PathConfig { save_path: String::new(), launch_app: LaunchAppConfig::default() }
    }
}

/// The two GUI toolbar argument strings, one for normal captures and one for
/// long captures.
#[derive(Clone, Debug)]
pub struct GuiConfig {
    /// Toolbar specification for a normal capture.
    pub normal: String,
    /// Toolbar specification for a long capture.
    pub long: String,
}

/// A shortcut specification as read from the configuration file, before any
/// key-name resolution: the modifier names and the main key name.
#[derive(Clone, Debug)]
pub struct KeyStringGroups {
    /// Names of the modifier keys.
    pub mod_keys: Vec<String>,
    /// Name of the main key.
    pub vkey: String,
}

/// Splits one configured shortcut entry into its raw parts: the text before
/// the `@` holds the modifier names separated by `+`, the text after it the
/// main key name.  An entry without exactly one `@` is malformed and is
/// rejected, to fall back to the compiled-in default for that binding.
pub fn split_hotkey_entry(entry: &str) -> (r: Option<KeyStringGroups>)
    ensures
        r is Some <==> spec_split(entry@, '@').len() == 2,
        r is Some ==> r->0.vkey@ == spec_split(entry@, '@')[1],
        r is Some ==> r->0.mod_keys.deep_view() == spec_split(spec_split(entry@, '@')[0], '+'),
{
    let mut parts = split_on(entry, '@');
    if parts.len() == 2 {
        let ghost fields = spec_split(entry@, '@');
        proof {
            assert(parts@[1]@ == fields[1]);
            assert(parts@[0]@ == fields[0]);
        }
        let vkey = parts.pop().unwrap();
        let mods_text = parts.pop().unwrap();
        let mod_keys = split_on(mods_text.as_str(), '+');
        Some(KeyStringGroups { mod_keys, vkey })
    } else {
        None
    }
}

/// The three paths the launcher works with, fixed at startup and read-only
/// afterwards; each thread gets its own clone.
#[derive(Clone, Debug)]
pub struct PathInfos {
    /// The launcher's own data directory.
    pub dir_path: String,
    /// Path of the managed capture executable.
    pub exe_path: String,
    /// Path of the configuration file.
    pub conf_path: String,
}

/// How a configured path string is to be resolved.
#[derive(Clone, Copy, Debug, PartialEq, Eq, Structural)]
pub enum PathToken {
    /// `&`: no fixed directory; choose manually at capture time.
    Manual,
    /// `@`: the user's desktop directory.
    Desktop,
    /// `*`: the user's pictures directory.
    Pictures,
    /// Anything else: a literal path, to be validated against the disk.
    Custom,
}

/// The resolution a configured path string asks for.
pub open spec fn spec_classify_path(s: Seq<char>) -> PathToken {
    if s == seq!['&'] {
        PathToken::Manual
    } else if s == seq!['@'] {
        PathToken::Desktop
    } else if s == seq!['*'] {
        PathToken::Pictures
    } else {
        PathToken::Custom
    }
}

/// Classifies a configured path string: the three special one-character
/// tokens name well-known directories, anything else is a literal path.
/// Looking those directories up, and checking that a literal path exists and
/// is a directory, is the driver's work.
pub fn classify_path(s: &str) -> (r: PathToken)
    ensures
        r == spec_classify_path(s@),
{
    let n = s.unicode_len();
    if n != 1 {
        proof {
            assert(s@ != seq!['&'] && s@ != seq!['@'] && s@ != seq!['*']);
        }
        return PathToken::Custom;
    }
    let c = s.get_char(0);
    proof {
        assert(s@ =~= seq![s@[0]]);
    }
    if c == '&' {
        PathToken::Manual
    } else if c == '@' {
        PathToken::Desktop
    } else if c == '*' {
        PathToken::Pictures
    } else {
        proof {
            assert(s@ != seq!['&'] && s@ != seq!['@'] && s@ != seq!['*']);
        }
        PathToken::Custom
    }
}

/// Everything the core consumes from the configuration collaborator.
#[derive(Clone, Debug)]
pub struct SettingsCollection {
    /// The shortcut bindings, in declared order.
    pub keys_collection: Vec<Binding>,
    /// Path settings.
    pub path: PathConfig,
    /// Sundry settings.
    pub sundry: Sundry,
    /// GUI toolbar strings.
    pub gui: GuiConfig,
}

/// The six default bindings, in declared order.
pub open spec fn default_bindings() -> Seq<Binding> {
    seq![
        Binding {
            action: Action::ScreenCapture,
            hotkey: HotkeyValue {
                mod_keys: ModSet {
                    win: true,
                    alt: true,
                    ctrl: true,
                    shift: false,
                    no_repeat: false,
                },
                vkey: VK_P,
            },
        },
        Binding {
            action: Action::ScreenCaptureLong,
            hotkey: HotkeyValue {
                mod_keys: ModSet {
                    win: true,
                    alt: true,
                    ctrl: true,
                    shift: false,
                    no_repeat: false,
                },
                vkey: VK_L,
            },
        },
        Binding {
            action: Action::PinToScreen,
            hotkey: HotkeyValue {
                mod_keys: ModSet {
                    win: true,
                    alt: true,
                    ctrl: true,
                    shift: false,
                    no_repeat: false,
                },
                vkey: VK_T,
            },
        },
        Binding {
            action: Action::Exit,
            hotkey: HotkeyValue {
                mod_keys: ModSet {
                    win: true,
                    alt: false,
                    ctrl: true,
                    shift: true,
                    no_repeat: false,
                },
                vkey: VK_ESCAPE,
            },
        },
        Binding {
            action: Action::OpenConf,
            hotkey: HotkeyValue {
                mod_keys: ModSet {
                    win: true,
                    alt: true,
                    ctrl: true,
                    shift: false,
                    no_repeat: false,
                },
                vkey: VK_O,
            },
        },
        Binding {
            action: Action::LaunchApp,
            hotkey: HotkeyValue {
                mod_keys: ModSet {
                    win: true,
                    alt: true,
                    ctrl: true,
                    shift: false,
                    no_repeat: false,
                },
                vkey: VK_A,
            },
        },
    ]
}

impl SettingsCollection {
    /// The compiled-in default settings: the six default bindings in
    /// declared order, default paths and sundries, and the stock toolbar
    /// strings.
    pub fn default() -> (r: Self)
        ensures
            r.keys_collection@ == default_bindings(),
            r.path.save_path@.len() == 0,
            r.path.launch_app.path@ == "C:/Windows/System32/notepad.exe"@,
            r.path.launch_app.args@.len() == 0,
            r.sundry == (Sundry { auto_start: false, comp_level: -1i32, scale_level: 100i32 }),
            r.gui.normal@
                == "rect,ellipse,arrow,number,line,text,mosaic,eraser,|,undo,redo,|,pin,clipboard,save,close"@,
            r.gui.long@ == "pin,clipboard,save,close"@,
    {
        let win_alt_ctrl = ModSet {
            win: true,
            alt: true,
            ctrl: true,
            shift: false,
            no_repeat: false,
        };
        let win_ctrl_shift = ModSet {
            win: true,
            alt: false,
            ctrl: true,
            shift: true,
            no_repeat: false,
        };
        let mut keys: Vec<Binding> = Vec::new();
        keys.push(
            Binding {
                action: Action::ScreenCapture,
                hotkey: HotkeyValue { mod_keys: win_alt_ctrl, vkey: VK_P },
            },
        );
        keys.push(
            Binding {
                action: Action::ScreenCaptureLong,
                hotkey: HotkeyValue { mod_keys: win_alt_ctrl, vkey: VK_L },
            },
        );
        keys.push(
            Binding {
                action: Action::PinToScreen,
                hotkey: HotkeyValue { mod_keys: win_alt_ctrl, vkey: VK_T },
            },
        );
        keys.push(
            Binding {
                action: Action::Exit,
                hotkey: HotkeyValue { mod_keys: win_ctrl_shift, vkey: VK_ESCAPE },
            },
        );
        keys.push(
            Binding {
                action: Action::OpenConf,
                hotkey: HotkeyValue { mod_keys: win_alt_ctrl, vkey: VK_O },
            },
        );
        keys.push(
            Binding {
                action: Action::LaunchApp,
                hotkey: HotkeyValue { mod_keys: win_alt_ctrl, vkey: VK_A },
            },
        );
        proof {
            assert(keys@ =~= default_bindings());
        }
        SettingsCollection {
            keys_collection: keys,
            path: PathConfig::default(),
            sundry: Sundry::default(),
            gui: GuiConfig {
                normal:
                    "rect,ellipse,arrow,number,line,text,mosaic,eraser,|,undo,redo,|,pin,clipboard,save,close".to_owned(),
                long: "pin,clipboard,save,close".to_owned(),
            },
        }
    }
}

/// Sundry settings from their raw configuration entries, each falling back
/// to its compiled-in default when absent, and — for the numeric ones — when
/// out of range: the compression level must lie in -1 ..= 10 and the scale
/// level in 1 ..= 100.
pub fn get_sundry_settings(
    default: Sundry,
    startup: Option<bool>,
    comp: Option<i64>,
    scale: Option<i64>,
) -> (r: Sundry)
    ensures
        r.auto_start == (match startup {
            Some(b) => b,
            None => default.auto_start,
        }),
        r.comp_level == (match comp {
            Some(n) => if -1 <= n <= 10 {
                n as i32
            } else {
                default.comp_level
            },
            None => default.comp_level,
        }),
        r.scale_level == (match scale {
            Some(n) => if 1 <= n <= 100 {
                n as i32
            } else {
                default.scale_level
            },
            None => default.scale_level,
        }),
{
    let auto_start = match startup {
        Some(b) => b,
        None => default.auto_start,
    };
    let comp_level = match comp {
        Some(n) => if -1 <= n && n <= 10 {
            n as i32
        } else {
            default.comp_level
        },
        None => default.comp_level,
    };
    let scale_level = match scale {
        Some(n) => if 1 <= n && n <= 100 {
            n as i32
        } else {
            default.scale_level
        },
        None => default.scale_level,
    };
    Sundry { auto_start, comp_level, scale_level }
}

} // verus!
