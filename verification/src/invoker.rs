//! Building the argument vector for the managed capture executable.
//!
//! The command-line contract is fixed: a `--comp:<level>,<scale>` token, an
//! optional leading `--cap:long` token, a `--path:"<dir>"` token (empty when
//! no save directory is configured), and one trailing GUI-toolbar string
//! appended only when non-empty.  Spawning the process is the driver's job;
//! this module pins down exactly what is handed to it.

use vstd::prelude::*;

use crate::settings::GuiConfig;
use crate::text::slashes_forward;
use crate::text::str_chars;
use crate::text::push_char;

verus! {

/// The decimal digit character for `d`.
pub open spec fn dec_digit(d: int) -> char {
    if d == 0 {
        '0'
    } else if d == 1 {
        '1'
    } else if d == 2 {
        '2'
    } else if d == 3 {
        '3'
    } else if d == 4 {
        '4'
    } else if d == 5 {
        '5'
    } else if d == 6 {
        '6'
    } else if d == 7 {
        '7'
    } else if d == 8 {
        '8'
    } else {
        '9'
    }
}

/// The decimal digits of a non-negative number, most significant first.
pub open spec fn spec_dec(n: nat) -> Seq<char>
    decreases n,
{
    if n < 10 {
        seq![dec_digit(n as int)]
    } else {
        spec_dec(n / 10).push(dec_digit((n % 10) as int))
    }
}

/// The decimal rendering of a signed number: a minus sign followed by the
/// digits of its magnitude.
pub open spec fn spec_dec_i32(n: int) -> Seq<char> {
    if n < 0 {
        seq!['-'] + spec_dec((-n) as nat)
    } else {
        spec_dec(n as nat)
    }
}

/// Appends one decimal digit character.
fn push_digit(out: &mut String, d: u32)
    requires
        d < 10,
    ensures
        final(out)@ == old(out)@.push(dec_digit(d as int)),
{
    let c: char = match d {
        0 => '0',
        1 => '1',
        2 => '2',
        3 => '3',
        4 => '4',
        5 => '5',
        6 => '6',
        7 => '7',
        8 => '8',
        _ => '9',
    };
    push_char(out, c);
}

/// Appends the decimal digits of `n`.
fn dec_into(out: &mut String, n: u32)
    ensures
        final(out)@ == old(out)@ + spec_dec(n as nat),
    decreases n,
{
    if n < 10 {
        push_digit(out, n);
        proof {
            assert(old(out)@.push(dec_digit(n as int)) =~= old(out)@ + spec_dec(n as nat));
        }
    } else {
        proof {
            assert(n / 10 < n) by (nonlinear_arith)
                requires
                    n >= 10,
            ;
        }
        dec_into(out, n / 10);
        push_digit(out, n % 10);
        proof {
            assert((old(out)@ + spec_dec((n / 10) as nat)).push(dec_digit((n % 10) as int)) =~= old(
                out,
            )@ + spec_dec((n / 10) as nat).push(dec_digit((n % 10) as int)));
            assert(spec_dec(n as nat) == spec_dec((n as nat) / 10).push(
                dec_digit(((n as nat) % 10) as int),
            ));
        }
    }
}

/// The decimal rendering of a signed 32-bit number.
pub fn dec_i32(n: i32) -> (r: String)
    ensures
        r@ == spec_dec_i32(n as int),
{
    let mut out = String::new();
    if n < 0 {
        push_char(&mut out, '-');
        let mag: u32 = (-(n as i64)) as u32;
        proof {
            assert(mag == -(n as int));
        }
        dec_into(&mut out, mag);
        proof {
            assert(out@ =~= seq!['-'] + spec_dec((-(n as int)) as nat));
        }
    } else {
        dec_into(&mut out, n as u32);
        proof {
            assert(out@ =~= spec_dec(n as nat));
        }
    }
    out
}

/// The save-path token: empty when no directory is configured, otherwise
/// the directory — backslashes turned forward — wrapped in a quoted
/// `--path:` token.
pub open spec fn spec_save_path_arg(s: Seq<char>) -> Seq<char> {
    if s.len() == 0 {
        Seq::<char>::empty()
    } else {
        "--path:\""@ + slashes_forward(s) + "\""@
    }
}

/// Builds the save-path token for the configured save directory.
pub fn save_path_get(save_path: &str) -> (r: String)
    ensures
        r@ == spec_save_path_arg(save_path@),
{
    if save_path.is_empty() {
        String::new()
    } else {
        let mut out = String::from_str("--path:\"");
        let chars = str_chars(save_path);
        let n = chars.len();
        let mut i: usize = 0;
        while i < n
            invariant
                n == chars@.len(),
                i <= n,
                out@ == "--path:\""@ + slashes_forward(chars@.take(i as int)),
            decreases n - i,
        {
            let c = chars[i];
            if c == '\\' {
                push_char(&mut out, '/');
            } else {
                push_char(&mut out, c);
            }
            proof {
                assert(out@ =~= "--path:\""@ + slashes_forward(chars@.take(i + 1)));
            }
            i += 1;
        }
        proof {
            assert(chars@.take(n as int) =~= chars@);
        }
        out.append("\"");
        out
    }
}

/// The `--comp:<level>,<scale>` token.
pub open spec fn spec_comp_arg(comp: int, scale: int) -> Seq<char> {
    "--comp:"@ + spec_dec_i32(comp) + ","@ + spec_dec_i32(scale)
}

/// Builds the compression/scale token.
pub fn comp_arg(comp: i32, scale: i32) -> (r: String)
    ensures
        r@ == spec_comp_arg(comp as int, scale as int),
{
    let mut out = String::from_str("--comp:");
    let c = dec_i32(comp);
    out.append(c.as_str());
    out.append(",");
    let s = dec_i32(scale);
    out.append(s.as_str());
    proof {
        assert(out@ =~= spec_comp_arg(comp as int, scale as int));
    }
    out
}

/// Wraps a configured toolbar specification into the quoted `--tool:` token
/// the capture executable expects.
pub fn wrap_tool_spec(s: &str) -> (r: String)
    ensures
        r@ == "--tool:\""@ + s@ + "\""@,
{
    let mut out = String::from_str("--tool:\"");
    out.append(s);
    out.append("\"");
    proof {
        assert(out@ =~= "--tool:\""@ + s@ + "\""@);
    }
    out
}

/// The full argument vector for one capture invocation: the optional
/// `--cap:long` token, the compression/scale token, the save-path token,
/// and — only when non-empty — the GUI toolbar string for the requested
/// mode.
pub open spec fn spec_capture_args(
    long: bool,
    comp: int,
    scale: int,
    save: Seq<char>,
    gui_normal: Seq<char>,
    gui_long: Seq<char>,
) -> Seq<Seq<char>> {
    let base: Seq<Seq<char>> = if long {
        seq!["--cap:long"@]
    } else {
        Seq::<Seq<char>>::empty()
    };
    let with_tokens = base.push(spec_comp_arg(comp, scale)).push(spec_save_path_arg(save));
    let chosen = if long {
        gui_long
    } else {
        gui_normal
    };
    if chosen.len() > 0 {
        with_tokens.push(chosen)
    } else {
        with_tokens
    }
}

/// Builds the argument vector handed to the capture executable for one
/// invocation, normal or long.
pub fn build_capture_args(
    long: bool,
    comp: i32,
    scale: i32,
    save_path: &str,
    gui: &GuiConfig,
) -> (r: Vec<String>)
    ensures
        r.deep_view() == spec_capture_args(
            long,
            comp as int,
            scale as int,
            save_path@,
            gui.normal@,
            gui.long@,
        ),
{
    let mut args: Vec<String> = Vec::new();
    if long {
        args.push("--cap:long".to_owned());
    }
    args.push(comp_arg(comp, scale));
    args.push(save_path_get(save_path));
    let gui_arg = if long {
        &gui.long
    } else {
        &gui.normal
    };
    if !gui_arg.as_str().is_empty() {
        args.push(gui_arg.clone());
    }
    proof {
        assert(args.deep_view() =~= spec_capture_args(
            long,
            comp as int,
            scale as int,
            save_path@,
            gui.normal@,
            gui.long@,
        ));
    }
    args
}

} // verus!
