//! The command that hands a URL to the platform's default handler. Which of
//! the three forms applies is fixed when the library is built; the caller
//! spawns the command without waiting for it.
use vstd::prelude::*;

verus! {

/// The platform families that open a URL differently.
#[derive(Clone, Copy, Debug, PartialEq, Eq, Structural)]
pub enum Platform {
    Windows,
    MacOs,
    /// Linux and every other Unix-like system.
    Unix,
}

/// A program to run and the arguments to give it.
pub struct LaunchCommand {
    pub program: String,
    pub args: Vec<String>,
}

/// The program that opens a URL on `platform`.
pub open spec fn launch_program(platform: Platform) -> Seq<char> {
    match platform {
        Platform::Windows => "cmd"@,
        Platform::MacOs => "open"@,
        Platform::Unix => "xdg-open"@,
    }
}

/// The arguments that make `launch_program(platform)` open `url`.
pub open spec fn launch_args(platform: Platform, url: Seq<char>) -> Seq<Seq<char>> {
    match platform {
        Platform::Windows => seq!["/C"@, "start"@, url],
        Platform::MacOs => seq![url],
        Platform::Unix => seq![url],
    }
}

/// Builds the command that opens `url` on `platform`: `cmd /C start <url>` on
/// Windows, `open <url>` on macOS and `xdg-open <url>` elsewhere. The URL is
/// passed as one argument, unchanged.
pub fn open_url_command(platform: Platform, url: &str) -> (r: LaunchCommand)
    ensures
        r.program@ == launch_program(platform),
        r.args@.len() == launch_args(platform, url@).len(),
        forall|i: int|
            0 <= i < r.args@.len() ==> #[trigger] r.args@[i]@ == launch_args(platform, url@)[i],
{
    let mut args: Vec<String> = Vec::new();
    let program = match platform {
        Platform::Windows => {
            args.push(String::from_str("/C"));
            args.push(String::from_str("start"));
            String::from_str("cmd")
        },
        Platform::MacOs => String::from_str("open"),
        Platform::Unix => String::from_str("xdg-open"),
    };
    args.push(String::from_str(url));
    LaunchCommand { program, args }
}

} // verus!
