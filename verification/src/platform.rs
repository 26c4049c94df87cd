//! Startup decisions: which source the document comes from, how the bound
//! host is displayed, and the WSL probe the browser opener needs.

use vstd::prelude::*;

verus! {

/// Where the document's source text comes from.
pub enum SourceChoice {
    FromFile,
    FromClipboard,
    FromStdin,
}

/// Decides the input source from the command-line shape. A file argument
/// and the clipboard flag together are rejected (`None`, a fatal startup
/// error), as is server mode with no input at all; standard input stands in
/// only for the one-shot static mode.
pub fn choose_source(has_file: bool, use_clipboard: bool, server_mode: bool) -> (r: Option<
    SourceChoice,
>)
    ensures
        (has_file && use_clipboard) ==> r is None,
        (use_clipboard && !has_file) ==> r == Some(SourceChoice::FromClipboard),
        (has_file && !use_clipboard) ==> r == Some(SourceChoice::FromFile),
        (!has_file && !use_clipboard && !server_mode) ==> r == Some(SourceChoice::FromStdin),
        (!has_file && !use_clipboard && server_mode) ==> r is None,
{
    if has_file && use_clipboard {
        None
    } else if use_clipboard {
        Some(SourceChoice::FromClipboard)
    } else if has_file {
        Some(SourceChoice::FromFile)
    } else if server_mode {
        None
    } else {
        Some(SourceChoice::FromStdin)
    }
}

/// The host name printed and opened in the browser: the wildcard bind
/// address is replaced by the machine's detected local address when one is
/// known; any other host is shown as given.
pub fn display_host(host: &String, detected: Option<String>) -> (r: String)
    ensures
        (match detected {
            Some(ip) => if host@ == "0.0.0.0"@ {
                r@ == ip@
            } else {
                r@ == host@
            },
            None => r@ == host@,
        }),
{
    let wildcard = String::from_str("0.0.0.0");
    match detected {
        Some(ip) => {
            if *host == wildcard {
                ip
            } else {
                host.clone()
            }
        },
        None => host.clone(),
    }
}

/// Relies on std::path::Path::exists: reports whether the WSL interop
/// marker path is present, which tells a Linux process it runs under
/// Windows Subsystem for Linux. The answer depends on the machine, so
/// nothing is claimed of it.
#[verifier::external_body]
pub fn check_for_wsl2() -> bool {
    std::path::Path::new("/proc/sys/fs/binfmt_misc/WSLInterop").exists()
}

} // verus!
