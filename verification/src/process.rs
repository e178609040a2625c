//! The system commands run around the engine, and what their output means.
use vstd::prelude::*;
use vstd::utf8::{decode_utf8, valid_utf8};

use crate::text::{contains, contains_text, decode_lossy, push_text, texts, utf8_lossy};

verus! {

/// The arguments of `netsh` that turn TCP timestamps on, which the engine
/// needs.
pub fn tcp_timestamps_args() -> (args: Vec<String>)
    ensures
        texts(args@) == seq![
            "interface"@,
            "tcp"@,
            "set"@,
            "global"@,
            "timestamps=enabled"@,
        ],
{
    let mut args: Vec<String> = Vec::new();
    push_text(&mut args, "interface");
    push_text(&mut args, "tcp");
    push_text(&mut args, "set");
    push_text(&mut args, "global");
    push_text(&mut args, "timestamps=enabled");
    assert(texts(args@) =~= seq!["interface"@, "tcp"@, "set"@, "global"@, "timestamps=enabled"@]);
    args
}

/// The arguments of `cmd` that kill every running engine.
pub fn stop_engine_args() -> (args: Vec<String>)
    ensures
        texts(args@) == seq!["/C"@, "taskkill /F /IM winws.exe"@],
{
    let mut args: Vec<String> = Vec::new();
    push_text(&mut args, "/C");
    push_text(&mut args, "taskkill /F /IM winws.exe");
    assert(texts(args@) =~= seq!["/C"@, "taskkill /F /IM winws.exe"@]);
    args
}

/// The arguments of `cmd` that list the running engines.
pub fn list_engine_args() -> (args: Vec<String>)
    ensures
        texts(args@) == seq!["/C"@, "tasklist /FI \"IMAGENAME eq winws.exe\""@],
{
    let mut args: Vec<String> = Vec::new();
    push_text(&mut args, "/C");
    push_text(&mut args, "tasklist /FI \"IMAGENAME eq winws.exe\"");
    assert(texts(args@) =~= seq!["/C"@, "tasklist /FI \"IMAGENAME eq winws.exe\""@]);
    args
}

/// Whether the output of the task listing, decoded leniently, names the
/// engine, that is, whether the engine is running.
pub fn is_zapret_running(listing: &[u8]) -> (running: bool)
    ensures
        running == contains_text(utf8_lossy(listing@), "winws.exe"@),
        valid_utf8(listing@) ==> running == contains_text(decode_utf8(listing@), "winws.exe"@),
{
    let text = decode_lossy(listing);
    contains(text.as_str(), "winws.exe")
}

} // verus!
