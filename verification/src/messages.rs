//! The texts shown to the caller: for each one the spec function that says
//! what it reads, and the function that builds it.

use vstd::prelude::*;
use vstd::string::StringExecFns;

verus! {

pub open spec fn source_missing(src: Seq<char>) -> Seq<char> {
    "Source does not exist: "@ + src
}

pub open spec fn path_missing(path: Seq<char>) -> Seq<char> {
    "Path not found: "@ + path
}

pub open spec fn target_missing(src: Seq<char>) -> Seq<char> {
    "Target does not exist: "@ + src
}

pub open spec fn dir_missing() -> Seq<char> {
    "Path does not exist"@
}

pub open spec fn dest_exists(dst: Seq<char>, moving: bool) -> Seq<char> {
    if moving {
        "Destination exists: "@ + dst
    } else {
        "Destination exists: "@ + dst + " (set overwrite=true to replace)"@
    }
}

pub open spec fn unsupported_source(moving: bool, note: Seq<char>) -> Seq<char> {
    if moving {
        "Rename failed and source is neither file nor dir: "@ + note
    } else {
        "Source is neither file nor directory"@
    }
}

pub open spec fn moved_note(dir: bool, note: Seq<char>) -> Seq<char> {
    if dir {
        "Moved dir via copy (rename failed): "@ + note
    } else {
        "Moved via copy (rename failed): "@ + note
    }
}

pub open spec fn junction_unsupported() -> Seq<char> {
    "NTFS junctions are only supported on Windows"@
}

pub open spec fn mklink_failed(stdout: Seq<char>, stderr: Seq<char>) -> Seq<char> {
    "mklink failed: stdout="@ + stdout + " stderr="@ + stderr
}

pub open spec fn unexpected_reply() -> Seq<char> {
    "unexpected reply from host"@
}

/// A literal followed by a text.
fn prefixed(literal: &str, text: &String) -> (r: String)
    ensures
        r@ == literal@ + text@,
{
    let mut out = String::from_str(literal);
    out.append(text.as_str());
    out
}

pub fn source_missing_message(src: &String) -> (r: String)
    ensures
        r@ == source_missing(src@),
{
    prefixed("Source does not exist: ", src)
}

pub fn path_missing_message(path: &String) -> (r: String)
    ensures
        r@ == path_missing(path@),
{
    prefixed("Path not found: ", path)
}

pub fn target_missing_message(src: &String) -> (r: String)
    ensures
        r@ == target_missing(src@),
{
    prefixed("Target does not exist: ", src)
}

pub fn dir_missing_message() -> (r: String)
    ensures
        r@ == dir_missing(),
{
    String::from_str("Path does not exist")
}

pub fn dest_exists_message(dst: &String, moving: bool) -> (r: String)
    ensures
        r@ == dest_exists(dst@, moving),
{
    let mut out = prefixed("Destination exists: ", dst);
    if !moving {
        out.append(" (set overwrite=true to replace)");
    }
    out
}

pub fn unsupported_source_message(moving: bool, note: &String) -> (r: String)
    ensures
        r@ == unsupported_source(moving, note@),
{
    if moving {
        prefixed("Rename failed and source is neither file nor dir: ", note)
    } else {
        String::from_str("Source is neither file nor directory")
    }
}

pub fn moved_note_message(dir: bool, note: &String) -> (r: String)
    ensures
        r@ == moved_note(dir, note@),
{
    if dir {
        prefixed("Moved dir via copy (rename failed): ", note)
    } else {
        prefixed("Moved via copy (rename failed): ", note)
    }
}

pub fn junction_unsupported_message() -> (r: String)
    ensures
        r@ == junction_unsupported(),
{
    String::from_str("NTFS junctions are only supported on Windows")
}

pub fn mklink_failed_message(stdout: &String, stderr: &String) -> (r: String)
    ensures
        r@ == mklink_failed(stdout@, stderr@),
{
    let mut out = prefixed("mklink failed: stdout=", stdout);
    out.append(" stderr=");
    out.append(stderr.as_str());
    out
}

pub fn unexpected_reply_message() -> (r: String)
    ensures
        r@ == unexpected_reply(),
{
    String::from_str("unexpected reply from host")
}

} // verus!
