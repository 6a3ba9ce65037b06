//! Pointing an IDE's project settings at the Rust toolchain in use.

use crate::error_message::ErrorMessage;
use crate::text::contains_text;
use crate::text::join;
use crate::text::split_once;
use crate::text::split_once_of;
use crate::text::trim;
use crate::text::trimmed;
use vstd::prelude::*;
use vstd::string::*;

verus! {

/// The line with which the component for the Rust settings begins.
pub open spec fn component_start() -> Seq<char> {
    "<component name=\"RustProjectSettings\">"@
}

/// The component that names the toolchain and its standard library.
pub open spec fn component_text(rust_bin: Seq<char>, rust_lib: Seq<char>) -> Seq<char> {
    component_start() + "\n    <option name=\"toolchainHomeDirectory\" value=\""@ + rust_bin
        + "\" />\n    <option name=\"explicitPathToStdlib\" value=\""@ + rust_lib
        + "\" />\n  </component>"@
}

/// Where the binaries of the toolchain lie, from what `rustc` printed as its
/// root.
pub fn rust_bin_path(sysroot_output: &str) -> (path: String)
    ensures
        path@ == trimmed(sysroot_output@) + "/bin"@,
{
    join(trim(sysroot_output), "/bin")
}

/// Where the standard library lies, from what `rustc` printed as its root.
pub fn rust_lib_path(sysroot_output: &str) -> (path: String)
    ensures
        path@ == trimmed(sysroot_output@) + "/lib/rustlib/src/rust/library"@,
{
    join(trim(sysroot_output), "/lib/rustlib/src/rust/library")
}

/// The failure for binaries that are not where they should be.
pub fn missing_binaries(rust_bin: &str) -> (error: ErrorMessage)
    ensures
        error@ == seq!["Rust binaries not found at path: "@ + rust_bin@],
        !error.ends_foreign(),
{
    ErrorMessage::new(join("Rust binaries not found at path: ", rust_bin))
}

/// The failure for a standard library that is not where it should be.
pub fn missing_stdlib(rust_lib: &str) -> (error: ErrorMessage)
    ensures
        error@ == seq!["Rust stdlib not found at path: "@ + rust_lib@],
        !error.ends_foreign(),
{
    ErrorMessage::new(join("Rust stdlib not found at path: ", rust_lib))
}

/// Writes the component that names the toolchain and its standard library.
pub fn create_config(rust_bin: &str, rust_lib: &str) -> (config: String)
    ensures
        config@ == component_text(rust_bin@, rust_lib@),
{
    let mut config = "<component name=\"RustProjectSettings\">".to_owned();
    config.append("\n    <option name=\"toolchainHomeDirectory\" value=\"");
    config.append(rust_bin);
    config.append("\" />\n    <option name=\"explicitPathToStdlib\" value=\"");
    config.append(rust_lib);
    config.append("\" />\n  </component>");
    config
}

/// The settings with `config` as a new component: it stands, indented and on
/// a line of its own, before the first `</project>`. Nothing where the
/// settings do not hold `</project>`.
pub open spec fn inserted(content: Seq<char>, config: Seq<char>) -> Option<Seq<char>> {
    match split_once_of(content, "</project>"@) {
        Some((before, after)) => Some(before + "  "@ + config + "\n"@ + "</project>"@ + after),
        None => None,
    }
}

/// The settings with `config` in place of the component for the Rust
/// settings, which reaches from its first line to the first `</component>`
/// behind that. Nothing where the settings hold no such component, or where
/// it does not end.
pub open spec fn replaced(content: Seq<char>, config: Seq<char>) -> Option<Seq<char>> {
    match split_once_of(content, component_start()) {
        Some((before, body)) => match split_once_of(body, "</component>"@) {
            Some((_, after)) => Some(before + config + after),
            None => None,
        },
        None => None,
    }
}

/// Whether the settings hold a component for the Rust settings.
pub fn has_component(content: &str) -> (found: bool)
    ensures
        found == contains_text(content@, component_start()),
{
    crate::text::contains(content, "<component name=\"RustProjectSettings\">")
}

/// Puts `config` into settings that hold no component for the Rust settings.
pub fn insert_new_config(content: &str, config: &str) -> (updated: Option<String>)
    ensures
        inserted(content@, config@) == match updated {
            Some(text) => Some(text@),
            None => None,
        },
{
    match split_once(content, "</project>") {
        Some((before, after)) => {
            let mut text = before;
            text.append("  ");
            text.append(config);
            text.append("\n");
            text.append("</project>");
            text.append(after.as_str());
            Some(text)
        },
        None => None,
    }
}

/// Puts `config` in place of the component for the Rust settings.
pub fn replace_config(content: &str, config: &str) -> (updated: Option<String>)
    ensures
        replaced(content@, config@) == match updated {
            Some(text) => Some(text@),
            None => None,
        },
{
    match split_once(content, "<component name=\"RustProjectSettings\">") {
        Some((before, body)) => match split_once(body.as_str(), "</component>") {
            Some((_, after)) => {
                let mut text = before;
                text.append(config);
                text.append(after.as_str());
                Some(text)
            },
            None => None,
        },
        None => None,
    }
}

/// The first of `candidates` that is a directory, where `is_dir` says of
/// each whether it is one.
pub open spec fn first_dir(candidates: Seq<String>, is_dir: Seq<bool>) -> Option<Seq<char>>
    decreases candidates.len(),
{
    if candidates.len() == 0 || is_dir.len() == 0 {
        None
    } else if is_dir[0] {
        Some(candidates[0]@)
    } else {
        first_dir(candidates.drop_first(), is_dir.drop_first())
    }
}

/// Finds the `.idea` folder of the project: the first of `candidates`, which
/// are the folders of that name in the working directory and in each of its
/// parents, that is a directory. A failure where none is; a candidate of
/// which `is_dir` says nothing counts as none.
pub fn find_dot_idea_folder(candidates: &Vec<String>, is_dir: &Vec<bool>) -> (r: Result<
    String,
    ErrorMessage,
>)
    ensures
        match first_dir(candidates@, is_dir@) {
            Some(path) => r is Ok && r->Ok_0@ == path,
            None => r is Err && r->Err_0@ == seq![
                "Could not find .idea/ directory when searching all parents.Root path reached when trying to get parent directory."@,
            ] && !r->Err_0.ends_foreign(),
        },
{
    let mut i: usize = 0;
    assert(candidates@.skip(0) =~= candidates@ && is_dir@.skip(0) =~= is_dir@);
    while i < candidates.len() && i < is_dir.len()
        invariant
            i <= candidates.len(),
            i <= is_dir.len(),
            first_dir(candidates@, is_dir@) == first_dir(
                candidates@.skip(i as int),
                is_dir@.skip(i as int),
            ),
        decreases candidates.len() - i,
    {
        assert(candidates@.skip(i as int).drop_first() =~= candidates@.skip(i + 1));
        assert(is_dir@.skip(i as int).drop_first() =~= is_dir@.skip(i + 1));
        if is_dir[i] {
            return Ok(candidates[i].clone());
        }
        i += 1;
    }
    ErrorMessage::err(
        "Could not find .idea/ directory when searching all parents.Root path reached when trying to get parent directory.".to_owned(),
    )
}

} // verus!
