//! Installation linking decisions. The chained variant registers an
//! extracted directory with the external toolchain-multiplexing tool under
//! a stable name, replacing any previous registration; the direct variant
//! moves the archive's single top-level directory into a fixed home. The
//! subprocess and filesystem work is performed by the driver; everything
//! decided from its outcomes is here.

use vstd::prelude::*;
use vstd::string::*;

use crate::error::InstallError;
use crate::text::{split_lines, split_lines_spec, starts_with, starts_with_spec, trim, trim_spec};

verus! {

/// The stable name under which the chained compiler toolchain is
/// registered with the external chaining tool.
pub const RUSTUP_TOOLCHAIN_NAME: &'static str = "risc0";

/// A direct-install toolchain: a directory this system owns outright.
#[derive(Clone, Debug)]
pub struct CppToolchain {
    pub path: String,
}

/// A chained toolchain: a directory registered with the external chaining
/// tool under a stable logical name.
#[derive(Clone, Debug)]
pub struct RustupToolchain {
    pub path: String,
    pub name: String,
}

impl CppToolchain {
    /// Direct-install layout rule: the extracted archive must hold exactly
    /// one top-level entry, the true toolchain root. Any other count is
    /// `UnexpectedArchiveLayout`, and nothing previously installed is
    /// touched.
    pub fn get_subdir(entries: &Vec<String>) -> (r: Result<String, InstallError>)
        ensures
            entries@.len() == 1 ==> (r matches Ok(p) && p@ == entries@[0]@),
            entries@.len() != 1 ==> (r matches Err(e) && (e matches
                InstallError::UnexpectedArchiveLayout { entries: n } && n == entries@.len())),
    {
        if entries.len() == 1 {
            Ok(entries[0].clone())
        } else {
            Err(InstallError::UnexpectedArchiveLayout { entries: entries.len() })
        }
    }
}

/// A line of the chaining tool's listing names this toolchain when its
/// trimmed form starts with the name.
pub open spec fn line_selects(l: Seq<char>, name: Seq<char>) -> bool {
    starts_with_spec(trim_spec(l), name)
}

/// What scanning the listing yields: the first line whose trimmed form
/// starts with the name decides the outcome — if the raw line itself
/// starts with the name, the remainder (trimmed) is the toolchain's path;
/// an indented match yields nothing.
pub open spec fn parse_lines_spec(lines: Seq<Seq<char>>, name: Seq<char>) -> Option<Seq<char>>
    decreases lines.len(),
{
    if lines.len() == 0 {
        None
    } else if line_selects(lines[0], name) {
        if starts_with_spec(lines[0], name) {
            Some(trim_spec(lines[0].skip(name.len() as int)))
        } else {
            None
        }
    } else {
        parse_lines_spec(lines.drop_first(), name)
    }
}

pub open spec fn toolchain_path_in_list_spec(out: Seq<char>, name: Seq<char>) -> Option<
    Seq<char>,
> {
    parse_lines_spec(split_lines_spec(out), name)
}

impl RustupToolchain {
    /// Scan the chaining tool's verbose listing for a toolchain registered
    /// under `name` and recover its directory.
    pub fn find_by_name(list_output: &str, name: &str) -> (r: Option<RustupToolchain>)
        ensures
            match r {
                Some(t) => toolchain_path_in_list_spec(list_output@, name@) == Some(t.path@)
                    && t.name@ == name@,
                None => toolchain_path_in_list_spec(list_output@, name@) is None,
            },
    {
        let lines = split_lines(list_output);
        let ghost sl = split_lines_spec(list_output@);
        let n = lines.len();
        let mut i: usize = 0;
        proof {
            assert(sl.skip(0) =~= sl);
        }
        while i < n
            invariant
                i <= n,
                n == lines@.len(),
                n == sl.len(),
                forall|j: int| 0 <= j < n ==> lines@[j]@ == sl[j],
                sl == split_lines_spec(list_output@),
                parse_lines_spec(sl, name@) == parse_lines_spec(sl.skip(i as int), name@),
            decreases n - i,
        {
            proof {
                assert(sl.skip(i as int)[0] == sl[i as int]);
                assert(sl.skip(i as int).drop_first() =~= sl.skip(i as int + 1));
            }
            let line = &lines[i];
            let trimmed = trim(line.as_str());
            if starts_with(trimmed.as_str(), name) {
                if starts_with(line.as_str(), name) {
                    let rest = line.as_str().substring_char(
                        name.unicode_len(),
                        line.as_str().unicode_len(),
                    );
                    proof {
                        assert(rest@ =~= sl[i as int].skip(name@.len() as int));
                    }
                    let path = trim(rest);
                    return Some(RustupToolchain { name: String::from_str(name), path });
                } else {
                    return None;
                }
            }
            i = i + 1;
        }
        proof {
            assert(sl.skip(n as int) =~= Seq::<Seq<char>>::empty());
        }
        None
    }
}

/// Where the compiler entry point of a chained toolchain must sit inside
/// an extracted directory for the directory to be a usable toolchain.
pub open spec fn rustc_path_spec(dir: Seq<char>, windows: bool) -> Seq<char> {
    if windows {
        dir + "/bin/rustc.exe"@
    } else {
        dir + "/bin/rustc"@
    }
}

pub fn rustc_path(dir: &str, windows: bool) -> (r: String)
    ensures
        r@ == rustc_path_spec(dir@, windows),
{
    if windows {
        crate::text::concat2(dir, "/bin/rustc.exe")
    } else {
        crate::text::concat2(dir, "/bin/rustc")
    }
}

} // verus!
