//! The toolchain subcommand surface as plain data.

use vstd::prelude::*;
use vstd::string::*;

verus! {

pub struct BuildToolchain {
    pub version: Option<String>,
}

pub enum ToolchainSubcmd {
    List { verbose: bool },
    Install { subcmd: ToolchainInstallSubcmd },
    Build(BuildToolchain),
    Update { subcmd: ToolchainInstallSubcmd },
}

pub enum ToolchainInstallSubcmd {
    Rust { toolchain: Option<String> },
    Cpp { toolchain: Option<String> },
}

#[derive(Clone)]
pub enum ToolchainCheckSubcmd {
    Rust,
    Cpp,
}

pub open spec fn check_subcmd_name_spec(c: ToolchainCheckSubcmd) -> Seq<char> {
    match c {
        ToolchainCheckSubcmd::Rust => "rust"@,
        ToolchainCheckSubcmd::Cpp => "c++"@,
    }
}

impl ToolchainCheckSubcmd {
    /// The user-facing name of the checked family.
    pub fn to_string(&self) -> (r: String)
        ensures
            r@ == check_subcmd_name_spec(*self),
    {
        match self {
            ToolchainCheckSubcmd::Rust => String::from_str("rust"),
            ToolchainCheckSubcmd::Cpp => String::from_str("c++"),
        }
    }
}

} // verus!
