//! The command surface as plain data: the top-level invocation and its
//! subcommands. Argument parsing itself is presentation-layer work done
//! by the driver, which converts into these types.

use vstd::prelude::*;

verus! {

pub struct Rzup {
    pub verbose: bool,
    pub subcmd: Option<RzupSubcmd>,
}

pub enum RzupSubcmd {
    Install { opts: UpdateOpts },
    Show { verbose: bool, subcmd: Option<ShowSubcmd> },
    Update { toolchain: Vec<String>, force: bool },
    Check,
    Default,
    Toolchain,
}

pub enum ShowSubcmd {
    ActiveToolchain { verbose: bool },
    Home,
}

#[derive(Default)]
pub struct UpdateOpts {
    pub toolchain: Vec<String>,
    pub install_cargo_risczero: bool,
}

pub fn version() -> (r: &'static str)
    ensures
        r@ == "0.0.0"@,
{
    "0.0.0"
}

} // verus!
