//! The show command's surface as plain data; the listing itself is
//! directory I/O done by the driver.

use vstd::prelude::*;

verus! {

pub enum ShowSubcmd {
    ActiveToolchain { verbose: bool },
    Home,
}

} // verus!
