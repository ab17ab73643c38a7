//! The configuration the process starts with: where it listens, which
//! database it uses, and where the assets (themes, attachments) live.

use vstd::prelude::*;

verus! {

pub struct ApplicationConfiguration {
    pub listen_addr: String,
    pub database: String,
    pub asset_dir: String,
}

} // verus!
