//! Unix permission bit constants.
use vstd::prelude::*;

verus! {

pub const OWNER_READ: u32 = 0o400;
pub const OWNER_WRITE: u32 = 0o200;
pub const OWNER_EXEC: u32 = 0o100;
pub const GROUP_READ: u32 = 0o040;
pub const GROUP_WRITE: u32 = 0o020;
pub const GROUP_EXEC: u32 = 0o010;
pub const OTHER_READ: u32 = 0o004;
pub const OTHER_WRITE: u32 = 0o002;
pub const OTHER_EXEC: u32 = 0o001;

pub const READ_ONLY: u32 = 0o444;
pub const DEFAULT: u32 = 0o644;
pub const DEFAULT_DIR: u32 = 0o755;
pub const PRIVATE: u32 = 0o600;
pub const PRIVATE_DIR: u32 = 0o700;

} // verus!
