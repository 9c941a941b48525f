//! The budgets under which candidates are discovered.

use vstd::prelude::*;

verus! {

/// The largest file, in bytes, that is read for candidates.
pub const MAX_FILE_SIZE: u64 = 4194304;

/// The number of candidates beyond which discovery stops. The limit is soft:
/// it is checked between files, so the candidates of one more file may follow.
pub const MAX_LINES_IN_MEM: usize = 5000000;

/// The largest number of files that are taken over from a channel of files.
pub const MAX_PIPED_FILES: usize = 25000;

/// The budget of candidates is used up.
pub open spec fn over_budget(lines_in_mem: nat) -> bool {
    lines_in_mem > MAX_LINES_IN_MEM
}

/// The size of the file is known and within the ceiling. A file whose size
/// could not be found out is not read.
pub open spec fn size_allows(size: Option<u64>) -> bool {
    size is Some && size->0 <= MAX_FILE_SIZE
}

/// The cap on files taken over is the candidate budget at two hundred lines
/// to a file.
pub proof fn lemma_piped_files_cap()
    ensures
        MAX_PIPED_FILES == MAX_LINES_IN_MEM / 200,
{
}

} // verus!
