//! File-type icons, looked up by the `devicons` crate.

use vstd::prelude::*;
use devicons::FileIcon;

verus! {

#[verifier::external_type_specification]
#[verifier::external_body]
pub struct ExFileIcon(FileIcon);

/// `devicons::FileIcon::from` a path: the icon for a file of that name. The
/// lookup asks the file system whether the path is a directory, so nothing is
/// stated of the icon that comes back.
#[verifier::external_body]
pub(crate) fn icon_for(path: &str) -> FileIcon {
    FileIcon::from(path)
}

} // verus!
