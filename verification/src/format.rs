//! The archive formats a backup can be written in.

use vstd::prelude::*;

verus! {

/// Archive format of a backup.
#[derive(Clone, Copy, Debug, PartialEq, Eq, Structural)]
pub enum BackupFormat {
    TarGz,
    TarZst,
    Zip,
}

impl BackupFormat {
    /// File extension of the format, without a leading dot.
    pub open spec fn extension_spec(self) -> Seq<char> {
        match self {
            BackupFormat::TarGz => "tar.gz"@,
            BackupFormat::TarZst => "tar.zst"@,
            BackupFormat::Zip => "zip"@,
        }
    }

    /// File extension of the format, without a leading dot.
    pub fn extension(&self) -> (ext: &'static str)
        ensures
            ext@ == self.extension_spec(),
    {
        match self {
            BackupFormat::TarGz => "tar.gz",
            BackupFormat::TarZst => "tar.zst",
            BackupFormat::Zip => "zip",
        }
    }
}

} // verus!
