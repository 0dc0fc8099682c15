//! What a download leaves behind.

use vstd::prelude::*;

verus! {

/// A downloaded jar in the temporary directory.
#[derive(Clone, Debug, PartialEq, Eq)]
pub struct DownloadedJar {
    /// The name the jar has where it comes from, if known.
    pub real_jar_name: Option<String>,
    pub temp_jar_name: String,
    pub temp_jar_path: String,
}

impl DownloadedJar {
    /// No jar: no name, no path.
    pub fn empty() -> (jar: Self)
        ensures
            jar.real_jar_name is None,
            jar.temp_jar_name@ == Seq::<char>::empty(),
            jar.temp_jar_path@ == Seq::<char>::empty(),
    {
        Self { real_jar_name: None, temp_jar_name: String::new(), temp_jar_path: String::new() }
    }
}

/// A downloaded file in the temporary directory.
#[derive(Clone, Debug, PartialEq, Eq)]
pub struct DownloadedFile {
    /// The name the file has where it comes from, if known.
    pub real_file_name: Option<String>,
    pub temp_file_name: String,
    pub temp_file_path: String,
}

impl DownloadedFile {
    /// No file: no name, no path.
    pub fn empty() -> (file: Self)
        ensures
            file.real_file_name is None,
            file.temp_file_name@ == Seq::<char>::empty(),
            file.temp_file_path@ == Seq::<char>::empty(),
    {
        Self { real_file_name: None, temp_file_name: String::new(), temp_file_path: String::new() }
    }
}

} // verus!
