//! ViaVersion and ViaBackwards, whose builds come in channels.

use vstd::prelude::*;
use vstd::string::*;
use crate::text::{eq_ignore_ascii_case, equal_texts, same_word, to_lowercase, unicode_lowercase};

verus! {

/// The names of the channels, in lower case.
pub open spec fn is_channel_name(lower: Seq<char>) -> bool {
    lower == "viaversion"@ || lower == "dev"@ || lower == "viabackwards"@ || lower
        == "compatibility"@
}

/// Whether `lower` is the name of a channel, see [`is_channel_name`].
pub fn is_known_channel(lower: &str) -> (known: bool)
    ensures
        known == is_channel_name(lower@),
{
    equal_texts(lower, "viaversion") || equal_texts(lower, "dev") || equal_texts(lower, "viabackwards")
        || equal_texts(lower, "compatibility")
}

/// Whether there is a channel of that name, whatever its case.
pub fn is_valid_channel(channel: &String) -> (valid: bool)
    ensures
        valid == is_channel_name(unicode_lowercase(channel@)),
{
    let lower = to_lowercase(channel.as_str());
    is_known_channel(lower.as_str())
}

/// The channel of a project where none is asked for.
pub open spec fn fallback_channel_spec(project: Seq<char>) -> Seq<char> {
    if same_word(project, "viaversion"@) {
        "viaversion"@
    } else if same_word(project, "viabackwards"@) {
        "viabackwards"@
    } else {
        ""@
    }
}

/// The channel of a project where none is asked for: the one named like
/// the project.
pub fn fallback_channel(project: &String) -> (channel: String)
    ensures
        channel@ == fallback_channel_spec(project@),
{
    if eq_ignore_ascii_case(project.as_str(), "viaversion") {
        "viaversion".to_owned()
    } else if eq_ignore_ascii_case(project.as_str(), "viabackwards") {
        "viabackwards".to_owned()
    } else {
        "".to_owned()
    }
}

/// The directory of the jars of the last successful build of a project
/// in a channel. `None` where the project has no such channel.
pub open spec fn libs_directory_spec(project: Seq<char>, channel: Seq<char>, zip: bool) -> Option<
    Seq<char>,
> {
    if same_word(project, "viaversion"@) && same_word(channel, "viaversion"@) {
        Some("https://ci.viaversion.com/job/ViaVersion/lastSuccessfulBuild/artifact/build/libs/"@)
    } else if same_word(project, "viaversion"@) && same_word(channel, "dev"@) {
        Some(
            "https://ci.viaversion.com/job/ViaVersion-DEV/lastSuccessfulBuild/artifact/build/libs/"@,
        )
    } else if same_word(project, "viaversion"@) && same_word(channel, "compatibility"@) {
        Some(
            "https://ci.viaversion.com/job/ViaVersion-Java8/lastSuccessfulBuild/artifact/build/libs/"@,
        )
    } else if same_word(project, "viabackwards"@) && same_word(channel, "viabackwards"@) {
        Some(
            if zip {
                "https://ci.viaversion.com/view/ViaBackwards/job/ViaBackwards/lastSuccessfulBuild/artifact/build/libs/"@
            } else {
                "https://ci.viaversion.com/job/ViaBackwards/lastSuccessfulBuild/artifact/build/libs/"@
            },
        )
    } else if same_word(project, "viabackwards"@) && same_word(channel, "dev"@) {
        Some(
            if zip {
                "https://ci.viaversion.com/view/ViaBackwards/job/ViaBackwards-DEV/lastSuccessfulBuild/artifact/build/libs/"@
            } else {
                "https://ci.viaversion.com/job/ViaBackwards-DEV/lastSuccessfulBuild/artifact/build/libs/"@
            },
        )
    } else if same_word(project, "viabackwards"@) && same_word(channel, "compatibility"@) {
        Some(
            "https://ci.viaversion.com/view/ViaBackwards/job/ViaBackwards-Java8/lastSuccessfulBuild/artifact/build/libs/"@,
        )
    } else {
        None
    }
}

fn libs_directory(project: &str, channel: &str, zip: bool) -> (directory: Option<&'static str>)
    ensures
        match libs_directory_spec(project@, channel@, zip) {
            Some(d) => directory matches Some(found) && found@ == d,
            None => directory is None,
        },
{
    let version = eq_ignore_ascii_case(project, "viaversion");
    let backwards = eq_ignore_ascii_case(project, "viabackwards");
    if version && eq_ignore_ascii_case(channel, "viaversion") {
        Some("https://ci.viaversion.com/job/ViaVersion/lastSuccessfulBuild/artifact/build/libs/")
    } else if version && eq_ignore_ascii_case(channel, "dev") {
        Some("https://ci.viaversion.com/job/ViaVersion-DEV/lastSuccessfulBuild/artifact/build/libs/")
    } else if version && eq_ignore_ascii_case(channel, "compatibility") {
        Some(
            "https://ci.viaversion.com/job/ViaVersion-Java8/lastSuccessfulBuild/artifact/build/libs/",
        )
    } else if backwards && eq_ignore_ascii_case(channel, "viabackwards") {
        Some(
            if zip {
                "https://ci.viaversion.com/view/ViaBackwards/job/ViaBackwards/lastSuccessfulBuild/artifact/build/libs/"
            } else {
                "https://ci.viaversion.com/job/ViaBackwards/lastSuccessfulBuild/artifact/build/libs/"
            },
        )
    } else if backwards && eq_ignore_ascii_case(channel, "dev") {
        Some(
            if zip {
                "https://ci.viaversion.com/view/ViaBackwards/job/ViaBackwards-DEV/lastSuccessfulBuild/artifact/build/libs/"
            } else {
                "https://ci.viaversion.com/job/ViaBackwards-DEV/lastSuccessfulBuild/artifact/build/libs/"
            },
        )
    } else if backwards && eq_ignore_ascii_case(channel, "compatibility") {
        Some(
            "https://ci.viaversion.com/view/ViaBackwards/job/ViaBackwards-Java8/lastSuccessfulBuild/artifact/build/libs/",
        )
    } else {
        None
    }
}

/// Address of the zip file with the jars of the last successful build of
/// a project in a channel; `na` where the project has no such channel.
pub fn get_zip_download_link(project: &String, channel: &String) -> (link: String)
    ensures
        link@ == match libs_directory_spec(project@, channel@, true) {
            Some(d) => d + "*zip*/libs.zip"@,
            None => "na"@,
        },
{
    match libs_directory(project.as_str(), channel.as_str(), true) {
        Some(d) => {
            let mut link = d.to_owned();
            link.append("*zip*/libs.zip");
            link
        },
        None => "na".to_owned(),
    }
}

/// Address of the page that states the fingerprint of the jar `jar_name`
/// of the last successful build of a project in a channel; `na` where
/// the project has no such channel.
pub fn get_fingerprint_link(project: &String, channel: &String, jar_name: &String) -> (link: String)
    ensures
        link@ == match libs_directory_spec(project@, channel@, false) {
            Some(d) => d + jar_name@ + "/*fingerprint*/"@,
            None => "na"@,
        },
{
    match libs_directory(project.as_str(), channel.as_str(), false) {
        Some(d) => {
            let mut link = d.to_owned();
            link.append(jar_name.as_str());
            link.append("/*fingerprint*/");
            link
        },
        None => "na".to_owned(),
    }
}

/// ViaVersion and ViaBackwards.
#[derive(Clone, Copy, Debug, PartialEq, Eq, Structural)]
pub struct ViaVersionAPI {}

impl ViaVersionAPI {
    /// Name of the jar of the project; `None` for a project that is
    /// neither ViaVersion nor ViaBackwards.
    pub fn get_jar_name(&self, project: &String) -> (name: Option<String>)
        ensures
            match name {
                Some(n) => if same_word(project@, "ViaVersion"@) {
                    n@ == "ViaVersion.jar"@
                } else {
                    same_word(project@, "ViaBackwards"@) && n@ == "ViaBackwards.jar"@
                },
                None => !same_word(project@, "ViaVersion"@) && !same_word(
                    project@,
                    "ViaBackwards"@,
                ),
            },
    {
        if eq_ignore_ascii_case(project.as_str(), "ViaVersion") {
            Some("ViaVersion.jar".to_owned())
        } else if eq_ignore_ascii_case(project.as_str(), "ViaBackwards") {
            Some("ViaBackwards.jar".to_owned())
        } else {
            None
        }
    }

    /// Address of the download of the project from the channel
    /// `selected`, given whether there is a channel of that name; empty
    /// where there is none.
    pub fn link_for_channel(project: &String, selected: &String, valid: bool) -> (link: String)
        ensures
            link@ == if !valid {
                ""@
            } else {
                match libs_directory_spec(project@, selected@, true) {
                    Some(d) => d + "*zip*/libs.zip"@,
                    None => "na"@,
                }
            },
    {
        if !valid {
            "".to_owned()
        } else {
            get_zip_download_link(project, selected)
        }
    }

    /// Address of the download of the project from the channel asked
    /// for, or from the project's own where none is asked for; empty
    /// where there is no channel of that name.
    pub fn get_download_link(&self, project: &String, channel: Option<&String>) -> (link: String)
        ensures
            link@ == {
                let selected = match channel {
                    Some(c) => c@,
                    None => fallback_channel_spec(project@),
                };
                if !is_channel_name(unicode_lowercase(selected)) {
                    ""@
                } else {
                    match libs_directory_spec(project@, selected, true) {
                        Some(d) => d + "*zip*/libs.zip"@,
                        None => "na"@,
                    }
                }
            },
    {
        let selected = match channel {
            Some(c) => c.clone(),
            None => fallback_channel(project),
        };
        let valid = is_valid_channel(&selected);
        ViaVersionAPI::link_for_channel(project, &selected, valid)
    }
}

} // verus!
