//! Pufferfish, which is built by a Jenkins server with one job for each
//! line of Minecraft versions.

use vstd::prelude::*;
use vstd::string::*;
use crate::command::option_view;
use crate::pattern::{first_group, regex_first_group};
use crate::text::{eq_ignore_ascii_case, lower_ascii, split, split_on, views};

verus! {

/// Major, minor and patch number of the version that `semver` reads out
/// of a text, and whether it is a release (has no pre-release part).
/// `None` where the text is no version by the rules of Semantic
/// Versioning.
pub uninterp spec fn semver_core(version: Seq<char>) -> Option<(u64, u64, u64, bool)>;

/// `semver::Version::parse`: the fields `major`, `minor`, `patch` of the
/// version read, and whether its field `pre` is empty.
#[verifier::external_body]
fn parse_semver(version: &str) -> (core: Option<(u64, u64, u64, bool)>)
    ensures
        core == semver_core(version@),
{
    match semver::Version::parse(version) {
        Ok(v) => Some((v.major, v.minor, v.patch, v.pre.is_empty())),
        Err(_) => None,
    }
}

/// The version is 1.21.0 or later in the order of Semantic Versioning, in
/// which a pre-release comes before its release.
pub open spec fn since_1_21(major: u64, minor: u64, patch: u64, release: bool) -> bool {
    major > 1 || (major == 1 && (minor > 21 || (minor == 21 && (patch > 0 || release))))
}

/// Whether a version of these numbers is 1.21.0 or later, see
/// [`since_1_21`].
pub fn is_since_1_21(major: u64, minor: u64, patch: u64, release: bool) -> (since: bool)
    ensures
        since == since_1_21(major, minor, patch, release),
{
    major > 1 || (major == 1 && (minor > 21 || (minor == 21 && (patch > 0 || release))))
}

/// Whether the jars of this Minecraft version lie where they do since
/// 1.21; `false` for what is no version.
pub fn is_new_artifact_structure(version: &str) -> (new: bool)
    ensures
        new == match semver_core(version@) {
            Some((major, minor, patch, release)) => since_1_21(major, minor, patch, release),
            None => false,
        },
{
    match parse_semver(version) {
        Some((major, minor, patch, release)) => is_since_1_21(major, minor, patch, release),
        None => false,
    }
}

/// The first two parts of the version, which name the job.
pub open spec fn jenkins_version_spec(version: Seq<char>) -> Seq<char> {
    let parts = split_on(version, '.');
    if parts.len() < 2 {
        parts[0]
    } else {
        parts[0] + seq!['.'] + parts[1]
    }
}

/// The line of versions that a Minecraft version belongs to: its first
/// two parts.
pub fn get_jenkins_version(version: &str) -> (line: String)
    ensures
        line@ == jenkins_version_spec(version@),
{
    let parts = split(version, '.');
    proof {
        crate::text::lemma_split_on_len(version@, '.');
    }
    assert(views(parts@)[0] == parts@[0]@);
    let mut line = parts[0].clone();
    if parts.len() >= 2 {
        assert(views(parts@)[1] == parts@[1]@);
        line.push('.');
        line.append(parts[1].as_str());
    }
    line
}

/// Address of the job that builds a line of versions.
pub fn make_link_for_jenkins_version(jenkins_version: &str) -> (link: String)
    ensures
        link@ == "https://ci.pufferfish.host/job/Pufferfish-"@ + jenkins_version@ + seq!['/'],
{
    let mut link = "https://ci.pufferfish.host/job/Pufferfish-".to_owned();
    link.append(jenkins_version);
    link.push('/');
    link
}

/// The Minecraft versions that were served when the job was named by a
/// fixed table.
pub fn get_supported_versions() -> (versions: Vec<String>)
    ensures
        views(versions@) == seq!["1.20.1"@, "1.19.4"@, "1.18.2"@],
{
    let mut versions: Vec<String> = Vec::new();
    versions.push("1.20.1".to_owned());
    versions.push("1.19.4".to_owned());
    versions.push("1.18.2".to_owned());
    assert(views(versions@) =~= seq!["1.20.1"@, "1.19.4"@, "1.18.2"@]);
    versions
}

/// The regular expression that finds the Minecraft version on the page
/// of a job.
pub open spec fn page_version_pattern() -> Seq<char> {
    "pufferfish-paperclip-(\\d+\\.\\d+\\.\\d+)"@
}

/// The Minecraft version that the page `html` of a job offers.
pub fn get_minecraft_version_from_page(html: &str) -> (version: Option<String>)
    ensures
        option_view(version) == regex_first_group(page_version_pattern(), html@),
{
    first_group("pufferfish-paperclip-(\\d+\\.\\d+\\.\\d+)", html)
}

/// Why a version cannot be installed.
#[derive(Clone, Debug, PartialEq, Eq)]
pub enum VersionError {
    /// The page of the job offers no version.
    NotFound,
    /// The job offers another version of the line, this one.
    OnlyLatest(String),
}

/// Whether the version asked for is the one that the job offers, which
/// is the only one that can be installed. `offered` is the version found
/// on the page of the job.
pub fn validate_jenkins_version(offered: Option<&str>, version: &str) -> (r: Result<
    (),
    VersionError,
>)
    ensures
        match offered {
            None => r == Err::<(), VersionError>(VersionError::NotFound),
            Some(o) => if lower_ascii(o@) == lower_ascii(version@) {
                r is Ok
            } else {
                r matches Err(VersionError::OnlyLatest(latest)) && latest@ == o@
            },
        },
{
    match offered {
        None => Err(VersionError::NotFound),
        Some(o) => if eq_ignore_ascii_case(o, version) {
            Ok(())
        } else {
            Err(VersionError::OnlyLatest(o.to_owned()))
        },
    }
}

/// Pufferfish.
#[derive(Clone, Copy, Debug, PartialEq, Eq, Structural)]
pub struct PufferfishAPI;

/// End of the name of a jar.
pub open spec fn jar_suffix(new: bool) -> Seq<char> {
    if new {
        "-R0.1-SNAPSHOT-mojmap.jar"@
    } else {
        "-R0.1-SNAPSHOT-reobf.jar"@
    }
}

/// Directory of the jars within a build.
pub open spec fn artifact_directory(new: bool) -> Seq<char> {
    if new {
        "/artifact/pufferfish-server/build/libs/"@
    } else {
        "/artifact/build/libs/"@
    }
}

/// Name of the jar of a version, laid out the new way or the old.
pub open spec fn pufferfish_jar_spec(version: Seq<char>, new: bool) -> Seq<char> {
    "pufferfish-paperclip-"@ + version + jar_suffix(new)
}

/// Address of the jar of a version and build, laid out the new way or the
/// old.
pub open spec fn pufferfish_link_spec(version: Seq<char>, build: Seq<char>, new: bool) -> Seq<
    char,
> {
    "https://ci.pufferfish.host/job/Pufferfish-"@ + jenkins_version_spec(version) + seq!['/']
        + build + artifact_directory(new) + pufferfish_jar_spec(version, new)
}

/// Whether `semver` takes the version for 1.21.0 or later.
pub open spec fn is_new_spec(version: Seq<char>) -> bool {
    match semver_core(version) {
        Some((major, minor, patch, release)) => since_1_21(major, minor, patch, release),
        None => false,
    }
}

impl PufferfishAPI {
    /// Name of the jar of a version, given whether it is laid out the new
    /// way.
    pub fn jar_name_for(version: &str, new: bool) -> (name: String)
        ensures
            name@ == pufferfish_jar_spec(version@, new),
    {
        let mut name = "pufferfish-paperclip-".to_owned();
        name.append(version);
        if new {
            name.append("-R0.1-SNAPSHOT-mojmap.jar");
        } else {
            name.append("-R0.1-SNAPSHOT-reobf.jar");
        }
        name
    }

    /// Address of the jar of a version and build, given whether it is
    /// laid out the new way.
    pub fn download_link_for(version: &str, build: &str, new: bool) -> (link: String)
        ensures
            link@ == pufferfish_link_spec(version@, build@, new),
    {
        let line = get_jenkins_version(version);
        let mut link = "https://ci.pufferfish.host/job/Pufferfish-".to_owned();
        link.append(line.as_str());
        link.push('/');
        link.append(build);
        if new {
            link.append("/artifact/pufferfish-server/build/libs/");
        } else {
            link.append("/artifact/build/libs/");
        }
        let name = PufferfishAPI::jar_name_for(version, new);
        link.append(name.as_str());
        link
    }

    pub fn get_jar_name(&self, _project: &String, version: &String, _build: &String) -> (name:
        String)
        ensures
            name@ == pufferfish_jar_spec(version@, is_new_spec(version@)),
    {
        PufferfishAPI::jar_name_for(version.as_str(), is_new_artifact_structure(version.as_str()))
    }

    pub fn get_download_link(&self, _project: &String, version: &String, build: &String) -> (link:
        String)
        ensures
            link@ == pufferfish_link_spec(version@, build@, is_new_spec(version@)),
    {
        PufferfishAPI::download_link_for(
            version.as_str(),
            build.as_str(),
            is_new_artifact_structure(version.as_str()),
        )
    }

    /// Address of the page that states the fingerprint of the jar.
    pub fn fingerprint_link(&self, version: &String, build: &String) -> (link: String)
        ensures
            link@ == pufferfish_link_spec(version@, build@, is_new_spec(version@))
                + "/*fingerprint*/"@,
    {
        let mut link = self.get_download_link(version, version, build);
        link.append("/*fingerprint*/");
        link
    }
}

} // verus!
