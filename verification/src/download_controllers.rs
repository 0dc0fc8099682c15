//! The platforms that server jars are downloaded from: their names, the
//! names of their jars and the addresses of their downloads.

use vstd::prelude::*;
use vstd::string::*;
use crate::number_utils::{
    all_versions, is_sorted_form, is_version_list,
    sort_versions_one_decimal_and_two_decimal_lowest_to_highest, VersionShape,
};
use crate::text::{contains, contains_text, decimal, eq_ignore_ascii_case, equal_texts, lower_ascii, push_decimal, to_lowercase, unicode_lowercase, views};

verus! {

/// A platform that jars are downloaded from.
#[derive(Clone, Copy, Debug, PartialEq, Eq, Structural)]
pub enum Platform {
    Purpur,
    Pufferfish,
    Geyser,
    ViaVersion,
    BungeeCord,
    Citizens,
    Paper,
}

/// The names of the projects that can be asked for, in lower case.
pub open spec fn is_platform_name(lower: Seq<char>) -> bool {
    lower == "spigot"@ || lower == "bungeecord"@ || lower == "purpur"@ || lower == "pufferfish"@
        || lower == "paper"@ || lower == "velocity"@ || lower == "geyser"@ || lower
        == "floodgate"@ || lower == "viaversion"@ || lower == "viabackwards"@ || lower
        == "citizens"@ || lower == "citizens2"@
}

/// The platform that serves the project of that name in lower case;
/// projects not known by name are served by Paper.
pub open spec fn platform_of(lower: Seq<char>) -> Platform {
    if lower == "purpur"@ {
        Platform::Purpur
    } else if lower == "pufferfish"@ {
        Platform::Pufferfish
    } else if lower == "geyser"@ || lower == "floodgate"@ {
        Platform::Geyser
    } else if lower == "viaversion"@ || lower == "viabackwards"@ {
        Platform::ViaVersion
    } else if lower == "bungeecord"@ {
        Platform::BungeeCord
    } else if lower == "citizens"@ || lower == "citizens2"@ {
        Platform::Citizens
    } else {
        Platform::Paper
    }
}

/// Whether `lower` is the name of a project that can be asked for, see
/// [`is_platform_name`].
pub fn is_known_platform(lower: &str) -> (known: bool)
    ensures
        known == is_platform_name(lower@),
{
    equal_texts(lower, "spigot") || equal_texts(lower, "bungeecord") || equal_texts(lower, "purpur")
        || equal_texts(lower, "pufferfish") || equal_texts(lower, "paper") || equal_texts(
        lower,
        "velocity",
    ) || equal_texts(lower, "geyser") || equal_texts(lower, "floodgate") || equal_texts(
        lower,
        "viaversion",
    ) || equal_texts(lower, "viabackwards") || equal_texts(lower, "citizens") || equal_texts(
        lower,
        "citizens2",
    )
}

/// The platform that serves the project `lower`, see [`platform_of`].
pub fn platform_for(lower: &str) -> (platform: Platform)
    ensures
        platform == platform_of(lower@),
{
    if equal_texts(lower, "purpur") {
        Platform::Purpur
    } else if equal_texts(lower, "pufferfish") {
        Platform::Pufferfish
    } else if equal_texts(lower, "geyser") || equal_texts(lower, "floodgate") {
        Platform::Geyser
    } else if equal_texts(lower, "viaversion") || equal_texts(lower, "viabackwards") {
        Platform::ViaVersion
    } else if equal_texts(lower, "bungeecord") {
        Platform::BungeeCord
    } else if equal_texts(lower, "citizens") || equal_texts(lower, "citizens2") {
        Platform::Citizens
    } else {
        Platform::Paper
    }
}

/// Whether the project can be asked for, whatever the case of its name.
pub fn is_valid_platform(the_project: &String) -> (valid: bool)
    ensures
        valid == is_platform_name(unicode_lowercase(the_project@)),
{
    let lower = to_lowercase(the_project.as_str());
    is_known_platform(lower.as_str())
}

/// The platform that serves the project, whatever the case of its name.
pub fn get_platform(the_project: &String) -> (platform: Platform)
    ensures
        platform == platform_of(unicode_lowercase(the_project@)),
{
    let lower = to_lowercase(the_project.as_str());
    platform_for(lower.as_str())
}

/// Name of a jar made of project, version and build.
pub open spec fn jar_name_spec(project: Seq<char>, version: Seq<char>, build: Seq<char>) -> Seq<
    char,
> {
    project + seq!['-'] + version + seq!['-'] + build + ".jar"@
}

/// Name of a jar made of project, version and build.
pub fn jar_name(project: &str, version: &str, build: &str) -> (name: String)
    ensures
        name@ == jar_name_spec(project@, version@, build@),
{
    let mut name = project.to_owned();
    name.push('-');
    name.append(version);
    name.push('-');
    name.append(build);
    name.append(".jar");
    name
}

/// The channel asked for, or the default.
pub open spec fn channel_or(channel: Option<Seq<char>>, default: Seq<char>) -> Seq<char> {
    match channel {
        Some(c) => c,
        None => default,
    }
}

/// Address of a download on a server that speaks the protocol of
/// PaperMC's bibliothek.
pub open spec fn bibliothek_link_spec(
    url: Seq<char>,
    project: Seq<char>,
    version: Seq<char>,
    build: Seq<char>,
    file: Seq<char>,
) -> Seq<char> {
    url + "/v2/projects/"@ + project + "/versions/"@ + version + "/builds/"@ + build
        + "/downloads/"@ + file
}

fn bibliothek_link(url: &str, project: &str, version: &str, build: &str, file: &str) -> (link:
    String)
    ensures
        link@ == bibliothek_link_spec(url@, project@, version@, build@, file@),
{
    let mut link = url.to_owned();
    link.append("/v2/projects/");
    link.append(project);
    link.append("/versions/");
    link.append(version);
    link.append("/builds/");
    link.append(build);
    link.append("/downloads/");
    link.append(file);
    link
}

/// PaperMC.
#[derive(Clone, Copy, Debug, PartialEq, Eq, Structural)]
pub struct PaperAPI {}

impl PaperAPI {
    pub fn get_jar_name(&self, project: &String, version: &String, build: &String) -> (name:
        String)
        ensures
            name@ == jar_name_spec(project@, version@, build@),
    {
        jar_name(project.as_str(), version.as_str(), build.as_str())
    }
}

/// A server that speaks the protocol of PaperMC's bibliothek.
#[derive(Clone, Debug, PartialEq, Eq)]
pub struct BibliothekAPI {
    /// Address of the server.
    pub url: String,
    /// The channel to download from where none is asked for.
    pub default_channel: String,
}

impl BibliothekAPI {
    pub fn get_jar_name(&self, project: &String, version: &String, build: &String) -> (name:
        String)
        ensures
            name@ == jar_name_spec(project@, version@, build@),
    {
        jar_name(project.as_str(), version.as_str(), build.as_str())
    }

    /// Address of the download: for Geyser and Floodgate that of the
    /// channel asked for, for other projects that of the jar.
    pub fn get_download_link(
        &self,
        project: &String,
        version: &String,
        build: &String,
        channel: Option<&str>,
    ) -> (link: String)
        ensures
            link@ == bibliothek_link_spec(
                self.url@,
                project@,
                version@,
                build@,
                if lower_ascii(project@) == lower_ascii("geyser"@) || lower_ascii(project@)
                    == lower_ascii("floodgate"@) {
                    channel_or(
                        match channel {
                            Some(c) => Some(c@),
                            None => None,
                        },
                        self.default_channel@,
                    )
                } else {
                    jar_name_spec(project@, version@, build@)
                },
            ),
    {
        if eq_ignore_ascii_case(project.as_str(), "geyser") || eq_ignore_ascii_case(
            project.as_str(),
            "floodgate",
        ) {
            let file = match channel {
                Some(c) => c,
                None => self.default_channel.as_str(),
            };
            bibliothek_link(
                self.url.as_str(),
                project.as_str(),
                version.as_str(),
                build.as_str(),
                file,
            )
        } else {
            let file = jar_name(project.as_str(), version.as_str(), build.as_str());
            bibliothek_link(
                self.url.as_str(),
                project.as_str(),
                version.as_str(),
                build.as_str(),
                file.as_str(),
            )
        }
    }
}

/// GeyserMC.
#[derive(Clone, Copy, Debug, PartialEq, Eq, Structural)]
pub struct GeyserAPI {}

impl GeyserAPI {
    pub fn get_jar_name(&self, project: &String, version: &String, build: &String) -> (name:
        String)
        ensures
            name@ == jar_name_spec(project@, version@, build@),
    {
        jar_name(project.as_str(), version.as_str(), build.as_str())
    }

    /// Address of the download from the channel asked for, `standalone`
    /// where none is.
    pub fn get_download_link(
        &self,
        project: &String,
        version: &String,
        build: &String,
        channel: Option<&str>,
    ) -> (link: String)
        ensures
            link@ == bibliothek_link_spec(
                "https://download.geysermc.org"@,
                project@,
                version@,
                build@,
                channel_or(
                    match channel {
                        Some(c) => Some(c@),
                        None => None,
                    },
                    "standalone"@,
                ),
            ),
    {
        let file = match channel {
            Some(c) => c,
            None => "standalone",
        };
        bibliothek_link(
            "https://download.geysermc.org",
            project.as_str(),
            version.as_str(),
            build.as_str(),
            file,
        )
    }
}

/// Purpur.
#[derive(Clone, Copy, Debug, PartialEq, Eq, Structural)]
pub struct PurpurAPI;

impl PurpurAPI {
    pub fn get_download_link(&self, _project: &String, version: &String, build: &String) -> (link:
        String)
        ensures
            link@ == "https://api.purpurmc.org/v2/purpur/"@ + version@ + seq!['/'] + build@
                + "/download"@,
    {
        let mut link = "https://api.purpurmc.org/v2/purpur/".to_owned();
        link.append(version.as_str());
        link.push('/');
        link.append(build.as_str());
        link.append("/download");
        link
    }

    pub fn get_jar_name(&self, _project: &String, version: &String, build: &String) -> (name:
        String)
        ensures
            name@ == "purpur-"@ + version@ + seq!['-'] + build@ + ".jar"@,
    {
        let mut name = "purpur-".to_owned();
        name.append(version.as_str());
        name.push('-');
        name.append(build.as_str());
        name.append(".jar");
        name
    }
}

/// BungeeCord.
#[derive(Clone, Copy, Debug, PartialEq, Eq, Structural)]
pub struct BungeeCordAPI {}

impl BungeeCordAPI {
    pub fn get_jar_name(&self, _project: &String, _version: &String, _build: &String) -> (name:
        String)
        ensures
            name@ == "BungeeCord.jar"@,
    {
        "BungeeCord.jar".to_owned()
    }

    pub fn get_download_link(&self, _project: &String, _version: &String, build: &String) -> (link:
        String)
        ensures
            link@ == "https://ci.md-5.net/job/BungeeCord/"@ + build@
                + "/artifact/bootstrap/target/"@ + "BungeeCord.jar"@,
    {
        let mut link = "https://ci.md-5.net/job/BungeeCord/".to_owned();
        link.append(build.as_str());
        link.append("/artifact/bootstrap/target/");
        link.append("BungeeCord.jar");
        link
    }
}

/// Citizens.
#[derive(Clone, Copy, Debug, PartialEq, Eq, Structural)]
pub struct Citizens2API;

impl Citizens2API {
    pub fn get_jar_name(&self, _project: &String, _version: &String, _build: &String) -> (name:
        String)
        ensures
            name@ == "Citizens.jar"@,
    {
        "Citizens.jar".to_owned()
    }

    pub fn get_download_link(&self, _project: &String, _version: &String, _build: &String) -> (link:
        String)
        ensures
            link@
                == "https://ci.citizensnpcs.co/job/Citizens2/lastSuccessfulBuild/artifact/dist/target/*zip*/target.zip"@,
    {
        "https://ci.citizensnpcs.co/job/Citizens2/lastSuccessfulBuild/artifact/dist/target/*zip*/target.zip".to_owned()
    }

    /// Address of the page that states the fingerprint of the jar
    /// `jar_name`.
    pub fn fingerprint_link(&self, jar_name: &str) -> (link: String)
        ensures
            link@
                == "https://ci.citizensnpcs.co/job/Citizens2/lastSuccessfulBuild/artifact/dist/target/"@
                + jar_name@ + "/*fingerprint*/"@,
    {
        let mut link =
            "https://ci.citizensnpcs.co/job/Citizens2/lastSuccessfulBuild/artifact/dist/target/".to_owned();
        link.append(jar_name);
        link.append("/*fingerprint*/");
        link
    }
}


/// The version is offered when the latest is looked for: it is no
/// preview, and no snapshot where snapshots are left out.
pub open spec fn is_offered(version: Seq<char>, skip_snapshots: bool) -> bool {
    !contains_text(version, "-pre"@) && !(skip_snapshots && contains_text(version, "-SNAPSHOT"@))
}

/// Those of `versions` that are offered, in their order.
pub open spec fn offered(versions: Seq<Seq<char>>, skip_snapshots: bool) -> Seq<Seq<char>>
    decreases versions.len(),
{
    if versions.len() == 0 {
        Seq::empty()
    } else if is_offered(versions.last(), skip_snapshots) {
        offered(versions.drop_last(), skip_snapshots).push(versions.last())
    } else {
        offered(versions.drop_last(), skip_snapshots)
    }
}

/// The highest of the versions that a project lists, previews left out,
/// and snapshots too where `skip_snapshots`. `None` where no version is
/// left or one of them is no version number.
pub fn latest_version(versions: &Vec<String>, skip_snapshots: bool) -> (latest: Option<String>)
    ensures
        latest is Some <==> offered(views(versions@), skip_snapshots).len() > 0 && all_versions(
            offered(views(versions@), skip_snapshots),
            VersionShape::OneOrTwoDecimals,
        ),
        latest matches Some(v) ==> exists|sorted: Seq<Seq<char>>|
            is_sorted_form(
                sorted,
                offered(views(versions@), skip_snapshots),
                VersionShape::OneOrTwoDecimals,
            ) && sorted.last() == v@,
{
    let mut kept: Vec<String> = Vec::new();
    let mut i: usize = 0;
    assert(views(versions@).take(0) =~= Seq::<Seq<char>>::empty());
    assert(views(kept@) =~= Seq::<Seq<char>>::empty());
    while i < versions.len()
        invariant
            i <= versions.len(),
            views(kept@) == offered(views(versions@).take(i as int), skip_snapshots),
        decreases versions.len() - i,
    {
        let v = versions[i].as_str();
        proof {
            let t = views(versions@).take(i + 1);
            assert(t.drop_last() =~= views(versions@).take(i as int));
            assert(t.last() == v@);
        }
        let preview = contains(v, "-pre");
        let snapshot = skip_snapshots && contains(v, "-SNAPSHOT");
        if !preview && !snapshot {
            let ghost before = views(kept@);
            kept.push(versions[i].clone());
            assert(views(kept@) =~= before.push(v@));
        }
        i += 1;
    }
    assert(views(versions@).take(versions.len() as int) =~= views(versions@));
    if kept.len() == 0 || !is_version_list(&kept) {
        return None;
    }
    let ghost unsorted = views(kept@);
    sort_versions_one_decimal_and_two_decimal_lowest_to_highest(&mut kept);
    let last = kept[kept.len() - 1].clone();
    assert(views(kept@).last() == last@);
    Some(last)
}

/// Decimal notation of a whole number, with `-` before a negative one.
pub open spec fn integer_text(n: int) -> Seq<char> {
    if n < 0 {
        seq!['-'] + decimal((-n) as nat)
    } else {
        decimal(n as nat)
    }
}

/// The highest of the build numbers that a version lists, in decimal
/// notation; `None` where it lists none.
pub fn latest_build(builds: &Vec<i64>) -> (latest: Option<String>)
    ensures
        latest is Some <==> builds.len() > 0,
        latest matches Some(b) ==> exists|i: int|
            0 <= i < builds.len() && b@ == integer_text(builds[i] as int) && forall|k: int|
                0 <= k < builds.len() ==> builds[k] <= builds[i],
{
    if builds.len() == 0 {
        return None;
    }
    let mut best: usize = 0;
    let mut i: usize = 1;
    while i < builds.len()
        invariant
            1 <= i <= builds.len(),
            best < i,
            forall|k: int| 0 <= k < i ==> builds[k] <= builds[best as int],
        decreases builds.len() - i,
    {
        if builds[i] > builds[best] {
            best = i;
        }
        i += 1;
    }
    let n = builds[best];
    let mut text = String::new();
    if n < 0 {
        text.push('-');
        push_decimal(&mut text, (-(n as i128)) as u64);
    } else {
        push_decimal(&mut text, n as u64);
    }
    assert(text@ =~= integer_text(n as int));
    Some(text)
}


/// Petal.
#[derive(Clone, Copy, Debug, PartialEq, Eq, Structural)]
pub struct PetalAPI;

impl PetalAPI {
    pub fn get_jar_name(&self, _project: &String, version: &String, _build: &String) -> (name:
        String)
        ensures
            name@ == "petal-"@ + version@ + ".jar"@,
    {
        let mut name = "petal-".to_owned();
        name.append(version.as_str());
        name.append(".jar");
        name
    }

    /// Whether that version is served: only 1.19 is.
    pub fn check_if_compatible_version(version: &String) -> (served: bool)
        ensures
            served == (version@ == "1.19"@),
    {
        equal_texts(version.as_str(), "1.19")
    }
}

/// Mirai.
#[derive(Clone, Copy, Debug, PartialEq, Eq, Structural)]
pub struct MiraiAPI;

/// The line of versions that a version served by Mirai belongs to; only
/// 1.19.2 is served.
pub fn get_real_version(version: &String) -> (line: Option<String>)
    ensures
        line is Some <==> version@ == "1.19.2"@,
        line matches Some(l) ==> l@ == "1.19"@,
{
    if equal_texts(version.as_str(), "1.19.2") {
        Some("1.19".to_owned())
    } else {
        None
    }
}

impl MiraiAPI {
    pub fn get_jar_name(&self, _project: &String, version: &String, _build: &String) -> (name:
        String)
        ensures
            name@ == "mirai-paperclip-"@ + version@ + "-R0.1-SNAPSHOT-reobf.jar"@,
    {
        let mut name = "mirai-paperclip-".to_owned();
        name.append(version.as_str());
        name.append("-R0.1-SNAPSHOT-reobf.jar");
        name
    }

    /// Address of the jar of a build; `None` for a version that is not
    /// served.
    pub fn get_download_link(&self, project: &String, version: &String, build: &String) -> (link:
        Option<String>)
        ensures
            link is Some <==> version@ == "1.19.2"@,
            link matches Some(l) ==> l@ == "https://ci.codemc.io/job/etil2jz/job/Mirai-"@ + "1.19"@
                + seq!['/'] + build@ + "/artifact/build/libs/"@ + ("mirai-paperclip-"@ + version@
                + "-R0.1-SNAPSHOT-reobf.jar"@),
    {
        match get_real_version(version) {
            Some(line) => {
                let name = self.get_jar_name(project, version, build);
                let mut link = "https://ci.codemc.io/job/etil2jz/job/Mirai-".to_owned();
                link.append(line.as_str());
                link.push('/');
                link.append(build.as_str());
                link.append("/artifact/build/libs/");
                link.append(name.as_str());
                Some(link)
            },
            None => None,
        }
    }
}

/// Patina.
#[derive(Clone, Copy, Debug, PartialEq, Eq, Structural)]
pub struct PatinaAPI;

impl PatinaAPI {
    pub fn get_jar_name(&self, _project: &String, version: &String, _build: &String) -> (name:
        String)
        ensures
            name@ == "patina-paperclip-"@ + version@ + "-R0.1-SNAPSHOT-reobf.jar"@,
    {
        let mut name = "patina-paperclip-".to_owned();
        name.append(version.as_str());
        name.append("-R0.1-SNAPSHOT-reobf.jar");
        name
    }

    pub fn get_download_link(&self, project: &String, version: &String, build: &String) -> (link:
        String)
        ensures
            link@ == "https://github.com/PatinaMC/Patina/raw/releases/"@ + version@ + seq!['/'] + (
            "patina-paperclip-"@ + version@ + "-R0.1-SNAPSHOT-reobf.jar"@),
    {
        let name = self.get_jar_name(project, version, build);
        let mut link = "https://github.com/PatinaMC/Patina/raw/releases/".to_owned();
        link.append(version.as_str());
        link.push('/');
        link.append(name.as_str());
        link
    }
}

} // verus!
