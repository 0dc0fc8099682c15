use limonium::banner::{banner_width, blank, border, repeat, side_padding};
use limonium::clap_utils::{
    clap_get_flag_or_false, clap_get_one_or_fallback, get_channel_or_fallback, ArgValues,
};
use limonium::server_jars_com::{
    details_link, destination, get_all_types, jar_link, AServerJar, FetchDetails,
    FetchDetailsResponse, FetchTypes, FetchTypesResponse,
};
use limonium::download_controllers::{
    get_platform, get_real_version, is_known_platform, is_valid_platform, jar_name, platform_for,
    BibliothekAPI, BungeeCordAPI, Citizens2API, GeyserAPI, MiraiAPI, PaperAPI, PatinaAPI, PetalAPI,
    Platform, PurpurAPI,
};
use limonium::file_utils::{cleanup, random_file_name, temp_file_name, InstanceDir};
use limonium::github_utils::Repo;
use limonium::jenkins_utils::{
    extract_file_fingerprint_hash, hash_from_fingerprint, is_jar_name, is_wanted, is_wanted_jar,
};
use limonium::log_search::LogSearch;
use limonium::objects::{DownloadedFile, DownloadedJar};
use limonium::pufferfish::{
    get_jenkins_version, get_minecraft_version_from_page, get_supported_versions,
    is_new_artifact_structure, is_since_1_21, make_link_for_jenkins_version,
    validate_jenkins_version, PufferfishAPI, VersionError,
};
use limonium::text::{contains, eq_ignore_ascii_case, split};
use limonium::viaversion::{
    fallback_channel, get_fingerprint_link, get_zip_download_link, is_known_channel,
    is_valid_channel, ViaVersionAPI,
};

fn s(text: &str) -> String {
    text.to_string()
}

#[test]
fn test_is_new_artifact_structure() {
    assert!(is_new_artifact_structure("1.21.0"));
    assert!(is_new_artifact_structure("1.21.10"));
    assert!(!is_new_artifact_structure("1.20.4"));
    assert!(!is_new_artifact_structure("1.19.4"));
}

#[test]
fn new_artifact_structure_follows_semantic_versioning() {
    assert!(is_new_artifact_structure("2.0.0"));
    assert!(is_new_artifact_structure("1.22.0-rc1"));
    assert!(is_new_artifact_structure("1.21.0+build.5"));
    assert!(!is_new_artifact_structure("1.21.0-pre1"));
    assert!(!is_new_artifact_structure("1.21"));
    assert!(!is_new_artifact_structure("latest"));
    assert!(!is_new_artifact_structure(""));
    assert!(!is_new_artifact_structure("0.99.99"));
    assert!(is_since_1_21(1, 21, 0, true));
    assert!(!is_since_1_21(1, 21, 0, false));
    assert!(is_since_1_21(1, 21, 1, false));
    assert!(is_since_1_21(1, 22, 0, false));
    assert!(is_since_1_21(2, 0, 0, false));
    assert!(!is_since_1_21(1, 20, 99, true));
    assert!(!is_since_1_21(0, 99, 0, true));
}

#[test]
fn pufferfish_names_and_links() {
    assert_eq!(get_jenkins_version("1.19.4"), "1.19");
    assert_eq!(get_jenkins_version("1.21"), "1.21");
    assert_eq!(get_jenkins_version("1"), "1");
    assert_eq!(get_jenkins_version(""), "");
    assert_eq!(get_jenkins_version("1.2.3.4"), "1.2");
    assert_eq!(make_link_for_jenkins_version("1.19"), "https://ci.pufferfish.host/job/Pufferfish-1.19/");
    assert_eq!(get_supported_versions(), vec![s("1.20.1"), s("1.19.4"), s("1.18.2")]);
    let api = PufferfishAPI;
    assert_eq!(
        api.get_jar_name(&s("pufferfish"), &s("1.20.4"), &s("lastSuccessfulBuild")),
        "pufferfish-paperclip-1.20.4-R0.1-SNAPSHOT-reobf.jar"
    );
    assert_eq!(
        api.get_jar_name(&s("pufferfish"), &s("1.21.1"), &s("lastSuccessfulBuild")),
        "pufferfish-paperclip-1.21.1-R0.1-SNAPSHOT-mojmap.jar"
    );
    assert_eq!(
        api.get_download_link(&s("pufferfish"), &s("1.20.4"), &s("lastSuccessfulBuild")),
        "https://ci.pufferfish.host/job/Pufferfish-1.20/lastSuccessfulBuild/artifact/build/libs/pufferfish-paperclip-1.20.4-R0.1-SNAPSHOT-reobf.jar"
    );
    assert_eq!(
        api.get_download_link(&s("pufferfish"), &s("1.21.1"), &s("52")),
        "https://ci.pufferfish.host/job/Pufferfish-1.21/52/artifact/pufferfish-server/build/libs/pufferfish-paperclip-1.21.1-R0.1-SNAPSHOT-mojmap.jar"
    );
    assert_eq!(
        api.fingerprint_link(&s("1.20.4"), &s("7")),
        "https://ci.pufferfish.host/job/Pufferfish-1.20/7/artifact/build/libs/pufferfish-paperclip-1.20.4-R0.1-SNAPSHOT-reobf.jar/*fingerprint*/"
    );
    assert_eq!(PufferfishAPI::jar_name_for("x", true), "pufferfish-paperclip-x-R0.1-SNAPSHOT-mojmap.jar");
    assert_eq!(
        PufferfishAPI::download_link_for("1.2.3", "9", false),
        "https://ci.pufferfish.host/job/Pufferfish-1.2/9/artifact/build/libs/pufferfish-paperclip-1.2.3-R0.1-SNAPSHOT-reobf.jar"
    );
}

#[test]
fn pufferfish_page_and_version_check() {
    let page = "<a href=\"artifact/build/libs/pufferfish-paperclip-1.19.4-R0.1-SNAPSHOT-reobf.jar\">pufferfish-paperclip-1.20.1</a>";
    assert_eq!(get_minecraft_version_from_page(page), Some(s("1.19.4")));
    assert_eq!(get_minecraft_version_from_page("pufferfish-paperclip-1.19"), None);
    assert_eq!(get_minecraft_version_from_page(""), None);
    assert_eq!(validate_jenkins_version(Some("1.19.4"), "1.19.4"), Ok(()));
    assert_eq!(validate_jenkins_version(Some("1.19.4"), "1.19.3"), Err(VersionError::OnlyLatest(s("1.19.4"))));
    assert_eq!(validate_jenkins_version(Some("1.19.4-RC"), "1.19.4-rc"), Ok(()));
    assert_eq!(validate_jenkins_version(None, "1.19.4"), Err(VersionError::NotFound));
}

#[test]
fn fingerprints_and_jars() {
    let page = "<div>MD5: The fingerprint 0123456789abcdef0123456789ABCDEF did not</div>";
    assert_eq!(
        extract_file_fingerprint_hash(page),
        Some(limonium::hash_utils::Hash { algorithm: s("md5"), hash: s("0123456789abcdef0123456789ABCDEF") })
    );
    assert_eq!(extract_file_fingerprint_hash("The fingerprint 0123"), None);
    assert_eq!(extract_file_fingerprint_hash(""), None);
    assert_eq!(hash_from_fingerprint(None), None);
    assert_eq!(hash_from_fingerprint(Some(s("ab"))), Some(limonium::hash_utils::Hash::new(s("md5"), s("ab"))));
    assert!(is_jar_name("Citizens-2.0.37-b3714.jar"));
    assert!(is_jar_name("a.jar"));
    assert!(!is_jar_name(".jar"));
    assert!(!is_jar_name("jar"));
    assert!(!is_jar_name("a.jar.zip"));
    assert!(!is_jar_name("a.JAR"));
    assert!(!is_jar_name(""));
    let pattern = r"^Citizens-\d+\.\d+\.\d+-b\d+\.jar$";
    assert!(is_wanted_jar("Citizens-2.0.37-b3714.jar", pattern));
    assert!(!is_wanted_jar("Citizens-2.0.37-b3714-sources.jar", pattern));
    assert!(!is_wanted_jar("Citizens-2.0.37-b3714.zip", r"^Citizens"));
    assert!(!is_wanted_jar("Citizens.jar", r"(unclosed"));
    assert!(is_wanted(true, Some(true)));
    assert!(!is_wanted(true, Some(false)));
    assert!(!is_wanted(true, None));
    assert!(!is_wanted(false, Some(true)));
}

#[test]
fn hashes_are_compared_with_the_first_token() {
    let sha = limonium::hash_utils::Hash::new(s("sha256"), s("abc"));
    assert_eq!(sha.algorithm, "sha256");
    assert_eq!(sha.hash, "abc");
    assert_eq!(sha.digest_program(), Some("sha256sum"));
    assert_eq!(sha.validate_hash("abc  server.jar\n"), Some(true));
    assert_eq!(sha.validate_hash("abd  server.jar\n"), Some(false));
    assert_eq!(sha.get_the_hash("abd  server.jar\n"), Some(s("abd")));
    let md5 = limonium::hash_utils::Hash::new(s("md5"), s("abc"));
    assert_eq!(md5.digest_program(), Some("md5sum"));
    assert_eq!(md5.validate_hash("abc *file"), Some(true));
    let other = limonium::hash_utils::Hash::new(s("sha1"), s("abc"));
    assert_eq!(other.digest_program(), None);
    assert_eq!(other.validate_hash("abc  file"), None);
    assert_eq!(other.get_the_hash("abc  file"), None);
    assert_eq!(limonium::hash_utils::Hash::new(s("SHA256"), s("abc")).validate_hash("abc"), None);
}

#[test]
fn platforms_by_name() {
    for name in ["spigot", "bungeecord", "purpur", "pufferfish", "paper", "velocity", "geyser", "floodgate", "viaversion", "viabackwards", "citizens", "citizens2"] {
        assert!(is_known_platform(name));
        assert!(is_valid_platform(&s(name)));
        assert!(is_valid_platform(&name.to_uppercase()));
    }
    assert!(is_valid_platform(&s("PaPeR")));
    assert!(is_valid_platform(&s("viabac\u{212a}wards")));
    assert!(!is_known_platform("Paper"));
    assert!(!is_valid_platform(&s("waterfall")));
    assert!(!is_valid_platform(&s("")));
    assert!(!is_valid_platform(&s("paper ")));
    assert_eq!(get_platform(&s("Purpur")), Platform::Purpur);
    assert_eq!(get_platform(&s("pufferfish")), Platform::Pufferfish);
    assert_eq!(get_platform(&s("GEYSER")), Platform::Geyser);
    assert_eq!(get_platform(&s("floodgate")), Platform::Geyser);
    assert_eq!(get_platform(&s("viaversion")), Platform::ViaVersion);
    assert_eq!(get_platform(&s("ViaBackwards")), Platform::ViaVersion);
    assert_eq!(get_platform(&s("bungeecord")), Platform::BungeeCord);
    assert_eq!(get_platform(&s("citizens")), Platform::Citizens);
    assert_eq!(get_platform(&s("citizens2")), Platform::Citizens);
    assert_eq!(get_platform(&s("paper")), Platform::Paper);
    assert_eq!(get_platform(&s("velocity")), Platform::Paper);
    assert_eq!(get_platform(&s("anything")), Platform::Paper);
    assert_eq!(platform_for("Purpur"), Platform::Paper);
}

#[test]
fn jar_names_and_links_of_the_platforms() {
    let (p, v, b) = (s("paper"), s("1.20.4"), s("435"));
    assert_eq!(jar_name("paper", "1.20.4", "435"), "paper-1.20.4-435.jar");
    assert_eq!(PaperAPI {}.get_jar_name(&p, &v, &b), "paper-1.20.4-435.jar");
    assert_eq!(GeyserAPI {}.get_jar_name(&s("geyser"), &v, &b), "geyser-1.20.4-435.jar");
    let bibliothek = BibliothekAPI { url: s("https://api.papermc.io"), default_channel: s("application") };
    assert_eq!(bibliothek.get_jar_name(&p, &v, &b), "paper-1.20.4-435.jar");
    assert_eq!(
        bibliothek.get_download_link(&p, &v, &b, Some("ignored")),
        "https://api.papermc.io/v2/projects/paper/versions/1.20.4/builds/435/downloads/paper-1.20.4-435.jar"
    );
    assert_eq!(
        bibliothek.get_download_link(&s("Geyser"), &v, &b, None),
        "https://api.papermc.io/v2/projects/Geyser/versions/1.20.4/builds/435/downloads/application"
    );
    assert_eq!(
        bibliothek.get_download_link(&s("FLOODGATE"), &v, &b, Some("spigot")),
        "https://api.papermc.io/v2/projects/FLOODGATE/versions/1.20.4/builds/435/downloads/spigot"
    );
    assert_eq!(
        GeyserAPI {}.get_download_link(&s("geyser"), &s("2.1.0"), &s("47"), None),
        "https://download.geysermc.org/v2/projects/geyser/versions/2.1.0/builds/47/downloads/standalone"
    );
    assert_eq!(
        GeyserAPI {}.get_download_link(&s("geyser"), &s("2.1.0"), &s("47"), Some("velocity")),
        "https://download.geysermc.org/v2/projects/geyser/versions/2.1.0/builds/47/downloads/velocity"
    );
    assert_eq!(PurpurAPI.get_download_link(&p, &v, &s("latest")), "https://api.purpurmc.org/v2/purpur/1.20.4/latest/download");
    assert_eq!(PurpurAPI.get_jar_name(&p, &v, &s("latest")), "purpur-1.20.4-latest.jar");
    assert_eq!(BungeeCordAPI {}.get_jar_name(&p, &v, &b), "BungeeCord.jar");
    assert_eq!(
        BungeeCordAPI {}.get_download_link(&p, &v, &s("lastSuccessfulBuild")),
        "https://ci.md-5.net/job/BungeeCord/lastSuccessfulBuild/artifact/bootstrap/target/BungeeCord.jar"
    );
    assert_eq!(Citizens2API.get_jar_name(&p, &v, &b), "Citizens.jar");
    assert_eq!(
        Citizens2API.get_download_link(&p, &v, &b),
        "https://ci.citizensnpcs.co/job/Citizens2/lastSuccessfulBuild/artifact/dist/target/*zip*/target.zip"
    );
    assert_eq!(
        Citizens2API.fingerprint_link("Citizens-2.0.37-b3714.jar"),
        "https://ci.citizensnpcs.co/job/Citizens2/lastSuccessfulBuild/artifact/dist/target/Citizens-2.0.37-b3714.jar/*fingerprint*/"
    );
}

#[test]
fn channels_of_viaversion() {
    for name in ["viaversion", "dev", "viabackwards", "compatibility"] {
        assert!(is_known_channel(name));
        assert!(is_valid_channel(&name.to_uppercase()));
    }
    assert!(!is_valid_channel(&s("")));
    assert!(!is_valid_channel(&s("release")));
    assert_eq!(fallback_channel(&s("ViaVersion")), "viaversion");
    assert_eq!(fallback_channel(&s("VIABACKWARDS")), "viabackwards");
    assert_eq!(fallback_channel(&s("paper")), "");
    assert_eq!(
        get_zip_download_link(&s("ViaVersion"), &s("viaversion")),
        "https://ci.viaversion.com/job/ViaVersion/lastSuccessfulBuild/artifact/build/libs/*zip*/libs.zip"
    );
    assert_eq!(
        get_zip_download_link(&s("viaversion"), &s("DEV")),
        "https://ci.viaversion.com/job/ViaVersion-DEV/lastSuccessfulBuild/artifact/build/libs/*zip*/libs.zip"
    );
    assert_eq!(
        get_zip_download_link(&s("viaversion"), &s("compatibility")),
        "https://ci.viaversion.com/job/ViaVersion-Java8/lastSuccessfulBuild/artifact/build/libs/*zip*/libs.zip"
    );
    assert_eq!(
        get_zip_download_link(&s("viabackwards"), &s("viabackwards")),
        "https://ci.viaversion.com/view/ViaBackwards/job/ViaBackwards/lastSuccessfulBuild/artifact/build/libs/*zip*/libs.zip"
    );
    assert_eq!(
        get_zip_download_link(&s("viabackwards"), &s("dev")),
        "https://ci.viaversion.com/view/ViaBackwards/job/ViaBackwards-DEV/lastSuccessfulBuild/artifact/build/libs/*zip*/libs.zip"
    );
    assert_eq!(
        get_zip_download_link(&s("viabackwards"), &s("compatibility")),
        "https://ci.viaversion.com/view/ViaBackwards/job/ViaBackwards-Java8/lastSuccessfulBuild/artifact/build/libs/*zip*/libs.zip"
    );
    assert_eq!(get_zip_download_link(&s("viaversion"), &s("viabackwards")), "na");
    assert_eq!(get_zip_download_link(&s("paper"), &s("dev")), "na");
    let jar = s("ViaVersion-4.9.2.jar");
    assert_eq!(
        get_fingerprint_link(&s("viaversion"), &s("viaversion"), &jar),
        "https://ci.viaversion.com/job/ViaVersion/lastSuccessfulBuild/artifact/build/libs/ViaVersion-4.9.2.jar/*fingerprint*/"
    );
    assert_eq!(
        get_fingerprint_link(&s("viabackwards"), &s("viabackwards"), &jar),
        "https://ci.viaversion.com/job/ViaBackwards/lastSuccessfulBuild/artifact/build/libs/ViaVersion-4.9.2.jar/*fingerprint*/"
    );
    assert_eq!(
        get_fingerprint_link(&s("viabackwards"), &s("dev"), &jar),
        "https://ci.viaversion.com/job/ViaBackwards-DEV/lastSuccessfulBuild/artifact/build/libs/ViaVersion-4.9.2.jar/*fingerprint*/"
    );
    assert_eq!(
        get_fingerprint_link(&s("viabackwards"), &s("compatibility"), &jar),
        "https://ci.viaversion.com/view/ViaBackwards/job/ViaBackwards-Java8/lastSuccessfulBuild/artifact/build/libs/ViaVersion-4.9.2.jar/*fingerprint*/"
    );
    assert_eq!(get_fingerprint_link(&s("x"), &s("dev"), &jar), "na");
    let api = ViaVersionAPI {};
    assert_eq!(api.get_jar_name(&s("viaversion")), Some(s("ViaVersion.jar")));
    assert_eq!(api.get_jar_name(&s("VIABACKWARDS")), Some(s("ViaBackwards.jar")));
    assert_eq!(api.get_jar_name(&s("paper")), None);
    assert_eq!(
        api.get_download_link(&s("viaversion"), None),
        "https://ci.viaversion.com/job/ViaVersion/lastSuccessfulBuild/artifact/build/libs/*zip*/libs.zip"
    );
    assert_eq!(
        api.get_download_link(&s("viaversion"), Some(&s("dev"))),
        "https://ci.viaversion.com/job/ViaVersion-DEV/lastSuccessfulBuild/artifact/build/libs/*zip*/libs.zip"
    );
    assert_eq!(api.get_download_link(&s("viaversion"), Some(&s("nightly"))), "");
    assert_eq!(api.get_download_link(&s("paper"), None), "");
    assert_eq!(api.get_download_link(&s("paper"), Some(&s("dev"))), "na");
    assert_eq!(ViaVersionAPI::link_for_channel(&s("viaversion"), &s("dev"), false), "");
    assert_eq!(
        ViaVersionAPI::link_for_channel(&s("viaversion"), &s("dev"), true),
        "https://ci.viaversion.com/job/ViaVersion-DEV/lastSuccessfulBuild/artifact/build/libs/*zip*/libs.zip"
    );
}

#[test]
fn options_of_the_command_line() {
    let args = ArgValues {
        values: vec![(s("channel"), s("dev")), (s("I"), s("pigz")), (s("channel"), s("later"))],
        flags: vec![s("verbose")],
    };
    assert_eq!(clap_get_one_or_fallback(Some(&args), "channel", "standalone"), "dev");
    assert_eq!(clap_get_one_or_fallback(Some(&args), "I", "NONE"), "pigz");
    assert_eq!(clap_get_one_or_fallback(Some(&args), "level", "NONE"), "NONE");
    assert_eq!(clap_get_one_or_fallback(None, "channel", "standalone"), "standalone");
    assert!(clap_get_flag_or_false(Some(&args), "verbose"));
    assert!(!clap_get_flag_or_false(Some(&args), "channel"));
    assert!(!clap_get_flag_or_false(Some(&args), "no-snapshot-version"));
    assert!(!clap_get_flag_or_false(None, "verbose"));
}

#[test]
fn temporary_directories_and_files() {
    let dirs = vec![
        InstanceDir { path: s("/tmp/limonium/a"), age_seconds: Some(86401) },
        InstanceDir { path: s("/tmp/limonium/b"), age_seconds: Some(86400) },
        InstanceDir { path: s("/tmp/limonium/c"), age_seconds: None },
        InstanceDir { path: s("/tmp/limonium/d"), age_seconds: Some(u64::MAX) },
    ];
    assert_eq!(cleanup(Some("/tmp/limonium/me"), &dirs), vec![s("/tmp/limonium/me"), s("/tmp/limonium/a"), s("/tmp/limonium/d")]);
    assert_eq!(cleanup(None, &dirs), vec![s("/tmp/limonium/a"), s("/tmp/limonium/d")]);
    assert_eq!(cleanup(None, &Vec::new()), Vec::<String>::new());
    assert_eq!(temp_file_name("0123", ".jar"), "limonium-0123.jar");
    let one = random_file_name(&s(".jar"));
    let two = random_file_name(&s(".jar"));
    assert!(one.starts_with("limonium-") && one.ends_with(".jar"));
    assert_eq!(one.len(), "limonium-".len() + 36 + ".jar".len());
    assert_ne!(one, two);
    assert_eq!(random_file_name(&s("")).len(), "limonium-".len() + 36);
}

#[test]
fn plain_values() {
    let jar = DownloadedJar::empty();
    assert_eq!((jar.real_jar_name, jar.temp_jar_name, jar.temp_jar_path), (None, s(""), s("")));
    let file = DownloadedFile::empty();
    assert_eq!((file.real_file_name, file.temp_file_name, file.temp_file_path), (None, s(""), s("")));
    let repo = Repo::new("andrew121410", "limonium");
    assert_eq!((repo.user.as_str(), repo.repo.as_str()), ("andrew121410", "limonium"));
    assert_eq!(repo.tags_url(), "https://api.github.com/repos/andrew121410/limonium/tags");
    let search = LogSearch::new(3, s("lost connection"), s("./logs"));
    assert_eq!((search.days_back, search.to_search.as_str(), search.logs_dir.as_str()), (3, "lost connection", "./logs"));
    assert_eq!(search.span_seconds(), Some(259200));
    assert_eq!(LogSearch::new(u64::MAX, s(""), s("")).span_seconds(), None);
    assert_eq!(LogSearch::log_file_names("2023-10-19", 2), (s("2023-10-19-2.log"), s("2023-10-19-2.log.gz")));
}

#[test]
fn text_helpers() {
    assert_eq!(split("a:b::c", ':'), vec![s("a"), s("b"), s(""), s("c")]);
    assert_eq!(split("", ':'), vec![s("")]);
    assert_eq!(split(":", ':'), vec![s(""), s("")]);
    assert_eq!(split("abc", ':'), vec![s("abc")]);
    assert!(contains("1.13-pre-7", "-pre"));
    assert!(contains("abc", ""));
    assert!(contains("", ""));
    assert!(!contains("", "a"));
    assert!(!contains("1.13", "-pre"));
    assert!(contains("aab", "ab"));
    assert!(eq_ignore_ascii_case("ViaVersion", "VIAVERSION"));
    assert!(!eq_ignore_ascii_case("ViaVersion", "ViaVersio"));
    assert!(!eq_ignore_ascii_case("k", "\u{212a}"));
    assert!(eq_ignore_ascii_case("", ""));
}

fn log(lines: &[&str]) -> Vec<Option<String>> {
    lines.iter().map(|l| Some(l.to_string())).collect()
}

fn numbered(found: &[(usize, &str)]) -> Vec<(usize, String)> {
    found.iter().map(|(n, l)| (*n, l.to_string())).collect()
}

#[test]
fn log_search_finds_lines_with_their_surroundings() {
    let search = LogSearch::new(1, s("lost"), s("./logs"));
    let lines = log(&["start", "a joined", "a lost connection", "b joined", "c joined", "d joined", "b lost connection", "end"]);
    assert_eq!(search.context(&lines, 0, 0), numbered(&[(2, "a lost connection"), (6, "b lost connection")]));
    assert_eq!(
        search.context(&lines, 0, 1),
        numbered(&[(2, "a lost connection"), (3, "b joined"), (6, "b lost connection"), (7, "end")])
    );
    assert_eq!(
        search.context(&lines, 1, 0),
        numbered(&[(1, "a joined"), (2, "a lost connection"), (5, "d joined"), (6, "b lost connection")])
    );
    assert_eq!(
        search.context(&lines, 2, 2),
        numbered(&[
            (0, "a lost connection"),
            (1, "a joined"),
            (2, "a lost connection"),
            (3, "b joined"),
            (4, "c joined"),
            (5, "d joined"),
            (6, "b lost connection"),
            (7, "end"),
        ])
    );
    assert_eq!(search.context(&lines, 3, 0), numbered(&[(2, "a lost connection"), (5, "d joined"), (6, "b lost connection")]));
    assert_eq!(search.context(&Vec::new(), 3, 3), Vec::new());
    assert_eq!(search.context(&log(&["nothing", "here"]), 3, 3), Vec::new());
}

#[test]
fn log_search_takes_each_text_once_and_passes_over_unread_lines() {
    let search = LogSearch::new(1, s("x"), s("."));
    let lines = log(&["same", "x1", "same", "same", "x2", "same"]);
    assert_eq!(search.context(&lines, 1, 1), numbered(&[(0, "same"), (1, "x1"), (2, "same"), (4, "x2")]));
    let broken = vec![Some(s("a")), None, Some(s("x")), None, Some(s("b"))];
    assert_eq!(search.context(&broken, 1, 2), numbered(&[(2, "x"), (4, "b")]));
    let far = log(&["l0", "l1", "l2", "x", "l4", "l5", "l6", "l7"]);
    assert_eq!(search.context(&far, 2, 0), numbered(&[(1, "l4"), (2, "l2"), (3, "x")]));
    assert_eq!(search.context(&far, 0, u64::MAX), numbered(&[(3, "x"), (4, "l4"), (5, "l5"), (6, "l6"), (7, "l7")]));
}

#[test]
fn banner_box() {
    assert_eq!(banner_width(8, 39, 14, 26), Some(43));
    assert_eq!(banner_width(0, 0, 0, 0), Some(4));
    assert_eq!(banner_width(1, 2, usize::MAX - 4, 3), Some(usize::MAX));
    assert_eq!(banner_width(1, 2, 3, usize::MAX - 3), None);
    assert_eq!(side_padding(43, 8), " ".repeat(16));
    assert_eq!(side_padding(43, 39), " ");
    assert_eq!(side_padding(43, 41), "");
    assert_eq!(side_padding(43, 42), "");
    assert_eq!(side_padding(3, 8), "");
    assert_eq!(border(5), "*****");
    assert_eq!(border(0), "");
    assert_eq!(blank(5), "   ");
    assert_eq!(blank(1), "");
    assert_eq!(repeat('x', 3), "xxx");
}

#[test]
fn further_platforms() {
    let (p, v, b) = (s("petal"), s("1.19"), s("7"));
    assert_eq!(PetalAPI.get_jar_name(&p, &v, &b), "petal-1.19.jar");
    assert!(PetalAPI::check_if_compatible_version(&s("1.19")));
    assert!(!PetalAPI::check_if_compatible_version(&s("1.19.2")));
    assert_eq!(get_real_version(&s("1.19.2")), Some(s("1.19")));
    assert_eq!(get_real_version(&s("1.19")), None);
    assert_eq!(MiraiAPI.get_jar_name(&p, &s("1.19.2"), &b), "mirai-paperclip-1.19.2-R0.1-SNAPSHOT-reobf.jar");
    assert_eq!(
        MiraiAPI.get_download_link(&p, &s("1.19.2"), &s("6")),
        Some(s("https://ci.codemc.io/job/etil2jz/job/Mirai-1.19/6/artifact/build/libs/mirai-paperclip-1.19.2-R0.1-SNAPSHOT-reobf.jar"))
    );
    assert_eq!(MiraiAPI.get_download_link(&p, &s("1.20"), &s("6")), None);
    assert_eq!(PatinaAPI.get_jar_name(&p, &s("1.18.2"), &b), "patina-paperclip-1.18.2-R0.1-SNAPSHOT-reobf.jar");
    assert_eq!(
        PatinaAPI.get_download_link(&p, &s("1.18.2"), &b),
        "https://github.com/PatinaMC/Patina/raw/releases/1.18.2/patina-paperclip-1.18.2-R0.1-SNAPSHOT-reobf.jar"
    );
    let sha = limonium::hash_utils::Hash::new(s("sha256"), s("abc"));
    assert_eq!(sha.get_hash_from_tmp_jar("abd  theServer.jar\n"), Some(s("abd")));
    let args = ArgValues { values: vec![(s("channel"), s("dev"))], flags: Vec::new() };
    assert_eq!(get_channel_or_fallback(Some(&args), &s("standalone")), "dev");
    assert_eq!(get_channel_or_fallback(None, &s("standalone")), "standalone");
}

#[test]
fn jars_on_offer_by_kind() {
    let list = |names: &[&str]| names.iter().map(|n| n.to_string()).collect::<Vec<String>>();
    let types = FetchTypes {
        status: s("success"),
        response: FetchTypesResponse {
            bedrock: list(&["pocketmine", "both"]),
            modded: list(&["fabric"]),
            proxies: list(&["velocity", "waterfall"]),
            servers: list(&["paper", "purpur"]),
            vanilla: list(&["vanilla", "snapshot", "both"]),
        },
    };
    assert_eq!(get_all_types(&types.response, "paper"), Some(AServerJar { name: s("paper"), typea: s("servers") }));
    assert_eq!(get_all_types(&types.response, "both"), Some(AServerJar { name: s("both"), typea: s("vanilla") }));
    assert_eq!(get_all_types(&types.response, "fabric").unwrap().typea, "modded");
    assert_eq!(get_all_types(&types.response, "velocity").unwrap().typea, "proxies");
    assert_eq!(get_all_types(&types.response, "pocketmine").unwrap().typea, "bedrock");
    assert_eq!(get_all_types(&types.response, "spigot"), None);
    let jar = AServerJar { name: s("paper"), typea: s("servers") };
    assert_eq!(jar_link(&jar, "paper", "1.19.2"), "https://serverjars.com/api/fetchJar/servers/paper/1.19.2");
    assert_eq!(jar_link(&jar, "paper", "latest"), "https://serverjars.com/api/fetchJar/servers/paper");
    assert_eq!(details_link(&jar, "paper", "1.19.2"), "https://serverjars.com/api/fetchDetails/servers/paper/1.19.2");
    assert_eq!(details_link(&jar, "paper", "latest"), "https://serverjars.com/api/fetchDetails/servers/paper");
    let details = FetchDetails {
        status: s("success"),
        response: FetchDetailsResponse { version: s("1.19.2"), file: s("paper-1.19.2.jar"), md5: s("00"), built: 1, stability: s("stable") },
    };
    assert_eq!(destination("", &details), "paper-1.19.2.jar");
    assert_eq!(destination("server.jar", &details), "server.jar");
}
