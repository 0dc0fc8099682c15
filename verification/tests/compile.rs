use limonium::archive::Backup;
use limonium::compile_controllers::{
    build_tools_command, chosen_jar, clone_command, modify_pom_xml, pick_jar, pull_command,
    remove_all, software_directory, spigot_jar_path, SoftwareConfig, SpigotAPI,
};
use limonium::date::Date;
use limonium::download_controllers::{latest_build, latest_version};
use limonium::format::BackupFormat;
use limonium::retention::PolicyError;
use limonium::text::{ends_with, lines, starts_with, trim};
use limonium::transfer::{list_command, listed_names, remove_command, reports_missing_file};

fn s(text: &str) -> String {
    text.to_string()
}

fn strings(list: &[&str]) -> Vec<String> {
    list.iter().map(|s| s.to_string()).collect()
}

#[test]
fn software_configurations() {
    let c = SoftwareConfig::coreprotect();
    assert_eq!(c.repo_url, "https://github.com/PlayPro/CoreProtect.git");
    assert_eq!(c.branch, Some(s("master")));
    assert_eq!(c.build_command, "mvn clean package");
    assert_eq!(c.jar_regex, r"CoreProtect-\d+\.\d+\.jar");
    assert_eq!(c.jar_location, "target/");
    assert!(c.delete_after_building);
    let m = SoftwareConfig::mcmmo(Some(s("dev")));
    assert_eq!(m.repo_url, "https://github.com/mcMMO-Dev/mcMMO");
    assert_eq!(m.branch, Some(s("dev")));
    assert_eq!(m.jar_regex, r"^mcMMO\.jar$");
    assert!(!m.delete_after_building);
    let p = SoftwareConfig::plotsquared(None);
    assert_eq!(p.repo_url, "https://github.com/IntellectualSites/PlotSquared.git");
    assert_eq!(p.branch, None);
    assert_eq!(p.build_command, "gradlew build");
    assert_eq!(p.jar_regex, r"plotsquared-.*\.jar");
    assert_eq!(p.jar_location, "Bukkit/build/libs/");
}

#[test]
fn sources_are_cloned_into_a_directory_named_like_the_repository() {
    assert_eq!(software_directory("https://github.com/PlayPro/CoreProtect.git"), "CoreProtect");
    assert_eq!(software_directory("https://github.com/mcMMO-Dev/mcMMO"), "mcMMO");
    assert_eq!(software_directory("a/b.git.git/"), "");
    assert_eq!(software_directory("x.gitx.git"), "xx");
    assert_eq!(software_directory(""), "");
    assert_eq!(remove_all("withJavadocJar() a withJavadocJar()", "withJavadocJar()"), " a ");
    assert_eq!(remove_all("aaa", "aa"), "a");
    assert_eq!(remove_all("abc", ""), "abc");
    assert_eq!(remove_all("", "abc"), "");
    assert_eq!(remove_all("ababab", "ab"), "");
    assert_eq!(remove_all("a.gi.git", ".git"), "a.gi");
}

#[test]
fn commands_of_the_build() {
    let c = clone_command("https://x/y.git", Some("dev"), "/work");
    assert_eq!((c.program.as_str(), c.args, c.current_dir), ("git", strings(&["clone", "https://x/y.git", "--branch", "dev"]), Some(s("/work"))));
    let c = clone_command("https://x/y.git", None, "/work");
    assert_eq!((c.program.as_str(), c.args), ("git", strings(&["clone", "https://x/y.git"])));
    let c = pull_command("/work/y");
    assert_eq!((c.program.as_str(), c.args, c.current_dir), ("git", strings(&["pull"]), Some(s("/work/y"))));
    let c = build_tools_command("1.21.5", "/work/spigot");
    assert_eq!(
        (c.program.as_str(), c.args, c.current_dir),
        ("java", strings(&["-jar", "BuildTools.jar", "--rev", "1.21.5", "--compile-if-changed"]), Some(s("/work/spigot")))
    );
    assert_eq!(spigot_jar_path("/work/spigot", "1.21.5"), "/work/spigot/spigot-1.21.5.jar");
    assert_eq!(SpigotAPI::run_build_tools("1.21.5", "/work/spigot"), build_tools_command("1.21.5", "/work/spigot"));
    let c = SpigotAPI::download_build_tools("/work/spigot");
    assert_eq!(
        (c.program.as_str(), c.args, c.current_dir),
        (
            "wget",
            strings(&[
                "-O",
                "./BuildTools.jar",
                "https://hub.spigotmc.org/jenkins/job/BuildTools/lastSuccessfulBuild/artifact/target/BuildTools.jar"
            ]),
            Some(s("/work/spigot"))
        )
    );
}

#[test]
fn the_jar_asked_for_is_no_side_jar() {
    assert_eq!(pick_jar(&strings(&["a-sources.jar", "a-javadoc.jar", "a.jar", "b.jar"])), Some(2));
    assert_eq!(pick_jar(&strings(&["a.jar"])), Some(0));
    assert_eq!(pick_jar(&strings(&["a-sources.jar", "a-javadoc.jar"])), None);
    assert_eq!(pick_jar(&Vec::new()), None);
    assert_eq!(chosen_jar("1\n", 3), Some(1));
    assert_eq!(chosen_jar("  0 ", 1), Some(0));
    assert_eq!(chosen_jar("+2", 3), Some(2));
    assert_eq!(chosen_jar("3", 3), None);
    assert_eq!(chosen_jar("", 3), None);
    assert_eq!(chosen_jar("one", 3), None);
    assert_eq!(chosen_jar("-1", 3), None);
    assert_eq!(chosen_jar("99999999999999999999999999", usize::MAX), None);
}

#[test]
fn project_file_gets_version_and_branch() {
    let pom = "<project>\r\n  <version>22.4</version>\n\t<project.branch>master</project.branch>\n  <dependency>\n    <version>1.0</version>\n  </dependency>\n  <project.branch>x</project.branch>\n</project>";
    assert_eq!(
        modify_pom_xml(pom, "23.0"),
        "<project>\n    <version>23.0</version>\n    <project.branch>development</project.branch>\n  <dependency>\n    <version>1.0</version>\n  </dependency>\n  <project.branch>x</project.branch>\n</project>\n"
    );
    assert_eq!(modify_pom_xml("", "1"), "");
    assert_eq!(modify_pom_xml("\n", "1"), "\n");
    assert_eq!(modify_pom_xml("<version></version>", "1"), "    <version>1</version>\n");
    assert_eq!(modify_pom_xml("<version>", "1"), "<version>\n");
    assert_eq!(modify_pom_xml("a <version>2</version>", "1"), "a <version>2</version>\n");
    assert_eq!(modify_pom_xml("<version>2</version> b\r", "1"), "<version>2</version> b\r\n");
}

#[test]
fn lines_and_ends_of_texts() {
    assert_eq!(lines("a\nb\r\nc"), strings(&["a", "b", "c"]));
    assert_eq!(lines("a\n\nb\n"), strings(&["a", "", "b"]));
    assert_eq!(lines(""), Vec::<String>::new());
    assert_eq!(lines("\n"), strings(&[""]));
    assert_eq!(lines("a\r"), strings(&["a\r"]));
    assert_eq!(lines("a\r\r\n"), strings(&["a\r"]));
    assert_eq!(trim(" \t a b \r\n"), "a b");
    assert_eq!(trim(""), "");
    assert_eq!(trim(" \n "), "");
    assert_eq!(trim("a"), "a");
    assert!(starts_with("abc", "ab") && starts_with("abc", "") && starts_with("abc", "abc"));
    assert!(!starts_with("abc", "bc") && !starts_with("ab", "abc"));
    assert!(ends_with("abc", "bc") && ends_with("abc", "") && ends_with("abc", "abc"));
    assert!(!ends_with("abc", "ab") && !ends_with("bc", "abc"));
}

#[test]
fn the_latest_of_the_versions_and_builds() {
    let versions = strings(&["1.13-pre-7", "1.8.8", "1.21", "1.20.6", "1.21.1-SNAPSHOT", "1.9"]);
    assert_eq!(latest_version(&versions, true), Some(s("1.21")));
    assert_eq!(latest_version(&versions, false), None);
    assert_eq!(latest_version(&strings(&["1.21", "1.21.0", "1.2", "01.21.0"]), false), Some(s("01.21.0")));
    assert_eq!(latest_version(&strings(&["1.13-pre-7"]), false), None);
    assert_eq!(latest_version(&Vec::new(), true), None);
    assert_eq!(latest_version(&strings(&["1.2", "nightly"]), true), None);
    assert_eq!(latest_build(&vec![3, 47, 12]), Some(s("47")));
    assert_eq!(latest_build(&vec![0]), Some(s("0")));
    assert_eq!(latest_build(&vec![-5, -2]), Some(s("-2")));
    assert_eq!(latest_build(&vec![i64::MIN]), Some(s("-9223372036854775808")));
    assert_eq!(latest_build(&vec![i64::MAX, 1]), Some(s("9223372036854775807")));
    assert_eq!(latest_build(&Vec::new()), None);
}

#[test]
fn remote_commands() {
    let c = list_command("/srv/backups");
    assert_eq!((c.program.as_str(), c.args, c.current_dir), ("ls", strings(&["/srv/backups"]), None));
    let c = remove_command("/srv/backups", "hub-1-1-2020-1-bundle.zip");
    assert_eq!((c.program.as_str(), c.args, c.current_dir), ("rm", strings(&["/srv/backups/hub-1-1-2020-1-bundle.zip"]), None));
    assert_eq!(listed_names("a.zip\nb.zip\n"), strings(&["a.zip", "b.zip", ""]));
    assert!(reports_missing_file("rm: cannot remove 'x': No such file or directory"));
    assert!(!reports_missing_file("rm: cannot remove 'x': Permission denied"));
}

#[test]
fn pruning_by_an_age_limit_given_as_text() {
    let backup = Backup::new(s("hub"), s("world"), s("/backups"), BackupFormat::Zip, None, None);
    let today = Date::from_parts(2023, 10, 19).unwrap();
    let listing = strings(&["hub-10-1-2023-1-bundle.zip", "hub-10-18-2023-1-bundle.zip", "hub-9-1-2023-1-bundle.zip"]);
    assert_eq!(
        backup.local_delete_after_time(&s("1w"), &listing, &today, None),
        Ok(strings(&["hub-10-1-2023-1-bundle.zip", "hub-9-1-2023-1-bundle.zip"]))
    );
    assert_eq!(
        backup.local_delete_after_time(&s("1w"), &listing, &today, Some(2)),
        Ok(strings(&["hub-9-1-2023-1-bundle.zip"]))
    );
    assert_eq!(backup.local_delete_after_time(&s("1y"), &listing, &today, None), Err(PolicyError::InvalidUnit));
    assert_eq!(backup.local_delete_after_time(&s(""), &listing, &today, None), Err(PolicyError::Empty));
    assert_eq!(backup.local_delete_after_time(&s("xd"), &listing, &today, None), Err(PolicyError::InvalidAmount));
    let commands = backup
        .sftp_delete_after_time(&s("2w"), "/srv/b", "hub-10-1-2023-1-bundle.zip\nhub-10-18-2023-1-bundle.zip\nlobby-1-1-2020-1-bundle.zip\n", &today, None)
        .unwrap();
    assert_eq!(commands.len(), 1);
    assert_eq!(commands[0].program, "rm");
    assert_eq!(commands[0].args, strings(&["/srv/b/hub-10-1-2023-1-bundle.zip"]));
    assert_eq!(backup.sftp_delete_after_time(&s("2"), "/srv/b", "", &today, None), Err(PolicyError::InvalidUnit));
}
