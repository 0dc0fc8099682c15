//! Building software from its sources: where the sources come from, how
//! they are built, and which of the jars that the build leaves is the one
//! asked for.

use vstd::prelude::*;
use vstd::string::*;
use crate::command::CommandLine;
use crate::text::{
    chars_of, contains, contains_text, ends_with, is_suffix, lemma_split_on_len, lines, lines_of,
    parse_unsigned, push_arg, push_range, split, split_on, starts_with, trim, trimmed,
    unsigned_spec, views,
};

verus! {

/// How a piece of software is fetched and built.
#[derive(Clone, Debug, PartialEq, Eq)]
pub struct SoftwareConfig {
    /// Address of the repository.
    pub repo_url: String,
    /// The branch to build; `None` for the repository's own choice.
    pub branch: Option<String>,
    /// The command that builds, its parts separated by white space.
    pub build_command: String,
    /// Regular expression for the name of the jar that the build leaves.
    pub jar_regex: String,
    /// Directory of that jar within the sources.
    pub jar_location: String,
    /// Whether the sources are deleted after the build.
    pub delete_after_building: bool,
}

impl SoftwareConfig {
    /// CoreProtect: built with Maven from the branch `master`, the
    /// sources deleted afterwards.
    pub fn coreprotect() -> (config: SoftwareConfig)
        ensures
            config.repo_url@ == "https://github.com/PlayPro/CoreProtect.git"@,
            config.branch matches Some(b) && b@ == "master"@,
            config.build_command@ == "mvn clean package"@,
            config.jar_regex@ == "CoreProtect-\\d+\\.\\d+\\.jar"@,
            config.jar_location@ == "target/"@,
            config.delete_after_building,
    {
        SoftwareConfig {
            repo_url: "https://github.com/PlayPro/CoreProtect.git".to_owned(),
            branch: Some("master".to_owned()),
            build_command: "mvn clean package".to_owned(),
            jar_regex: "CoreProtect-\\d+\\.\\d+\\.jar".to_owned(),
            jar_location: "target/".to_owned(),
            delete_after_building: true,
        }
    }

    /// mcMMO: built with Maven from the branch asked for.
    pub fn mcmmo(branch: Option<String>) -> (config: SoftwareConfig)
        ensures
            config.repo_url@ == "https://github.com/mcMMO-Dev/mcMMO"@,
            config.branch == branch,
            config.build_command@ == "mvn clean package"@,
            config.jar_regex@ == "^mcMMO\\.jar$"@,
            config.jar_location@ == "target/"@,
            !config.delete_after_building,
    {
        SoftwareConfig {
            repo_url: "https://github.com/mcMMO-Dev/mcMMO".to_owned(),
            branch,
            build_command: "mvn clean package".to_owned(),
            jar_regex: "^mcMMO\\.jar$".to_owned(),
            jar_location: "target/".to_owned(),
            delete_after_building: false,
        }
    }

    /// PlotSquared: built with Gradle from the branch asked for.
    pub fn plotsquared(branch: Option<String>) -> (config: SoftwareConfig)
        ensures
            config.repo_url@ == "https://github.com/IntellectualSites/PlotSquared.git"@,
            config.branch == branch,
            config.build_command@ == "gradlew build"@,
            config.jar_regex@ == "plotsquared-.*\\.jar"@,
            config.jar_location@ == "Bukkit/build/libs/"@,
            !config.delete_after_building,
    {
        SoftwareConfig {
            repo_url: "https://github.com/IntellectualSites/PlotSquared.git".to_owned(),
            branch,
            build_command: "gradlew build".to_owned(),
            jar_regex: "plotsquared-.*\\.jar".to_owned(),
            jar_location: "Bukkit/build/libs/".to_owned(),
            delete_after_building: false,
        }
    }
}

/// `s` without the occurrences of `pattern`, found from left to right.
pub open spec fn without(s: Seq<char>, pattern: Seq<char>) -> Seq<char>
    decreases s.len(),
{
    if pattern.len() == 0 || s.len() < pattern.len() {
        s
    } else if s.subrange(0, pattern.len() as int) == pattern {
        without(s.subrange(pattern.len() as int, s.len() as int), pattern)
    } else {
        seq![s[0]] + without(s.drop_first(), pattern)
    }
}

/// `s` without the occurrences of `pattern`, see [`without`].
pub fn remove_all(s: &str, pattern: &str) -> (r: String)
    ensures
        r@ == without(s@, pattern@),
{
    let v = chars_of(s);
    let p = chars_of(pattern);
    let mut r = String::new();
    if p.len() == 0 {
        push_range(&mut r, &v, 0, v.len());
        assert(v@.subrange(0, v.len() as int) =~= v@);
        return r;
    }
    let mut i: usize = 0;
    assert(v@.subrange(0, v.len() as int) =~= v@);
    while i < v.len()
        invariant
            i <= v.len(),
            p.len() > 0,
            v@ == s@,
            p@ == pattern@,
            r@ + without(v@.subrange(i as int, v.len() as int), p@) == without(v@, p@),
        decreases v.len() - i,
    {
        let ghost rest = v@.subrange(i as int, v.len() as int);
        let mut matched = false;
        if p.len() <= v.len() - i {
            let mut j: usize = 0;
            while j < p.len() && v[i + j] == p[j]
                invariant
                    j <= p.len(),
                    i + p.len() <= v.len(),
                    v@.subrange(i as int, i + j) =~= p@.take(j as int),
                decreases p.len() - j,
            {
                assert(v@.subrange(i as int, i + j + 1) =~= v@.subrange(i as int, i + j).push(
                    v@[i + j],
                ));
                assert(p@.take(j + 1) =~= p@.take(j as int).push(p@[j as int]));
                j += 1;
            }
            matched = j == p.len();
            proof {
                assert(rest.subrange(0, p.len() as int) =~= v@.subrange(i as int, i + p.len()));
                if matched {
                    assert(p@.take(j as int) =~= p@);
                } else {
                    assert(v@.subrange(i as int, i + p.len())[j as int] != p@[j as int]);
                }
            }
        }
        if matched {
            assert(rest.subrange(p.len() as int, rest.len() as int) =~= v@.subrange(
                i + p.len(),
                v.len() as int,
            ));
            i += p.len();
        } else {
            assert(rest.drop_first() =~= v@.subrange(i + 1, v.len() as int));
            assert(rest[0] == v@[i as int]);
            let ghost before = r@;
            r.push(v[i]);
            assert(r@ + without(rest.drop_first(), p@) =~= before + (seq![rest[0]] + without(
                rest.drop_first(),
                p@,
            )));
            i += 1;
        }
    }
    assert(v@.subrange(v.len() as int, v.len() as int) =~= Seq::<char>::empty());
    assert(r@ + Seq::<char>::empty() =~= r@);
    r
}

/// Name of the directory that cloning leaves the sources in: the last
/// part of the address, without `.git`.
pub fn software_directory(repo_url: &str) -> (name: String)
    ensures
        name@ == without(split_on(repo_url@, '/').last(), ".git"@),
{
    let parts = split(repo_url, '/');
    proof {
        lemma_split_on_len(repo_url@, '/');
    }
    assert(views(parts@).last() == parts@[parts.len() - 1]@);
    remove_all(parts[parts.len() - 1].as_str(), ".git")
}

/// The command that clones the repository, the branch asked for where
/// there is one.
pub fn clone_command(repo_url: &str, branch: Option<&str>, directory: &str) -> (c: CommandLine)
    ensures
        c.is(
            "git"@,
            match branch {
                Some(b) => seq!["clone"@, repo_url@, "--branch"@, b@],
                None => seq!["clone"@, repo_url@],
            },
            Some(directory@),
        ),
{
    let mut args: Vec<String> = Vec::new();
    assert(views(args@) =~= Seq::<Seq<char>>::empty());
    push_arg(&mut args, "clone");
    push_arg(&mut args, repo_url);
    match branch {
        Some(b) => {
            push_arg(&mut args, "--branch");
            push_arg(&mut args, b);
            assert(views(args@) =~= seq!["clone"@, repo_url@, "--branch"@, b@]);
        },
        None => {
            assert(views(args@) =~= seq!["clone"@, repo_url@]);
        },
    }
    CommandLine { program: "git".to_owned(), args, current_dir: Some(directory.to_owned()) }
}

/// The command that brings the sources in `directory` up to date.
pub fn pull_command(directory: &str) -> (c: CommandLine)
    ensures
        c.is("git"@, seq!["pull"@], Some(directory@)),
{
    let mut args: Vec<String> = Vec::new();
    assert(views(args@) =~= Seq::<Seq<char>>::empty());
    push_arg(&mut args, "pull");
    assert(views(args@) =~= seq!["pull"@]);
    CommandLine { program: "git".to_owned(), args, current_dir: Some(directory.to_owned()) }
}

/// The command that lets BuildTools build Spigot of that version.
pub fn build_tools_command(version: &str, directory: &str) -> (c: CommandLine)
    ensures
        c.is(
            "java"@,
            seq!["-jar"@, "BuildTools.jar"@, "--rev"@, version@, "--compile-if-changed"@],
            Some(directory@),
        ),
{
    let mut args: Vec<String> = Vec::new();
    assert(views(args@) =~= Seq::<Seq<char>>::empty());
    push_arg(&mut args, "-jar");
    push_arg(&mut args, "BuildTools.jar");
    push_arg(&mut args, "--rev");
    push_arg(&mut args, version);
    push_arg(&mut args, "--compile-if-changed");
    assert(views(args@) =~= seq![
        "-jar"@,
        "BuildTools.jar"@,
        "--rev"@,
        version@,
        "--compile-if-changed"@,
    ]);
    CommandLine { program: "java".to_owned(), args, current_dir: Some(directory.to_owned()) }
}

/// Path of the jar that BuildTools leaves for that version.
pub fn spigot_jar_path(directory: &str, version: &str) -> (path: String)
    ensures
        path@ == directory@ + "/spigot-"@ + version@ + ".jar"@,
{
    let mut path = directory.to_owned();
    path.append("/spigot-");
    path.append(version);
    path.append(".jar");
    path
}

/// Spigot, which BuildTools builds.
#[derive(Clone, Copy, Debug, PartialEq, Eq, Structural)]
pub struct SpigotAPI;

impl SpigotAPI {
    /// The command that fetches BuildTools into `directory`.
    pub fn download_build_tools(directory: &str) -> (c: CommandLine)
        ensures
            c.is(
                "wget"@,
                seq![
                    "-O"@,
                    "./BuildTools.jar"@,
                    "https://hub.spigotmc.org/jenkins/job/BuildTools/lastSuccessfulBuild/artifact/target/BuildTools.jar"@,
                ],
                Some(directory@),
            ),
    {
        let mut args: Vec<String> = Vec::new();
        assert(views(args@) =~= Seq::<Seq<char>>::empty());
        push_arg(&mut args, "-O");
        push_arg(&mut args, "./BuildTools.jar");
        push_arg(
            &mut args,
            "https://hub.spigotmc.org/jenkins/job/BuildTools/lastSuccessfulBuild/artifact/target/BuildTools.jar",
        );
        assert(views(args@) =~= seq![
            "-O"@,
            "./BuildTools.jar"@,
            "https://hub.spigotmc.org/jenkins/job/BuildTools/lastSuccessfulBuild/artifact/target/BuildTools.jar"@,
        ]);
        CommandLine { program: "wget".to_owned(), args, current_dir: Some(directory.to_owned()) }
    }

    /// The command that lets BuildTools build Spigot of that version, see
    /// [`build_tools_command`].
    pub fn run_build_tools(version: &str, directory: &str) -> (c: CommandLine)
        ensures
            c.is(
                "java"@,
                seq!["-jar"@, "BuildTools.jar"@, "--rev"@, version@, "--compile-if-changed"@],
                Some(directory@),
            ),
    {
        build_tools_command(version, directory)
    }
}

/// The name is that of a jar with sources or documentation.
pub open spec fn is_side_jar(name: Seq<char>) -> bool {
    contains_text(name, "-sources"@) || contains_text(name, "-javadoc"@)
}

/// Position of the first of `names` that is no jar with sources or
/// documentation.
pub fn pick_jar(names: &Vec<String>) -> (found: Option<usize>)
    ensures
        match found {
            Some(i) => i < names.len() && !is_side_jar(names@[i as int]@) && forall|k: int|
                0 <= k < i ==> is_side_jar(#[trigger] names@[k]@),
            None => forall|k: int| 0 <= k < names.len() ==> is_side_jar(#[trigger] names@[k]@),
        },
{
    let mut i: usize = 0;
    while i < names.len()
        invariant
            i <= names.len(),
            forall|k: int| 0 <= k < i ==> is_side_jar(#[trigger] names@[k]@),
        decreases names.len() - i,
    {
        let name = names[i].as_str();
        if !contains(name, "-sources") && !contains(name, "-javadoc") {
            return Some(i);
        }
        i += 1;
    }
    None
}

/// The choice among `count` jars that a line of input makes: a number
/// below `count`, with white space around it or not.
pub open spec fn choice_spec(line: Seq<char>, count: usize) -> Option<usize> {
    match unsigned_spec(trimmed(line), (u64::MAX - 1) as u64) {
        Some(n) => if n < count {
            Some(n as usize)
        } else {
            None
        },
        None => None,
    }
}

/// The choice among `count` jars that a line of input makes, see
/// [`choice_spec`].
pub fn chosen_jar(line: &str, count: usize) -> (choice: Option<usize>)
    ensures
        choice == choice_spec(line@, count),
{
    let word = trim(line);
    match parse_unsigned(word.as_str(), u64::MAX - 1) {
        Some(n) => if n < count as u64 {
            Some(n as usize)
        } else {
            None
        },
        None => None,
    }
}


/// The line holds one element of a project file: it begins with `open`
/// and ends with `close`, white space around it or not.
pub open spec fn is_element(line: Seq<char>, open: Seq<char>, close: Seq<char>) -> bool {
    open.is_prefix_of(trimmed(line)) && is_suffix(close, trimmed(line))
}

/// The lines of a project file made ready for the build: the first
/// `version` element states `version`, the first `project.branch` element
/// states `development`, every other line is as it was; each line ends
/// with a line feed. `version_done` and `branch_done` say that the
/// element has been seen already.
pub open spec fn rewritten(
    lines: Seq<Seq<char>>,
    version: Seq<char>,
    version_done: bool,
    branch_done: bool,
) -> Seq<char>
    decreases lines.len(),
{
    if lines.len() == 0 {
        Seq::empty()
    } else if !version_done && is_element(lines[0], "<version>"@, "</version>"@) {
        "    <version>"@ + version + "</version>\n"@ + rewritten(
            lines.drop_first(),
            version,
            true,
            branch_done,
        )
    } else if !branch_done && is_element(lines[0], "<project.branch>"@, "</project.branch>"@) {
        "    <project.branch>development</project.branch>\n"@ + rewritten(
            lines.drop_first(),
            version,
            version_done,
            true,
        )
    } else {
        lines[0] + seq!['\n'] + rewritten(lines.drop_first(), version, version_done, branch_done)
    }
}

/// Whether the line holds one element, see [`is_element`].
fn holds_element(line: &str, open: &str, close: &str) -> (b: bool)
    ensures
        b == is_element(line@, open@, close@),
{
    let t = trim(line);
    starts_with(t.as_str(), open) && ends_with(t.as_str(), close)
}

/// The project file `content` of CoreProtect made ready for the build of
/// `version`, see [`rewritten`].
pub fn modify_pom_xml(content: &str, version: &str) -> (pom: String)
    ensures
        pom@ == rewritten(lines_of(content@), version@, false, false),
{
    let all = lines(content);
    let mut pom = String::new();
    let mut version_done = false;
    let mut branch_done = false;
    let mut i: usize = 0;
    assert(views(all@).subrange(0, all.len() as int) =~= views(all@));
    assert(pom@ + rewritten(views(all@), version@, false, false) =~= rewritten(
        views(all@),
        version@,
        false,
        false,
    ));
    while i < all.len()
        invariant
            i <= all.len(),
            pom@ + rewritten(
                views(all@).subrange(i as int, all.len() as int),
                version@,
                version_done,
                branch_done,
            ) == rewritten(views(all@), version@, false, false),
        decreases all.len() - i,
    {
        let line = all[i].as_str();
        let ghost rest = views(all@).subrange(i as int, all.len() as int);
        let ghost before = pom@;
        proof {
            assert(rest[0] == line@);
            assert(rest.drop_first() =~= views(all@).subrange(i + 1, all.len() as int));
        }
        if !version_done && holds_element(line, "<version>", "</version>") {
            pom.append("    <version>");
            pom.append(version);
            pom.append("</version>\n");
            version_done = true;
            assert(pom@ + rewritten(rest.drop_first(), version@, true, branch_done) =~= before + (
            "    <version>"@ + version@ + "</version>\n"@ + rewritten(
                rest.drop_first(),
                version@,
                true,
                branch_done,
            )));
        } else if !branch_done && holds_element(line, "<project.branch>", "</project.branch>") {
            pom.append("    <project.branch>development</project.branch>\n");
            branch_done = true;
            assert(pom@ + rewritten(rest.drop_first(), version@, version_done, true) =~= before
                + ("    <project.branch>development</project.branch>\n"@ + rewritten(
                rest.drop_first(),
                version@,
                version_done,
                true,
            )));
        } else {
            pom.append(line);
            pom.push('\n');
            assert(pom@ + rewritten(rest.drop_first(), version@, version_done, branch_done)
                =~= before + (line@ + seq!['\n'] + rewritten(
                rest.drop_first(),
                version@,
                version_done,
                branch_done,
            )));
        }
        i += 1;
    }
    assert(views(all@).subrange(all.len() as int, all.len() as int) =~= Seq::<
        Seq<char>,
    >::empty());
    assert(pom@ + Seq::<char>::empty() =~= pom@);
    pom
}

} // verus!
