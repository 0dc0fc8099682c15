//! The jars that serverjars.com offers, by kind.

use vstd::prelude::*;
use vstd::string::*;
use crate::text::{equal_texts, holds_name, views};

verus! {

/// A jar on offer and the kind it is listed under.
#[derive(Clone, Debug, PartialEq, Eq)]
pub struct AServerJar {
    pub name: String,
    pub typea: String,
}

/// The projects on offer.
#[derive(Clone, Debug, PartialEq, Eq)]
pub struct FetchTypes {
    pub status: String,
    pub response: FetchTypesResponse,
}

/// The projects on offer, by kind.
#[derive(Clone, Debug, PartialEq, Eq)]
pub struct FetchTypesResponse {
    pub bedrock: Vec<String>,
    pub modded: Vec<String>,
    pub proxies: Vec<String>,
    pub servers: Vec<String>,
    pub vanilla: Vec<String>,
}

/// What is known of one jar.
#[derive(Clone, Debug, PartialEq, Eq)]
pub struct FetchDetails {
    pub status: String,
    pub response: FetchDetailsResponse,
}

/// What is known of one jar: its version, the name of its file, the MD5
/// digest of the file, when it was built and how stable it is.
#[derive(Clone, Debug, PartialEq, Eq)]
pub struct FetchDetailsResponse {
    pub version: String,
    pub file: String,
    pub md5: String,
    pub built: i64,
    pub stability: String,
}

/// The kind that the project is listed under; where it is listed under
/// several, the last of bedrock, modded, proxies, servers, vanilla.
pub open spec fn kind_of(types: FetchTypesResponse, project: Seq<char>) -> Option<Seq<char>> {
    if views(types.vanilla@).contains(project) {
        Some("vanilla"@)
    } else if views(types.servers@).contains(project) {
        Some("servers"@)
    } else if views(types.proxies@).contains(project) {
        Some("proxies"@)
    } else if views(types.modded@).contains(project) {
        Some("modded"@)
    } else if views(types.bedrock@).contains(project) {
        Some("bedrock"@)
    } else {
        None
    }
}

/// The project as it is on offer, see [`kind_of`]; `None` where it is
/// not.
pub fn get_all_types(types: &FetchTypesResponse, project: &str) -> (jar: Option<AServerJar>)
    ensures
        match kind_of(*types, project@) {
            Some(kind) => jar matches Some(j) && j.name@ == project@ && j.typea@ == kind,
            None => jar is None,
        },
{
    let kind = if holds_name(&types.vanilla, project) {
        "vanilla"
    } else if holds_name(&types.servers, project) {
        "servers"
    } else if holds_name(&types.proxies, project) {
        "proxies"
    } else if holds_name(&types.modded, project) {
        "modded"
    } else if holds_name(&types.bedrock, project) {
        "bedrock"
    } else {
        return None;
    };
    Some(AServerJar { name: project.to_owned(), typea: kind.to_owned() })
}

/// Address of a jar or of what is known of it: the service, the kind,
/// the project, and the version unless it is `latest`.
pub open spec fn fetch_link_spec(
    service: Seq<char>,
    kind: Seq<char>,
    project: Seq<char>,
    version: Seq<char>,
) -> Seq<char> {
    let head = "https://serverjars.com/api/"@ + service + seq!['/'] + kind + seq!['/'] + project;
    if version == "latest"@ {
        head
    } else {
        head + seq!['/'] + version
    }
}

fn fetch_link(service: &str, jar: &AServerJar, project: &str, version: &str) -> (link: String)
    ensures
        link@ == fetch_link_spec(service@, jar.typea@, project@, version@),
{
    let mut link = "https://serverjars.com/api/".to_owned();
    link.append(service);
    link.push('/');
    link.append(jar.typea.as_str());
    link.push('/');
    link.append(project);
    if !equal_texts(version, "latest") {
        link.push('/');
        link.append(version);
    }
    link
}

/// Address of the jar of a project in a version.
pub fn jar_link(jar: &AServerJar, project: &str, version: &str) -> (link: String)
    ensures
        link@ == fetch_link_spec("fetchJar"@, jar.typea@, project@, version@),
{
    fetch_link("fetchJar", jar, project, version)
}

/// Address of what is known of the jar of a project in a version.
pub fn details_link(jar: &AServerJar, project: &str, version: &str) -> (link: String)
    ensures
        link@ == fetch_link_spec("fetchDetails"@, jar.typea@, project@, version@),
{
    fetch_link("fetchDetails", jar, project, version)
}

/// The path to write the jar to: the one asked for, or the name of the
/// jar's file where none is.
pub fn destination(path: &str, details: &FetchDetails) -> (r: String)
    ensures
        r@ == if path@.len() == 0 {
            details.response.file@
        } else {
            path@
        },
{
    if path.unicode_len() == 0 {
        details.response.file.clone()
    } else {
        path.to_owned()
    }
}

} // verus!
