//! Deciding whether a folder is a Bun project that KenBun can run.

use vstd::prelude::*;
use vstd::string::StringExecFns;
use crate::text::{chars_of, contains, contains_seq, occurs_at, remove_all, remove_occurrences, string_of};

verus! {

/// The Windows extended-length prefix `\\?\` that canonical paths carry.
pub open spec fn unc_prefix() -> Seq<char> {
    seq!['\\', '\\', '?', '\\']
}

/// A path as it is shown and used: every `\\?\` taken out.
pub open spec fn clean_path_spec(raw: Seq<char>) -> Seq<char> {
    remove_all(raw, unc_prefix())
}

/// A path in which `\\?\` does not occur is left as it is.
pub proof fn lemma_clean_path_keeps_plain_paths(raw: Seq<char>)
    requires
        !contains_seq(raw, unc_prefix()),
    ensures
        clean_path_spec(raw) == raw,
{
    lemma_remove_all_absent(raw, unc_prefix());
}

proof fn lemma_remove_all_absent(s: Seq<char>, pat: Seq<char>)
    requires
        !contains_seq(s, pat),
    ensures
        remove_all(s, pat) == s,
    decreases s.len(),
{
    if s.len() > 0 {
        assert(!occurs_at(s, pat, 0));
        let t = s.drop_first();
        assert forall|i: int| !occurs_at(t, pat, i) by {
            if occurs_at(t, pat, i) {
                assert(s.subrange(i + 1, i + 1 + pat.len()) == t.subrange(i, i + pat.len()));
                assert(occurs_at(s, pat, i + 1));
            }
        }
        lemma_remove_all_absent(t, pat);
        assert(seq![s[0]] + t =~= s);
    }
}

/// Takes every `\\?\` out of a path.
pub fn clean_project_path(raw: &str) -> (r: String)
    ensures
        r@ == clean_path_spec(raw@),
{
    let chars = chars_of(raw);
    let pat: Vec<char> = vec!['\\', '\\', '?', '\\'];
    assert(pat@ =~= unc_prefix());
    let kept = remove_occurrences(&chars, &pat);
    string_of(&kept)
}

/// What the file system shows of a folder, gathered before it is judged.
pub struct ProjectFacts {
    /// The folder exists.
    pub path_exists: bool,
    /// `bun.lockb` exists in it.
    pub bun_lockb: bool,
    /// `bun.lock` exists in it.
    pub bun_lock: bool,
    /// `package.json` exists in it.
    pub package_json_exists: bool,
    /// `package-lock.json` exists in it.
    pub package_lock: bool,
    /// `yarn.lock` exists in it.
    pub yarn_lock: bool,
    /// `pnpm-lock.yaml` exists in it.
    pub pnpm_lock: bool,
    /// The text of `package.json`, when it could be read.
    pub package_json: Option<String>,
    /// The entry script exists.
    pub script_exists: bool,
    /// The text of the entry script, when it could be read.
    pub script_content: Option<String>,
}

/// Why a folder was refused.
pub enum ProjectError {
    /// The folder does not exist.
    PathNotFound,
    /// The folder holds a Node.js lock file and no Bun lock file.
    NodeProjectDetected,
    /// The folder holds neither a Bun lock file nor a `package.json`.
    FolderNotProject,
    /// `package.json` names Node.js server frameworks (their names, joined by
    /// commas) and the entry script does not read its port from the environment.
    NodeFrameworkDetected(String),
    /// The entry script (its name) does not exist.
    ScriptMissing(String),
}

/// `ProjectError` over character sequences.
pub ghost enum Rejection {
    PathNotFound,
    NodeProjectDetected,
    FolderNotProject,
    NodeFrameworkDetected(Seq<char>),
    ScriptMissing(Seq<char>),
}

impl View for ProjectError {
    type V = Rejection;

    open spec fn view(&self) -> Rejection {
        match self {
            ProjectError::PathNotFound => Rejection::PathNotFound,
            ProjectError::NodeProjectDetected => Rejection::NodeProjectDetected,
            ProjectError::FolderNotProject => Rejection::FolderNotProject,
            ProjectError::NodeFrameworkDetected(names) => Rejection::NodeFrameworkDetected(names@),
            ProjectError::ScriptMissing(script) => Rejection::ScriptMissing(script@),
        }
    }
}

/// The error code the user interface receives for a refusal.
pub open spec fn rejection_code(r: Rejection) -> Seq<char> {
    match r {
        Rejection::PathNotFound => "PATH_NOT_FOUND"@,
        Rejection::NodeProjectDetected => "NODE_PROJECT_DETECTED"@,
        Rejection::FolderNotProject => "FOLDER_NOT_PROJECT"@,
        Rejection::NodeFrameworkDetected(names) => "NODE_FRAMEWORK_DETECTED:"@ + names,
        Rejection::ScriptMissing(script) => "SCRIPT_MISSING:"@ + script,
    }
}

impl ProjectError {
    /// The error code the user interface receives.
    pub fn code(&self) -> (s: String)
        ensures
            s@ == rejection_code(self@),
    {
        match self {
            ProjectError::PathNotFound => String::from_str("PATH_NOT_FOUND"),
            ProjectError::NodeProjectDetected => String::from_str("NODE_PROJECT_DETECTED"),
            ProjectError::FolderNotProject => String::from_str("FOLDER_NOT_PROJECT"),
            ProjectError::NodeFrameworkDetected(names) => {
                let mut s = String::from_str("NODE_FRAMEWORK_DETECTED:");
                s.append(names.as_str());
                s
            },
            ProjectError::ScriptMissing(script) => {
                let mut s = String::from_str("SCRIPT_MISSING:");
                s.append(script.as_str());
                s
            },
        }
    }
}

/// The entry script to run: `index.js` when none is configured.
pub open spec fn entry_script_spec(script_path: Seq<char>) -> Seq<char> {
    if script_path.len() == 0 {
        "index.js"@
    } else {
        script_path
    }
}

/// The entry script to run: `index.js` when none is configured.
pub fn entry_script(script_path: &str) -> (s: String)
    ensures
        s@ == entry_script_spec(script_path@),
{
    if script_path.is_empty() {
        String::from_str("index.js")
    } else {
        script_path.to_owned()
    }
}

/// Node.js server frameworks (package name, display name) that listen through
/// `node:http` rather than `Bun.serve`, so the port interceptor cannot reach them.
pub open spec fn node_frameworks() -> Seq<(Seq<char>, Seq<char>)> {
    seq![
        ("express"@, "Express.js"@),
        ("fastify"@, "Fastify"@),
        ("koa"@, "Koa"@),
        ("@nestjs/core"@, "NestJS"@),
        ("restify"@, "Restify"@),
        ("hapi"@, "Hapi.js"@),
        ("@hapi/hapi"@, "Hapi.js"@),
        ("feathers"@, "Feathers.js"@),
        ("@feathersjs/feathers"@, "Feathers.js"@),
        ("sails"@, "Sails.js"@),
        ("loopback"@, "LoopBack"@),
        ("@loopback/core"@, "LoopBack"@),
        ("polka"@, "Polka"@),
        ("@adonisjs/core"@, "AdonisJS"@),
        ("total.js"@, "Total.js"@),
        ("derby"@, "Derby.js"@),
        ("meteor-node-stubs"@, "Meteor.js"@),
        ("socket.io"@, "Socket.io"@),
        ("actionhero"@, "ActionHero"@),
        ("@tsed/core"@, "Ts.ED"@)
    ]
}

/// `name` between double quotes, as a key or value appears in JSON.
pub open spec fn quoted(name: Seq<char>) -> Seq<char> {
    seq!['"'] + name + seq!['"']
}

/// The display names, in list order, of the frameworks of `list` whose quoted
/// package name occurs in `content`.
pub open spec fn detected_in(content: Seq<char>, list: Seq<(Seq<char>, Seq<char>)>) -> Seq<Seq<char>>
    decreases list.len(),
{
    if list.len() == 0 {
        Seq::empty()
    } else {
        let rest = detected_in(content, list.drop_last());
        if contains_seq(content, quoted(list.last().0)) {
            rest.push(list.last().1)
        } else {
            rest
        }
    }
}

/// `names` joined with `sep` between neighbours (as `[&str]::join`).
pub open spec fn join(names: Seq<Seq<char>>, sep: Seq<char>) -> Seq<char>
    decreases names.len(),
{
    if names.len() == 0 {
        Seq::empty()
    } else if names.len() == 1 {
        names[0]
    } else {
        join(names.drop_last(), sep) + sep + names.last()
    }
}

/// The script takes its port from the environment.
pub open spec fn reads_env_port(script: Seq<char>) -> bool {
    ||| contains_seq(script, "process.env.PORT"@)
    ||| contains_seq(script, "Bun.env.PORT"@)
    ||| contains_seq(script, "env.PORT"@)
}

/// A Bun lock file is present.
pub open spec fn has_bun_lock(f: ProjectFacts) -> bool {
    f.bun_lockb || f.bun_lock
}

/// A Node.js lock file is present.
pub open spec fn has_node_lock(f: ProjectFacts) -> bool {
    f.package_lock || f.yarn_lock || f.pnpm_lock
}

/// The comma-joined names of the Node.js frameworks that stop the project, if
/// any: frameworks are looked for only in a `package.json` that exists and
/// could be read, and they stop the project unless the entry script could be
/// read and takes its port from the environment.
pub open spec fn framework_block(f: ProjectFacts) -> Option<Seq<char>> {
    if f.package_json_exists && f.package_json is Some {
        let found = detected_in(f.package_json->0@, node_frameworks());
        if found.len() == 0 {
            None
        } else {
            match f.script_content {
                Some(script) => if reads_env_port(script@) { None } else { Some(join(found, ","@)) },
                None => Some(join(found, ","@)),
            }
        }
    } else {
        None
    }
}

/// The judgement on a folder, checks in order: it exists; it is not a Node.js
/// project; it is a project at all; no Node.js framework stops it; its entry
/// script exists.
pub open spec fn project_verdict(f: ProjectFacts, script_path: Seq<char>) -> Result<(), Rejection> {
    if !f.path_exists {
        Err(Rejection::PathNotFound)
    } else if has_node_lock(f) && !has_bun_lock(f) {
        Err(Rejection::NodeProjectDetected)
    } else if !has_bun_lock(f) && !f.package_json_exists {
        Err(Rejection::FolderNotProject)
    } else if framework_block(f) is Some {
        Err(Rejection::NodeFrameworkDetected(framework_block(f)->0))
    } else if !f.script_exists {
        Err(Rejection::ScriptMissing(entry_script_spec(script_path)))
    } else {
        Ok(())
    }
}

/// The display names of the frameworks whose quoted package names occur in `content`.
pub fn detect_frameworks(content: &str) -> (names: Vec<&'static str>)
    ensures
        names@.map_values(|n: &str| n@) == detected_in(content@, node_frameworks()),
{
    let list: Vec<(&'static str, &'static str)> = vec![
        ("express", "Express.js"),
        ("fastify", "Fastify"),
        ("koa", "Koa"),
        ("@nestjs/core", "NestJS"),
        ("restify", "Restify"),
        ("hapi", "Hapi.js"),
        ("@hapi/hapi", "Hapi.js"),
        ("feathers", "Feathers.js"),
        ("@feathersjs/feathers", "Feathers.js"),
        ("sails", "Sails.js"),
        ("loopback", "LoopBack"),
        ("@loopback/core", "LoopBack"),
        ("polka", "Polka"),
        ("@adonisjs/core", "AdonisJS"),
        ("total.js", "Total.js"),
        ("derby", "Derby.js"),
        ("meteor-node-stubs", "Meteor.js"),
        ("socket.io", "Socket.io"),
        ("actionhero", "ActionHero"),
        ("@tsed/core", "Ts.ED"),
    ];
    let ghost want = node_frameworks();
    assert(list@.map_values(|p: (&str, &str)| (p.0@, p.1@)) =~= want);
    let hay = chars_of(content);
    let mut names: Vec<&'static str> = Vec::new();
    for i in 0..list.len()
        invariant
            hay@ == content@,
            list@.map_values(|p: (&str, &str)| (p.0@, p.1@)) == want,
            names@.map_values(|n: &str| n@) == detected_in(content@, want.take(i as int)),
    {
        let (pkg, display) = list[i];
        assert(want[i as int] == (pkg@, display@));
        assert(want.take(i + 1).drop_last() =~= want.take(i as int));
        let mut needle = String::from_str("\"");
        needle.append(pkg);
        needle.append("\"");
        let needle_chars = chars_of(needle.as_str());
        proof {
            reveal_strlit("\"");
            assert(needle_chars@ =~= quoted(pkg@));
        }
        let ghost before = names@.map_values(|n: &str| n@);
        if contains(&hay, &needle_chars) {
            names.push(display);
            assert(names@.map_values(|n: &str| n@) =~= before.push(display@));
        }
    }
    assert(want.take(list.len() as int) =~= want);
    names
}

/// The names joined with `sep` between neighbours.
pub fn join_names(names: &Vec<&str>, sep: &str) -> (s: String)
    ensures
        s@ == join(names@.map_values(|n: &str| n@), sep@),
{
    let ghost all = names@.map_values(|n: &str| n@);
    let mut s = String::new();
    for i in 0..names.len()
        invariant
            all == names@.map_values(|n: &str| n@),
            s@ == join(all.take(i as int), sep@),
    {
        assert(all.take(i + 1).drop_last() =~= all.take(i as int));
        assert(all.take(i + 1).last() == names@[i as int]@);
        if i > 0 {
            s.append(sep);
        } else {
            assert(all.take(1).len() == 1);
        }
        s.append(names[i]);
    }
    assert(all.take(names.len() as int) =~= all);
    s
}

/// Whether the script takes its port from the environment.
pub fn script_reads_env_port(script: &str) -> (b: bool)
    ensures
        b == reads_env_port(script@),
{
    let hay = chars_of(script);
    let a = chars_of("process.env.PORT");
    let b = chars_of("Bun.env.PORT");
    let c = chars_of("env.PORT");
    contains(&hay, &a) || contains(&hay, &b) || contains(&hay, &c)
}

/// Judges a folder from the facts gathered about it, with `script_path` the
/// configured entry script (empty for `index.js`).
pub fn verify_project(facts: &ProjectFacts, script_path: &str) -> (r: Result<(), ProjectError>)
    ensures
        match r {
            Ok(()) => project_verdict(*facts, script_path@) == Ok::<(), Rejection>(()),
            Err(e) => project_verdict(*facts, script_path@) == Err::<(), Rejection>(e@),
        },
{
    if !facts.path_exists {
        return Err(ProjectError::PathNotFound);
    }
    let bun_lock = facts.bun_lockb || facts.bun_lock;
    let node_lock = facts.package_lock || facts.yarn_lock || facts.pnpm_lock;
    if node_lock && !bun_lock {
        return Err(ProjectError::NodeProjectDetected);
    }
    if !bun_lock && !facts.package_json_exists {
        return Err(ProjectError::FolderNotProject);
    }
    if facts.package_json_exists {
        match &facts.package_json {
            Some(content) => {
                let found = detect_frameworks(content.as_str());
                if found.len() > 0 {
                    let names = join_names(&found, ",");
                    match &facts.script_content {
                        Some(script) => {
                            if !script_reads_env_port(script.as_str()) {
                                return Err(ProjectError::NodeFrameworkDetected(names));
                            }
                        },
                        None => {
                            return Err(ProjectError::NodeFrameworkDetected(names));
                        },
                    }
                }
            },
            None => {},
        }
    }
    if !facts.script_exists {
        return Err(ProjectError::ScriptMissing(entry_script(script_path)));
    }
    Ok(())
}

/// A `package.json` alone makes a folder a project: a folder that exists, has
/// a `package.json` and no Node.js lock file, whose entry script exists and
/// reads its port from `env.PORT`, is accepted whatever Bun lock files it has.
pub proof fn lemma_package_json_is_enough(f: ProjectFacts, script_path: Seq<char>)
    requires
        f.path_exists,
        f.package_json_exists,
        !f.package_lock && !f.yarn_lock && !f.pnpm_lock,
        f.script_exists,
        f.script_content matches Some(sc) && contains_seq(sc@, "env.PORT"@),
    ensures
        project_verdict(f, script_path) == Ok::<(), Rejection>(()),
{
}

/// A folder is refused as no project only when it has neither a Bun lock
/// file nor a `package.json`; and a folder that exists, has no Node.js lock
/// file and has neither is refused so.
pub proof fn lemma_not_project_exactly_without_markers(f: ProjectFacts, script_path: Seq<char>)
    ensures
        project_verdict(f, script_path) == Err::<(), Rejection>(Rejection::FolderNotProject)
            ==> !f.bun_lockb && !f.bun_lock && !f.package_json_exists,
        (f.path_exists && !f.package_lock && !f.yarn_lock && !f.pnpm_lock
            && !f.bun_lockb && !f.bun_lock && !f.package_json_exists)
            ==> project_verdict(f, script_path) == Err::<(), Rejection>(Rejection::FolderNotProject),
{
}

/// Every framework named in a list is found when its quoted package name
/// occurs in the text.
proof fn lemma_detected_complete(content: Seq<char>, list: Seq<(Seq<char>, Seq<char>)>, k: int)
    requires
        0 <= k < list.len(),
        contains_seq(content, quoted(list[k].0)),
    ensures
        detected_in(content, list).contains(list[k].1),
    decreases list.len(),
{
    let rest = detected_in(content, list.drop_last());
    if k == list.len() - 1 {
        assert(detected_in(content, list) == rest.push(list.last().1));
        assert(detected_in(content, list)[rest.len() as int] == list[k].1);
    } else {
        assert(list.drop_last()[k] == list[k]);
        lemma_detected_complete(content, list.drop_last(), k);
        let i = choose|i: int| 0 <= i < rest.len() && rest[i] == list[k].1;
        if contains_seq(content, quoted(list.last().0)) {
            assert(detected_in(content, list)[i] == list[k].1);
        }
    }
}

/// Only listed frameworks whose quoted package name occurs are found.
proof fn lemma_detected_sound(content: Seq<char>, list: Seq<(Seq<char>, Seq<char>)>, name: Seq<char>)
    requires
        detected_in(content, list).contains(name),
    ensures
        exists|k: int| 0 <= k < list.len() && list[k].1 == name && contains_seq(content, quoted(#[trigger] list[k].0)),
    decreases list.len(),
{
    let rest = detected_in(content, list.drop_last());
    let k = list.len() - 1;
    if contains_seq(content, quoted(list.last().0)) && name == list.last().1 {
        assert(list[k].1 == name && contains_seq(content, quoted(list[k].0)));
    } else {
        if contains_seq(content, quoted(list.last().0)) {
            let i = choose|i: int| 0 <= i < detected_in(content, list).len() && detected_in(content, list)[i] == name;
            assert(i < rest.len());
            assert(rest[i] == name);
        }
        assert(rest.contains(name));
        lemma_detected_sound(content, list.drop_last(), name);
        let j = choose|j: int| 0 <= j < list.drop_last().len() && list.drop_last()[j].1 == name
            && contains_seq(content, quoted(#[trigger] list.drop_last()[j].0));
        assert(list[j] == list.drop_last()[j]);
    }
}

/// The Node.js server frameworks that are looked for: each of these package
/// names, quoted in `package.json`, makes the detection report the display
/// name beside it; and the detection reports nothing but display names of
/// listed package names that occur quoted.
pub proof fn lemma_frameworks_detected(content: Seq<char>, found: Seq<Seq<char>>)
    requires
        found == detected_in(content, node_frameworks()),
    ensures
        contains_seq(content, seq!['"'] + "express"@ + seq!['"']) ==> found.contains("Express.js"@),
        contains_seq(content, seq!['"'] + "fastify"@ + seq!['"']) ==> found.contains("Fastify"@),
        contains_seq(content, seq!['"'] + "koa"@ + seq!['"']) ==> found.contains("Koa"@),
        contains_seq(content, seq!['"'] + "@nestjs/core"@ + seq!['"']) ==> found.contains("NestJS"@),
        contains_seq(content, seq!['"'] + "restify"@ + seq!['"']) ==> found.contains("Restify"@),
        contains_seq(content, seq!['"'] + "hapi"@ + seq!['"']) ==> found.contains("Hapi.js"@),
        contains_seq(content, seq!['"'] + "@hapi/hapi"@ + seq!['"']) ==> found.contains("Hapi.js"@),
        contains_seq(content, seq!['"'] + "feathers"@ + seq!['"']) ==> found.contains("Feathers.js"@),
        contains_seq(content, seq!['"'] + "@feathersjs/feathers"@ + seq!['"']) ==> found.contains("Feathers.js"@),
        contains_seq(content, seq!['"'] + "sails"@ + seq!['"']) ==> found.contains("Sails.js"@),
        contains_seq(content, seq!['"'] + "loopback"@ + seq!['"']) ==> found.contains("LoopBack"@),
        contains_seq(content, seq!['"'] + "@loopback/core"@ + seq!['"']) ==> found.contains("LoopBack"@),
        contains_seq(content, seq!['"'] + "polka"@ + seq!['"']) ==> found.contains("Polka"@),
        contains_seq(content, seq!['"'] + "@adonisjs/core"@ + seq!['"']) ==> found.contains("AdonisJS"@),
        contains_seq(content, seq!['"'] + "total.js"@ + seq!['"']) ==> found.contains("Total.js"@),
        contains_seq(content, seq!['"'] + "derby"@ + seq!['"']) ==> found.contains("Derby.js"@),
        contains_seq(content, seq!['"'] + "meteor-node-stubs"@ + seq!['"']) ==> found.contains("Meteor.js"@),
        contains_seq(content, seq!['"'] + "socket.io"@ + seq!['"']) ==> found.contains("Socket.io"@),
        contains_seq(content, seq!['"'] + "actionhero"@ + seq!['"']) ==> found.contains("ActionHero"@),
        contains_seq(content, seq!['"'] + "@tsed/core"@ + seq!['"']) ==> found.contains("Ts.ED"@),
        forall|name: Seq<char>| found.contains(name) ==>
            exists|k: int| 0 <= k < node_frameworks().len() && node_frameworks()[k].1 == name
                && contains_seq(content, seq!['"'] + #[trigger] node_frameworks()[k].0 + seq!['"']),
{
    if contains_seq(content, seq!['"'] + "express"@ + seq!['"']) {
        lemma_detected_complete(content, node_frameworks(), 0);
    }
    if contains_seq(content, seq!['"'] + "fastify"@ + seq!['"']) {
        lemma_detected_complete(content, node_frameworks(), 1);
    }
    if contains_seq(content, seq!['"'] + "koa"@ + seq!['"']) {
        lemma_detected_complete(content, node_frameworks(), 2);
    }
    if contains_seq(content, seq!['"'] + "@nestjs/core"@ + seq!['"']) {
        lemma_detected_complete(content, node_frameworks(), 3);
    }
    if contains_seq(content, seq!['"'] + "restify"@ + seq!['"']) {
        lemma_detected_complete(content, node_frameworks(), 4);
    }
    if contains_seq(content, seq!['"'] + "hapi"@ + seq!['"']) {
        lemma_detected_complete(content, node_frameworks(), 5);
    }
    if contains_seq(content, seq!['"'] + "@hapi/hapi"@ + seq!['"']) {
        lemma_detected_complete(content, node_frameworks(), 6);
    }
    if contains_seq(content, seq!['"'] + "feathers"@ + seq!['"']) {
        lemma_detected_complete(content, node_frameworks(), 7);
    }
    if contains_seq(content, seq!['"'] + "@feathersjs/feathers"@ + seq!['"']) {
        lemma_detected_complete(content, node_frameworks(), 8);
    }
    if contains_seq(content, seq!['"'] + "sails"@ + seq!['"']) {
        lemma_detected_complete(content, node_frameworks(), 9);
    }
    if contains_seq(content, seq!['"'] + "loopback"@ + seq!['"']) {
        lemma_detected_complete(content, node_frameworks(), 10);
    }
    if contains_seq(content, seq!['"'] + "@loopback/core"@ + seq!['"']) {
        lemma_detected_complete(content, node_frameworks(), 11);
    }
    if contains_seq(content, seq!['"'] + "polka"@ + seq!['"']) {
        lemma_detected_complete(content, node_frameworks(), 12);
    }
    if contains_seq(content, seq!['"'] + "@adonisjs/core"@ + seq!['"']) {
        lemma_detected_complete(content, node_frameworks(), 13);
    }
    if contains_seq(content, seq!['"'] + "total.js"@ + seq!['"']) {
        lemma_detected_complete(content, node_frameworks(), 14);
    }
    if contains_seq(content, seq!['"'] + "derby"@ + seq!['"']) {
        lemma_detected_complete(content, node_frameworks(), 15);
    }
    if contains_seq(content, seq!['"'] + "meteor-node-stubs"@ + seq!['"']) {
        lemma_detected_complete(content, node_frameworks(), 16);
    }
    if contains_seq(content, seq!['"'] + "socket.io"@ + seq!['"']) {
        lemma_detected_complete(content, node_frameworks(), 17);
    }
    if contains_seq(content, seq!['"'] + "actionhero"@ + seq!['"']) {
        lemma_detected_complete(content, node_frameworks(), 18);
    }
    if contains_seq(content, seq!['"'] + "@tsed/core"@ + seq!['"']) {
        lemma_detected_complete(content, node_frameworks(), 19);
    }
    assert forall|name: Seq<char>| found.contains(name) implies
        exists|k: int| 0 <= k < node_frameworks().len() && node_frameworks()[k].1 == name
            && contains_seq(content, seq!['"'] + #[trigger] node_frameworks()[k].0 + seq!['"']) by {
        lemma_detected_sound(content, node_frameworks(), name);
    }
}

} // verus!
