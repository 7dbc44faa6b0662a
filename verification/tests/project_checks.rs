use kenbun::project::{
    clean_project_path, detect_frameworks, entry_script, join_names, script_reads_env_port,
    verify_project, ProjectError, ProjectFacts,
};

fn bun_project() -> ProjectFacts {
    ProjectFacts {
        path_exists: true,
        bun_lockb: true,
        bun_lock: false,
        package_json_exists: true,
        package_lock: false,
        yarn_lock: false,
        pnpm_lock: false,
        package_json: Some("{\"name\": \"demo\", \"dependencies\": {\"hono\": \"4\"}}".to_string()),
        script_exists: true,
        script_content: Some("Bun.serve({ port: process.env.PORT || 3000 })".to_string()),
    }
}

fn code(r: Result<(), ProjectError>) -> String {
    match r {
        Ok(()) => "OK".to_string(),
        Err(e) => e.code(),
    }
}

#[test]
fn accepts_a_bun_project() {
    assert!(verify_project(&bun_project(), "").is_ok());
    assert!(verify_project(&bun_project(), "server.ts").is_ok());
}

#[test]
fn refuses_a_missing_folder() {
    let mut f = bun_project();
    f.path_exists = false;
    assert_eq!(code(verify_project(&f, "")), "PATH_NOT_FOUND");
}

#[test]
fn refuses_a_node_project() {
    for which in 0..3 {
        let mut f = bun_project();
        f.bun_lockb = false;
        match which {
            0 => f.package_lock = true,
            1 => f.yarn_lock = true,
            _ => f.pnpm_lock = true,
        }
        assert_eq!(code(verify_project(&f, "")), "NODE_PROJECT_DETECTED");
    }
    let mut both = bun_project();
    both.yarn_lock = true;
    assert!(verify_project(&both, "").is_ok());
}

#[test]
fn refuses_a_folder_that_is_no_project() {
    let mut f = bun_project();
    f.bun_lockb = false;
    f.package_json_exists = false;
    f.package_json = None;
    assert_eq!(code(verify_project(&f, "")), "FOLDER_NOT_PROJECT");
    f.bun_lock = true;
    assert!(verify_project(&f, "").is_ok());
}

#[test]
fn refuses_node_frameworks_without_env_port() {
    let mut f = bun_project();
    f.package_json = Some("{\"dependencies\": {\"express\": \"^4\", \"socket.io\": \"4\"}, \"devDependencies\": {\"@hapi/hapi\": \"21\"}}".to_string());
    f.script_content = Some("app.listen(3000)".to_string());
    assert_eq!(code(verify_project(&f, "")), "NODE_FRAMEWORK_DETECTED:Express.js,Hapi.js,Socket.io");
    f.script_content = None;
    assert_eq!(code(verify_project(&f, "")), "NODE_FRAMEWORK_DETECTED:Express.js,Hapi.js,Socket.io");
    f.script_content = Some("app.listen(Bun.env.PORT)".to_string());
    assert!(verify_project(&f, "").is_ok());
    f.script_content = Some("const { env } = process; app.listen(env.PORT)".to_string());
    assert!(verify_project(&f, "").is_ok());
}

#[test]
fn framework_check_needs_a_package_json() {
    let mut f = bun_project();
    f.package_json = None;
    f.script_content = None;
    assert!(verify_project(&f, "").is_ok());
    f.package_json = Some("{\"express\": \"4\"}".to_string());
    f.package_json_exists = false;
    assert!(verify_project(&f, "").is_ok());
}

#[test]
fn refuses_a_missing_script() {
    let mut f = bun_project();
    f.script_exists = false;
    assert_eq!(code(verify_project(&f, "")), "SCRIPT_MISSING:index.js");
    assert_eq!(code(verify_project(&f, "src/main.ts")), "SCRIPT_MISSING:src/main.ts");
}

#[test]
fn framework_detection_needs_the_quoted_name() {
    assert_eq!(detect_frameworks("{\"expressive\": \"1\", \"koa-router\": \"1\"}"), Vec::<&str>::new());
    assert_eq!(detect_frameworks("{\"koa\": \"2\", \"fastify\": \"4\"}"), vec!["Fastify", "Koa"]);
    assert_eq!(detect_frameworks("\"hapi\" \"@hapi/hapi\""), vec!["Hapi.js", "Hapi.js"]);
    assert_eq!(detect_frameworks("\"@tsed/core\" \"total.js\""), vec!["Total.js", "Ts.ED"]);
}

#[test]
fn names_are_joined_with_the_separator() {
    assert_eq!(join_names(&vec![], ","), "");
    assert_eq!(join_names(&vec!["A"], ","), "A");
    assert_eq!(join_names(&vec!["A", "B", "C"], ","), "A,B,C");
}

#[test]
fn env_port_is_recognised() {
    assert!(script_reads_env_port("const p = process.env.PORT;"));
    assert!(script_reads_env_port("Bun.env.PORT"));
    assert!(script_reads_env_port("import.meta.env.PORT"));
    assert!(!script_reads_env_port("process.env.port"));
}

#[test]
fn entry_script_defaults_to_index_js() {
    assert_eq!(entry_script(""), "index.js");
    assert_eq!(entry_script("app.ts"), "app.ts");
}

#[test]
fn unc_prefix_is_removed_from_paths() {
    assert_eq!(clean_project_path("\\\\?\\C:\\Users\\me\\site"), "C:\\Users\\me\\site");
    assert_eq!(clean_project_path("C:\\Users\\me\\site"), "C:\\Users\\me\\site");
    assert_eq!(clean_project_path("/home/me/site"), "/home/me/site");
    assert_eq!(clean_project_path(""), "");
}

#[test]
fn error_codes_of_every_refusal() {
    assert_eq!(ProjectError::PathNotFound.code(), "PATH_NOT_FOUND");
    assert_eq!(ProjectError::NodeProjectDetected.code(), "NODE_PROJECT_DETECTED");
    assert_eq!(ProjectError::FolderNotProject.code(), "FOLDER_NOT_PROJECT");
    assert_eq!(ProjectError::NodeFrameworkDetected("Koa".to_string()).code(), "NODE_FRAMEWORK_DETECTED:Koa");
    assert_eq!(ProjectError::ScriptMissing("a.js".to_string()).code(), "SCRIPT_MISSING:a.js");
}
