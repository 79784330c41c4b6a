use dfx_top::project::{CanisterInfo, DfxProjectData, ProjectDatabase};

fn canister(kind: &str) -> CanisterInfo {
    CanisterInfo {
        dependencies: None,
        frontend: None,
        source: None,
        canister_type: kind.to_string(),
        main: None,
    }
}

fn ids(name: &str, local: &str) -> (String, Vec<(String, String)>) {
    (name.to_string(), vec![("local".to_string(), local.to_string())])
}

fn fff_project() -> DfxProjectData {
    let frontend = CanisterInfo {
        dependencies: Some(vec!["fff_backend".to_string()]),
        frontend: Some(vec![(
            "entrypoint".to_string(),
            "src/fff_frontend/src/index.html".to_string(),
        )]),
        source: Some(vec![
            "src/fff_frontend/assets".to_string(),
            "dist/fff_frontend/".to_string(),
        ]),
        canister_type: "assets".to_string(),
        main: None,
    };
    let backend = CanisterInfo {
        main: Some("src/fff_backend/main.mo".to_string()),
        ..canister("motoko")
    };
    DfxProjectData {
        canisters: vec![
            ("fff_frontend".to_string(), frontend),
            ("fff_backend".to_string(), backend),
        ],
        canister_ids: vec![
            ids("__Candid_UI", "be2us-64aaa-aaaaa-qaabq-cai"),
            ids("fff_backend", "bkyz2-fmaaa-aaaaa-qaaaq-cai"),
            ids("fff_frontend", "bd3sg-teaaa-aaaaa-qaaba-cai"),
        ],
    }
}

#[test]
fn test_getting_info() {
    let mut db = ProjectDatabase::new(
        "/Users/mnl/.cache/dfinity/versions/0.16.0/extensions/top/dfx_projects_database.json"
            .to_string(),
    );
    db.add_project("/Users/mnl/org/pkms/fff".to_string(), fff_project());
    let info = db.get_info("bkyz2-fmaaa-aaaaa-qaaaq-cai", "local").unwrap();
    assert_eq!(info.0, "/Users/mnl/org/pkms/fff");
    assert_eq!(info.1, "fff_backend");
    assert_eq!(info.2.canister_type, "motoko");
}

#[test]
fn unknown_canister_or_network_gives_nothing() {
    let mut db = ProjectDatabase::new("db.json".to_string());
    db.add_project("/p".to_string(), fff_project());
    assert!(db.get_info("aaaaa-aa", "local").is_none());
    assert!(db.get_info("bkyz2-fmaaa-aaaaa-qaaaq-cai", "ic").is_none());
}

#[test]
fn undeclared_canister_is_skipped() {
    let mut db = ProjectDatabase::new("db.json".to_string());
    // the candid UI has an id but is not declared by the project
    db.add_project("/p".to_string(), fff_project());
    assert!(db.get_info("be2us-64aaa-aaaaa-qaabq-cai", "local").is_none());
    let info = db.get_info("bd3sg-teaaa-aaaaa-qaaba-cai", "local").unwrap();
    assert_eq!(info.1, "fff_frontend");
    assert_eq!(info.2.dependencies, Some(vec!["fff_backend".to_string()]));
    assert_eq!(info.2.canister_type, "assets");
}

#[test]
fn adding_a_project_twice_replaces_it() {
    let mut db = ProjectDatabase::new("db.json".to_string());
    db.add_project("/p".to_string(), fff_project());
    db.add_project("/q".to_string(), fff_project());
    let replacement = DfxProjectData {
        canisters: vec![("other".to_string(), canister("rust"))],
        canister_ids: vec![ids("other", "x")],
    };
    db.add_project("/p".to_string(), replacement);
    assert_eq!(db.projects.len(), 2);
    assert_eq!(db.projects[0].0, "/p");
    assert_eq!(db.projects[1].0, "/q");
    let info = db.get_info("x", "local").unwrap();
    assert_eq!(info.0, "/p");
    assert_eq!(info.2.canister_type, "rust");
    // the second project still answers for the backend
    assert_eq!(db.get_info("bkyz2-fmaaa-aaaaa-qaaaq-cai", "local").unwrap().0, "/q");
}

#[test]
fn new_database_is_empty() {
    let db = ProjectDatabase::new("db.json".to_string());
    assert!(db.projects.is_empty());
    assert_eq!(db.db_path, "db.json");
}
