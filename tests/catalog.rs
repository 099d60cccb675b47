use vcsql::{get_table_info, get_tables_by_category, tables};

#[test]
fn catalog_has_seventeen_tables() {
    let all = tables();
    assert_eq!(all.len(), 17);
    let names: Vec<&str> = all.iter().map(|t| t.name).collect();
    assert_eq!(names[0], "commits");
    assert_eq!(names[16], "notes");
}

#[test]
fn lookup_by_name() {
    let t = get_table_info("commits").expect("commits is in the catalog");
    assert_eq!(t.name, "commits");
    assert_eq!(t.category, "CORE");
    assert_eq!(t.columns.len(), 15);
    assert_eq!(t.columns[13].name, "is_merge");
    assert_eq!(t.columns[13].sql_type, "BOOLEAN");
    assert_eq!(t.columns[14].name, "repo");
    assert!(t.create_sql.starts_with("CREATE TABLE IF NOT EXISTS commits"));
}

#[test]
fn lookup_missing() {
    assert!(get_table_info("nope").is_none());
    assert!(get_table_info("Commits").is_none());
    assert!(get_table_info("").is_none());
}

#[test]
fn grouped_by_category() {
    let groups = get_tables_by_category();
    let cats: Vec<&str> = groups.iter().map(|g| g.0).collect();
    assert_eq!(
        cats,
        vec!["CORE", "REFERENCES", "CHANGES", "CONFIGURATION", "WORKING DIRECTORY", "OPERATIONAL"]
    );
    let core: Vec<&str> = groups[0].1.iter().map(|t| t.name).collect();
    assert_eq!(core, vec!["commits", "commit_parents"]);
    let refs: Vec<&str> = groups[1].1.iter().map(|t| t.name).collect();
    assert_eq!(refs, vec!["branches", "tags", "refs", "stashes", "reflog"]);
    let total: usize = groups.iter().map(|g| g.1.len()).sum();
    assert_eq!(total, 17);
}

#[test]
fn every_table_ends_with_repo_column() {
    for t in tables() {
        assert_eq!(t.columns.last().unwrap().name, "repo", "table {}", t.name);
    }
}
