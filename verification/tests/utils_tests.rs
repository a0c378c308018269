use nqrust_installer::utils::{find_file, project_root, DirProbe};

fn probe(path: &str, entries: &[&str]) -> DirProbe {
    DirProbe { path: path.to_string(), entries: entries.iter().map(|e| e.to_string()).collect() }
}

fn project_listing() -> DirProbe {
    probe("/project", &["Cargo.toml", "docker-compose.yaml", "src", "tests"])
}

#[test]
fn test_find_file_exists() {
    // Cargo.toml is known to exist in the project root
    let root = project_listing();
    assert!(
        find_file("Cargo.toml", &root),
        "Should find Cargo.toml in project root"
    );
}

#[test]
fn test_find_file_not_exists() {
    // This file should not exist
    let root = project_listing();
    assert!(
        !find_file("non_existent_file_xyz", &root),
        "Should not find non-existent file"
    );
}

#[test]
fn project_root_is_first_marked_directory_looked_into() {
    let lineage = vec![
        probe("/a/b/c", &["src"]),
        probe("/a/b", &["Cargo.toml"]),
        probe("/a", &[]),
        probe("/", &[]),
    ];
    assert_eq!(project_root(&lineage), 1);
}

#[test]
fn project_root_passes_over_every_other_level() {
    let lineage = vec![
        probe("/a/b/c", &["Cargo.toml"]),
        probe("/a/b", &[]),
        probe("/a", &["compose.yaml"]),
        probe("/", &[]),
    ];
    // The search looks into /a/b and then into /: neither is marked.
    assert_eq!(project_root(&lineage), 0);
}

#[test]
fn project_root_looks_into_the_top_directory_last() {
    let lineage = vec![
        probe("/a/b", &[]),
        probe("/a", &[]),
        probe("/", &["docker-compose.yml"]),
    ];
    assert_eq!(project_root(&lineage), 2);
}

#[test]
fn project_root_falls_back_two_levels_up_from_a_target_directory() {
    let lineage = vec![
        probe("/p/target/debug", &[]),
        probe("/p/target", &[]),
        probe("/p", &[]),
        probe("/", &[]),
    ];
    assert_eq!(project_root(&lineage), 2);
}

#[test]
fn project_root_of_the_top_directory_is_itself() {
    let lineage = vec![probe("/", &[])];
    assert_eq!(project_root(&lineage), 0);
}
