use command_registry::packagemanagers::{catalog, get};

#[test]
fn apt_lookup_gives_its_verbs() {
    let pm = get("apt").unwrap();
    assert_eq!(pm.name, "apt");
    assert_eq!(pm.install_command, "install");
    assert_eq!(pm.uninstall_command, "remove");
    assert_eq!(pm.update_command, "update");
}

#[test]
fn pacman_lookup_gives_its_flags() {
    let pm = get("pacman").unwrap();
    assert_eq!(pm.install_command, "-Sy");
    assert_eq!(pm.uninstall_command, "-Rs");
    assert_eq!(pm.update_command, "-Syu");
}

#[test]
fn unknown_manager_is_absent_not_an_error() {
    assert!(get("nonexistent-pm").is_none());
}

#[test]
fn lookup_is_case_sensitive() {
    assert!(get("Apt").is_none());
    assert!(get("APT").is_none());
}

#[test]
fn every_catalog_entry_is_found_by_its_own_name() {
    for pm in catalog() {
        let found = get(&pm.name).unwrap();
        assert_eq!(found.name, pm.name);
        assert_eq!(found.install_command, pm.install_command);
        assert_eq!(found.uninstall_command, pm.uninstall_command);
        assert_eq!(found.update_command, pm.update_command);
    }
}

#[test]
fn catalog_has_five_entries_with_pairwise_distinct_names() {
    let all = catalog();
    assert_eq!(all.len(), 5);
    for i in 0..all.len() {
        for j in 0..all.len() {
            if i != j {
                assert_ne!(all[i].name, all[j].name);
            }
        }
    }
}
