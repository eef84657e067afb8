use etch::db::backup::{
    backup_file_name, backups_to_remove, export_file_name, is_backup_file, order_by_time,
    KEPT_BACKUPS,
};
use etch::db::migration::{calculate_popularity, detect_region, migration_records, CatalogEntry};
use etch::db::{needs_migration, DbConnection, Distro, Mirror};

fn entry(id: &str, mirrors: &[&str]) -> CatalogEntry {
    CatalogEntry {
        id: id.to_string(),
        name: "Ubuntu 24.04 LTS Desktop".to_string(),
        version: "24.04".to_string(),
        category: "ubuntu".to_string(),
        download_url: "https://releases.ubuntu.com/24.04/ubuntu.iso".to_string(),
        mirrors: mirrors.iter().map(|m| m.to_string()).collect(),
        sha256: String::new(),
        size_bytes: 6100000000,
        size_human: "5.7 GB".to_string(),
        description: "Long-term support release".to_string(),
        verified: true,
    }
}

#[test]
fn popular_distributions_score_higher() {
    assert_eq!(calculate_popularity("ubuntu-24.04-lts"), 99);
    assert_eq!(calculate_popularity("fedora-41"), 95);
    assert_eq!(calculate_popularity("debian-12"), 94);
    assert_eq!(calculate_popularity("arch-2025"), 98);
    assert_eq!(calculate_popularity("mint-22"), 92);
    assert_eq!(calculate_popularity("pop-os-22.04"), 90);
    assert_eq!(calculate_popularity("manjaro-kde"), 88);
    assert_eq!(calculate_popularity("kali-2024"), 85);
    assert_eq!(calculate_popularity("nixos-24"), 82);
    assert_eq!(calculate_popularity("tails-6"), 80);
    assert_eq!(calculate_popularity("qubes-4"), 78);
    assert_eq!(calculate_popularity("popos-22.04"), 50);
    assert_eq!(calculate_popularity("xubuntu"), 50);
    assert_eq!(calculate_popularity("Ubuntu"), 50);
    assert_eq!(calculate_popularity(""), 50);
}

#[test]
fn regions_are_told_from_addresses() {
    assert_eq!(detect_region("https://us.archive.ubuntu.com/x.iso"), "US");
    assert_eq!(detect_region("https://mirror.usa.example/x.iso"), "US");
    assert_eq!(detect_region("https://eu.mirror.example/x.iso"), "EU");
    assert_eq!(detect_region("https://europe.example/x.iso"), "EU");
    assert_eq!(detect_region("https://jp.example/x.iso"), "Asia");
    assert_eq!(detect_region("https://asia.example/x.iso"), "Asia");
    assert_eq!(detect_region("https://mirror.example/x.iso"), "Global");
    // The tests come in order: `us.` is found in `mirrors.eu...` first.
    assert_eq!(detect_region("https://mirrorus.eu.example"), "US");
    assert_eq!(detect_region(""), "Global");
}

#[test]
fn an_empty_or_unreadable_database_is_filled() {
    assert!(needs_migration(Some(0)));
    assert!(needs_migration(None));
    assert!(!needs_migration(Some(1)));
    assert!(!needs_migration(Some(usize::MAX)));
}

#[test]
fn a_catalog_entry_makes_its_records() {
    let (distro, mirrors) = migration_records(
        &entry("ubuntu-24.04-lts", &["https://eu.mirror.example/u.iso", "https://mirror.example/u.iso"]),
        "2025-03-09",
    );
    assert_eq!(
        distro,
        Distro {
            id: "ubuntu-24.04-lts".to_string(),
            name: "Ubuntu 24.04 LTS Desktop".to_string(),
            version: "24.04".to_string(),
            category: "ubuntu".to_string(),
            description: "Long-term support release".to_string(),
            size_bytes: 6100000000,
            size_human: "5.7 GB".to_string(),
            verified: true,
            date_added: "2025-03-09".to_string(),
            popularity: 99,
        }
    );
    let m = |url: &str, region: &str, priority: i32| Mirror {
        id: 0,
        distro_id: "ubuntu-24.04-lts".to_string(),
        url: url.to_string(),
        region: region.to_string(),
        priority,
        status: "ok".to_string(),
    };
    assert_eq!(
        mirrors,
        vec![
            m("https://releases.ubuntu.com/24.04/ubuntu.iso", "Global", 1),
            m("https://eu.mirror.example/u.iso", "EU", 2),
            m("https://mirror.example/u.iso", "Global", 3),
        ]
    );
    let (_, only) = migration_records(&entry("x", &[]), "2025-03-09");
    assert_eq!(only.len(), 1);
}

#[test]
fn the_search_text_is_in_lower_case() {
    let (distro, _) = migration_records(&entry("ubuntu", &[]), "2025-03-09");
    assert_eq!(
        distro.search_text(),
        "ubuntu 24.04 lts desktop 24.04 ubuntu long-term support release"
    );
}

#[test]
fn queries_are_worded() {
    assert_eq!(
        DbConnection::distros_query(None),
        "SELECT id, name, version, category, description, size_bytes, size_human, verified, date_added, popularity FROM distros ORDER BY popularity DESC, name"
    );
    assert_eq!(
        DbConnection::distros_query(Some("ubuntu")),
        "SELECT id, name, version, category, description, size_bytes, size_human, verified, date_added, popularity FROM distros WHERE category = 'ubuntu' ORDER BY popularity DESC, name"
    );
    assert_eq!(DbConnection::search_pattern("Mint XFCE"), "%mint xfce%");
    assert_eq!(DbConnection::search_pattern(""), "%%");
}

#[test]
fn backups_are_named_after_their_moment() {
    assert_eq!(backup_file_name("20250309_101500"), "cache_backup_20250309_101500.db");
    assert_eq!(export_file_name("20250309_101500"), "catalog_export_20250309_101500.json");
    assert!(is_backup_file("/d/backups/cache_backup_20250309_101500.db", true));
    assert!(!is_backup_file("/d/backups/cache_backup_20250309_101500.db", false));
    assert!(!is_backup_file("/d/backups/catalog_export_20250309_101500.json", true));
}

#[test]
fn backups_are_listed_newest_first() {
    assert_eq!(order_by_time(&[30, 10, 20, 10, 40], true), vec![4, 0, 2, 1, 3]);
    assert_eq!(order_by_time(&[30, 10, 20, 10, 40], false), vec![1, 3, 2, 0, 4]);
    assert_eq!(order_by_time(&[], true), Vec::new());
    assert_eq!(order_by_time(&[7, 7, 7], true), vec![0, 1, 2]);
}

#[test]
fn the_oldest_backups_go_first() {
    assert_eq!(KEPT_BACKUPS, 10);
    assert_eq!(backups_to_remove(&[30, 10, 20, 10, 40], 2), vec![1, 3, 2]);
    assert_eq!(backups_to_remove(&[30, 10, 20, 10, 40], 5), Vec::new());
    assert_eq!(backups_to_remove(&[30, 10, 20, 10, 40], 9), Vec::new());
    assert_eq!(backups_to_remove(&[30, 10, 20, 10, 40], 0), vec![1, 3, 2, 0, 4]);
    let eleven: Vec<u64> = (0..11).rev().collect();
    assert_eq!(backups_to_remove(&eleven, KEPT_BACKUPS), vec![10]);
}
