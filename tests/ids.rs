use std::cmp::Ordering;

use workos::ids::{ConnectionId, DirectoryId, OrganizationId};

#[test]
fn ids_from_equal_text_are_equal() {
    let a = DirectoryId::from("directory_01ECAZ4NV9QMV47GW873HDCX74");
    let b = DirectoryId::from("directory_01ECAZ4NV9QMV47GW873HDCX74".to_string());
    assert_eq!(a, b);
    assert_eq!(a.partial_cmp(&b), Some(Ordering::Equal));
    assert_eq!(a.as_str(), "directory_01ECAZ4NV9QMV47GW873HDCX74");
    assert_eq!(a.to_string(), "directory_01ECAZ4NV9QMV47GW873HDCX74");
}

#[test]
fn ids_from_different_text_differ_and_sort_as_text() {
    let a = OrganizationId::new("org_a");
    let b = OrganizationId::new("org_b");
    let ab = OrganizationId::new("org_ab");
    assert_ne!(a, b);
    assert!(a < b);
    assert!(a < ab);
    assert!(ab < b);
    assert_eq!(b.partial_cmp(&a), Some(Ordering::Greater));
    let mut ids = vec![
        ConnectionId::new("conn_b"),
        ConnectionId::new("conn_a"),
        ConnectionId::new("conn_ab"),
        ConnectionId::new("Conn_z"),
    ];
    ids.sort();
    let texts: Vec<String> = ids.iter().map(|i| i.to_string()).collect();
    assert_eq!(texts, vec!["Conn_z", "conn_a", "conn_ab", "conn_b"]);
    assert!(DirectoryId::new("é") > DirectoryId::new("z"));
    assert!(DirectoryId::new("") < DirectoryId::new("a"));
}

#[test]
fn ids_built_with_from_compare_as_their_text() {
    let first = DirectoryId::from("directory_01ECAZ4NV9QMV47GW873HDCX74");
    let second = DirectoryId::from("directory_01ECAZ4NV9QMV47GW873HDCX74".to_string());
    let third = DirectoryId::from("directory_01ECAZ4NV9QMV47GW873HDCX75");
    assert!(first == second);
    assert!(first != third);
    assert!(first < third);
    assert!(DirectoryId::from("Z") < DirectoryId::from("a"));
    assert!(DirectoryId::from("ab") < DirectoryId::from("abc"));
    assert_eq!(DirectoryId::from("").as_str(), "");
}
