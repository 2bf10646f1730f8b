use casparian_tui::discover::FsEntry;
use casparian_tui::folder_listing::folder_listing;

#[test]
fn listing_orders_by_count_and_keeps_ties_in_order() {
    let cache = vec![
        FsEntry::folder("logs".to_string(), 3),
        FsEntry::folder("Data".to_string(), 10),
        FsEntry::folder("archive".to_string(), 3),
        FsEntry::file("readme.txt".to_string(), 1),
    ];
    let (order, total) = folder_listing(&cache, "");
    assert_eq!(order, vec![1, 0, 2, 3]);
    assert_eq!(total, 17);
}

#[test]
fn listing_matches_names_case_insensitively() {
    let cache = vec![
        FsEntry::folder("logs".to_string(), 3),
        FsEntry::folder("Data".to_string(), 10),
        FsEntry::folder("database".to_string(), 12),
    ];
    let (order, total) = folder_listing(&cache, "DATA");
    assert_eq!(order, vec![2, 1]);
    assert_eq!(total, 22);
    let (none, zero) = folder_listing(&cache, "zzz");
    assert!(none.is_empty());
    assert_eq!(zero, 0);
}
