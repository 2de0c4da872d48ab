use orbok::storage_measurement::{
    add, from_namespace_usage, storage_categories, NamespaceUsage, StorageCategory,
    StorageMeasurement,
};

#[test]
fn two_measured_stores_add_up() {
    assert_eq!(
        add(
            StorageMeasurement::Measured { bytes: 10, items: 2 },
            StorageMeasurement::Measured { bytes: 5, items: 1 }
        ),
        StorageMeasurement::Measured { bytes: 15, items: 3 }
    );
}

#[test]
fn one_unknown_store_makes_the_category_unknown() {
    let known = StorageMeasurement::Measured { bytes: 10, items: 2 };
    assert_eq!(add(known, StorageMeasurement::Unknown), StorageMeasurement::Unknown);
    assert_eq!(add(StorageMeasurement::Unknown, known), StorageMeasurement::Unknown);
    assert_eq!(
        add(StorageMeasurement::Unknown, StorageMeasurement::Unknown),
        StorageMeasurement::Unknown
    );
}

#[test]
fn namespace_usage_is_summed_exactly() {
    let rows = vec![
        NamespaceUsage { payload_bytes: 100, entries: 4 },
        NamespaceUsage { payload_bytes: 23, entries: 1 },
    ];
    assert_eq!(
        from_namespace_usage(&rows),
        StorageMeasurement::Measured { bytes: 123, items: 5 }
    );
    assert_eq!(
        from_namespace_usage(&Vec::new()),
        StorageMeasurement::Measured { bytes: 0, items: 0 }
    );
}

#[test]
fn the_eight_categories_come_in_order_with_logs_a_certain_zero() {
    let m = |bytes| StorageMeasurement::Measured { bytes, items: 1 };
    let rows = storage_categories(
        m(1),
        m(2),
        m(3),
        m(4),
        StorageMeasurement::Unknown,
        m(6),
        m(7),
        m(8),
        m(9),
    );
    assert_eq!(
        rows,
        vec![
            (StorageCategory::PersistentCatalog, m(1)),
            (StorageCategory::KeywordIndex, m(2)),
            (StorageCategory::VectorIndex, m(3)),
            (StorageCategory::SnippetCache, StorageMeasurement::Unknown),
            (StorageCategory::SearchCache, m(6)),
            (
                StorageCategory::TemporaryExtraction,
                StorageMeasurement::Measured { bytes: 15, items: 2 }
            ),
            (StorageCategory::ModelFiles, m(9)),
            (StorageCategory::Logs, StorageMeasurement::Measured { bytes: 0, items: 0 }),
        ]
    );
}
