//! How much space one storage category takes: exact bytes and item counts,
//! or unknown. A category with several backing stores is their sum, and is
//! unknown as soon as one of them is: an unknown side is never reported as
//! if it were zero.

use vstd::prelude::*;

verus! {

/// The space one storage category takes.
#[derive(Clone, Copy, Debug, PartialEq, Eq, Structural)]
pub enum StorageMeasurement {
    Measured { bytes: u64, items: u64 },
    Unknown,
}

/// One namespace's usage: its stored payload bytes and its entries.
#[derive(Clone, Copy, Debug, PartialEq, Eq, Structural)]
pub struct NamespaceUsage {
    pub payload_bytes: u64,
    pub entries: u64,
}

/// Two measurements of one category's backing stores combined.
pub open spec fn add_spec(a: StorageMeasurement, b: StorageMeasurement) -> StorageMeasurement {
    match (a, b) {
        (
            StorageMeasurement::Measured { bytes: b1, items: i1 },
            StorageMeasurement::Measured { bytes: b2, items: i2 },
        ) => StorageMeasurement::Measured { bytes: (b1 + b2) as u64, items: (i1 + i2) as u64 },
        _ => StorageMeasurement::Unknown,
    }
}

/// The sums fit: combining two measured stores does not overflow.
pub open spec fn add_fits(a: StorageMeasurement, b: StorageMeasurement) -> bool {
    match (a, b) {
        (
            StorageMeasurement::Measured { bytes: b1, items: i1 },
            StorageMeasurement::Measured { bytes: b2, items: i2 },
        ) => b1 + b2 <= u64::MAX && i1 + i2 <= u64::MAX,
        _ => true,
    }
}

/// Combines two backing stores of one category: both measured gives the
/// sums; otherwise the category is unknown.
pub fn add(a: StorageMeasurement, b: StorageMeasurement) -> (r: StorageMeasurement)
    requires
        add_fits(a, b),
    ensures
        r == add_spec(a, b),
{
    match (a, b) {
        (
            StorageMeasurement::Measured { bytes: b1, items: i1 },
            StorageMeasurement::Measured { bytes: b2, items: i2 },
        ) => StorageMeasurement::Measured { bytes: b1 + b2, items: i1 + i2 },
        _ => StorageMeasurement::Unknown,
    }
}

/// The total payload bytes of some namespaces.
pub open spec fn total_bytes(rows: Seq<NamespaceUsage>) -> int
    decreases rows.len(),
{
    if rows.len() == 0 {
        0
    } else {
        total_bytes(rows.drop_last()) + rows.last().payload_bytes
    }
}

/// The total entries of some namespaces.
pub open spec fn total_entries(rows: Seq<NamespaceUsage>) -> int
    decreases rows.len(),
{
    if rows.len() == 0 {
        0
    } else {
        total_entries(rows.drop_last()) + rows.last().entries
    }
}

proof fn lemma_totals_grow(rows: Seq<NamespaceUsage>, i: int)
    requires
        0 <= i <= rows.len(),
    ensures
        0 <= total_bytes(rows.subrange(0, i)) <= total_bytes(rows),
        0 <= total_entries(rows.subrange(0, i)) <= total_entries(rows),
    decreases rows.len() - i,
{
    if i < rows.len() {
        lemma_totals_grow(rows, i + 1);
        assert(rows.subrange(0, i + 1).drop_last() =~= rows.subrange(0, i));
        lemma_totals_nonnegative(rows.subrange(0, i));
    } else {
        assert(rows.subrange(0, i) =~= rows);
        lemma_totals_nonnegative(rows);
    }
}

proof fn lemma_totals_nonnegative(rows: Seq<NamespaceUsage>)
    ensures
        total_bytes(rows) >= 0,
        total_entries(rows) >= 0,
    decreases rows.len(),
{
    if rows.len() > 0 {
        lemma_totals_nonnegative(rows.drop_last());
    }
}

/// The measurement of some namespaces: their summed payload bytes and
/// entries, which the cache reports exactly.
pub fn from_namespace_usage(rows: &Vec<NamespaceUsage>) -> (r: StorageMeasurement)
    requires
        total_bytes(rows@) <= u64::MAX,
        total_entries(rows@) <= u64::MAX,
    ensures
        r == (StorageMeasurement::Measured {
            bytes: total_bytes(rows@) as u64,
            items: total_entries(rows@) as u64,
        }),
{
    let n = rows.len();
    let mut bytes: u64 = 0;
    let mut items: u64 = 0;
    let mut i: usize = 0;
    while i < n
        invariant
            n == rows@.len(),
            i <= n,
            total_bytes(rows@) <= u64::MAX,
            total_entries(rows@) <= u64::MAX,
            bytes == total_bytes(rows@.subrange(0, i as int)),
            items == total_entries(rows@.subrange(0, i as int)),
        decreases n - i,
    {
        assert(rows@.subrange(0, i + 1).drop_last() =~= rows@.subrange(0, i as int));
        assert(rows@.subrange(0, i + 1).last() == rows@[i as int]);
        proof {
            lemma_totals_grow(rows@, i + 1);
        }
        bytes = bytes + rows[i].payload_bytes;
        items = items + rows[i].entries;
        i = i + 1;
    }
    assert(rows@.subrange(0, n as int) =~= rows@);
    StorageMeasurement::Measured { bytes, items }
}

/// A category is unknown as soon as one of its backing stores is, on
/// either side, and the order of the two stores does not matter.
pub proof fn law_unknown_is_infectious(a: StorageMeasurement, b: StorageMeasurement)
    ensures
        (a is Unknown || b is Unknown) ==> add_spec(a, b) is Unknown,
        add_spec(a, b) == add_spec(b, a),
{
}

/// Two measured stores always make a measured category whose bytes and
/// items are the two sums; a category is unknown exactly when one of its
/// stores is.
pub proof fn law_measured_stores_add_up(a: StorageMeasurement, b: StorageMeasurement)
    ensures
        add_spec(a, b) is Unknown <==> (a is Unknown || b is Unknown),
        add_fits(a, b) && a is Measured && b is Measured ==> (add_spec(a, b) is Measured && add_spec(
            a,
            b,
        )->bytes == a->bytes + b->bytes && add_spec(a, b)->items == a->items + b->items),
{
}

/// The categories the storage page shows, in the order it shows them.
#[derive(Clone, Copy, Debug, PartialEq, Eq, Structural)]
pub enum StorageCategory {
    PersistentCatalog,
    KeywordIndex,
    VectorIndex,
    SnippetCache,
    SearchCache,
    TemporaryExtraction,
    ModelFiles,
    Logs,
}

/// The eight categories with their measurements, in order: the snippet
/// cache is its table and its cache namespace together, temporary
/// extraction is the current and the retired namespace together, and logs
/// are a certain zero, since no log file is written.
pub open spec fn categories_spec(
    catalog: StorageMeasurement,
    keyword: StorageMeasurement,
    vector: StorageMeasurement,
    snippet_table: StorageMeasurement,
    snippet_namespace: StorageMeasurement,
    search_cache: StorageMeasurement,
    extract_current: StorageMeasurement,
    extract_retired: StorageMeasurement,
    models: StorageMeasurement,
) -> Seq<(StorageCategory, StorageMeasurement)> {
    seq![
        (StorageCategory::PersistentCatalog, catalog),
        (StorageCategory::KeywordIndex, keyword),
        (StorageCategory::VectorIndex, vector),
        (StorageCategory::SnippetCache, add_spec(snippet_table, snippet_namespace)),
        (StorageCategory::SearchCache, search_cache),
        (StorageCategory::TemporaryExtraction, add_spec(extract_current, extract_retired)),
        (StorageCategory::ModelFiles, models),
        (StorageCategory::Logs, StorageMeasurement::Measured { bytes: 0, items: 0 }),
    ]
}

/// The storage page's rows from the measurements of each backing store
/// (see [`categories_spec`]).
pub fn storage_categories(
    catalog: StorageMeasurement,
    keyword: StorageMeasurement,
    vector: StorageMeasurement,
    snippet_table: StorageMeasurement,
    snippet_namespace: StorageMeasurement,
    search_cache: StorageMeasurement,
    extract_current: StorageMeasurement,
    extract_retired: StorageMeasurement,
    models: StorageMeasurement,
) -> (r: Vec<(StorageCategory, StorageMeasurement)>)
    requires
        add_fits(snippet_table, snippet_namespace),
        add_fits(extract_current, extract_retired),
    ensures
        r@ == categories_spec(
            catalog,
            keyword,
            vector,
            snippet_table,
            snippet_namespace,
            search_cache,
            extract_current,
            extract_retired,
            models,
        ),
{
    let mut rows: Vec<(StorageCategory, StorageMeasurement)> = Vec::new();
    rows.push((StorageCategory::PersistentCatalog, catalog));
    rows.push((StorageCategory::KeywordIndex, keyword));
    rows.push((StorageCategory::VectorIndex, vector));
    rows.push((StorageCategory::SnippetCache, self::add(snippet_table, snippet_namespace)));
    rows.push((StorageCategory::SearchCache, search_cache));
    rows.push((StorageCategory::TemporaryExtraction, self::add(extract_current, extract_retired)));
    rows.push((StorageCategory::ModelFiles, models));
    rows.push((StorageCategory::Logs, StorageMeasurement::Measured { bytes: 0, items: 0 }));
    assert(rows@ =~= categories_spec(
        catalog,
        keyword,
        vector,
        snippet_table,
        snippet_namespace,
        search_cache,
        extract_current,
        extract_retired,
        models,
    ));
    rows
}

} // verus!
