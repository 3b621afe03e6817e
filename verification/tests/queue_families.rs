//! Queue-family derivation behavior on concrete family lists.

use magmacraft::physical_device::{
    QueueFamily, QueueFamilyIndices, QueueFamilyProps, QueueFamilySet, QUEUE_FLAG_COMPUTE,
    QUEUE_FLAG_GRAPHICS, QUEUE_FLAG_SPARSE_BINDING, QUEUE_FLAG_TRANSFER,
};

fn props(flags: u32) -> QueueFamilyProps {
    QueueFamilyProps { flags, supports_presentation: false }
}

#[test]
fn derivation_is_deterministic() {
    let families = vec![
        props(QUEUE_FLAG_GRAPHICS | QUEUE_FLAG_TRANSFER),
        props(QUEUE_FLAG_COMPUTE),
        props(QUEUE_FLAG_TRANSFER),
    ];
    let first = QueueFamilyIndices::from_properties(&families);
    let second = QueueFamilyIndices::from_properties(&families);
    assert_eq!(first, second);
}

#[test]
fn strongly_dedicated_transfer_is_sticky() {
    // Family 0 supports exactly transfer; later transfer-capable families
    // must not override it.
    let families = vec![
        props(QUEUE_FLAG_TRANSFER),
        props(QUEUE_FLAG_GRAPHICS | QUEUE_FLAG_TRANSFER),
        props(QUEUE_FLAG_COMPUTE | QUEUE_FLAG_TRANSFER),
    ];
    let indices = QueueFamilyIndices::from_properties(&families);
    assert_eq!(indices.transfer, Some(0));
    assert!(indices.strongly_dedicated_transfer);
    assert!(indices.is_transfer_dedicated());
    assert_eq!(indices.graphics, Some(1));
    assert_eq!(indices.compute, Some(2));
}

#[test]
fn transfer_fallback_table() {
    // Table of (family flag lists, expected graphics/compute/transfer/
    // sparse-binding indices).
    let table: Vec<(Vec<u32>, Option<u32>, Option<u32>, Option<u32>, Option<u32>)> = vec![
        // A graphics-only family stands in for transfer.
        (vec![QUEUE_FLAG_GRAPHICS], Some(0), None, Some(0), None),
        // A compute-only family stands in for transfer too.
        (vec![QUEUE_FLAG_COMPUTE], None, Some(0), Some(0), None),
        // A later family with an explicit transfer bit overrides the
        // graphics stand-in.
        (
            vec![QUEUE_FLAG_GRAPHICS, QUEUE_FLAG_COMPUTE | QUEUE_FLAG_TRANSFER],
            Some(0),
            Some(1),
            Some(1),
            None,
        ),
        // Without an explicit transfer bit anywhere, the last
        // graphics- or compute-capable family stands in.
        (vec![QUEUE_FLAG_GRAPHICS, QUEUE_FLAG_COMPUTE], Some(0), Some(1), Some(1), None),
        // An explicit but not exactly-transfer family is overridden by a
        // later explicit one.
        (
            vec![QUEUE_FLAG_GRAPHICS | QUEUE_FLAG_TRANSFER, QUEUE_FLAG_COMPUTE | QUEUE_FLAG_TRANSFER],
            Some(0),
            Some(1),
            Some(1),
            None,
        ),
        // An exactly-transfer family keeps the role against everything
        // after it.
        (
            vec![QUEUE_FLAG_TRANSFER, QUEUE_FLAG_GRAPHICS | QUEUE_FLAG_TRANSFER],
            Some(1),
            None,
            Some(0),
            None,
        ),
        // Sparse binding is recorded independently.
        (
            vec![QUEUE_FLAG_GRAPHICS, QUEUE_FLAG_SPARSE_BINDING],
            Some(0),
            None,
            Some(0),
            Some(1),
        ),
    ];

    for (flags, graphics, compute, transfer, sparse_binding) in table {
        let families: Vec<QueueFamilyProps> = flags.iter().map(|f| props(*f)).collect();
        let indices = QueueFamilyIndices::from_properties(&families);
        assert_eq!(indices.index(QueueFamily::Graphics), graphics, "flags {:?}", flags);
        assert_eq!(indices.index(QueueFamily::Compute), compute, "flags {:?}", flags);
        assert_eq!(indices.index(QueueFamily::Transfer), transfer, "flags {:?}", flags);
        assert_eq!(
            indices.index(QueueFamily::SparseBinding),
            sparse_binding,
            "flags {:?}",
            flags
        );
    }
}

#[test]
fn presentation_is_recorded_per_family() {
    let families = vec![
        QueueFamilyProps { flags: QUEUE_FLAG_GRAPHICS, supports_presentation: false },
        QueueFamilyProps { flags: QUEUE_FLAG_COMPUTE, supports_presentation: true },
    ];
    let indices = QueueFamilyIndices::from_properties(&families);
    assert_eq!(indices.index(QueueFamily::Presentation), Some(1));
}

#[test]
fn family_set_counts_recorded_presentation() {
    let families = vec![QueueFamilyProps {
        flags: QUEUE_FLAG_GRAPHICS | QUEUE_FLAG_TRANSFER,
        supports_presentation: true,
    }];
    let indices = QueueFamilyIndices::from_properties(&families);
    let set = indices.family_hash_set();
    assert!(set.graphics);
    assert!(set.transfer);
    assert!(!set.compute);
    assert!(set.presentation);

    // A required presentation role is supported exactly when some
    // family can present.
    let mut required = QueueFamilySet::empty();
    required.insert(QueueFamily::Presentation);
    assert!(indices.does_support_families(&required));

    let no_presentation = vec![QueueFamilyProps {
        flags: QUEUE_FLAG_GRAPHICS | QUEUE_FLAG_TRANSFER,
        supports_presentation: false,
    }];
    let indices = QueueFamilyIndices::from_properties(&no_presentation);
    assert!(!indices.family_hash_set().presentation);
    assert!(!indices.does_support_families(&required));
}

#[test]
fn does_support_families_checks_required_roles() {
    let families = vec![props(QUEUE_FLAG_GRAPHICS | QUEUE_FLAG_TRANSFER)];
    let indices = QueueFamilyIndices::from_properties(&families);
    let required = QueueFamilySet::from_families(&[QueueFamily::Graphics, QueueFamily::Transfer]);
    assert!(indices.does_support_families(&required));

    let more = QueueFamilySet::from_families(&[QueueFamily::Graphics, QueueFamily::Compute]);
    assert!(!indices.does_support_families(&more));
}

#[test]
fn empty_family_list_records_nothing() {
    let indices = QueueFamilyIndices::from_properties(&vec![]);
    assert_eq!(indices, QueueFamilyIndices::empty());
}
