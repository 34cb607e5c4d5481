use vectorlink_task::range::LoadedVectorRange;

#[test]
fn sized_vector_range() {
    let elements = vec![[1_u8, 2, 3], [4, 5, 6], [7, 8, 0]];
    let bytes: Vec<u8> = elements.iter().flatten().copied().collect();
    let range = LoadedVectorRange::new(0..elements.len(), bytes).into_sized::<[u8; 3]>();
    assert_eq!(range.len(), elements.len());
    assert_eq!(range.vector_size(), 3);
    assert!(!range.is_empty());
    let unsized_range = range.into_unsized();
    for i in 0..elements.len() {
        assert_eq!(elements[i], unsized_range.vector(i));
    }
}

#[test]
fn unsized_vector_range() {
    let elements = vec![1_u8, 2, 3, 4, 5, 6, 7, 8, 9];
    let range = LoadedVectorRange::new(0..3, elements.clone());
    assert_eq!(range.len(), 3);
    for i in 0..range.len() {
        assert_eq!(elements[i * 3..(i + 1) * 3], *range.vector(i));
    }
}

#[test]
fn unsized_vector_range_into_sized() {
    let elements = vec![1_u8, 2, 3, 4, 5, 6, 7, 8, 9];
    let range = LoadedVectorRange::new(0..3, elements.clone());
    let sized = range.into_sized::<[u8; 3]>();
    assert_eq!(sized.len(), 3);
    let bytes = sized.into_unsized();
    assert_eq!([1, 2, 3], *bytes.vector(0));
    assert_eq!([4, 5, 6], *bytes.vector(1));
    assert_eq!([7, 8, 9], *bytes.vector(2));
}

#[test]
fn sized_vector_range_into_unsized() {
    let vecs = vec![[1_u8, 2, 3], [4, 5, 6], [7, 8, 9]];
    let bytes: Vec<u8> = vecs.iter().flatten().copied().collect();
    let range = LoadedVectorRange::new(0..3, bytes).into_sized::<[u8; 3]>();
    let unsized_range = range.into_unsized();
    for i in 0..vecs.len() {
        assert_eq!(vecs[i], unsized_range.vector(i));
    }
}

#[test]
fn range_that_starts_later_counts_from_its_start() {
    let range = LoadedVectorRange::new(5..8, vec![10, 11, 20, 21, 30, 31]);
    assert_eq!(range.len(), 3);
    assert_eq!(range.vector_size(), 2);
    assert!(!range.is_empty());
    assert_eq!(range.vector(5), [10, 11]);
    assert_eq!(range.vector(7), [30, 31]);
    let vectors_without_bytes = LoadedVectorRange::new(2..4, Vec::new());
    assert_eq!(vectors_without_bytes.vector_size(), 0);
    assert!(vectors_without_bytes.vector(3).is_empty());
}

#[test]
fn empty_range_has_no_vector() {
    let range = LoadedVectorRange::empty();
    assert_eq!(range.len(), 0);
    assert!(range.is_empty());
}
