use fedsearch::doc_id::{doc_id_udf_registration, DocIdError, DocumentIdentityGenerator};

fn all_distinct(ids: &[String]) {
    for i in 0..ids.len() {
        for j in 0..ids.len() {
            if i != j {
                assert_ne!(ids[i], ids[j]);
            }
        }
    }
}

#[test]
fn test_generate_doc_id() {
    let mut generator = DocumentIdentityGenerator::new(0);
    let ids = generator.doc_id_generator(&vec![4]).unwrap();
    assert_eq!(ids.len(), 4);
    all_distinct(&ids);
}

#[test]
fn test_two_batches_never_overlap() {
    let mut generator = DocumentIdentityGenerator::new(7);
    let first = generator.generate(5);
    let second = generator.generate(5);
    assert_eq!(first.len(), 5);
    assert_eq!(second.len(), 5);
    let mut all = Vec::new();
    all.extend(first);
    all.extend(second);
    assert_eq!(all.len(), 10);
    all_distinct(&all);
}

#[test]
fn test_arity_rejection() {
    let mut generator = DocumentIdentityGenerator::new(1);
    let zero = generator.doc_id_generator(&vec![]);
    assert_eq!(zero, Err(DocIdError::WrongArgumentCount { given: 0 }));
    let two = generator.doc_id_generator(&vec![3, 4]);
    assert_eq!(two, Err(DocIdError::WrongArgumentCount { given: 2 }));
    // a rejected call issues nothing: the next identifiers start at the
    // counter's origin
    let ids = generator.doc_id_generator(&vec![2]).unwrap();
    assert_eq!(ids.len(), 2);
    assert_eq!(ids[0], "00000000000000010000000000000000");
}

#[test]
fn test_identifier_text_is_fixed_width_hex() {
    let mut generator = DocumentIdentityGenerator::new(255);
    let ids = generator.generate(2);
    assert_eq!(ids[0], "00000000000000ff0000000000000000");
    assert_eq!(ids[1], "00000000000000ff0000000000000001");
    let mut zero_node = DocumentIdentityGenerator::new(0);
    let first = zero_node.generate(1);
    assert_eq!(first[0], "00000000000000000000000000000000");
    assert_eq!(first[0].len(), 32);
}

#[test]
fn test_different_nodes_never_collide() {
    let mut a = DocumentIdentityGenerator::new(1);
    let mut b = DocumentIdentityGenerator::new(2);
    let from_a = a.generate(3);
    let from_b = b.generate(3);
    for x in &from_a {
        for y in &from_b {
            assert_ne!(x, y);
        }
    }
}

#[test]
fn test_zero_row_batch_issues_nothing() {
    let mut generator = DocumentIdentityGenerator::new(4);
    let ids = generator.doc_id_generator(&vec![0]).unwrap();
    assert_eq!(ids.len(), 0);
    let next = generator.generate(1);
    assert_eq!(next[0], "00000000000000040000000000000000");
}

#[test]
fn test_udf_registration_is_volatile_unary() {
    let reg = doc_id_udf_registration();
    assert_eq!(reg.name, "generate_doc_ids");
    assert_eq!(reg.arity, 1);
    assert!(reg.volatile);
}
