use move_semantics::move_semantics_of_struct_values_on_heap;
use move_semantics::move_semantics_of_struct_values_on_stack;
use move_semantics::tracker::Composite;
use move_semantics::tracker::MoveError;
use move_semantics::tracker::StorageClass;

#[test]
fn stack_demo_returns_ten() {
    assert_eq!(move_semantics_of_struct_values_on_stack(), 10);
}

#[test]
fn heap_demo_returns_ten() {
    assert_eq!(move_semantics_of_struct_values_on_heap(), 10);
}

#[test]
fn stack_partial_move_leaves_siblings_accessible() {
    let mut c = Composite::construct(StorageClass::Stack, vec![1, 2, 3]);
    assert_eq!(c.move_field(0), Ok(1));
    assert_eq!(c.access_field(1), Ok(2));
    assert_eq!(c.access_field(2), Ok(3));
}

#[test]
fn stack_moved_field_is_rejected() {
    let mut c = Composite::construct(StorageClass::Stack, vec![4, 5]);
    assert_eq!(c.move_field(1), Ok(5));
    assert_eq!(c.access_field(1), Err(MoveError::UseAfterMove));
    assert_eq!(c.move_field(1), Err(MoveError::UseAfterMove));
    assert_eq!(c.access_field(0), Ok(4));
}

#[test]
fn heap_single_move_invalidates_every_field() {
    let mut c = Composite::construct(StorageClass::Heap, vec![7, 8, 9]);
    assert_eq!(c.move_field(1), Ok(8));
    assert_eq!(c.access_field(0), Err(MoveError::UseAfterMove));
    assert_eq!(c.access_field(1), Err(MoveError::UseAfterMove));
    assert_eq!(c.access_field(2), Err(MoveError::UseAfterMove));
    assert_eq!(c.move_field(2), Err(MoveError::UseAfterMove));
}

#[test]
fn heap_untouched_fields_are_accessible() {
    let c = Composite::construct(StorageClass::Heap, vec![7, 8]);
    assert_eq!(c.access_field(0), Ok(7));
    assert_eq!(c.access_field(1), Ok(8));
}

#[test]
fn fresh_destroy_releases_every_field_once() {
    let c = Composite::construct(StorageClass::Stack, vec![10, 20, 30]);
    assert_eq!(c.destroy(), vec![10, 20, 30]);
}

#[test]
fn destroy_skips_moved_fields() {
    let mut c = Composite::construct(StorageClass::Stack, vec![10, 20, 30]);
    assert_eq!(c.move_field(0), Ok(10));
    assert_eq!(c.destroy(), vec![20, 30]);
}

#[test]
fn destroy_after_heap_move_releases_nothing() {
    let mut c = Composite::construct(StorageClass::Heap, vec![10, 20]);
    assert_eq!(c.move_field(0), Ok(10));
    assert_eq!(c.destroy(), Vec::<i64>::new());
}

#[test]
fn empty_composite_constructs_and_destroys() {
    let c = Composite::construct(StorageClass::Heap, Vec::new());
    assert_eq!(c.len(), 0);
    assert_eq!(c.destroy(), Vec::<i64>::new());
}

#[test]
fn len_reports_field_count() {
    let c = Composite::construct(StorageClass::Stack, vec![1, 2, 3, 4]);
    assert_eq!(c.len(), 4);
}
