use typed_index::HaveTypedIndex;
use typed_index::IndexLike;
use typed_index::IndexTo;
use typed_index::TypedIndex;
use typed_index::TypedIndexMut;

type IntegerIdx = IndexTo<i32>;
type BooleanIdx = IndexTo<bool>;

#[test]
fn test_int_and_bool() {
    let mut integers: Vec<i32> = vec![10, 20, 30];
    let mut booleans: Vec<bool> = vec![true, false];

    let int_idx = integers.index_to(1); // 20
    let bool_idx = booleans.index_to(0); // true

    // the magic in strongly typed indices is here:
    assert_eq!(*integers.typed_index(int_idx), 20);
    assert_eq!(*booleans.typed_index(bool_idx), true);

    // compile time error:
    // let b = *booleans.typed_index(int_idx);
    // let i = *integers.typed_index(bool_idx);

    let int_idx_2 = IntegerIdx::from_index(1); // 20
    let bool_idx_2 = BooleanIdx::from_index(0); // true

    assert_eq!(*integers.typed_index(int_idx_2), 20);
    assert_eq!(*booleans.typed_index(bool_idx_2), true);

    // also defined: the `.get()` and `.get_mut()` methods on the index
    assert_eq!(int_idx_2.get(&integers), &20);
    assert_eq!(bool_idx_2.get(&booleans), &true);

    // also defined: the `typed_index()` method, similar to native indexing
    assert_eq!(integers.typed_index(IntegerIdx::from_index(1)), &20);
    assert_eq!(booleans.typed_index(BooleanIdx::from_index(0)), &true);

    // also defined: the `typed_index_mut()` method, similar to mutable indexing
    assert_eq!(integers.typed_index_mut(IntegerIdx::from_index(1)), &mut 20);
    assert_eq!(booleans.typed_index_mut(BooleanIdx::from_index(0)), &mut true);

    // `index.get_mut(&mut collection)`
    assert_eq!(int_idx_2.get(&integers), &20);
    *int_idx_2.get_mut(&mut integers) = 50;
    assert_eq!(int_idx_2.get(&integers), &50);
}

#[test]
fn test_raw_index_reverse_access() {
    let mut values: Vec<i32> = vec![4, 5, 6];
    let r: &i32 = 1usize.get(&values);
    assert_eq!(*r, 5);
    *2usize.get_mut(&mut values) = 60;
    assert_eq!(values[2], 60);
}

#[test]
fn test_slice_binding() {
    let values: Vec<i32> = vec![7, 8, 9];
    let slice: &[i32] = &values[..];
    let idx = slice.index_to(2);
    assert_eq!(*slice.typed_index(idx), 9);
    assert_eq!(idx.get(slice), &9);
}

#[test]
fn test_slice_binding_mut() {
    let mut values: Vec<i32> = vec![7, 8, 9];
    let slice: &mut [i32] = &mut values[..];
    let idx = slice.index_to(1);
    *slice.typed_index_mut(idx) = 80;
    assert_eq!(*slice.typed_index(idx), 80);
    *idx.get_mut(slice) = 81;
    assert_eq!(idx.get(slice), &81);
    assert_eq!(values, vec![7, 81, 9]);
}

#[test]
fn test_str_binding_by_byte() {
    let text: &str = "abc";
    let idx = text.index_to(0);
    assert_eq!(*text.typed_index(idx), 97u8);
    let idx2: IndexTo<u8> = IndexTo::from_index(2);
    assert_eq!(text.typed_index(idx2), &99u8);
}

#[test]
fn test_set_and_with_index() {
    let mut idx: IndexTo<i32> = IndexTo::from_index(3);
    assert_eq!(idx.index(), 3);
    idx.set_index(8);
    assert_eq!(idx.index(), 8);
    let idx2 = idx.with_index(1);
    assert_eq!(idx2.index(), 1);
    // `set_index` hands the index back for chaining
    let mut idx3: IndexTo<bool> = IndexTo::from_index(0);
    idx3.set_index(4).set_index(5);
    assert_eq!(idx3.index(), 5);
}
