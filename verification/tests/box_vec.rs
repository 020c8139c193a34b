use box_vector::box_vec::SlotError;
use box_vector::BoxVec;

fn with_slot(index: usize, value: u32) -> BoxVec {
    let mut cells = BoxVec::new().cells();
    cells[index] = Some(value);
    BoxVec::from_cells(cells)
}

// |BoxVec tests|------------------------------------------
#[test]
fn test_peek_success() {
    let (index, value) = (0, 100);
    let box_vec = with_slot(index, value);
    assert_eq!(
        box_vec.peek(index),
        100,
        "Peeked item at {} should have value {:?}",
        index,
        Some(value),
    );
}

#[test]
#[should_panic]
fn test_peek_empty() {
    let box_vec = BoxVec::new();
    box_vec.peek(0);
}

#[test]
#[should_panic]
fn test_peek_invalid_index() {
    let box_vec = with_slot(0, 100);
    box_vec.peek(3);
}

#[test]
fn test_replace_existing() {
    let (index, old_value, new_value) = (0, 100, 50);
    let mut box_vec = with_slot(index, old_value);
    assert_eq!(
        box_vec.cells()[index],
        Some(old_value),
        "Something went wrong during test setup"
    );
    box_vec.replace(index, new_value);
    assert_eq!(
        box_vec.cells()[index],
        Some(old_value),
        "Existing item at {} should still have value {:?}, current value is {:?}",
        index,
        Some(old_value),
        Some(new_value),
    );
}

#[test]
fn test_replace_nonexisting() {
    let mut box_vec = BoxVec::new();
    let (index, value) = (0, 100);
    box_vec.replace(index, value);
    assert_eq!(
        box_vec.cells()[index],
        Some(value),
        "Nonexisting item at {} should be updated to value {}",
        index,
        value,
    );
}

#[test]
fn test_remove_existing() {
    let (index, value) = (0, 100);
    let mut box_vec = with_slot(index, value);
    assert_eq!(
        box_vec.cells()[index],
        Some(value),
        "Something went wrong during test setup"
    );
    box_vec.remove(index);
    assert_eq!(
        box_vec.cells()[index],
        None,
        "Existing item at {} should be removed, currently {:?}",
        index,
        box_vec.cells()[index],
    )
}

#[test]
#[should_panic]
fn test_remove_nonexisting() {
    let mut box_vec = BoxVec::new();
    box_vec.remove(0);
}

// |Option tests|------------------------------------------
#[test]
fn test_option() {
    let some: Option<u32> = Some(1);
    let some2: Option<u32> = Some(2);
    let somestr: Option<&str> = Some("hello");
    let none: Option<u32> = None;

    // and
    assert_eq!(some.and(none), None);
    assert_eq!(none.and(some), None);
    assert_eq!(some.and(somestr), somestr);

    // or
    assert_eq!(some.or(none), some);
    assert_eq!(none.or(some), some);
    assert_eq!(some.or(some2), some);

    // flatten
    let nested_some = Some(Some(1));
    let nested_none: Option<Option<u32>> = Some(None);
    let nested_none2: Option<Option<u32>> = None;
    assert_eq!(nested_some.flatten(), Some(1));
    assert_eq!(nested_none.flatten(), None);
    assert_eq!(nested_none2.flatten(), None);

    // map
    assert_eq!(some.map(|i| i.to_string()), Some(String::from("1")));
    assert_eq!(none.map(|i| i.to_string()), None);

    // map_or
    assert_eq!(some.map_or(String::from("10000"), |i| i.to_string()), String::from("1"));
    assert_eq!(none.map_or(String::from("10000"), |i| i.to_string()), String::from("10000"));

    // map_or_else
    assert_eq!(some.map_or_else(|| String::from("10000"), |i| i.to_string()), String::from("1"));
    assert_eq!(none.map_or_else(|| String::from("10000"), |i| i.to_string()), String::from("10000"));

    // ok_or
    assert_eq!(some.ok_or(0), Ok(1));
    assert_eq!(none.ok_or(0), Err(0));

    // transponse
    let result: Result<Option<u32>, u32> = Ok(Some(1));
    let option: Option<Result<u32, u32>> = Some(Ok(1));
    assert_eq!(option.transpose(), result);

    // unwrap
    assert_eq!(Some(1).unwrap(), 1);

    // unwrap_or
    assert_eq!(Some(1).unwrap_or(0), 1);
    assert_eq!(None.unwrap_or(0), 0);

    // zip
    assert_eq!(Some(1).zip(Some("one")), Some((1, "one")));
    assert_eq!(Some(1).zip(none), None);
}

// |Result tests|------------------------------------------
#[test]
fn test_result() {
    let ok: Result<u32, &str> = Ok(1);
    let ok2: Result<u32, &str> = Ok(2);
    let okstr: Result<&str, &str> = Ok("ok");
    let err: Result<u32, &str> = Err("error");
    let err2: Result<u32, &str> = Err("error2");

    // ok
    assert_eq!(ok.ok(), Some(1));
    assert_eq!(err.ok(), None);

    // err
    assert_eq!(ok.err(), None);
    assert_eq!(err.err(), Some("error"));

    // and
    assert_eq!(ok.and(err), err);
    assert_eq!(err.and(ok), err);
    assert_eq!(ok.and(okstr), okstr);
    assert_eq!(err.and(err2), err);

    // or
    assert_eq!(ok.or(err), ok);
    assert_eq!(err.or(ok), ok);
    assert_eq!(ok.or(ok2), ok);
    assert_eq!(err.or(err2), err2);

    // expect
    assert_eq!(ok.expect("failed"), 1);

    // unwrap
    assert_eq!(ok.unwrap(), 1);

    // unwrap_or
    assert_eq!(ok.unwrap_or(0), 1);
    assert_eq!(err.unwrap_or(0), 0);

    // unwrap_err
    assert_eq!(err.unwrap_err(), "error");

    // map_err
    assert_eq!(ok.map_err(|i| i.to_string()), Ok(1));
    assert_eq!(err.map_err(|s| format!("{} mapped", s)), Err(String::from("error mapped")));

    // transpose
    let result: Result<Option<u32>, &str> = Ok(Some(1));
    let option: Option<Result<u32, &str>> = Some(Ok(1));
    assert_eq!(result.transpose(), option);
}

// |Checked operations and the rules of the container|-----
#[test]
fn new_container_is_empty() {
    let box_vec = BoxVec::new();
    assert_eq!(box_vec.cells(), [None, None, None]);
    for i in 0..3 {
        assert_eq!(box_vec.try_peek(i), Err(SlotError::EmptySlot));
    }
}

#[test]
fn replace_on_empty_then_peek() {
    for i in 0..3 {
        for v in [0u32, 1, 7, u32::MAX] {
            let mut box_vec = BoxVec::new();
            assert_eq!(box_vec.replace(i, v), v);
            assert_eq!(box_vec.peek(i), v);
            assert_eq!(box_vec.try_peek(i), Ok(v));
            for other in 0..3 {
                if other != i {
                    assert_eq!(box_vec.try_peek(other), Err(SlotError::EmptySlot));
                }
            }
        }
    }
}

#[test]
fn replace_does_not_overwrite() {
    for i in 0..3 {
        let mut box_vec = BoxVec::new();
        assert_eq!(box_vec.replace(i, 11), 11);
        let before = box_vec.cells();
        assert_eq!(box_vec.replace(i, 22), 11);
        assert_eq!(box_vec.cells(), before);
        assert_eq!(box_vec.peek(i), 11);
        assert_eq!(box_vec.try_replace(i, 33), Ok(11));
        assert_eq!(box_vec.cells(), before);
    }
}

#[test]
fn replace_then_remove_leaves_slot_empty() {
    for i in 0..3 {
        let mut box_vec = BoxVec::new();
        box_vec.replace(i, 5);
        assert_eq!(box_vec.remove(i), 5);
        assert_eq!(box_vec.try_peek(i), Err(SlotError::EmptySlot));
        assert_eq!(box_vec.cells(), [None, None, None]);
    }
}

#[test]
fn remove_keeps_other_slots() {
    let mut box_vec = BoxVec::from_cells([Some(1), Some(2), Some(3)]);
    assert_eq!(box_vec.try_remove(1), Ok(2));
    assert_eq!(box_vec.cells(), [Some(1), None, Some(3)]);
    assert_eq!(box_vec.try_remove(1), Err(SlotError::EmptySlot));
    assert_eq!(box_vec.cells(), [Some(1), None, Some(3)]);
}

#[test]
fn index_past_the_end_is_out_of_bounds() {
    for i in [3usize, 4, 100, usize::MAX] {
        let mut box_vec = BoxVec::from_cells([Some(1), None, Some(3)]);
        assert_eq!(box_vec.try_peek(i), Err(SlotError::OutOfBounds));
        assert_eq!(box_vec.try_replace(i, 9), Err(SlotError::OutOfBounds));
        assert_eq!(box_vec.try_remove(i), Err(SlotError::OutOfBounds));
        assert_eq!(box_vec.cells(), [Some(1), None, Some(3)]);
    }
}

#[test]
fn replace_peek_remove_in_turn() {
    let mut box_vec = BoxVec::new();
    assert_eq!(box_vec.replace(2, 4), 4);
    assert_eq!(box_vec.cells(), [None, None, Some(4)]);
    assert_eq!(box_vec.peek(2), 4);
    assert_eq!(box_vec.remove(2), 4);
    assert_eq!(box_vec.try_peek(2), Err(SlotError::EmptySlot));
    assert_eq!(box_vec.cells(), [None, None, None]);
}

#[test]
fn try_replace_stores_into_empty_slot() {
    let mut box_vec = BoxVec::new();
    assert_eq!(box_vec.try_replace(1, 8), Ok(8));
    assert_eq!(box_vec.cells(), [None, Some(8), None]);
}
