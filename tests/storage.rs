use aheui::ir::Arith;
use aheui::storage::{rt_init, AheuiRt, StorageError};

#[test]
fn queue_storage_is_first_in_first_out() {
    let mut rt = rt_init();
    for v in [1, 2, 3] {
        rt.push(21, v).unwrap();
    }
    assert_eq!(rt.pop(21), Ok(1));
    assert_eq!(rt.pop(21), Ok(2));
    assert_eq!(rt.words(21), &vec![3]);
}

#[test]
fn other_storages_are_last_in_first_out() {
    for idx in (0u8..27).filter(|i| *i != 21) {
        let mut rt = AheuiRt::new();
        for v in [1, 2, 3] {
            rt.push(idx, v).unwrap();
        }
        assert_eq!(rt.pop(idx), Ok(3));
        assert_eq!(rt.pop(idx), Ok(2));
        assert_eq!(rt.words(idx), &vec![1]);
    }
}

#[test]
fn reserved_and_missing_storages_refuse_access() {
    let mut rt = AheuiRt::new();
    assert_eq!(rt.push(27, 1), Err(StorageError::Unsupported(27)));
    assert_eq!(rt.pop(27), Err(StorageError::Unsupported(27)));
    assert_eq!(rt.dup(27), Err(StorageError::Unsupported(27)));
    assert_eq!(rt.swap(27), Err(StorageError::Unsupported(27)));
    assert_eq!(rt.push(28, 1), Err(StorageError::Unsupported(28)));
    assert_eq!(rt.pop(200), Err(StorageError::Unsupported(200)));
}

#[test]
fn storage_twenty_six_is_a_stack() {
    let mut rt = AheuiRt::new();
    rt.push(26, 5).unwrap();
    rt.push(26, 6).unwrap();
    assert_eq!(rt.pop(26), Ok(6));
}

#[test]
fn underflow_is_reported() {
    let mut rt = AheuiRt::new();
    assert_eq!(rt.pop(0), Err(StorageError::Underflow(0)));
    assert_eq!(rt.dup(21), Err(StorageError::Underflow(21)));
    rt.push(3, 9).unwrap();
    assert_eq!(rt.swap(3), Err(StorageError::Underflow(3)));
    assert_eq!(rt.words(3), &vec![9]);
}

#[test]
fn dup_and_swap_act_at_the_front() {
    let mut rt = AheuiRt::new();
    for v in [1, 2, 3] {
        rt.push(21, v).unwrap();
        rt.push(0, v).unwrap();
    }
    rt.dup(21).unwrap();
    assert_eq!(rt.words(21), &vec![1, 1, 2, 3]);
    rt.dup(0).unwrap();
    assert_eq!(rt.words(0), &vec![1, 2, 3, 3]);
    rt.pop(21).unwrap();
    rt.swap(21).unwrap();
    assert_eq!(rt.words(21), &vec![2, 1, 3]);
    rt.pop(0).unwrap();
    rt.swap(0).unwrap();
    assert_eq!(rt.words(0), &vec![1, 3, 2]);
}

#[test]
fn division_reads_words_as_unsigned() {
    let mut rt = AheuiRt::new();
    rt.push(0, -1).unwrap();
    rt.push(0, 2).unwrap();
    let v1 = rt.pop(0).unwrap();
    let v2 = rt.pop(0).unwrap();
    let q = Arith::Div.apply(v1, v2).unwrap();
    rt.push(0, q).unwrap();
    assert_eq!(q, (4294967295u32 / 2) as i32);
    assert_eq!(q, 2147483647);
    assert_eq!(rt.words(0), &vec![2147483647]);
}

#[test]
fn word_arithmetic() {
    assert_eq!(Arith::Add.apply(i32::MAX, 1), Some(i32::MIN));
    assert_eq!(Arith::Sub.apply(3, 10), Some(7));
    assert_eq!(Arith::Sub.apply(1, i32::MIN), Some(i32::MAX));
    assert_eq!(Arith::Mul.apply(65536, 65536), Some(0));
    assert_eq!(Arith::Mul.apply(-3, 7), Some(-21));
    assert_eq!(Arith::Div.apply(3, 10), Some(3));
    assert_eq!(Arith::Div.apply(0, 10), None);
    assert_eq!(Arith::Mod.apply(3, 10), Some(1));
    assert_eq!(Arith::Mod.apply(2, -1), Some(1));
    assert_eq!(Arith::Mod.apply(0, 10), None);
    assert_eq!(Arith::LessEq.apply(5, 4), Some(1));
    assert_eq!(Arith::LessEq.apply(5, 5), Some(1));
    assert_eq!(Arith::LessEq.apply(4, 5), Some(0));
    assert_eq!(Arith::LessEq.apply(5, -1), Some(0));
}
