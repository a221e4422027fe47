use inout::InOut;
use inout::InOutError;

#[test]
fn testlol() {
    let slice = vec![1u8; 513];
    let buf = vec![0u8; 513];
    let mut inout = InOut::from(buf);
    inout.xor_in2out(&slice).unwrap();
    assert!(inout.get_out()[0] == 1);
}

#[test]
fn flat_in_place_keystream() {
    let buf = vec![1u8, 1, 1, 1, 1, 1, 1, 1];
    let data = vec![1u8, 0, 1, 0, 1, 0, 1, 0];
    let mut view = InOut::from(buf);
    view.xor_in2out(&data).unwrap();
    assert_eq!(*view.get_in(), vec![0u8, 1, 0, 1, 0, 1, 0, 1]);
    assert_eq!(*view.get_out(), vec![0u8, 1, 0, 1, 0, 1, 0, 1]);
}

#[test]
fn flat_out_of_place() {
    let input = vec![1u8, 2, 3];
    let output = vec![9u8, 9, 9];
    let data = vec![255u8, 0, 1];
    let mut view: InOut<Vec<u8>> = InOut::from((input, output));
    view.xor_in2out(&data).unwrap();
    assert_eq!(*view.get_out(), vec![254u8, 2, 2]);
    // The input storage is separate and untouched.
    assert_eq!(*view.get_in(), vec![1u8, 2, 3]);
}

#[test]
fn flat_shape_mismatch() {
    let buf = vec![7u8, 7];
    let data = vec![1u8, 2, 3];
    let mut view = InOut::from(buf);
    assert_eq!(view.xor_in2out(&data), Err(InOutError::ShapeMismatch));
    // Nothing was written.
    assert_eq!(*view.get_out(), vec![7u8, 7]);
}

#[test]
fn nested_identity_in_place() {
    let buf = vec![vec![1u8, 1, 1, 1], vec![2u8, 2, 2, 2]];
    let data = vec![vec![0u8; 4], vec![0u8; 4]];
    let mut view = InOut::from(buf);
    view.xor_in2out(&data).unwrap();
    assert_eq!(*view.get_out(), vec![vec![1u8, 1, 1, 1], vec![2u8, 2, 2, 2]]);
}

#[test]
fn nested_in_place_nonzero() {
    let buf = vec![vec![1u8, 1], vec![2u8, 2]];
    let data = vec![vec![3u8, 3], vec![4u8, 4]];
    let mut view = InOut::from(buf);
    view.xor_in2out(&data).unwrap();
    assert_eq!(*view.get_out(), vec![vec![2u8, 2], vec![6u8, 6]]);
    assert_eq!(*view.get_in(), vec![vec![2u8, 2], vec![6u8, 6]]);
}

#[test]
fn nested_out_of_place() {
    let input = vec![vec![1u8, 0], vec![0u8, 1]];
    let output = vec![vec![9u8, 9], vec![9u8, 9]];
    let data = vec![vec![1u8, 1], vec![1u8, 1]];
    let mut view: InOut<Vec<Vec<u8>>> = InOut::from((input, output));
    view.xor_in2out(&data).unwrap();
    assert_eq!(*view.get_out(), vec![vec![0u8, 1], vec![1u8, 0]]);
    assert_eq!(*view.get_in(), vec![vec![1u8, 0], vec![0u8, 1]]);
}

#[test]
fn nested_shape_mismatch() {
    let buf = vec![vec![1u8, 1], vec![2u8, 2]];
    let ragged = vec![vec![0u8, 0], vec![0u8]];
    let mut view = InOut::from(buf);
    assert_eq!(view.xor_in2out(&ragged), Err(InOutError::ShapeMismatch));
    assert_eq!(*view.get_out(), vec![vec![1u8, 1], vec![2u8, 2]]);
}

#[test]
fn in_place_reads_follow_writes() {
    let mut view = InOut::from(41u8);
    assert_eq!(*view.get_in(), 41);
    *view.get_out() = 42;
    // One shared storage: the input observes the write.
    assert_eq!(*view.get_in(), 42);
    assert_eq!(*view.get_out(), 42);
}

#[test]
fn out_of_place_input_untouched() {
    let mut view: InOut<u8> = InOut::from((10u8, 20u8));
    assert_eq!(*view.get_in(), 10);
    assert_eq!(*view.get_out(), 20);
    *view.get_out() = 99;
    // Separate storages: the input does not follow the output.
    assert_eq!(*view.get_in(), 10);
    assert_eq!(*view.get_out(), 99);
}

#[test]
fn reborrow_is_transparent() {
    let mut view: InOut<u8> = InOut::from((5u8, 6u8));
    {
        let r = view.reborrow();
        assert_eq!(*r.get_in(), 5);
        assert_eq!(*r.get_out(), 6);
        *r.get_out() = 7;
    }
    // The original shows what was done through the reborrowed view.
    assert_eq!(*view.get_in(), 5);
    assert_eq!(*view.get_out(), 7);
}

#[test]
fn clone_in_copies_the_input() {
    let view: InOut<Vec<u8>> = InOut::from((vec![1u8, 2], vec![3u8, 4]));
    assert_eq!(view.clone_in(), vec![1u8, 2]);
    let in_place = InOut::from(vec![5u8]);
    assert_eq!(in_place.clone_in(), vec![5u8]);
}

#[test]
fn bounds_are_enforced() {
    let buf = vec![0u8, 1, 2, 3, 4, 5, 6, 7];
    let view = InOut::from(buf);
    assert!(matches!(view.get(8), Err(InOutError::BoundsViolation)));
    assert!(matches!(view.get(12), Err(InOutError::BoundsViolation)));
    match view.get(7) {
        Ok(elem) => assert_eq!(*elem.get_in(), 7),
        Err(_) => panic!("position 7 is within bounds"),
    }
}

#[test]
fn element_views_and_put() {
    let input = vec![1u8, 2, 3];
    let output = vec![7u8, 8, 9];
    let mut view: InOut<Vec<u8>> = InOut::from((input, output));
    let mut elem = match view.get(1) {
        Ok(elem) => elem,
        Err(_) => panic!("position 1 is within bounds"),
    };
    assert_eq!(*elem.get_in(), 2);
    assert_eq!(*elem.get_out(), 8);
    *elem.get_out() = 50;
    view.put(1, &elem).unwrap();
    assert_eq!(*view.get_out(), vec![7u8, 50, 9]);
    assert_eq!(*view.get_in(), vec![1u8, 2, 3]);
    assert_eq!(view.put(3, &elem).unwrap_err(), InOutError::BoundsViolation);
}

#[test]
fn raw_round_trip() {
    let view: InOut<Vec<u8>> = InOut::from((vec![1u8], vec![2u8]));
    let (in_part, out_part) = view.into_raw();
    let mut back = InOut::from_raw(in_part, out_part);
    assert_eq!(*back.get_in(), vec![1u8]);
    assert_eq!(*back.get_out(), vec![2u8]);

    let in_place = InOut::from(9u8);
    let (a, b) = in_place.into_raw();
    assert!(a.is_none());
    let mut back2 = InOut::from_raw(a, b);
    *back2.get_out() = 10;
    // Still one shared storage after the round trip.
    assert_eq!(*back2.get_in(), 10);
}

#[test]
fn into_buf_hands_off() {
    let view: InOut<Vec<u8>> = InOut::from((vec![1u8, 2, 3], vec![4u8, 5, 6]));
    let buf = view.into_buf();
    assert_eq!(buf.len(), 3);
}
