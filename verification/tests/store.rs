use rustproc::error::Error;
use rustproc::store::BufferedStore;

#[test]
fn write_five_at_zero_then_read() {
    let mut st = BufferedStore::new();
    let data = [10u8, 20, 30, 40, 50];
    let r = st.write_at(0, &data);
    assert_eq!(r, Ok(5));
    assert_eq!(st.len(), 5);
    let back = st.read_at(0, 5);
    assert_eq!(back, vec![10u8, 20, 30, 40, 50]);
    let more = st.read_at(0, 100);
    assert_eq!(more, vec![10u8, 20, 30, 40, 50]);
}

#[test]
fn sparse_write_zero_fills_gap() {
    let mut st = BufferedStore::new();
    let data = [7u8, 8, 9];
    let r = st.write_at(10, &data);
    assert_eq!(r, Ok(3));
    assert_eq!(st.len(), 13);
    let back = st.read_at(0, 13);
    assert_eq!(back.len(), 13);
    for i in 0..10 {
        assert_eq!(back[i], 0u8);
    }
    assert_eq!(&back[10..13], &[7u8, 8, 9]);
}

#[test]
fn read_at_or_past_end_returns_nothing() {
    let mut st = BufferedStore::new();
    st.write_at(0, &[1u8, 2, 3]).unwrap();
    assert_eq!(st.read_at(3, 16), Vec::<u8>::new());
    assert_eq!(st.read_at(1000, 16), Vec::<u8>::new());
}

#[test]
fn read_caps_at_requested_size() {
    let mut st = BufferedStore::new();
    st.write_at(0, &[1u8, 2, 3, 4]).unwrap();
    assert_eq!(st.read_at(1, 2), vec![2u8, 3]);
}

#[test]
fn overwrite_inside_existing_content() {
    let mut st = BufferedStore::new();
    st.write_at(0, &[1u8, 2, 3, 4, 5]).unwrap();
    let r = st.write_at(1, &[9u8, 9]);
    assert_eq!(r, Ok(2));
    assert_eq!(st.len(), 5);
    assert_eq!(st.read_at(0, 5), vec![1u8, 9, 9, 4, 5]);
}

#[test]
fn unrepresentable_write_range_is_rejected() {
    let mut st = BufferedStore::new();
    let r = st.write_at(u64::MAX, &[1u8]);
    assert_eq!(r, Err(Error::InvalidArgument));
    assert_eq!(st.len(), 0);
}

#[test]
fn empty_write_grows_to_offset() {
    let mut st = BufferedStore::new();
    let r = st.write_at(4, &[]);
    assert_eq!(r, Ok(0));
    assert_eq!(st.len(), 4);
    assert_eq!(st.read_at(0, 4), vec![0u8, 0, 0, 0]);
}
