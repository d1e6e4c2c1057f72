use folio::jsonl::{join_records, split_records};

#[test]
fn split_ignores_blank_lines() {
    let data = b"{\"a\":1}\n\n   \n{\"b\":2}\n".to_vec();
    let records = split_records(&data);
    assert_eq!(records.len(), 2);
    assert_eq!(records[0], b"{\"a\":1}".to_vec());
    assert_eq!(records[1], b"{\"b\":2}".to_vec());
}

#[test]
fn split_strips_carriage_returns() {
    let data = b"one\r\ntwo\r\n".to_vec();
    let records = split_records(&data);
    assert_eq!(records.len(), 2);
    assert_eq!(records[0], b"one".to_vec());
    assert_eq!(records[1], b"two".to_vec());
}

#[test]
fn split_takes_a_final_unterminated_line() {
    let data = b"one\ntwo".to_vec();
    let records = split_records(&data);
    assert_eq!(records.len(), 2);
    assert_eq!(records[1], b"two".to_vec());
}

#[test]
fn split_of_empty_input_is_empty() {
    let records = split_records(&Vec::new());
    assert!(records.is_empty());
    let blank = split_records(&b" \n\t\n".to_vec());
    assert!(blank.is_empty());
}

#[test]
fn join_terminates_every_record() {
    let lines = vec![b"{\"a\":1}".to_vec(), b"{\"b\":2}".to_vec()];
    let data = join_records(&lines);
    assert_eq!(data, b"{\"a\":1}\n{\"b\":2}\n".to_vec());
    assert!(join_records(&Vec::new()).is_empty());
}

#[test]
fn split_undoes_join() {
    let lines = vec![b"alpha".to_vec(), b"beta".to_vec(), b"gamma".to_vec()];
    let data = join_records(&lines);
    assert_eq!(split_records(&data), lines);
}
