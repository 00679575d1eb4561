use nonap::logbuf::LogBuffer;

#[test]
fn append_and_tail_in_order() {
    let mut buf = LogBuffer::new();
    buf.append("one".to_string());
    buf.append("two".to_string());
    buf.append("three".to_string());
    assert_eq!(buf.len(), 3);
    let t = buf.tail(2);
    assert_eq!(t, vec!["two".to_string(), "three".to_string()]);
}

#[test]
fn tail_zero_is_empty() {
    let mut buf = LogBuffer::new();
    buf.append("one".to_string());
    let t = buf.tail(0);
    assert!(t.is_empty());
}

#[test]
fn tail_larger_than_size_returns_all() {
    let mut buf = LogBuffer::new();
    buf.append("one".to_string());
    buf.append("two".to_string());
    let t = buf.tail(50);
    assert_eq!(t, vec!["one".to_string(), "two".to_string()]);
}

#[test]
fn never_exceeds_cap_and_evicts_oldest() {
    let mut buf = LogBuffer::new();
    for i in 0..250 {
        buf.append(format!("entry {}", i));
        assert!(buf.len() <= 100);
    }
    assert_eq!(buf.len(), 100);
    let t = buf.tail(100);
    assert_eq!(t.len(), 100);
    // The survivors are the most recent entries, relative order kept.
    for (k, entry) in t.iter().enumerate() {
        assert_eq!(entry, &format!("entry {}", 150 + k));
    }
}

#[test]
fn tail_returns_exactly_min_n_size() {
    let mut buf = LogBuffer::new();
    for i in 0..7 {
        buf.append(format!("{}", i));
    }
    for n in 0..12 {
        let t = buf.tail(n);
        assert_eq!(t.len(), n.min(7));
    }
}
