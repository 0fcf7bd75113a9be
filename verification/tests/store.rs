use limitation::store::track;

fn bytes(text: &str) -> Vec<u8> {
    text.as_bytes().to_vec()
}

#[test]
fn track_sends_set_incr_and_ttl() {
    let pipeline = track("tok1", 10);
    let expected = "*6\r\n$3\r\nSET\r\n$4\r\ntok1\r\n$1\r\n0\r\n$2\r\nEX\r\n$2\r\n10\r\n$2\r\nNX\r\n\
                    *2\r\n$4\r\nINCR\r\n$4\r\ntok1\r\n\
                    *2\r\n$3\r\nTTL\r\n$4\r\ntok1\r\n";
    assert_eq!(pipeline.get_packed_pipeline(false), bytes(expected));
}

#[test]
fn track_as_a_transaction_is_wrapped_in_multi_and_exec() {
    let pipeline = track("tok1", 10);
    let expected = "*1\r\n$5\r\nMULTI\r\n\
                    *6\r\n$3\r\nSET\r\n$4\r\ntok1\r\n$1\r\n0\r\n$2\r\nEX\r\n$2\r\n10\r\n$2\r\nNX\r\n\
                    *2\r\n$4\r\nINCR\r\n$4\r\ntok1\r\n\
                    *2\r\n$3\r\nTTL\r\n$4\r\ntok1\r\n\
                    *1\r\n$4\r\nEXEC\r\n";
    assert_eq!(pipeline.get_packed_pipeline(true), bytes(expected));
}

#[test]
fn track_writes_the_period_in_decimal() {
    let pipeline = track("k", 3600);
    let packed = pipeline.get_packed_pipeline(false);
    let expected = "*6\r\n$3\r\nSET\r\n$1\r\nk\r\n$1\r\n0\r\n$2\r\nEX\r\n$4\r\n3600\r\n$2\r\nNX\r\n\
                    *2\r\n$4\r\nINCR\r\n$1\r\nk\r\n\
                    *2\r\n$3\r\nTTL\r\n$1\r\nk\r\n";
    assert_eq!(packed, bytes(expected));
}

#[test]
fn track_writes_the_largest_period() {
    let pipeline = track("k", u64::MAX);
    let packed = String::from_utf8(pipeline.get_packed_pipeline(false)).unwrap();
    assert!(packed.contains("$2\r\nEX\r\n$20\r\n18446744073709551615\r\n$2\r\nNX\r\n"));
}

#[test]
fn track_takes_the_key_as_it_is() {
    let pipeline = track("token MY TOKEN é", 1);
    let packed = pipeline.get_packed_pipeline(false);
    let key = "token MY TOKEN é";
    let bulk = format!("${}\r\n{}\r\n", key.len(), key);
    let text = String::from_utf8(packed).unwrap();
    assert_eq!(text.matches(bulk.as_str()).count(), 3);
}

#[test]
fn track_with_an_empty_key_still_sends_three_commands() {
    let pipeline = track("", 1);
    let expected = "*6\r\n$3\r\nSET\r\n$0\r\n\r\n$1\r\n0\r\n$2\r\nEX\r\n$1\r\n1\r\n$2\r\nNX\r\n\
                    *2\r\n$4\r\nINCR\r\n$0\r\n\r\n\
                    *2\r\n$3\r\nTTL\r\n$0\r\n\r\n";
    assert_eq!(pipeline.get_packed_pipeline(false), bytes(expected));
}
