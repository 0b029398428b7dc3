use queryable::bytes::{clone_bytes, clone_bytes_list, u128_to_be_bytes, u64_to_be_bytes, zero_bytes};
use queryable::call_trace_store::{
    decode_key, encode_key, get_call_traces, get_read_limit, KeyError, StoreError,
};
use queryable::chain::{CallTrace, CallType};

fn traces(function: &str) -> Vec<CallTrace> {
    vec![CallTrace {
        depth: 0,
        call_type: CallType::Call,
        module_id: None,
        function: function.as_bytes().to_vec(),
        ty_args: vec![],
        args_types: vec![],
        args_values: vec![],
        gas_used: 0,
        err: None,
    }]
}

#[test]
fn numbers_are_written_most_significant_byte_first() {
    assert_eq!(u64_to_be_bytes(0), vec![0; 8]);
    assert_eq!(u64_to_be_bytes(258), vec![0, 0, 0, 0, 0, 0, 1, 2]);
    assert_eq!(u64_to_be_bytes(u64::MAX), vec![0xFF; 8]);
    assert_eq!(u64_to_be_bytes(0x0102030405060708), 0x0102030405060708u64.to_be_bytes().to_vec());
    assert_eq!(u128_to_be_bytes(1), 1u128.to_be_bytes().to_vec());
    assert_eq!(u128_to_be_bytes(u128::MAX), vec![0xFF; 16]);
    assert_eq!(
        u128_to_be_bytes(0x0102030405060708090A0B0C0D0E0F10),
        vec![1, 2, 3, 4, 5, 6, 7, 8, 9, 10, 11, 12, 13, 14, 15, 16]
    );
}

#[test]
fn byte_strings_are_copied() {
    assert_eq!(clone_bytes(&vec![1, 2, 3]), vec![1, 2, 3]);
    assert_eq!(clone_bytes(&vec![]), Vec::<u8>::new());
    assert_eq!(clone_bytes_list(&vec![vec![1], vec![], vec![2, 3]]), vec![vec![1], vec![], vec![2, 3]]);
    assert_eq!(zero_bytes(3), vec![0, 0, 0]);
    assert_eq!(zero_bytes(0), Vec::<u8>::new());
}

#[test]
fn key_of_a_version_is_its_eight_bytes() {
    assert_eq!(encode_key(0), vec![0; 8]);
    assert_eq!(encode_key(258), vec![0, 0, 0, 0, 0, 0, 1, 2]);
    assert_eq!(encode_key(u64::MAX), vec![0xFF; 8]);
}

#[test]
fn key_is_decoded_to_its_version() {
    assert_eq!(decode_key(&[0, 0, 0, 0, 0, 0, 1, 2]), Ok(258));
    assert_eq!(decode_key(&[0x00, 0x03, 0x43, 0x95, 0x4d, 0x60, 0x86, 0x83]), Ok(918733457491587));
    assert_eq!(decode_key(&[0xFF; 8]), Ok(u64::MAX));
    for version in [0u64, 1, 255, 256, 1 << 32, u64::MAX - 1] {
        assert_eq!(decode_key(&encode_key(version)), Ok(version));
    }
}

#[test]
fn key_of_another_length_is_refused() {
    assert_eq!(decode_key(&[]), Err(KeyError::WrongLength));
    assert_eq!(decode_key(&[0; 7]), Err(KeyError::WrongLength));
    assert_eq!(decode_key(&[0; 9]), Err(KeyError::WrongLength));
}

#[test]
fn keys_sort_as_versions_do() {
    let versions = [0u64, 1, 255, 256, 65535, 65536, 1 << 40, u64::MAX];
    for pair in versions.windows(2) {
        assert!(encode_key(pair[0]) < encode_key(pair[1]));
    }
}

#[test]
fn read_limit_is_bounded_by_the_limit_and_by_the_ledger() {
    assert_eq!(get_read_limit(0, 0, 100), 0);
    assert_eq!(get_read_limit(100, 10, 100), 0);
    assert_eq!(get_read_limit(101, 10, 100), 0);
    assert_eq!(get_read_limit(0, 100, 0), 0);
    assert_eq!(get_read_limit(0, 10, 100), 10);
    assert_eq!(get_read_limit(95, 10, 100), 6);
    assert_eq!(get_read_limit(99, 10, 100), 2);
    assert_eq!(get_read_limit(0, 100, 1), 2);
    assert_eq!(get_read_limit(0, u64::MAX, u64::MAX), u64::MAX);
    assert_eq!(get_read_limit(0, 5, u64::MAX), 5);
}

#[test]
fn range_read_returns_the_payloads_in_order() {
    let entries = vec![(5, traces("a")), (6, traces("b")), (7, traces("c")), (8, traces("d"))];
    assert_eq!(get_call_traces(5, 3, 100, entries.clone()), Ok(vec![traces("a"), traces("b"), traces("c")]));
    assert_eq!(get_call_traces(5, 4, 7, entries.clone()), Ok(vec![traces("a"), traces("b"), traces("c")]));
    assert_eq!(get_call_traces(5, 1, 100, entries), Ok(vec![traces("a")]));
}

#[test]
fn range_read_of_nothing_is_empty() {
    let entries = vec![(0, traces("test"))];
    assert_eq!(get_call_traces(0, 0, 100, entries.clone()), Ok(vec![]));
    assert_eq!(get_call_traces(0, 100, 0, entries.clone()), Ok(vec![]));
    assert_eq!(get_call_traces(7, 100, 3, entries), Ok(vec![]));
    assert_eq!(get_call_traces(0, 0, 0, Vec::<(u64, Vec<CallTrace>)>::new()), Ok(vec![]));
}

#[test]
fn range_read_reports_the_first_missing_version() {
    let entries = vec![(5, traces("a")), (6, traces("b")), (8, traces("d"))];
    assert_eq!(
        get_call_traces(5, 4, 100, entries.clone()),
        Err(StoreError::Missing { expected: 7, found: Some(8) })
    );
    assert_eq!(
        get_call_traces(4, 2, 100, entries.clone()),
        Err(StoreError::Missing { expected: 4, found: Some(5) })
    );
    assert_eq!(
        get_call_traces(5, 2, 100, entries[..1].to_vec()),
        Err(StoreError::Missing { expected: 6, found: None })
    );
    assert_eq!(
        get_call_traces(0, 100, 1, vec![(0, traces("test"))]),
        Err(StoreError::Missing { expected: 1, found: None })
    );
    assert_eq!(
        get_call_traces(0, 1, 1, Vec::<(u64, Vec<CallTrace>)>::new()),
        Err(StoreError::Missing { expected: 0, found: None })
    );
}

/// What a store holds, in the order of its keys.
struct Stored {
    entries: Vec<(Vec<u8>, Vec<CallTrace>)>,
}

impl Stored {
    fn put(&mut self, version: u64, call_traces: &Vec<CallTrace>) {
        self.entries.push((encode_key(version), call_traces.clone()));
        self.entries.sort_by(|a, b| a.0.cmp(&b.0));
    }

    fn prune(&mut self, begin: u64, end: u64) {
        self.entries.retain(|entry| {
            let version = decode_key(&entry.0).unwrap();
            version < begin || version >= end
        });
    }

    fn from(&self, start_version: u64) -> Vec<(u64, Vec<CallTrace>)> {
        self.entries
            .iter()
            .map(|entry| (decode_key(&entry.0).unwrap(), entry.1.clone()))
            .filter(|entry| entry.0 >= start_version)
            .collect()
    }
}

#[test]
fn test_put_get() {
    let mut store = Stored { entries: vec![] };
    let call_traces = traces("test");
    store.put(0, &call_traces);
    store.put(1, &traces("next"));

    let fetched_call_traces = get_call_traces(0, 1, 1, store.from(0)).unwrap();

    assert_eq!(fetched_call_traces.len(), 1);

    assert_eq!(fetched_call_traces.get(0).unwrap(), &call_traces);

    store.prune(0, 100);

    let fetched_call_traces = get_call_traces(0, 100, 0, store.from(0)).unwrap();

    assert_eq!(fetched_call_traces.len(), 0);
    assert_eq!(
        get_call_traces(0, 100, 1, store.from(0)),
        Err(StoreError::Missing { expected: 0, found: None })
    );
}
