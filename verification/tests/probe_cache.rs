use hwid_core::probe::{ProbeCache, ProbeError};

fn address_bytes() -> Vec<u8> {
    b"aa:bb:cc:dd:ee:ff\n".to_vec()
}

#[test]
fn trims_address_file_content() {
    let mut cache = ProbeCache::new(String::from("eth0"));
    assert!(cache.lookup().is_none());
    let id = cache.get_or_compute(Ok(address_bytes())).unwrap();
    assert_eq!(id, "aa:bb:cc:dd:ee:ff");
}

#[test]
fn trims_leading_and_trailing_whitespace() {
    let mut cache = ProbeCache::new(String::from("eth0"));
    let id = cache.get_or_compute(Ok(b" \t\r\n00:11:22:33:44:55 \n".to_vec())).unwrap();
    assert_eq!(id, "00:11:22:33:44:55");
}

#[test]
fn whitespace_only_content_yields_empty_value() {
    let mut cache = ProbeCache::new(String::from("eth0"));
    let id = cache.get_or_compute(Ok(b"\n".to_vec())).unwrap();
    assert_eq!(id, "");
}

#[test]
fn memoized_after_first_read() {
    let mut cache = ProbeCache::new(String::from("eth0"));
    let mut reads: u32 = 0;
    let mut values: Vec<String> = Vec::new();
    for _ in 0..5 {
        let id = match cache.lookup() {
            Some(id) => id,
            None => {
                reads += 1;
                cache.get_or_compute(Ok(address_bytes())).unwrap()
            }
        };
        values.push(id);
    }
    assert_eq!(reads, 1);
    assert!(values.iter().all(|v| v == "aa:bb:cc:dd:ee:ff"));
}

#[test]
fn no_negative_caching_failure_then_success() {
    let mut cache = ProbeCache::new(String::from("eth0"));
    let mut reads: u32 = 0;

    assert!(cache.lookup().is_none());
    reads += 1;
    let first = cache.get_or_compute(Err(String::from("no such file or directory")));
    match first {
        Err(ProbeError::ResourceAccess(m)) => {
            assert_eq!(m, "no such file or directory");
        }
        _ => panic!("expected a resource-access failure"),
    }

    // the failure was not cached: the next caller probes again
    assert!(cache.lookup().is_none());
    reads += 1;
    let second = cache.get_or_compute(Ok(address_bytes())).unwrap();
    assert_eq!(second, "aa:bb:cc:dd:ee:ff");
    assert_eq!(reads, 2);

    // and the success is cached
    assert_eq!(cache.lookup().unwrap(), "aa:bb:cc:dd:ee:ff");
}

#[test]
fn invalid_text_is_rejected_and_not_cached() {
    let mut cache = ProbeCache::new(String::from("eth0"));
    let outcome = cache.get_or_compute(Ok(vec![0xff, 0xfe, 0x20]));
    assert!(matches!(outcome, Err(ProbeError::NotText)));
    assert!(cache.lookup().is_none());
    // a later well-formed read still succeeds
    let id = cache.get_or_compute(Ok(address_bytes())).unwrap();
    assert_eq!(id, "aa:bb:cc:dd:ee:ff");
}

#[test]
fn interface_is_the_probe_key() {
    let cache = ProbeCache::new(String::from("wlan0"));
    assert_eq!(cache.interface(), "wlan0");
}

#[test]
fn fifty_concurrent_callers_single_read() {
    let runtime = tokio::runtime::Builder::new_multi_thread()
        .worker_threads(8)
        .build()
        .unwrap();
    let cache = std::sync::Arc::new(tokio::sync::Mutex::new(ProbeCache::new(String::from(
        "eth0",
    ))));
    let reads = std::sync::Arc::new(std::sync::atomic::AtomicU32::new(0));

    let values = runtime.block_on(async {
        let mut handles = Vec::new();
        for _ in 0..50 {
            let cache = cache.clone();
            let reads = reads.clone();
            handles.push(tokio::spawn(async move {
                let mut guard = cache.lock().await;
                match guard.lookup() {
                    Some(id) => id,
                    None => {
                        reads.fetch_add(1, std::sync::atomic::Ordering::SeqCst);
                        guard.get_or_compute(Ok(address_bytes())).unwrap()
                    }
                }
            }));
        }
        let mut values = Vec::new();
        for handle in handles {
            values.push(handle.await.unwrap());
        }
        values
    });

    assert_eq!(reads.load(std::sync::atomic::Ordering::SeqCst), 1);
    assert_eq!(values.len(), 50);
    assert!(values.iter().all(|v| v == "aa:bb:cc:dd:ee:ff"));
}
