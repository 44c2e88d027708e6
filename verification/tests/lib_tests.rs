use starling::{Error, ErrorKind, Options};

fn assert_clone<T: Clone>() {}
fn assert_send<T: Send>() {}

#[test]
fn error_is_send() {
    assert_send::<Error>();
}

#[test]
fn options_is_send_clone() {
    assert_clone::<Options>();
    assert_send::<Options>();
}

#[test]
fn options_new_has_defaults() {
    let opts = Options::new("path/to/main.js".to_string());
    assert_eq!(opts.main_file(), "path/to/main.js");
    assert_eq!(opts.sync_io_pool_size(), 8);
    assert_eq!(opts.channel_buffer_bytes(), 4096);
    assert!(opts.cpu_pool_size() >= 1);
    assert_eq!(opts.cpu_pool_size(), num_cpus::get());
    // 4096-byte buffers hold 4096 single bytes.
    assert_eq!(opts.buffer_capacity_for::<u8>(), 4096);
}

#[test]
fn options_builders_set_one_field_each() {
    let opts = Options::new("main.js".to_string())
        .sync_io_pool_threads(3)
        .cpu_pool_threads(5)
        .channel_buffer_size(100);
    assert_eq!(opts.sync_io_pool_size(), 3);
    assert_eq!(opts.cpu_pool_size(), 5);
    assert_eq!(opts.main_file(), "main.js");
    assert_eq!(opts.buffer_capacity_for::<u8>(), 100);
    assert_eq!(opts.channel_buffer_bytes(), 100);
    let copy = opts.clone();
    assert_eq!(copy.sync_io_pool_size(), 3);
    assert_eq!(copy.cpu_pool_size(), 5);
    assert_eq!(copy.main_file(), "main.js");
}

#[test]
fn buffer_capacity_divides_by_size() {
    let opts = Options::new("main.js".to_string()).channel_buffer_size(100);
    assert_eq!(opts.buffer_capacity_for::<u64>(), 12);
    assert_eq!(opts.buffer_capacity_for::<[u8; 30]>(), 3);
    // Zero-sized types count as one byte.
    assert_eq!(opts.buffer_capacity_for::<()>(), 100);
    // Never fewer than one.
    assert_eq!(opts.buffer_capacity_for::<[u8; 1000]>(), 1);
}

#[test]
fn error_messages() {
    let cases = vec![
        (ErrorKind::SendError, "send failed because receiver is gone"),
        (ErrorKind::CouldNotCreateJavaScriptRuntime, "Could not create a JavaScript Runtime"),
        (ErrorKind::CouldNotReadValueFromChannel, "Could not read a value from a channel"),
        (ErrorKind::JavaScriptException, "JavaScript exception"),
        (ErrorKind::JavaScriptUnhandledRejectedPromise, "Unhandled, rejected JavaScript promise"),
        (
            ErrorKind::JavaScriptPromiseCollectedWithoutSettling,
            "JavaScript Promise collected without settling",
        ),
        (ErrorKind::Msg("boom".to_string()), "boom"),
        (ErrorKind::Io("disk on fire".to_string()), "disk on fire"),
    ];
    for (kind, text) in cases {
        let e = Error::from_kind(kind);
        assert_eq!(e.message(), text);
    }
}

#[test]
fn error_clone_keeps_message_as_msg() {
    let e = Error::from_kind(ErrorKind::JavaScriptException);
    let c = e.clone();
    match c.kind() {
        ErrorKind::Msg(m) => assert_eq!(m, "JavaScript exception"),
        other => panic!("unexpected kind {:?}", other),
    }
    assert_eq!(c.message(), e.message());
}
