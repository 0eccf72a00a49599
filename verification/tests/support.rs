use cairo::enums::Status;
use cairo::support::{
    write_status, ByteSink, CallbackEnv, MemorySink, RefWriter, SinkFull, Writer,
};

fn env(sink: MemorySink) -> Box<CallbackEnv<MemorySink, SinkFull>> {
    CallbackEnv::new(sink)
}

fn chunks(parts: &[&[u8]]) -> Vec<Vec<u8>> {
    parts.iter().map(|p| p.to_vec()).collect()
}

#[test]
fn fresh_environment_holds_no_error() {
    let env = env(MemorySink::new());
    assert!(env.error.is_none());
    assert!(env.io_error().is_none());
    assert_eq!(env.writer.bytes(), &Vec::<u8>::new());
}

#[test]
fn bytes_arrive_in_order_across_callbacks() {
    let mut bridge = Writer::new(7u32, env(MemorySink::new()));
    assert_eq!(bridge.write_cb(b"%PDF"), Status::Success);
    assert_eq!(bridge.write_cb(b"-1.5"), Status::Success);
    assert_eq!(bridge.write_cb(b""), Status::Success);
    assert_eq!(bridge.write_cb(b"\n"), Status::Success);
    assert_eq!(bridge.writer().bytes(), &b"%PDF-1.5\n".to_vec());
    assert!(bridge.io_error().is_none());
}

#[test]
fn stream_of_n_bytes_yields_exactly_those_bytes() {
    let payload: Vec<u8> = (0..=255u8).cycle().take(1000).collect();
    let cut: Vec<Vec<u8>> = payload.chunks(7).map(|c| c.to_vec()).collect();
    let mut bridge = Writer::new((), env(MemorySink::new()));
    assert_eq!(bridge.stream(&cut), Status::Success);
    let (_surface, env) = bridge.finish();
    assert!(env.error.is_none());
    assert_eq!(env.into_writer().into_bytes(), payload);
}

#[test]
fn chunking_does_not_change_the_stream() {
    let mut one = env(MemorySink::new());
    let mut many = env(MemorySink::new());
    assert_eq!(one.write_chunks(&chunks(&[b"abcdef"])), Status::Success);
    assert_eq!(many.write_chunks(&chunks(&[b"a", b"", b"bcd", b"ef"])), Status::Success);
    assert_eq!(one.writer.bytes(), many.writer.bytes());
}

#[test]
fn failed_write_is_captured_and_reported_as_write_error() {
    let mut bridge = Writer::new((), env(MemorySink::with_limit(5)));
    assert_eq!(bridge.write_cb(b"abc"), Status::Success);
    assert!(bridge.io_error().is_none());
    assert_eq!(bridge.write_cb(b"defg"), Status::WriteError);
    assert_eq!(bridge.io_error(), Some(&SinkFull { refused: 2 }));
    assert_eq!(bridge.writer().bytes(), &b"abcde".to_vec());
}

#[test]
fn output_after_a_failure_is_suppressed() {
    let mut bridge = Writer::new((), env(MemorySink::with_limit(4)));
    let status = bridge.stream(&chunks(&[b"ab", b"cdef", b"gh", b"ij"]));
    assert_eq!(status, Status::WriteError);
    assert_eq!(bridge.writer().bytes(), &b"abcd".to_vec());
    let (_surface, mut env) = bridge.finish();
    assert_eq!(env.take_io_error(), Some(SinkFull { refused: 2 }));
    assert_eq!(env.take_io_error(), None);
    assert_eq!(env.into_writer().into_bytes(), b"abcd".to_vec());
}

#[test]
fn take_io_error_empties_the_slot() {
    let mut bridge = Writer::new((), env(MemorySink::with_limit(0)));
    assert_eq!(bridge.write_cb(b"x"), Status::WriteError);
    assert_eq!(bridge.take_io_error(), Some(SinkFull { refused: 1 }));
    assert_eq!(bridge.take_io_error(), None);
    assert!(bridge.io_error().is_none());
}

#[test]
fn later_failure_replaces_the_held_error() {
    let mut env = env(MemorySink::with_limit(1));
    assert_eq!(env.write(b"abc"), Status::WriteError);
    assert_eq!(env.error, Some(SinkFull { refused: 2 }));
    assert_eq!(env.write(b"abcde"), Status::WriteError);
    assert_eq!(env.error, Some(SinkFull { refused: 5 }));
}

#[test]
fn record_settles_an_outcome() {
    let mut env = env(MemorySink::new());
    assert_eq!(env.record(Ok(())), Status::Success);
    assert!(env.error.is_none());
    assert_eq!(env.record(Err(SinkFull { refused: 3 })), Status::WriteError);
    assert_eq!(env.error, Some(SinkFull { refused: 3 }));
    assert_eq!(env.record(Ok(())), Status::Success);
    assert_eq!(env.error, Some(SinkFull { refused: 3 }));
}

#[test]
fn finish_hands_out_surface_and_sink() {
    let mut bridge = Writer::new(String::from("surface"), env(MemorySink::new()));
    bridge.write_cb(b"tail");
    let (surface, env) = bridge.finish();
    assert_eq!(surface, "surface");
    assert_eq!(env.into_writer().into_bytes(), b"tail".to_vec());
}

#[test]
fn writer_mut_reaches_the_sink() {
    let mut bridge = Writer::new((), env(MemorySink::new()));
    bridge.write_cb(b"ab");
    assert!(bridge.writer_mut().write_all(b"cd").is_ok());
    assert_eq!(bridge.writer().bytes(), &b"abcd".to_vec());
}

#[test]
fn borrowed_sink_is_back_when_the_bridge_is_gone() {
    let mut sink = MemorySink::with_limit(6);
    {
        let callback_env: Box<CallbackEnv<&mut MemorySink, SinkFull>> =
            CallbackEnv::new(&mut sink);
        let mut bridge = RefWriter::new(1u8, callback_env);
        assert_eq!(bridge.write_cb(b"abcd"), Status::Success);
        assert!(bridge.io_error().is_none());
        assert_eq!(bridge.write_cb(b"efgh"), Status::WriteError);
        assert_eq!(bridge.io_error(), Some(&SinkFull { refused: 2 }));
        assert_eq!(bridge.take_io_error(), Some(SinkFull { refused: 2 }));
        assert_eq!(bridge.take_io_error(), None);
        assert_eq!(bridge.surface, 1u8);
    }
    assert_eq!(sink.bytes(), &b"abcdef".to_vec());
}

#[test]
fn memory_sink_with_limit_takes_what_fits() {
    let mut sink = MemorySink::with_limit(3);
    assert_eq!(sink.write_all(b"ab"), Ok(()));
    assert_eq!(sink.write_all(b"cde"), Err(SinkFull { refused: 2 }));
    assert_eq!(sink.write_all(b"f"), Err(SinkFull { refused: 1 }));
    assert_eq!(sink.write_all(b""), Ok(()));
    assert_eq!(sink.into_bytes(), b"abc".to_vec());
}

#[test]
fn outcome_of_a_write_made_elsewhere_is_settled_alike() {
    let mut bridge = Writer::new((), env(MemorySink::new()));
    let outcome = bridge.writer_mut().write_all(b"abc");
    assert_eq!(bridge.record(outcome), Status::Success);
    assert!(bridge.io_error().is_none());
    assert_eq!(bridge.record(Err(SinkFull { refused: 9 })), Status::WriteError);
    assert_eq!(bridge.take_io_error(), Some(SinkFull { refused: 9 }));
    assert_eq!(bridge.writer().bytes(), &b"abc".to_vec());
    assert_eq!(write_status::<SinkFull>(&Ok(())), Status::Success);
    assert_eq!(write_status(&Err(SinkFull { refused: 1 })), Status::WriteError);
}

#[test]
fn any_error_type_can_be_held() {
    let mut held: Box<CallbackEnv<Vec<u8>, String>> = CallbackEnv::new(Vec::new());
    assert_eq!(held.record(Err(String::from("disk full"))), Status::WriteError);
    assert_eq!(held.io_error(), Some(&String::from("disk full")));
    assert_eq!(held.take_io_error(), Some(String::from("disk full")));
    assert_eq!(held.into_writer(), Vec::<u8>::new());
}

#[test]
fn failing_write_replaces_an_older_held_error() {
    let mut bridge = Writer::new((), env(MemorySink::with_limit(4)));
    assert_eq!(bridge.record(Err(SinkFull { refused: 99 })), Status::WriteError);
    let status = bridge.stream(&chunks(&[b"ab", b"cdef", b"gh"]));
    assert_eq!(status, Status::WriteError);
    assert_eq!(bridge.io_error(), Some(&SinkFull { refused: 2 }));
    assert_eq!(bridge.writer().bytes(), &b"abcd".to_vec());

    let mut held = env(MemorySink::with_limit(1));
    assert_eq!(held.record(Err(SinkFull { refused: 99 })), Status::WriteError);
    assert_eq!(held.write_chunks(&chunks(&[b"a", b"", b"bcd"])), Status::WriteError);
    assert_eq!(held.take_io_error(), Some(SinkFull { refused: 3 }));
}

#[test]
fn successful_stream_leaves_a_held_error_alone() {
    let mut held = env(MemorySink::new());
    assert_eq!(held.record(Err(SinkFull { refused: 7 })), Status::WriteError);
    assert_eq!(held.write_chunks(&chunks(&[b"ab", b"cd"])), Status::Success);
    assert_eq!(held.io_error(), Some(&SinkFull { refused: 7 }));
    assert_eq!(held.writer.bytes(), &b"abcd".to_vec());
}
