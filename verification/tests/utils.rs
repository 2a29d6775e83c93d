use gprocess::api::Stream;
use gprocess::signal::Signal;
use gprocess::utils::{int_to_signal, int_to_stream_type, MAX_PACKET_SIZE};

#[test]
fn stream_type_defaults_to_inherit() {
    assert_eq!(int_to_stream_type(None), Stream::Inherit);
}

#[test]
fn stream_type_from_wire_numbers() {
    assert_eq!(int_to_stream_type(Some(0)), Stream::Inherit);
    assert_eq!(int_to_stream_type(Some(1)), Stream::Null);
    assert_eq!(int_to_stream_type(Some(2)), Stream::Pipe);
}

#[test]
fn stream_round_trip() {
    for s in [Stream::Inherit, Stream::Null, Stream::Pipe] {
        assert_eq!(Stream::from_i32(s.as_i32()), Some(s));
        assert_eq!(int_to_stream_type(Some(s.as_i32())), s);
    }
    assert_eq!(Stream::from_i32(3), None);
    assert_eq!(Stream::from_i32(-1), None);
}

#[test]
fn known_signal_numbers() {
    assert_eq!(int_to_signal(1), Signal::SIGHUP);
    assert_eq!(int_to_signal(2), Signal::SIGINT);
    assert_eq!(int_to_signal(9), Signal::SIGKILL);
    assert_eq!(int_to_signal(15), Signal::SIGTERM);
    assert_eq!(int_to_signal(17), Signal::SIGCHLD);
    assert_eq!(int_to_signal(19), Signal::SIGSTOP);
    assert_eq!(int_to_signal(31), Signal::SIGSYS);
}

#[test]
fn unknown_signal_numbers_kill() {
    for n in [0, 16, 30, 32, 64, -1, i32::MAX, i32::MIN] {
        assert_eq!(int_to_signal(n), Signal::SIGKILL);
    }
}

#[test]
fn signal_round_trip() {
    let mut seen = 0;
    for n in 1..=31 {
        let s = int_to_signal(n);
        if n == 16 || n == 30 {
            assert_eq!(s, Signal::SIGKILL);
        } else {
            assert_eq!(s.number(), n);
            assert_eq!(int_to_signal(s.number()), s);
            seen += 1;
        }
    }
    assert_eq!(seen, 29);
}

#[test]
fn max_packet_size_is_one_mebibyte() {
    assert_eq!(MAX_PACKET_SIZE, 1024 * 1024);
}
