use power_stats::args::{Args, ArgsError};

fn base_args() -> Args {
    Args {
        connection_string: "postgres://localhost/db".to_string(),
        zmq_endpoint: None,
        zmq_host: "127.0.0.1".to_string(),
        zmq_port: None,
        zmq_topic: "topic".to_string(),
    }
}

#[test]
fn explicit_endpoint_wins() {
    let mut args = base_args();
    args.zmq_endpoint = Some("tcp://somewhere:1234".to_string());
    args.zmq_port = Some(5557);
    assert_eq!(args.resolve_endpoint(), Ok("tcp://somewhere:1234".to_string()));
}

#[test]
fn host_and_port_are_combined() {
    let mut args = base_args();
    args.zmq_host = "10.0.0.7".to_string();
    args.zmq_port = Some(5557);
    assert_eq!(args.resolve_endpoint(), Ok("tcp://10.0.0.7:5557".to_string()));
}

#[test]
fn small_ports_format_without_padding() {
    let mut args = base_args();
    args.zmq_port = Some(7);
    assert_eq!(args.resolve_endpoint(), Ok("tcp://127.0.0.1:7".to_string()));
    args.zmq_port = Some(65535);
    assert_eq!(args.resolve_endpoint(), Ok("tcp://127.0.0.1:65535".to_string()));
}

#[test]
fn neither_endpoint_nor_port_is_an_error() {
    let args = base_args();
    let err = args.resolve_endpoint().unwrap_err();
    assert_eq!(err, ArgsError::EndpointUnderspecified);
    assert_eq!(
        err.message(),
        "Either --zmq-endpoint or both --zmq-host and --zmq-port must be provided"
    );
}
