use etcd_image::{client_url, port_digits};

#[test]
fn port_digits_single_digit() {
    assert_eq!(port_digits(0), "0");
    assert_eq!(port_digits(7), "7");
    assert_eq!(port_digits(9), "9");
}

#[test]
fn port_digits_several_digits() {
    assert_eq!(port_digits(10), "10");
    assert_eq!(port_digits(80), "80");
    assert_eq!(port_digits(2379), "2379");
    assert_eq!(port_digits(10000), "10000");
    assert_eq!(port_digits(65535), "65535");
}

#[test]
fn port_digits_agree_with_std() {
    let mut port: u16 = 0;
    loop {
        assert_eq!(port_digits(port), port.to_string());
        if port == u16::MAX {
            break;
        }
        port += 1;
    }
}

#[test]
fn client_url_joins_host_and_port() {
    assert_eq!(client_url("127.0.0.1", 2379), "http://127.0.0.1:2379");
    assert_eq!(client_url("0.0.0.0", 2379), "http://0.0.0.0:2379");
    assert_eq!(client_url("localhost", 80), "http://localhost:80");
    assert_eq!(client_url("", 0), "http://:0");
}
