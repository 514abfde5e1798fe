use etcd_image::{Etcd, EtcdArgs, DEFAULT_IMAGE_NAME, DEFAULT_IMAGE_TAG, ETCD_PORT};

#[test]
fn etcd_default() {
    let etcd = Etcd::default();
    assert_eq!(etcd.image_name(), DEFAULT_IMAGE_NAME);
    assert_eq!(etcd.image_tag(), DEFAULT_IMAGE_TAG);
}

#[test]
fn etcd_custom_image_tag() {
    let image_tag: &str = "v3.4.10";

    let etcd = Etcd::new(image_tag);
    assert_eq!(etcd.image_name(), DEFAULT_IMAGE_NAME);
    assert_eq!(etcd.image_tag(), image_tag);
}

#[test]
fn etcd_custom_image_name() {
    let image_name: &str = "quay.io/coreos/etcd";

    let etcd = Etcd::default().name(image_name);
    assert_eq!(etcd.image_name(), image_name);
    assert_eq!(etcd.image_tag(), DEFAULT_IMAGE_TAG);
}

#[test]
fn builtin_coordinates() {
    assert_eq!(DEFAULT_IMAGE_NAME, "gcr.io/etcd-development/etcd");
    assert_eq!(DEFAULT_IMAGE_TAG, "v3.5.13");
    assert_eq!(ETCD_PORT, 2379);
    let etcd = Etcd::default();
    assert_eq!(etcd.image_name(), "gcr.io/etcd-development/etcd");
    assert_eq!(etcd.image_tag(), "v3.5.13");
}

#[test]
fn tag_override_keeps_name() {
    let etcd = Etcd::default().name("quay.io/coreos/etcd").tag("v3.4.10");
    assert_eq!(etcd.image_name(), "quay.io/coreos/etcd");
    assert_eq!(etcd.image_tag(), "v3.4.10");
}

#[test]
fn name_override_keeps_tag() {
    let etcd = Etcd::new("v3.4.10").name("quay.io/coreos/etcd");
    assert_eq!(etcd.image_name(), "quay.io/coreos/etcd");
    assert_eq!(etcd.image_tag(), "v3.4.10");
}

#[test]
fn later_override_wins() {
    let etcd = Etcd::new("v3.4.10").tag("v3.5.0").tag("v3.5.1");
    assert_eq!(etcd.image_name(), "gcr.io/etcd-development/etcd");
    assert_eq!(etcd.image_tag(), "v3.5.1");
}

#[test]
fn tag_is_taken_as_given() {
    let etcd = Etcd::new("not a release");
    assert_eq!(etcd.image_tag(), "not a release");
    let etcd = Etcd::new("");
    assert_eq!(etcd.image_tag(), "");
    assert_eq!(etcd.image_name(), "gcr.io/etcd-development/etcd");
}

#[test]
fn launch_arguments_are_fixed() {
    let expected = vec![
        "etcd".to_owned(),
        "-advertise-client-urls".to_owned(),
        "http://127.0.0.1:2379".to_owned(),
        "-listen-client-urls".to_owned(),
        "http://0.0.0.0:2379".to_owned(),
    ];
    assert_eq!(EtcdArgs.launch_arguments(), expected);
    assert_eq!(EtcdArgs::default().launch_arguments(), expected);
    assert_eq!(EtcdArgs.clone().launch_arguments().len(), 5);
}

#[test]
fn launch_arguments_name_the_client_port() {
    let args = EtcdArgs.launch_arguments();
    assert_eq!(args[2], format!("http://127.0.0.1:{}", ETCD_PORT));
    assert_eq!(args[4], format!("http://0.0.0.0:{}", ETCD_PORT));
}
