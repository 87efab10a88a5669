//! Checks of the per-resource endpoint builders and JSON option bodies.

use shiplift::container::{ContainerFilter, ContainerListOptions, LogsOptions, RmContainerOptions};
use shiplift::exec::{ExecContainerOptions, ExecResizeOptions};
use shiplift::network::{ContainerConnectionOptions, NetworkCreateOptions};
use shiplift::rep::ContainerConfig;
use shiplift::volume::VolumeCreateOptions;
use shiplift::Docker;

#[test]
fn container_endpoints() {
    let docker = Docker::new();
    let containers = docker.containers();
    let c = containers.get("abc123");
    assert_eq!(c.id(), "abc123");
    assert_eq!(c.inspect_endpoint(), "/containers/abc123/json");
    assert_eq!(c.start_endpoint(), "/containers/abc123/start");
    assert_eq!(c.stop_endpoint(None), "/containers/abc123/stop");
    assert_eq!(c.stop_endpoint(Some(30)), "/containers/abc123/stop?t=30");
    assert_eq!(c.kill_endpoint(Some("SIGTERM")), "/containers/abc123/kill?signal=SIGTERM");
    assert_eq!(c.rename_endpoint("new name"), "/containers/abc123/rename?name=new+name");
    assert_eq!(c.wait_endpoint(), "/containers/abc123/wait");
    assert_eq!(c.delete_endpoint(), "/containers/abc123");
    assert_eq!(
        c.attach_endpoint(),
        "/containers/abc123/attach?stream=1&stdout=1&stderr=1&stdin=1"
    );
    assert_eq!(c.exec_endpoint(), "/containers/abc123/exec");
    assert_eq!(c.copy_from_endpoint("/tmp/x"), "/containers/abc123/archive?path=%2Ftmp%2Fx");

    let logs = LogsOptions::builder().stdout(true).build();
    assert_eq!(c.logs_endpoint(&logs), "/containers/abc123/logs?stdout=true");
    let none = LogsOptions::default();
    assert_eq!(c.logs_endpoint(&none), "/containers/abc123/logs");

    let rm = RmContainerOptions::builder().force(true).build();
    assert_eq!(c.remove_endpoint(&rm), "/containers/abc123?force=true");
}

#[test]
fn list_and_filter_options() {
    let docker = Docker::new();
    let containers = docker.containers();
    let opts = ContainerListOptions::builder().all().build();
    assert_eq!(containers.list_endpoint(&opts), "/containers/json?all=true");

    let filtered = ContainerListOptions::builder()
        .filter(vec![ContainerFilter::ExitCode(1)])
        .build();
    let q = filtered.serialize().unwrap();
    assert_eq!(q, "filters=%7B%22exit%22%3A%5B%221%22%5D%7D");
}

#[test]
fn exec_options_body() {
    let opts = ExecContainerOptions::builder()
        .cmd(vec!["ls", "-l"])
        .env(vec!["VAR=value"])
        .attach_stdout(true)
        .attach_stderr(true)
        .build();
    assert_eq!(
        opts.serialize().unwrap(),
        r#"{"AttachStderr":true,"AttachStdout":true,"Cmd":["ls","-l"],"Env":["VAR=value"]}"#
    );

    let mut resize = ExecResizeOptions::builder();
    let resize = resize.height(50).build();
    assert_eq!(resize.serialize().unwrap(), r#"{"Name":50}"#);
}

#[test]
fn exec_endpoints() {
    let docker = Docker::new();
    let e = shiplift::Exec::get(&docker, "deadbeef");
    assert_eq!(e.start_endpoint(), "/exec/deadbeef/start");
    assert_eq!(e.inspect_endpoint(), "/exec/deadbeef/json");
    assert_eq!(e.resize_endpoint(), "/exec/deadbeef/resize");
}

#[test]
fn network_and_volume_options() {
    let net = NetworkCreateOptions::builder("net1").driver("bridge").build();
    assert_eq!(net.serialize().unwrap(), r#"{"Driver":"bridge","Name":"net1"}"#);

    let conn = ContainerConnectionOptions::builder("abc").build();
    assert_eq!(conn.serialize().unwrap(), r#"{"Container":"abc"}"#);

    let mut vb = VolumeCreateOptions::builder();
    let vol = vb.name("data").build();
    assert_eq!(vol.serialize().unwrap(), r#"{"Name":"data"}"#);

    let docker = Docker::new();
    let networks = docker.networks();
    assert_eq!(networks.create_endpoint(), "/networks/create");
    let n = networks.get("n1");
    assert_eq!(n.connect_endpoint(), "/networks/n1/connect");
    assert_eq!(n.disconnect_endpoint(), "/networks/n1/disconnect");
    let volumes = docker.volumes();
    assert_eq!(volumes.list_endpoint(), "/volumes");
    assert_eq!(volumes.get("data").delete_endpoint(), "/volumes/data");
}

#[test]
fn image_endpoints() {
    let docker = Docker::new();
    let images = docker.images();
    let img = images.get("busybox");
    assert_eq!(img.inspect_endpoint(), "/images/busybox/json");
    assert_eq!(img.history_endpoint(), "/images/busybox/history");
    assert_eq!(img.delete_endpoint(), "/images/busybox");
    assert_eq!(images.search_endpoint("rust"), "/images/search?term=rust");
    assert_eq!(images.export_endpoint(vec!["a", "b"]), "/images/get?names=a&names=b");
    assert_eq!(images.import_endpoint(), "/images/load");
}

#[test]
fn container_config_env() {
    let config = ContainerConfig {
        hostname: String::new(),
        domainname: String::new(),
        user: String::new(),
        attach_stdin: false,
        attach_stdout: false,
        attach_stderr: false,
        exposed_ports: None,
        tty: false,
        open_stdin: false,
        stdin_once: false,
        env: Some(vec!["PATH=/usr/bin".to_string(), "A=b=c".to_string()]),
        cmd: None,
        healtcheck: None,
        args_escaped: None,
        image: "busybox".to_string(),
        volumes: None,
        working_dir: String::new(),
        entrypoint: None,
        network_disabled: None,
        mac_address: None,
        on_build: None,
        labels: None,
        stop_signal: None,
        stop_timeout: None,
        shell: None,
    };
    let env = config.env();
    assert_eq!(
        env,
        vec![
            ("PATH".to_string(), "/usr/bin".to_string()),
            ("A".to_string(), "b".to_string()),
        ]
    );
}

#[test]
fn json_escaping() {
    let opts = NetworkCreateOptions::builder("a\"b\\c\nd").build();
    assert_eq!(opts.serialize().unwrap(), "{\"Name\":\"a\\\"b\\\\c\\nd\"}");
}
