use operator_framework::container::{
    ApplyContainer, Container, Deployment, PodSpec, RemoveContainer, SetArgs, SetCommand,
};
use operator_framework::env::{ApplyEnvironmentVariable, EnvVar};
use operator_framework::ports::ApplyPort;
use operator_framework::resources::SetResources;
use operator_framework::volumes::{ApplyVolume, ApplyVolumeMount, DropVolume, DropVolumeMount};

#[test]
fn args_test() {
    let mut container = Container {
        ..Default::default()
    };
    container.command(vec!["foo".to_string(), "bar".to_string()]);
    container.args(vec!["foo".to_string(), "bar".to_string()]);
    assert_eq!(container.command, Some(vec!["foo".to_string(), "bar".to_string()]));
    assert_eq!(container.args, Some(vec!["foo".to_string(), "bar".to_string()]));
}

/// test apply on different targets
#[test]
fn test_apply() {
    let mut d = Deployment::default();
    d.apply_container("foo", |c| c);

    fn test(dm: &mut Deployment) {
        dm.apply_container("foo", |c| c);
    }

    test(&mut d);

    let spec = d.spec.unwrap();
    let pod_spec = spec.template.spec.unwrap();
    assert_eq!(1, pod_spec.containers.len());
    assert_eq!("foo", pod_spec.containers[0].name);
}

#[test]
fn env_add_set_drop() {
    let mut container = Container::default();
    container.add_env("A", "1".to_string());
    container.add_env("B", "2".to_string());
    container.add_env("A", "3".to_string());

    let env = container.env.clone().unwrap();
    assert_eq!(2, env.len());
    assert_eq!("A", env[0].name);
    assert_eq!(Some("3".to_string()), env[0].value);
    assert_eq!("B", env[1].name);

    container.set_env("B", None::<String>);
    let env = container.env.clone().unwrap();
    assert_eq!(1, env.len());
    assert_eq!("A", env[0].name);

    container.drop_env("A");
    assert_eq!(0, container.env.unwrap().len());
}

#[test]
fn env_from_secret() {
    let mut envs: Vec<EnvVar> = Vec::new();
    envs.add_env_from_secret("CREDS", "my-secret".to_string(), "password".to_string());
    assert_eq!(1, envs.len());
    assert_eq!("CREDS", envs[0].name);
    assert_eq!(None, envs[0].value);
    let source = envs[0].value_from.as_ref().unwrap();
    let selector = source.secret_key_ref.as_ref().unwrap();
    assert_eq!(Some("my-secret".to_string()), selector.name);
    assert_eq!("password", selector.key);
}

#[test]
fn env_from_field_path() {
    let mut container = Container::default();
    container.add_env_from_field_path("NODE", "spec.nodeName".to_string());
    let env = container.env.unwrap();
    let source = env[0].value_from.as_ref().unwrap();
    assert_eq!("spec.nodeName", source.field_ref.as_ref().unwrap().field_path);
}

#[test]
fn ports_add() {
    let mut container = Container::default();
    container.add_port("http", 8080, None);
    container.add_port("https", 8443, Some("TCP".to_string()));
    container.add_port("http", 8081, None);

    let ports = container.ports.unwrap();
    assert_eq!(2, ports.len());
    assert_eq!(8081, ports[0].container_port);
    assert_eq!(Some("http".to_string()), ports[0].name);
    assert_eq!(8443, ports[1].container_port);
    assert_eq!(Some("TCP".to_string()), ports[1].protocol);
}

#[test]
fn volumes_apply_and_drop() {
    let mut pod_spec = PodSpec::default();
    pod_spec.apply_volume("data", |v| v);
    pod_spec.apply_volume("logs", |v| v);
    assert_eq!(2, pod_spec.volumes.as_ref().unwrap().len());

    assert!(pod_spec.drop_volume("data"));
    assert!(!pod_spec.drop_volume("data"));
    let volumes = pod_spec.volumes.as_ref().unwrap();
    assert_eq!(1, volumes.len());
    assert_eq!("logs", volumes[0].name);
}

#[test]
fn volume_mount_simple() {
    let mut container = Container::default();
    container.apply_volume_mount_simple("data", "/var/lib/data", true);

    let mounts = container.volume_mounts.clone().unwrap();
    assert_eq!(1, mounts.len());
    assert_eq!("data", mounts[0].name);
    assert_eq!("/var/lib/data", mounts[0].mount_path);
    assert_eq!(Some(true), mounts[0].read_only);
    assert_eq!(None, mounts[0].sub_path);

    assert!(container.drop_volume_mount("data"));
    assert!(!container.drop_volume_mount("data"));
}

#[test]
fn resources_set_and_remove() {
    let mut container = Container::default();
    container.set_resources("cpu", Some("100m".to_string()), Some("200m".to_string()));

    let resources = container.resources.clone().unwrap();
    assert_eq!(vec![("cpu".to_string(), "100m".to_string())], resources.requests.unwrap());
    assert_eq!(vec![("cpu".to_string(), "200m".to_string())], resources.limits.unwrap());

    container.set_resources("cpu", Some("150m".to_string()), None::<String>);
    let resources = container.resources.clone().unwrap();
    assert_eq!(vec![("cpu".to_string(), "150m".to_string())], resources.requests.unwrap());
    assert_eq!(0, resources.limits.unwrap().len());
}

#[test]
fn remove_containers_by_predicate() {
    let mut containers: Vec<Container> = Vec::new();
    containers.apply_container("a", |c| c);
    containers.apply_container("b", |c| c);
    containers.apply_container("ab", |c| c);

    let n = containers.remove_containers(|c| c.name.starts_with('a'));
    assert_eq!(2, n);
    assert_eq!(1, containers.len());
    assert_eq!("b", containers[0].name);
}

#[test]
fn remove_container_by_name_works() {
    let mut template = operator_framework::container::PodTemplateSpec::default();
    template.apply_container("a", |c| c);
    template.apply_container("b", |c| c);

    assert!(template.remove_container_by_name("a"));
    assert!(!template.remove_container_by_name("a"));
    let spec = template.spec.unwrap();
    assert_eq!(1, spec.containers.len());
    assert_eq!("b", spec.containers[0].name);
}
