use wascc_provider::provider::{
    actor_removal_failure, add_log_capability, can_schedule, http_capabilities, pod_handle_for_logs,
    pod_key, settle_delete, take_for_delete, ActorStopper, ProviderError, HTTP_CAPABILITY,
    LOG_CAPABILITY,
};
use wascc_provider::registry::Registry;
use wascc_provider::startup::{container_start_failure, pod_start_failure, PodStartup};

fn selector(arch: &str) -> Registry<String> {
    let mut s = Registry::new();
    s.insert("beta.kubernetes.io/arch".to_string(), arch.to_string());
    s
}

#[test]
fn test_can_schedule() {
    // a pod without node selector is not for this provider
    assert!(!can_schedule(None));

    let s = selector("wasm32-wascc");
    assert!(can_schedule(Some(&s)));

    let s = selector("amd64");
    assert!(!can_schedule(Some(&s)));
}

#[test]
fn test_can_schedule_needs_the_arch_key() {
    let mut s = Registry::new();
    s.insert("kubernetes.io/arch".to_string(), "wasm32-wascc".to_string());
    assert!(!can_schedule(Some(&s)));
    let empty: Registry<String> = Registry::new();
    assert!(!can_schedule(Some(&empty)));
}

#[test]
fn test_pod_key() {
    assert_eq!(pod_key("default", "greet-wasmcloud"), "default:greet-wasmcloud");
    assert_eq!(pod_key("", ""), ":");
}

#[test]
fn test_pod_key_unique() {
    assert_ne!(pod_key("default", "a"), pod_key("other", "a"));
    assert_ne!(pod_key("default", "a"), pod_key("default", "b"));
    assert_ne!(pod_key("ab", "c"), pod_key("a", "bc"));
    // a colon inside a namespace is where keys can clash
    assert_eq!(pod_key("a:b", "c"), pod_key("a", "b:c"));
}

#[test]
fn test_logs_lookup() {
    let mut handles: Registry<u32> = Registry::new();
    handles.insert(pod_key("default", "greet"), 7);
    match pod_handle_for_logs(&mut handles, "default", "greet") {
        Ok(h) => {
            assert_eq!(*h, 7);
            *h = 8;
        }
        Err(_) => panic!("the pod is known"),
    }
    assert_eq!(handles.get("default:greet"), Some(&8));
    match pod_handle_for_logs(&mut handles, "default", "missing") {
        Ok(_) => panic!("the pod is unknown"),
        Err(ProviderError::PodNotFound { pod_name }) => assert_eq!(pod_name, "missing"),
    }
    match pod_handle_for_logs(&mut handles, "other", "greet") {
        Ok(_) => panic!("the pod lives in another namespace"),
        Err(ProviderError::PodNotFound { pod_name }) => assert_eq!(pod_name, "greet"),
    }
}

#[test]
fn test_delete_failed_stop_keeps_pod() {
    let mut handles: Registry<u32> = Registry::new();
    handles.insert(pod_key("default", "greet"), 7);
    handles.insert(pod_key("default", "other"), 9);
    let h = take_for_delete(&mut handles, "default", "greet").expect("the pod is known");
    assert_eq!(h, 7);
    assert!(!handles.contains_key("default:greet"));
    settle_delete(&mut handles, "default", "greet", h, false);
    assert_eq!(handles.get("default:greet"), Some(&7));
    assert_eq!(handles.get("default:other"), Some(&9));
    assert_eq!(handles.len(), 2);
}

#[test]
fn test_delete_stopped_pod_is_gone() {
    let mut handles: Registry<u32> = Registry::new();
    handles.insert(pod_key("default", "greet"), 7);
    let h = take_for_delete(&mut handles, "default", "greet").expect("the pod is known");
    settle_delete(&mut handles, "default", "greet", h, true);
    assert!(!handles.contains_key("default:greet"));
    assert_eq!(handles.len(), 0);
    assert!(take_for_delete(&mut handles, "default", "greet").is_none());
}

#[test]
fn test_actor_removal_failure() {
    let stopper = ActorStopper { key: "MB4OLDIC3TCZ4Q4TGGOVAZC43VXFE2JQVRAXQMQFXUCREOOFEKOKZTY2".to_string() };
    assert_eq!(stopper.key.len(), 56);
    assert_eq!(actor_removal_failure("NoSuchActor"), "unable to remove actor: NoSuchActor");
}

#[test]
fn test_capabilities_of_an_http_actor() {
    let mut env = Registry::new();
    env.insert("PORT".to_string(), "8080".to_string());
    let mut caps = http_capabilities(env);
    assert_eq!(caps.len(), 1);
    assert_eq!(caps[0].name, HTTP_CAPABILITY);
    assert_eq!(caps[0].name, "wascc:http_server");
    assert_eq!(caps[0].env.get("PORT"), Some(&"8080".to_string()));
    add_log_capability(&mut caps, "/var/log/actor.log".to_string());
    assert_eq!(caps.len(), 2);
    assert_eq!(caps[0].name, "wascc:http_server");
    assert_eq!(caps[1].name, LOG_CAPABILITY);
    assert_eq!(caps[1].name, "wascc:logging");
    assert_eq!(caps[1].env.len(), 1);
    assert_eq!(caps[1].env.get("LOG_PATH"), Some(&"/var/log/actor.log".to_string()));
}

#[test]
fn test_pod_startup_order() {
    let mut modules = Registry::new();
    modules.insert("first".to_string(), vec![1u8]);
    modules.insert("second".to_string(), vec![2u8]);
    let mut startup: PodStartup<Vec<u8>, u32> =
        PodStartup::new(vec!["first".to_string(), "second".to_string()], modules);

    assert!(startup.next_module_ready());
    let (name, module) = startup.next_launch().expect("a container is left");
    assert_eq!(name, "first");
    assert_eq!(module, vec![1u8]);
    startup.record_running(name, 10);

    assert!(startup.next_module_ready());
    let (name, module) = startup.next_launch().expect("a container is left");
    assert_eq!(name, "second");
    assert_eq!(module, vec![2u8]);
    startup.record_running(name, 20);

    assert!(startup.next_module_ready());
    assert!(startup.next_launch().is_none());
    let running = startup.into_running();
    assert_eq!(running.len(), 2);
    assert_eq!(running.get("first"), Some(&10));
    assert_eq!(running.get("second"), Some(&20));
}

#[test]
fn test_pod_startup_missing_module() {
    let mut modules = Registry::new();
    modules.insert("first".to_string(), vec![1u8]);
    let mut startup: PodStartup<Vec<u8>, u32> =
        PodStartup::new(vec!["first".to_string(), "second".to_string()], modules);
    assert!(startup.next_module_ready());
    let (name, _) = startup.next_launch().expect("a container is left");
    startup.record_running(name, 1);
    assert!(!startup.next_module_ready());
}

#[test]
fn test_pod_startup_failure_messages() {
    assert_eq!(
        container_start_failure("Error loading WASM"),
        "Error while starting container: Error loading WASM"
    );
    assert_eq!(pod_start_failure("Error loading WASM"), "Failed to run pod: Error loading WASM");
}

#[test]
fn test_pod_startup_first_failure_ends_start() {
    let mut modules = Registry::new();
    modules.insert("first".to_string(), vec![1u8]);
    modules.insert("second".to_string(), vec![2u8]);
    let mut startup: PodStartup<Vec<u8>, u32> =
        PodStartup::new(vec!["first".to_string(), "second".to_string()], modules);
    let (name, _) = startup.next_launch().expect("a container is left");
    startup.record_running(name, 10);
    let (name, _) = startup.next_launch().expect("a container is left");
    assert_eq!(name, "second");
    let (status, error) = startup.fail("Error adding actor", "Error adding actor: bad");
    assert_eq!(status, "Error while starting container: Error adding actor");
    assert_eq!(error, "Failed to run pod: Error adding actor: bad");
}
