use wasi_messaging::bindings::{connect, drop_client, sending_client};
use wasi_messaging::engine::{
    adapter_name, create_component, create_engine, encode_component, engine_settings, ComponentError,
};
use wasi_messaging::guest::{configure, default_channel, handler, Error as GuestError};
use wasi_messaging::host::{
    build_client, client_of, drop_client as drop_host_client, drop_error, initialise_client,
};
use wasi_messaging::runtime::{new_client, new_connection, Connections, State};
use wasi_messaging::service_bus::{open_queue, ServiceBusSettings};
use wasi_messaging::table::TableError;
use wasi_messaging::worker::{assign_workers, next_action, WorkerAction};
use wasmtime::component::ResourceTable;

fn settings() -> ServiceBusSettings {
    ServiceBusSettings {
        namespace: "example-namespace".to_string(),
        policy_name: "RootManageSharedAccessKey".to_string(),
        policy_key: "c2VjcmV0".to_string(),
    }
}

fn names(list: &[&str]) -> Vec<String> {
    list.iter().map(|s| s.to_string()).collect()
}

#[test]
fn configure_listens_on_default_channel_only() {
    let config = configure().expect("configure never fails");
    assert_eq!(config.channels, vec!["default".to_string()]);
    assert!(config.extensions.is_none());
    assert_eq!(default_channel(), "default");
}

#[test]
fn handler_follows_the_connect_outcome() {
    assert_eq!(handler(|name: String| { assert_eq!(name, "default"); Ok(()) }), Ok(()));
    assert_eq!(handler(|_name: String| Err(GuestError {})), Err(GuestError {}));
}

#[test]
fn build_client_has_a_queue_per_channel() {
    let channels = names(&["orders", "invoices", "orders"]);
    let client = build_client(&channels, &settings());
    assert!(client.has_channel(&"orders".to_string()));
    assert!(client.has_channel(&"invoices".to_string()));
    assert!(!client.has_channel(&"default".to_string()));
    let _queue = client.queue(&"invoices".to_string());
}

#[test]
fn build_client_of_no_channels_is_empty() {
    let client = build_client(&Vec::new(), &settings());
    assert!(!client.has_channel(&"default".to_string()));
}

#[test]
fn workers_are_assigned_one_per_channel_in_order() {
    let channels = names(&["a", "b", "c"]);
    let plan = assign_workers(&channels);
    assert_eq!(plan.len(), 3);
    for (i, assignment) in plan.iter().enumerate() {
        assert_eq!(assignment.worker_id, i);
        assert_eq!(assignment.channel, channels[i]);
    }
    assert!(assign_workers(&Vec::new()).is_empty());
}

#[test]
fn every_worker_finds_its_queue() {
    let channels = names(&["a", "b", "a"]);
    let client = build_client(&channels, &settings());
    for assignment in assign_workers(&channels) {
        assert!(client.has_channel(&assignment.channel));
    }
}

#[test]
fn worker_retries_failed_peek() {
    assert_eq!(next_action(Err("timeout".to_string())), WorkerAction::Retry);
}

#[test]
fn worker_waits_on_empty_peek() {
    assert_eq!(next_action(Ok(String::new())), WorkerAction::Wait);
}

#[test]
fn worker_delivers_messages() {
    assert_eq!(
        next_action(Ok("hello world".to_string())),
        WorkerAction::Deliver("hello world".to_string())
    );
}

#[test]
fn state_new_client_returns_previous() {
    let mut state = State::new();
    let channel = "default".to_string();
    assert!(!state.has_client(&channel));
    assert!(state.new_client(&channel, &settings()).is_none());
    assert!(state.has_client(&channel));
    let _client = state.get_client(&channel);
    assert!(state.new_client(&channel, &settings()).is_some());
    assert!(!state.has_client(&"other".to_string()));
}

#[test]
fn state_register_then_register_previous() {
    let mut state = State::new();
    let channel = "orders".to_string();
    let first = new_client(&channel, &settings()).expect("never fails");
    assert!(state.register(channel.clone(), first).is_none());
    let second = new_client(&channel, &settings()).expect("never fails");
    let previous = state.register(channel.clone(), second).expect("had a client");
    assert!(state.register(channel.clone(), previous).is_some());
    assert!(state.has_client(&channel));
}

#[test]
fn new_client_never_fails() {
    assert!(new_client(&"q".to_string(), &settings()).is_ok());
    let _queue = open_queue(&settings(), &"q".to_string());
}

#[test]
fn connections_insert_and_get() {
    let mut connections = Connections::new();
    let name = "default".to_string();
    assert!(connections.get(&name).is_none());
    connections.insert(name.clone(), new_connection(&settings(), &name));
    assert!(connections.contains(&name));
    assert!(connections.get(&name).is_some());
    assert!(!connections.contains(&"other".to_string()));
}

#[test]
fn connect_then_drop() {
    let mut connections = Connections::new();
    let name = "default".to_string();
    connections.insert(name.clone(), new_connection(&settings(), &name));
    let mut table = ResourceTable::new();
    let first = connect(&connections, &mut table, &name).expect("table not full");
    let second = connect(&connections, &mut table, &name).expect("table not full");
    assert_ne!(first, second);
    assert_eq!(drop_client(&mut table, first), Ok(()));
    assert_eq!(drop_host_client(&mut table, first), Err(TableError::NotPresent));
    assert_eq!(drop_client(&mut table, second), Ok(()));
    let again = connect(&connections, &mut table, &name).expect("table not full");
    assert_eq!(again, second);
}

#[test]
fn drop_of_unknown_handle_is_not_present() {
    let mut table = ResourceTable::new();
    assert_eq!(drop_host_client(&mut table, 7), Err(TableError::NotPresent));
}

#[test]
fn drop_of_host_client_as_error_is_wrong_type() {
    let mut table = ResourceTable::new();
    let h = initialise_client(&names(&["a"]), &settings(), &mut table).expect("table not full");
    assert_eq!(drop_error(&mut table, h), Err(TableError::WrongType));
    assert!(matches!(client_of(&table, h), Err(TableError::NotPresent)));
}

#[test]
fn initialised_client_is_readable() {
    let mut table = ResourceTable::new();
    let channels = names(&["orders", "invoices"]);
    let h = initialise_client(&channels, &settings(), &mut table).expect("table not full");
    let client = client_of(&table, h).expect("readable");
    assert!(client.has_channel(&"orders".to_string()));
    assert!(client.has_channel(&"invoices".to_string()));
    assert!(matches!(client_of(&table, h + 1), Err(TableError::NotPresent)));
}

#[test]
fn runtime_client_read_as_host_client_is_wrong_type() {
    let mut connections = Connections::new();
    let name = "default".to_string();
    connections.insert(name.clone(), new_connection(&settings(), &name));
    let mut table = ResourceTable::new();
    let h = connect(&connections, &mut table, &name).expect("table not full");
    assert!(matches!(client_of(&table, h), Err(TableError::WrongType)));
}

#[test]
fn adapter_is_for_preview1() {
    assert_eq!(adapter_name(), "wasi_snapshot_preview1");
}

#[test]
fn engine_is_created() {
    assert!(create_engine().is_ok());
}

#[test]
fn refused_module_is_reported() {
    let result = encode_component(b"not a wasm module", b"");
    assert!(matches!(result, Err(ComponentError::Module(_))));
}

#[test]
fn refused_module_is_reported_before_compiling() {
    let engine = create_engine().expect("engine");
    let result = create_component(&engine, b"\x00asm", b"");
    assert!(matches!(result, Err(ComponentError::Module(_))));
}

#[test]
fn accepted_module_then_refused_adapter() {
    // An empty core module carries no component metadata; it is accepted,
    // and the adapter that follows is not a module at all.
    let module = b"\x00asm\x01\x00\x00\x00";
    let result = encode_component(module, b"junk");
    assert!(matches!(result, Err(ComponentError::Adapter(_))));
}

#[test]
fn drop_undoes_initialise() {
    let mut table = ResourceTable::new();
    let h = initialise_client(&names(&["a", "b"]), &settings(), &mut table).expect("table not full");
    assert_eq!(drop_host_client(&mut table, h), Ok(()));
    assert!(matches!(client_of(&table, h), Err(TableError::NotPresent)));
    assert_eq!(drop_host_client(&mut table, h), Err(TableError::NotPresent));
    let again = initialise_client(&names(&["a"]), &settings(), &mut table).expect("table not full");
    assert_eq!(again, h);
}

#[test]
fn drop_of_runtime_client_as_host_client_is_wrong_type() {
    let mut connections = Connections::new();
    let name = "default".to_string();
    connections.insert(name.clone(), new_connection(&settings(), &name));
    let mut table = ResourceTable::new();
    let h = connect(&connections, &mut table, &name).expect("table not full");
    assert_eq!(drop_host_client(&mut table, h), Err(TableError::WrongType));
    assert_eq!(drop_host_client(&mut table, h), Err(TableError::NotPresent));
}

#[test]
fn drop_error_of_unknown_handle_is_not_present() {
    let mut table = ResourceTable::new();
    assert_eq!(drop_error(&mut table, 0), Err(TableError::NotPresent));
}

#[test]
fn worker_owns_a_copy_of_its_queue() {
    let channels = names(&["a"]);
    let client = build_client(&channels, &settings());
    let _queue = client.queue_owned(&"a".to_string());
}

#[test]
fn queues_serve_the_named_queue() {
    let s = settings();
    let queue = open_queue(&s, &"orders".to_string());
    let args = queue.args();
    assert_eq!(args.namespace, "example-namespace");
    assert_eq!(args.queue, "orders");
    assert_eq!(args.policy_name, "RootManageSharedAccessKey");
    assert_eq!(args.policy_key, "c2VjcmV0");
    let connection = new_connection(&s, &"invoices".to_string());
    assert_eq!(connection.queue_client.args().queue, "invoices");
    let client = new_client(&"events".to_string(), &s).expect("never fails");
    assert_eq!(client.queue_client.args().queue, "events");
    assert_eq!(client.queue_client.args().namespace, "example-namespace");
}

#[test]
fn build_client_queue_per_channel_is_named_after_it() {
    let client = build_client(&names(&["orders", "invoices"]), &settings());
    assert_eq!(client.queue(&"orders".to_string()).args().queue, "orders");
    assert_eq!(client.queue(&"invoices".to_string()).args().queue, "invoices");
    assert_eq!(client.queue_owned(&"orders".to_string()).args().policy_name, "RootManageSharedAccessKey");
}

#[test]
fn state_client_serves_its_channel() {
    let mut state = State::new();
    let channel = "orders".to_string();
    state.new_client(&channel, &settings());
    assert_eq!(state.get_client(&channel).queue_client.args().queue, "orders");
}

#[test]
fn initialise_with_no_channels_stores_an_empty_client() {
    let mut table = ResourceTable::new();
    let empty = ServiceBusSettings {
        namespace: String::new(),
        policy_name: String::new(),
        policy_key: String::new(),
    };
    let h = initialise_client(&Vec::new(), &empty, &mut table).expect("table not full");
    let client = client_of(&table, h).expect("readable");
    assert!(!client.has_channel(&"default".to_string()));
}

#[test]
fn engine_has_component_model_and_async() {
    let engine = create_engine().expect("engine");
    let _ = engine.engine();
    let settings = engine_settings();
    assert!(settings.component_model);
    assert!(settings.async_support);
}

#[test]
fn encoding_fails_at_the_first_failing_step() {
    assert!(matches!(encode_component(b"junk", b"junk"), Err(ComponentError::Module(_))));
    assert!(matches!(
        encode_component(b"\x00asm\x01\x00\x00\x00", b"junk"),
        Err(ComponentError::Adapter(_))
    ));
}

#[test]
fn connected_client_is_found_to_send() {
    let mut connections = Connections::new();
    let name = "default".to_string();
    connections.insert(name.clone(), new_connection(&settings(), &"outbox".to_string()));
    let mut table = ResourceTable::new();
    let h = connect(&connections, &mut table, &name).expect("table not full");
    let client = sending_client(&table, h).expect("live runtime client");
    assert_eq!(client.queue_client.args().queue, "outbox");
    assert!(matches!(sending_client(&table, h + 1), Err(TableError::NotPresent)));
    let host = initialise_client(&names(&["a"]), &settings(), &mut table).expect("table not full");
    assert!(matches!(sending_client(&table, host), Err(TableError::WrongType)));
}

#[test]
fn worker_forwards_only_found_messages_in_order() {
    let peeks = vec![
        Err("timeout".to_string()),
        Ok(String::new()),
        Ok("first".to_string()),
        Ok("second".to_string()),
        Err("again".to_string()),
    ];
    let forwarded: Vec<String> = peeks
        .into_iter()
        .filter_map(|p| match next_action(p) {
            WorkerAction::Deliver(m) => Some(m),
            _ => None,
        })
        .collect();
    assert_eq!(forwarded, vec!["first".to_string(), "second".to_string()]);
}
