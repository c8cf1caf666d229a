use bioma::engine::{
    default_database, default_endpoint, default_hf_cache_dir, default_local_store_dir,
    default_namespace, default_output_dir, default_password, default_username, Engine,
    EngineOptions,
};

#[test]
fn defaults_are_memory_dev_bioma_root() {
    let options = EngineOptions::with_defaults("/work");
    assert_eq!(options.endpoint, "memory");
    assert_eq!(options.namespace, "dev");
    assert_eq!(options.database, "bioma");
    assert_eq!(options.username, "root");
    assert_eq!(options.password, "root");
    assert_eq!(options.output_dir, "/work/.output");
    assert_eq!(options.local_store_dir, "/work/.output/store");
    assert_eq!(options.hf_cache_dir, "/work/.output/cache/huggingface/hub");
}

#[test]
fn default_functions_give_each_default() {
    assert_eq!(default_endpoint(), "memory");
    assert_eq!(default_namespace(), "dev");
    assert_eq!(default_database(), "bioma");
    assert_eq!(default_username(), "root");
    assert_eq!(default_password(), "root");
}

#[test]
fn default_directories_lie_under_the_project_root() {
    assert_eq!(default_output_dir("/srv/app"), "/srv/app/.output");
    assert_eq!(default_local_store_dir("/srv/app"), "/srv/app/.output/store");
    assert_eq!(default_hf_cache_dir("/srv/app"), "/srv/app/.output/cache/huggingface/hub");
}

#[test]
fn joining_does_not_double_a_trailing_separator() {
    assert_eq!(default_output_dir("/srv/app/"), "/srv/app/.output");
    assert_eq!(default_output_dir("/"), "/.output");
    assert_eq!(default_output_dir(""), ".output");
    assert_eq!(default_output_dir("relative/root"), "relative/root/.output");
}

#[test]
fn builder_keeps_what_was_given_and_defaults_the_rest() {
    let options = EngineOptions::builder()
        .endpoint("ws://localhost:9123".to_string())
        .build("/work");
    assert_eq!(options.endpoint, "ws://localhost:9123");
    assert_eq!(options.namespace, "dev");
    assert_eq!(options.database, "bioma");
    assert_eq!(options.username, "root");
    assert_eq!(options.password, "root");
    assert_eq!(options.output_dir, "/work/.output");
}

#[test]
fn builder_sets_every_option() {
    let options = EngineOptions::builder()
        .endpoint("wss://store.example:8000".to_string())
        .namespace("prod".to_string())
        .database("fleet".to_string())
        .username("admin".to_string())
        .password("s3cret".to_string())
        .output_dir("/var/out".to_string())
        .local_store_dir("/var/blobs".to_string())
        .hf_cache_dir("/var/models".to_string())
        .build("/work");
    assert_eq!(options.endpoint, "wss://store.example:8000");
    assert_eq!(options.namespace, "prod");
    assert_eq!(options.database, "fleet");
    assert_eq!(options.username, "admin");
    assert_eq!(options.password, "s3cret");
    assert_eq!(options.output_dir, "/var/out");
    assert_eq!(options.local_store_dir, "/var/blobs");
    assert_eq!(options.hf_cache_dir, "/var/models");
}

#[test]
fn default_store_directory_ignores_a_given_output_directory() {
    let options = EngineOptions::builder().output_dir("/elsewhere".to_string()).build("/work");
    assert_eq!(options.output_dir, "/elsewhere");
    assert_eq!(options.local_store_dir, "/work/.output/store");
    assert_eq!(options.hf_cache_dir, "/work/.output/cache/huggingface/hub");
}

#[test]
fn info_names_endpoint_namespace_database_and_user() {
    let options = EngineOptions::with_defaults("/work");
    assert_eq!(options.info(), "Engine: memory, ns: dev, db: bioma, user: root");
    let options = EngineOptions::builder()
        .endpoint("ws://localhost:9123".to_string())
        .namespace("n".to_string())
        .database("d".to_string())
        .username("u".to_string())
        .password("hidden".to_string())
        .build("/work");
    assert_eq!(options.info(), "Engine: ws://localhost:9123, ns: n, db: d, user: u");
    assert!(!options.info().contains("hidden"));
}

#[test]
fn engine_hands_out_its_options_and_directories() {
    let options = EngineOptions::builder().namespace("n".to_string()).build("/work");
    let engine = Engine::connected(options);
    assert_eq!(engine.options().namespace, "n");
    assert_eq!(engine.output_dir(), "/work/.output");
    assert_eq!(engine.local_store_dir(), "/work/.output/store");
    assert_eq!(engine.huggingface_cache_dir(), "/work/.output/cache/huggingface/hub");
    assert_eq!(engine.info(), "ns: n, db: bioma, user: root");
    assert_eq!(engine.registry().len(), 0);
}

#[test]
fn engine_registers_actor_tags() {
    let mut engine = Engine::connected(EngineOptions::with_defaults("/work"));
    assert_eq!(engine.register("Echo"), 0);
    assert_eq!(engine.register("Relay"), 1);
    assert_eq!(engine.register("Echo"), 0);
    assert_eq!(engine.registry().len(), 2);
    assert!(engine.registry().contains("Relay"));
    assert!(!engine.registry().contains("Ghost"));
    assert_eq!(engine.options().database, "bioma");
}

#[test]
fn debug_exports_go_under_the_output_directory() {
    let engine = Engine::connected(EngineOptions::with_defaults("/work"));
    assert_eq!(engine.debug_export_path("dbg_tests_actor_rs_145"), "/work/.output/debug/dbg_tests_actor_rs_145.surql");
    let options = EngineOptions::builder().output_dir("/var/out/".to_string()).build("/work");
    let engine = Engine::connected(options);
    assert_eq!(engine.debug_export_path("state"), "/var/out/debug/state.surql");
}
