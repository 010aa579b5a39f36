use plugin_test::{create_handler, App, Handler, HandlerWrapper, PluginError, SomeHandler};

fn embedded() -> App<SomeHandler, ()> {
    App::new()
}

fn dynamic() -> App<SomeHandler, String> {
    App::new()
}

#[test]
fn work_before_load_fails() {
    let mut app = embedded();
    assert_eq!(app.do_something(), Err(PluginError::NotLoaded));
    assert_eq!(app.unload_handler(), None);
    assert_eq!(app.do_something(), Err(PluginError::NotLoaded));
    assert!(!app.loaded());
}

#[test]
fn embedded_session() {
    let mut app = embedded();
    assert!(app.load_handler().is_ok());
    assert!(app.loaded());
    assert_eq!(app.handler().unwrap().data(), Some(&vec![1, 2, 3]));
    for _ in 0..5 {
        assert!(app.do_something().is_ok());
    }
    assert_eq!(app.unload_handler(), None);
    assert!(!app.loaded());
    assert!(app.handler().is_none());
    assert_eq!(app.do_something(), Err(PluginError::NotLoaded));
}

#[test]
fn load_unload_cycles_release_module() {
    let mut app = dynamic();
    for _ in 0..3 {
        assert!(app.needs_module());
        assert_eq!(app.attach_module(Ok("plugin".to_string())), Ok(()));
        assert_eq!(app.accept_handler(Ok(create_handler())), Ok(()));
        assert!(app.loaded());
        assert_eq!(app.unload_handler(), Some("plugin".to_string()));
        assert!(!app.loaded());
        assert!(app.module().is_none());
    }
}

#[test]
fn held_module_is_reused() {
    let mut app = dynamic();
    assert_eq!(app.attach_module(Ok("first".to_string())), Ok(()));
    assert!(!app.needs_module());
    assert_eq!(app.attach_module(Ok("second".to_string())), Ok(()));
    assert_eq!(app.module(), Some(&"first".to_string()));
}

#[test]
fn missing_module_fails_to_load() {
    let mut app = dynamic();
    let r = app.attach_module(Err("no such file".to_string()));
    assert_eq!(r, Err(PluginError::ModuleLoadError("no such file".to_string())));
    assert!(!app.loaded());
    assert!(app.handler().is_none());
    assert!(app.module().is_none());
}

#[test]
fn missing_symbol_fails_to_load() {
    let mut app = dynamic();
    assert_eq!(app.attach_module(Ok("plugin".to_string())), Ok(()));
    let r = app.accept_handler(Err("_create_handler".to_string()));
    assert_eq!(r, Err(PluginError::SymbolNotFound("_create_handler".to_string())));
    assert!(!app.loaded());
    assert_eq!(app.module(), Some(&"plugin".to_string()));
}

#[test]
fn second_setup_is_refused() {
    let mut h = SomeHandler::uninit();
    assert!(h.data().is_none());
    assert_eq!(h.on_init(), Ok(()));
    assert_eq!(h.data(), Some(&vec![1, 2, 3]));
    assert_eq!(h.on_init(), Err(PluginError::AlreadyInitialized));
    assert_eq!(h.data(), Some(&vec![1, 2, 3]));
}

#[test]
fn preset_handler_fails_install() {
    let mut h = SomeHandler::uninit();
    assert_eq!(h.init_data(), Ok(()));
    let mut app = embedded();
    assert_eq!(app.install_handler(Box::new(h)), Err(PluginError::AlreadyInitialized));
    assert!(!app.loaded());
}

#[test]
fn reload_while_loaded_is_refused() {
    let mut app = embedded();
    assert_eq!(app.load_handler(), Ok(()));
    assert_eq!(app.load_handler(), Err(PluginError::AlreadyLoaded));
    assert!(app.loaded());
    assert_eq!(app.accept_handler(Ok(create_handler())), Err(PluginError::AlreadyLoaded));
}

#[test]
fn providers_behave_alike() {
    for n in 0..4 {
        let mut a = embedded();
        let mut b = dynamic();
        let ra = a.load_handler();
        assert_eq!(b.attach_module(Ok("plugin".to_string())), Ok(()));
        let rb = b.accept_handler(Ok(create_handler()));
        assert_eq!(ra, rb);
        assert_eq!(a.handler().unwrap().data(), b.handler().unwrap().data());
        for _ in 0..n {
            assert_eq!(a.do_something(), b.do_something());
        }
        assert_eq!(a.unload_handler(), None);
        assert_eq!(b.unload_handler(), Some("plugin".to_string()));
        assert_eq!(a.do_something(), b.do_something());
    }
}

#[test]
fn carrier_hands_back_its_handler() {
    let w = HandlerWrapper::wrap(SomeHandler::uninit());
    let mut h = w.unwrap();
    assert!(h.data().is_none());
    assert_eq!(h.on_init(), Ok(()));
    assert_eq!(h.data(), Some(&vec![1, 2, 3]));
    assert_eq!(create_handler().unwrap().data(), None);
}

#[test]
fn work_keeps_the_setup_data() {
    let mut app = embedded();
    assert_eq!(app.load_handler(), Ok(()));
    for _ in 0..5 {
        assert_eq!(app.do_something(), Ok(()));
        assert_eq!(app.handler().unwrap().data(), Some(&vec![1, 2, 3]));
    }
}

#[test]
fn dynamic_load_keeps_the_carried_handler() {
    let mut app = dynamic();
    assert_eq!(app.attach_module(Ok("plugin".to_string())), Ok(()));
    assert_eq!(app.accept_handler(Ok(create_handler())), Ok(()));
    assert_eq!(app.handler().unwrap().data(), Some(&vec![1, 2, 3]));
}

#[test]
fn work_and_teardown_keep_handler_data() {
    let mut h = SomeHandler::uninit();
    assert_eq!(h.on_init(), Ok(()));
    assert_eq!(h.on_something(), Ok(()));
    h.on_drop();
    assert_eq!(h.data(), Some(&vec![1, 2, 3]));
}
