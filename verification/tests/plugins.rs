use anvil::geometry;
use anvil::plugins::{
    engine_settings, plugin_file_name, plugin_name, PluginError, PluginManager, Rectangle, WindowInfo,
};
use wasmtime::component::{Component, Linker};
use wasmtime::{Config, Engine, Store};

/// A manager whose plugins have a number as their state and a name.
type Manager = PluginManager<u32, String, String>;

/// An empty component: its magic number, then the version and the layer.
const EMPTY: [u8; 8] = [0, b'a', b's', b'm', 0x0d, 0, 1, 0];

fn compile(engine: &Engine, _dir: &String, _file: String) -> Result<Component, String> {
    Component::new(engine, EMPTY).map_err(|error| error.to_string())
}

fn load(manager: &mut Manager, plugin: &str, state: u32) -> Result<(), String> {
    manager.load_plugin(plugin, compile, || state, |_, _, _| Ok(String::from(plugin)))
}

fn manager() -> Manager {
    let made: Result<Manager, PluginError<String>> =
        PluginManager::new(String::from("plugins"), |_| Ok(()));
    made.unwrap()
}

fn rect(x: i32, y: i32, w: i32, h: i32) -> geometry::Rectangle {
    geometry::Rectangle { loc: geometry::Point { x, y }, size: geometry::Size { w, h } }
}

#[test]
fn plugins_see_no_negative_lengths() {
    assert_eq!(
        Rectangle::from(rect(-3, 4, 640, 480)),
        Rectangle { x: -3, y: 4, width: 640, height: 480 }
    );
    assert_eq!(
        Rectangle::from(rect(i32::MIN, 0, -1, i32::MAX)),
        Rectangle { x: i32::MIN, y: 0, width: 0, height: 2147483647 }
    );
}

#[test]
fn plugin_files_have_the_suffix() {
    assert_eq!(plugin_file_name("tiling"), "tiling.wasm");
    assert_eq!(plugin_file_name(""), ".wasm");
    assert_eq!(plugin_file_name("a.b"), "a.b.wasm");
}

#[test]
fn names_come_from_files() {
    let name = |file| plugin_name(file);
    assert_eq!(name("tiling.wasm"), Some(String::from("tiling")));
    assert_eq!(name("a.b.wasm"), Some(String::from("a.b")));
    assert_eq!(name("плитка.wasm"), Some(String::from("плитка")));
    assert_eq!(name("x..wasm"), Some(String::from("x.")));
    assert_eq!(name(".hidden.wasm"), Some(String::from(".hidden")));
    assert_eq!(name("..wasm"), Some(String::from(".")));
    assert_eq!(name(".wasm"), None);
    assert_eq!(name("wasm"), None);
    assert_eq!(name("tiling.wat"), None);
    assert_eq!(name("tiling.WASM"), None);
    assert_eq!(name("tilingwasm"), None);
    assert_eq!(name("tiling.wasm.bak"), None);
    assert_eq!(name(""), None);
}

#[test]
fn names_agree_with_paths() {
    let files = [
        "tiling.wasm", "a.b.wasm", ".wasm", "..wasm", "x..wasm", ".a.wasm", "wasm", "a.wasm.",
        "плитка.wasm", "a.wasm ", "a", "a.Wasm", "é.wasm",
    ];
    for file in files {
        let path = std::path::Path::new(file);
        let stem = if path.extension().and_then(|s| s.to_str()) == Some("wasm") {
            path.file_stem().and_then(|s| s.to_str()).map(String::from)
        } else {
            None
        };
        assert_eq!(plugin_name(file), stem);
    }
}

#[test]
fn names_and_files_match() {
    for name in ["tiling", "a.b", "плитка", "."] {
        assert_eq!(plugin_name(&plugin_file_name(name)), Some(String::from(name)));
    }
}

#[test]
fn plugins_are_listed_in_order() {
    let manager = manager();
    let entry = |name: &str| Some(String::from(name));
    let entries =
        vec![entry("b.wasm"), entry("readme.md"), None, entry(".wasm"), entry("a.wasm")];
    assert_eq!(manager.list_available_plugins(&entries), vec!["b", "a"]);
    assert_eq!(manager.list_available_plugins(&vec![]), Vec::<String>::new());
}

#[test]
fn a_new_manager_has_no_plugin() {
    let manager = manager();
    assert_eq!(manager.plugins_dir(), "plugins");
    assert!(!manager.is_loaded());
}

#[test]
fn imports_are_defined_once() {
    let made: Result<Manager, PluginError<wasmtime::Error>> =
        PluginManager::new(String::from("plugins"), |linker: &mut Linker<u32>| {
            linker.root().func_wrap("answer", |_, (): ()| Ok((42u32,)))
        });
    let mut manager = made.unwrap();
    let loaded = manager.load_plugin("p", compile, || 0, |_, _, linker| {
        let mut linker = linker.clone();
        let again = linker.root().func_wrap("answer", |_, (): ()| Ok((43u32,)));
        if again.is_err() {
            Ok(String::from("p"))
        } else {
            Err(String::from("the import was not kept"))
        }
    });
    assert_eq!(loaded, Ok(()));
}

#[test]
fn imports_can_fail() {
    let made: Result<Manager, PluginError<String>> =
        PluginManager::new(String::from("plugins"), |_| Err(String::from("twice")));
    assert!(matches!(made, Err(PluginError::Imports(error)) if error == "twice"));
}

#[test]
fn a_new_linker_is_empty_and_of_the_engine() {
    let engine = Engine::new(&Config::new()).unwrap();
    let made: Result<Manager, PluginError<wasmtime::Error>> =
        PluginManager::with_engine(engine.clone(), String::from("dir"), |linker: &mut Linker<u32>| {
            assert!(Engine::same(linker.engine(), &engine));
            linker.root().func_wrap("first", |_, (): ()| Ok(()))
        });
    assert!(made.is_ok());
}

#[test]
fn components_are_switched_on() {
    let engine = Engine::new(&engine_settings()).unwrap();
    assert!(Component::new(&engine, EMPTY).is_ok());
    let mut without = engine_settings();
    without.wasm_component_model(false);
    let engine = Engine::new(&without).unwrap();
    assert!(Component::new(&engine, EMPTY).is_err());
}

#[test]
fn the_engine_knows_components() {
    let mut manager = manager();
    let loaded = manager.load_plugin("p", compile, || 7, |store, component, linker| {
        assert!(Engine::same(store.engine(), linker.engine()));
        match linker.instantiate(store, component) {
            Ok(_) => Ok(String::from("p")),
            Err(error) => Err(error.to_string()),
        }
    });
    assert_eq!(loaded, Ok(()));
    assert!(manager.is_loaded());
}

#[test]
fn a_given_engine_is_used() {
    let engine = Engine::new(&Config::new()).unwrap();
    let made: Result<Manager, PluginError<String>> =
        PluginManager::with_engine(engine.clone(), String::from("dir"), |_| Ok(()));
    let mut manager = made.unwrap();
    assert_eq!(manager.plugins_dir(), "dir");
    let loaded = manager.load_plugin(
        "p",
        |used: &Engine, dir: &String, file: String| {
            assert!(Engine::same(used, &engine));
            compile(used, dir, file)
        },
        || 1,
        |store: &mut Store<u32>, _: &Component, _: &Linker<u32>| {
            assert!(Engine::same(store.engine(), &engine));
            Ok(String::from("p"))
        },
    );
    assert_eq!(loaded, Ok(()));
    let failed: Result<Manager, PluginError<&str>> =
        PluginManager::with_engine(engine, String::from("dir"), |_| Err("no imports"));
    assert!(matches!(failed, Err(PluginError::Imports("no imports"))));
}

#[test]
fn loading_starts_the_named_file() {
    let mut manager = manager();
    let loaded = manager.load_plugin(
        "tiling",
        |engine: &Engine, dir: &String, file: String| {
            assert_eq!(dir, "plugins");
            assert_eq!(file, "tiling.wasm");
            compile(engine, dir, file)
        },
        || 5,
        |store: &mut Store<u32>, _: &Component, _: &Linker<u32>| {
            assert_eq!(*store.data(), 5);
            Ok(String::from("tiling"))
        },
    );
    assert_eq!(loaded, Ok(()));
    assert!(manager.is_loaded());
}

/// The name and the state of the plugin that runs.
fn running(manager: &mut Manager) -> Option<(String, u32)> {
    let mut seen = None;
    let answer = manager.calculate_layout(Vec::new(), (), |store, plugin, _, _| {
        seen = Some((plugin.clone(), *store.data()));
        Ok::<Vec<(u64, ())>, String>(Vec::new())
    });
    assert!(answer.is_ok());
    seen
}

#[test]
fn a_plugin_that_cannot_start_replaces_nothing() {
    let mut manager = manager();
    let gone = |_: &Engine, _: &String, _: String| Err(String::from("gone"));
    let broken = |_: &mut Store<u32>, _: &Component, _: &Linker<u32>| Err(String::from("broken"));
    let fine = |_: &mut Store<u32>, _: &Component, _: &Linker<u32>| Ok(String::from("fine"));
    assert_eq!(manager.load_plugin("a", gone, || 1, fine), Err(String::from("gone")));
    assert_eq!(manager.load_plugin("a", compile, || 1, broken), Err(String::from("broken")));
    assert!(!manager.is_loaded());
    assert_eq!(running(&mut manager), None);
    assert_eq!(load(&mut manager, "b", 2), Ok(()));
    assert_eq!(manager.load_plugin("a", gone, || 1, fine), Err(String::from("gone")));
    assert_eq!(manager.load_plugin("a", compile, || 1, broken), Err(String::from("broken")));
    assert!(manager.is_loaded());
    assert_eq!(running(&mut manager), Some((String::from("b"), 2)));
    assert_eq!(load(&mut manager, "c", 3), Ok(()));
    assert_eq!(running(&mut manager), Some((String::from("c"), 3)));
}

#[test]
fn no_state_is_made_for_code_that_does_not_compile() {
    let mut manager = manager();
    let gone = |_: &Engine, _: &String, _: String| Err("gone");
    let loaded = manager.load_plugin(
        "a",
        gone,
        || panic!("a state was made"),
        |_: &mut Store<u32>, _: &Component, _: &Linker<u32>| Ok(String::from("a")),
    );
    assert_eq!(loaded, Err("gone"));
}

fn info(id: u64) -> WindowInfo {
    WindowInfo {
        id,
        title: String::new(),
        app_id: String::new(),
        min_size: None,
        max_size: None,
        is_maximized: false,
        is_fullscreen: false,
    }
}

#[test]
fn no_plugin_places_nothing() {
    let mut manager = manager();
    let answer = manager.calculate_layout(vec![info(1)], "display", |_, _, _, _| {
        Err::<Vec<(u64, u8)>, String>(String::from("asked"))
    });
    assert_eq!(answer, Ok(vec![]));
}

#[test]
fn the_plugin_places_the_windows() {
    let mut manager = manager();
    assert_eq!(load(&mut manager, "a", 5), Ok(()));
    let windows = vec![info(8), info(9)];
    let answer = manager.calculate_layout(windows, "display", |store, plugin, windows, context| {
        assert_eq!(plugin, "a");
        assert_eq!(*context, "display");
        *store.data_mut() += 1;
        let place = *store.data();
        Ok::<Vec<(u64, u32)>, String>(windows.iter().map(|w| (w.id, place)).collect())
    });
    assert_eq!(answer, Ok(vec![(8, 6), (9, 6)]));
    assert_eq!(running(&mut manager), Some((String::from("a"), 6)));
    let answer = manager.calculate_layout(vec![], "display", |_, _, _, _| {
        Err::<Vec<(u64, u32)>, String>(String::from("trapped"))
    });
    assert_eq!(answer, Err(String::from("trapped")));
    assert!(manager.is_loaded());
}
