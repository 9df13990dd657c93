//! The layout plugins and the values that they are given.
use vstd::prelude::*;

use wasmtime::component::{Component, Linker};
use wasmtime::{Config, Engine, Store};

use crate::geometry;

verus! {

/// The number by which plugins know a window.
pub type WindowId = u64;

/// A width and a height, as plugins see them.
#[derive(Clone, Copy, Debug, PartialEq, Eq, Structural)]
pub struct Size {
    pub width: u32,
    pub height: u32,
}

/// The size of a window.
pub type WSize = Size;

/// A position, as plugins see it.
#[derive(Clone, Copy, Debug, PartialEq, Eq, Structural)]
pub struct Point {
    pub x: i32,
    pub y: i32,
}

/// A rectangle, as plugins see it.
#[derive(Clone, Copy, Debug, PartialEq, Eq, Structural)]
pub struct Rectangle {
    pub x: i32,
    pub y: i32,
    pub width: u32,
    pub height: u32,
}

/// What a plugin is told of a window.
#[derive(Debug)]
pub struct WindowInfo {
    pub id: WindowId,
    pub title: String,
    pub app_id: String,
    pub min_size: Option<WSize>,
    pub max_size: Option<WSize>,
    pub is_maximized: bool,
    pub is_fullscreen: bool,
}

/// `x`, or 0 if it is negative.
pub open spec fn clamped(x: i32) -> u32 {
    if x < 0 {
        0
    } else {
        x as u32
    }
}

/// Turns a length into an unsigned one. A negative length counts as 0.
pub(crate) fn clamp_length(x: i32) -> (r: u32)
    ensures
        r == clamped(x),
{
    if x < 0 {
        0
    } else {
        x as u32
    }
}

impl vstd::std_specs::convert::FromSpecImpl<geometry::Rectangle> for Rectangle {
    open spec fn obeys_from_spec() -> bool {
        true
    }

    open spec fn from_spec(rect: geometry::Rectangle) -> Rectangle {
        Rectangle {
            x: rect.loc.x,
            y: rect.loc.y,
            width: clamped(rect.size.w),
            height: clamped(rect.size.h),
        }
    }
}

impl From<geometry::Rectangle> for Rectangle {
    fn from(rect: geometry::Rectangle) -> (r: Rectangle) {
        Rectangle {
            x: rect.loc.x,
            y: rect.loc.y,
            width: clamp_length(rect.size.w),
            height: clamp_length(rect.size.h),
        }
    }
}

/// `wasmtime::Config`: the settings of an engine.
#[verifier::external_type_specification]
#[verifier::external_body]
pub struct ExConfig(wasmtime::Config);

/// `wasmtime::Engine`: what compiles and runs plugins.
#[verifier::external_type_specification]
#[verifier::external_body]
pub struct ExEngine(wasmtime::Engine);

/// `wasmtime::Error`: why an engine could not be made.
#[verifier::external_type_specification]
#[verifier::external_body]
pub struct ExError(wasmtime::Error);

/// `wasmtime::component::Linker`: what a plugin may import, for stores with a
/// state of type `T`.
#[verifier::external_type_specification]
#[verifier::external_body]
#[verifier::reject_recursive_types(T)]
pub struct ExLinker<T: 'static>(wasmtime::component::Linker<T>);

/// `wasmtime::component::Component`: the compiled code of a plugin.
#[verifier::external_type_specification]
#[verifier::external_body]
pub struct ExComponent(wasmtime::component::Component);

/// `wasmtime::Store`: what a running plugin has, with a state of type `T` that
/// its host reads.
#[verifier::external_type_specification]
#[verifier::external_body]
#[verifier::reject_recursive_types(T)]
pub struct ExStore<T: 'static>(wasmtime::Store<T>);

/// Whether components are switched on in the settings of an engine.
pub uninterp spec fn has_components(config: Config) -> bool;

/// Whether an engine takes components.
pub uninterp spec fn runs_components(engine: Engine) -> bool;

/// `wasmtime::Config::new` gives the default settings. Some of them come from
/// the environment, and nothing is claimed of them.
pub assume_specification[ wasmtime::Config::new ]() -> (config: Config);

/// `wasmtime::Config::wasm_component_model` switches components on or off, as
/// it is told, and hands the settings back, so that what is done to them
/// afterwards is done to `config`. Nothing is claimed of the other settings.
pub assume_specification[ wasmtime::Config::wasm_component_model ](
    config: &mut Config,
    enable: bool,
) -> (same: &mut Config)
    ensures
        has_components(*same) == enable,
        *final(config) == *final(same),
;

/// `wasmtime::Engine::new` makes an engine that takes components if and only if
/// they are switched on in the settings, or fails if the settings do not go
/// together or the machine cannot carry them out. Nothing is claimed of when
/// it fails.
pub assume_specification[ wasmtime::Engine::new ](config: &Config) -> (engine: Result<
    Engine,
    wasmtime::Error,
>)
    ensures
        engine matches Ok(made) ==> runs_components(made) == has_components(*config),
;

/// `wasmtime::component::Linker::new` makes a linker for the engine with nothing
/// in it. Nothing is claimed of what it holds; contracts say of a linker that it
/// is one that this call gives for an engine.
pub assume_specification<T: 'static>[ wasmtime::component::Linker::<T>::new ](
    engine: &Engine,
) -> (linker: Linker<T>);

/// `wasmtime::Store::new` makes a store for the engine around the given state.
/// Nothing is claimed of what it holds; contracts say of a store that it is one
/// that this call gives for an engine and a state.
pub assume_specification<T>[ wasmtime::Store::<T>::new ](engine: &Engine, data: T) -> (store: Store<
    T,
>);

/// Why the plugins cannot be managed.
#[derive(Debug)]
pub enum PluginError<E> {
    /// The engine could not be made.
    Engine(wasmtime::Error),
    /// What plugins may import could not be defined.
    Imports(E),
}

/// How the name of a plugin's file ends.
pub open spec fn plugin_suffix() -> Seq<char> {
    seq!['.', 'w', 'a', 's', 'm']
}

/// The name of the file that holds the plugin `name`.
pub open spec fn plugin_file(name: Seq<char>) -> Seq<char> {
    name + plugin_suffix()
}

/// The name of the plugin in the file `file`, if it is a plugin's file.
pub open spec fn plugin_in(file: Seq<char>) -> Option<Seq<char>> {
    let n = file.len() - plugin_suffix().len();
    if n > 0 && file.skip(n) == plugin_suffix() {
        Some(file.take(n))
    } else {
        None
    }
}

/// The plugins in a directory, in the order of its entries. An entry is the
/// name of a file, or `None` if the name is not valid text.
pub open spec fn plugins_among(entries: Seq<Option<Seq<char>>>) -> Seq<Seq<char>>
    decreases entries.len(),
{
    if entries.len() == 0 {
        seq![]
    } else {
        let others = plugins_among(entries.drop_last());
        match entries.last() {
            Some(file) => match plugin_in(file) {
                Some(name) => others.push(name),
                None => others,
            },
            None => others,
        }
    }
}

/// Gives the name of the file that holds the plugin `name`.
pub fn plugin_file_name(name: &str) -> (r: String)
    ensures
        r@ == plugin_file(name@),
{
    proof {
        reveal_strlit(".wasm");
    }
    assert(".wasm"@ =~= plugin_suffix());
    let mut file = name.to_owned();
    file.append(".wasm");
    file
}

/// Gives the name of the plugin in the file `file`, if it is a plugin's file.
pub fn plugin_name(file: &str) -> (r: Option<String>)
    ensures
        r.deep_view() == plugin_in(file@),
{
    let len: usize = file.unicode_len();
    if len <= 5 {
        return None;
    }
    let n: usize = len - 5;
    let ghost end = file@.skip(n as int);
    if file.get_char(n) == '.' && file.get_char(n + 1) == 'w' && file.get_char(n + 2) == 'a'
        && file.get_char(n + 3) == 's' && file.get_char(n + 4) == 'm' {
        assert(end =~= plugin_suffix());
        let name = file.substring_char(0, n).to_owned();
        assert(name@ =~= file@.take(n as int));
        Some(name)
    } else {
        assert(end != plugin_suffix()) by {
            if end == plugin_suffix() {
                assert(end[0] == '.' && end[1] == 'w' && end[2] == 'a' && end[3] == 's' && end[4]
                    == 'm');
            }
        }
        None
    }
}

/// Makes a value out of one other, by a function that a contract speaks of.
fn made_from<A, B, F: FnOnce(A) -> B>(make: F, a: A) -> (r: B)
    requires
        make.requires((a,)),
    ensures
        make.ensures((a,), r),
{
    make(a)
}

/// Makes a value out of two others, by a function that a contract speaks of.
fn made_from_both<A, B, C, F: FnOnce(A, B) -> C>(make: F, a: A, b: B) -> (r: C)
    requires
        make.requires((a, b)),
    ensures
        make.ensures((a, b), r),
{
    make(a, b)
}

/// Gives the settings of the engine that runs plugins: components are switched
/// on.
pub fn engine_settings() -> (r: Config)
    ensures
        has_components(r),
{
    let mut config = Config::new();
    config.wasm_component_model(true);
    config
}

/// The plugins of the compositor. `T` is the state that the host keeps for a
/// running plugin, `D` names the directory of the plugins and `P` is a plugin
/// that can be called.
#[verifier::reject_recursive_types(T)]
pub struct PluginManager<T: 'static, D, P> {
    engine: Engine,
    linker: Linker<T>,
    plugins_dir: D,
    loaded_plugin: Option<(Store<T>, P)>,
}

impl<T: 'static, D, P> PluginManager<T, D, P> {
    /// The directory of the plugins.
    pub closed spec fn dir(&self) -> D {
        self.plugins_dir
    }

    /// The engine that compiles the plugins.
    pub closed spec fn used_engine(&self) -> Engine {
        self.engine
    }

    /// What the plugins may import.
    pub closed spec fn imports(&self) -> Linker<T> {
        self.linker
    }

    /// The plugin that runs, with its store.
    pub closed spec fn loaded(&self) -> Option<(Store<T>, P)> {
        self.loaded_plugin
    }

    /// Whether this manages the plugins in `plugins_dir`, which may import what
    /// is in `linker`, and none of them runs yet.
    pub open spec fn fresh(&self, plugins_dir: D, linker: Linker<T>) -> bool {
        &&& self.dir() == plugins_dir
        &&& self.imports() == linker
        &&& self.loaded() is None
    }

    /// Whether `after` runs what was started in place of what this runs, or still
    /// runs what this runs if nothing could be started, and `r` says which.
    pub open spec fn replaced<E>(
        &self,
        after: PluginManager<T, D, P>,
        started: Result<(Store<T>, P), E>,
        r: Result<(), E>,
    ) -> bool {
        match started {
            Ok(running) => r == Ok::<(), E>(()) && after.loaded() == Some(running),
            Err(error) => r == Err::<(), E>(error) && after.loaded() == self.loaded(),
        }
    }

    /// Makes an engine with components for the plugins in `plugins_dir`, none
    /// of which runs yet. `define` defines what they may import. The machine
    /// decides whether an engine can be made, so nothing is said of when it
    /// cannot.
    pub fn new<E, F: FnOnce(&mut Linker<T>) -> Result<(), E>>(plugins_dir: D, define: F) -> (r:
        Result<PluginManager<T, D, P>, PluginError<E>>)
        requires
            forall|linker: &mut Linker<T>| #[trigger] define.requires((linker,)),
        ensures
            r matches Ok(manager) ==> runs_components(manager.used_engine()),
            r matches Err(PluginError::Engine(_)) || exists|
                linker: &mut Linker<T>,
                outcome: Result<(), E>,
            | #[trigger]
                define.ensures((linker,), outcome) && match outcome {
                    Ok(_) => r matches Ok(manager) && manager.fresh(plugins_dir, *final(linker))
                        && call_ensures(Linker::<T>::new, (&manager.used_engine(),), *linker),
                    Err(error) => r == Err::<PluginManager<T, D, P>, PluginError<E>>(
                        PluginError::Imports(error),
                    ),
                },
    {
        match Engine::new(&engine_settings()) {
            Ok(engine) => PluginManager::with_engine(engine, plugins_dir, define),
            Err(error) => Err(PluginError::Engine(error)),
        }
    }

    /// Manages the plugins in `plugins_dir` with the given engine. It fails if
    /// and only if `define` does.
    pub fn with_engine<E, F: FnOnce(&mut Linker<T>) -> Result<(), E>>(
        engine: Engine,
        plugins_dir: D,
        define: F,
    ) -> (r: Result<PluginManager<T, D, P>, PluginError<E>>)
        requires
            forall|linker: &mut Linker<T>| #[trigger] define.requires((linker,)),
        ensures
            exists|linker: &mut Linker<T>, outcome: Result<(), E>| #[trigger]
                define.ensures((linker,), outcome) && call_ensures(
                    Linker::<T>::new,
                    (&engine,),
                    *linker,
                ) && match outcome {
                    Ok(_) => r matches Ok(manager) && manager.fresh(plugins_dir, *final(linker))
                        && manager.used_engine() == engine,
                    Err(error) => r == Err::<PluginManager<T, D, P>, PluginError<E>>(
                        PluginError::Imports(error),
                    ),
                },
    {
        let mut linker = made_from(Linker::<T>::new, &engine);
        let ghost empty = linker;
        let outcome = define(&mut linker);
        assert(exists|imports: &mut Linker<T>|
            *imports == empty && linker == *final(imports) && #[trigger] define.ensures((imports,), outcome));
        match outcome {
            Ok(()) => Ok(PluginManager { engine, linker, plugins_dir, loaded_plugin: None }),
            Err(error) => Err(PluginError::Imports(error)),
        }
    }

    /// Whether a plugin runs.
    pub fn is_loaded(&self) -> (r: bool)
        ensures
            r == self.loaded() is Some,
    {
        self.loaded_plugin.is_some()
    }

    /// The directory of the plugins.
    pub fn plugins_dir(&self) -> (r: &D)
        ensures
            *r == self.dir(),
    {
        &self.plugins_dir
    }

    /// Lists the plugins among the entries of the directory.
    pub fn list_available_plugins(&self, entries: &Vec<Option<String>>) -> (r: Vec<String>)
        ensures
            r.deep_view() == plugins_among(entries.deep_view()),
    {
        let mut plugins: Vec<String> = Vec::new();
        let ghost all = entries.deep_view();
        assert(plugins.deep_view() =~= plugins_among(all.take(0)));
        for i in 0..entries.len()
            invariant
                all == entries.deep_view(),
                plugins.deep_view() == plugins_among(all.take(i as int)),
        {
            let ghost before = plugins.deep_view();
            assert(all.take(i + 1).drop_last() =~= all.take(i as int));
            assert(all.take(i + 1).last() == entries[i as int].deep_view());
            if let Some(file) = &entries[i] {
                if let Some(name) = plugin_name(file.as_str()) {
                    plugins.push(name);
                    assert(plugins.deep_view() =~= before.push(name@));
                }
            }
        }
        assert(all.take(entries.len() as int) =~= all);
        plugins
    }

    /// Starts a plugin in place of the one that runs. If it cannot be started,
    /// the one that runs stays. `compile` is called with the engine, with the
    /// directory and with the name of the file that holds the plugin. If it
    /// succeeds, `instantiate` is called with a store around the state that
    /// `host` makes, with what was compiled and with what plugins may import.
    pub fn load_plugin<
        E,
        F: FnOnce(&Engine, &D, String) -> Result<Component, E>,
        G: FnOnce() -> T,
        H: FnOnce(&mut Store<T>, &Component, &Linker<T>) -> Result<P, E>,
    >(&mut self, name: &str, compile: F, host: G, instantiate: H) -> (r: Result<(), E>)
        requires
            forall|file: String|
                file@ == plugin_file(name@) ==> #[trigger] compile.requires(
                    (&old(self).used_engine(), &old(self).dir(), file),
                ),
            host.requires(()),
            forall|store: &mut Store<T>, component: Component| #[trigger]
                instantiate.requires((store, &component, &old(self).imports())),
        ensures
            final(self).used_engine() == old(self).used_engine(),
            final(self).imports() == old(self).imports(),
            final(self).dir() == old(self).dir(),
            exists|file: String, compiled: Result<Component, E>|
                file@ == plugin_file(name@) && #[trigger] compile.ensures(
                    (&old(self).used_engine(), &old(self).dir(), file),
                    compiled,
                ) && match compiled {
                    Ok(component) => {
                        exists|store: &mut Store<T>, plugin: Result<P, E>| #[trigger]
                            instantiate.ensures(
                                (store, &component, &old(self).imports()),
                                plugin,
                            ) && (exists|state: T|
                                host.ensures((), state) && #[trigger] call_ensures(
                                    Store::<T>::new,
                                    (&old(self).used_engine(), state),
                                    *store,
                                )) && old(self).replaced(
                                *final(self),
                                match plugin {
                                    Ok(plugin) => Ok((*final(store), plugin)),
                                    Err(error) => Err(error),
                                },
                                r,
                            )
                    },
                    Err(error) => old(self).replaced(*final(self), Err(error), r),
                },
    {
        let file = plugin_file_name(name);
        let ghost from = file;
        assert(self.used_engine() == self.engine && self.imports() == self.linker && self.dir()
            == self.plugins_dir);
        let compiled = compile(&self.engine, &self.plugins_dir, file);
        assert(compile.ensures((&self.engine, &self.plugins_dir, from), compiled));
        match compiled {
            Ok(component) => {
                let state = host();
                let ghost given = state;
                let mut store = made_from_both(Store::<T>::new, &self.engine, state);
                assert(host.ensures((), given));
                assert(call_ensures(Store::<T>::new, (&old(self).used_engine(), given), store));
                match instantiate(&mut store, &component, &self.linker) {
                    Ok(plugin) => {
                        self.loaded_plugin = Some((store, plugin));
                        Ok(())
                    },
                    Err(error) => Err(error),
                }
            },
            Err(error) => Err(error),
        }
    }

    /// Gives the placement of the windows: what the plugin that runs answers to
    /// `ask`, or no placement at all if none runs. `ask` is called with the
    /// store and the plugin, with the windows and with what the plugin is told
    /// of the display.
    pub fn calculate_layout<
        C,
        W,
        E,
        F: FnOnce(&mut Store<T>, &P, &Vec<WindowInfo>, &C) -> Result<Vec<(u64, W)>, E>,
    >(&mut self, windows: Vec<WindowInfo>, context: C, ask: F) -> (r: Result<Vec<(u64, W)>, E>)
        requires
            forall|store: &mut Store<T>, plugin: P|
                old(self).loaded() == Some((*store, plugin)) ==> #[trigger] ask.requires(
                    (store, &plugin, &windows, &context),
                ),
        ensures
            final(self).used_engine() == old(self).used_engine(),
            final(self).imports() == old(self).imports(),
            final(self).dir() == old(self).dir(),
            match old(self).loaded() {
                Some((before, plugin)) => exists|store: &mut Store<T>|
                    *store == before && final(self).loaded() == Some((*final(store), plugin))
                        && #[trigger] ask.ensures((store, &plugin, &windows, &context), r),
                None => {
                    &&& final(self).loaded() is None
                    &&& r matches Ok(placements)
                    &&& placements@.len() == 0
                },
            },
    {
        match &mut self.loaded_plugin {
            Some((store, plugin)) => ask(store, plugin, &windows, &context),
            None => Ok(Vec::new()),
        }
    }
}

/// A plugin's file is the file of the plugin that it holds: from a name to its
/// file and back gives the name again, and so does the other way round.
pub proof fn law_plugin_files_and_names_match(name: Seq<char>, file: Seq<char>)
    ensures
        name.len() > 0 ==> plugin_in(plugin_file(name)) == Some(name),
        plugin_in(file) matches Some(held) ==> held.len() > 0 && plugin_file(held) == file,
{
    let n = name.len() as int;
    assert(plugin_file(name).skip(n) =~= plugin_suffix());
    assert(plugin_file(name).take(n) =~= name);
    if plugin_in(file) is Some {
        let m = file.len() - plugin_suffix().len();
        assert(file =~= file.take(m) + file.skip(m));
    }
}

/// Every plugin that is listed has its file in the directory.
pub proof fn law_listed_plugins_have_files(entries: Seq<Option<Seq<char>>>, name: Seq<char>)
    requires
        plugins_among(entries).contains(name),
    ensures
        entries.contains(Some(plugin_file(name))),
        name.len() > 0,
    decreases entries.len(),
{
    if entries.len() > 0 {
        let others = plugins_among(entries.drop_last());
        if others.contains(name) {
            law_listed_plugins_have_files(entries.drop_last(), name);
            let i = choose|i: int|
                0 <= i < entries.len() - 1 && entries.drop_last()[i] == Some(plugin_file(name));
            assert(entries[i] == Some(plugin_file(name)));
        } else {
            let file = entries.last()->0;
            let k = choose|k: int|
                0 <= k < plugins_among(entries).len() && plugins_among(entries)[k] == name;
            assert(k == others.len()) by {
                if k < others.len() {
                    assert(others[k] == name);
                }
            }
            law_plugin_files_and_names_match(name, file);
            assert(entries[entries.len() - 1] == Some(plugin_file(name)));
        }
    }
}

/// Every plugin whose file is in the directory is listed.
pub proof fn law_plugin_files_are_listed(entries: Seq<Option<Seq<char>>>, name: Seq<char>)
    requires
        name.len() > 0,
        entries.contains(Some(plugin_file(name))),
    ensures
        plugins_among(entries).contains(name),
    decreases entries.len(),
{
    let i = choose|i: int| 0 <= i < entries.len() && entries[i] == Some(plugin_file(name));
    let others = plugins_among(entries.drop_last());
    law_plugin_files_and_names_match(name, plugin_file(name));
    if i == entries.len() - 1 {
        assert(plugins_among(entries) == others.push(name));
        assert(others.push(name)[others.len() as int] == name);
    } else {
        assert(entries.drop_last()[i] == Some(plugin_file(name)));
        law_plugin_files_are_listed(entries.drop_last(), name);
        let k = choose|k: int| 0 <= k < others.len() && others[k] == name;
        assert(plugins_among(entries)[k] == name);
    }
}

/// Plugins see a rectangle where it is, with its lengths, or 0 in place of a
/// negative one.
pub proof fn law_plugins_see_no_negative_length(rect: geometry::Rectangle, seen: Rectangle)
    requires
        call_ensures(<Rectangle as From<geometry::Rectangle>>::from, (rect,), seen),
    ensures
        seen.x == rect.loc.x,
        seen.y == rect.loc.y,
        rect.size.w >= 0 ==> seen.width == rect.size.w,
        rect.size.w < 0 ==> seen.width == 0,
        rect.size.h >= 0 ==> seen.height == rect.size.h,
        rect.size.h < 0 ==> seen.height == 0,
{
}

/// The name of a plugin's file is the name of the plugin, then `.wasm`.
pub proof fn law_plugin_file_is_the_name_and_the_suffix(name: &str, file: String)
    requires
        call_ensures(plugin_file_name, (name,), file),
    ensures
        file@ == name@ + seq!['.', 'w', 'a', 's', 'm'],
{
}

/// A file is a plugin's if and only if its name is the name of a plugin, which
/// is not empty, then `.wasm`, and that is the plugin that it holds.
pub proof fn law_plugin_name_is_all_before_the_suffix(
    file: &str,
    held: Option<String>,
    name: Seq<char>,
)
    requires
        call_ensures(plugin_name, (file,), held),
        name.len() > 0,
    ensures
        held matches Some(found) ==> found@.len() > 0 && file@ == found@ + seq![
            '.',
            'w',
            'a',
            's',
            'm',
        ],
        file@ == name + seq!['.', 'w', 'a', 's', 'm'] ==> held is Some && held->0@ == name,
{
    law_plugin_files_and_names_match(name, file@);
}

/// What one entry of a directory adds to the list: the name before `.wasm`, if
/// there is one, and nothing otherwise.
proof fn lemma_one_entry(entry: Option<Seq<char>>, name: Seq<char>)
    requires
        name.len() > 0,
    ensures
        entry == Some(name + seq!['.', 'w', 'a', 's', 'm']) ==> plugins_among(seq![entry]) == seq![
            name,
        ],
        plugins_among(seq![entry]).len() <= 1,
        plugins_among(seq![entry]).len() == 1 ==> entry == Some(
            plugins_among(seq![entry])[0] + seq!['.', 'w', 'a', 's', 'm'],
        ) && plugins_among(seq![entry])[0].len() > 0,
{
    assert(seq![entry].drop_last() =~= Seq::<Option<Seq<char>>>::empty());
    assert(plugins_among(Seq::<Option<Seq<char>>>::empty()) =~= Seq::<Seq<char>>::empty());
    if let Some(file) = entry {
        law_plugin_files_and_names_match(name, file);
    }
}

/// Plugins are listed entry by entry, in the order of the entries: the list for
/// two directories after each other is the list for the one and then that for
/// the other.
pub proof fn law_plugins_are_listed_entry_by_entry<T: 'static, D, P>(
    manager: PluginManager<T, D, P>,
    front: Vec<Option<String>>,
    back: Vec<Option<String>>,
    both: Vec<Option<String>>,
    front_list: Vec<String>,
    back_list: Vec<String>,
    list: Vec<String>,
)
    requires
        both.deep_view() == front.deep_view() + back.deep_view(),
        call_ensures(
            PluginManager::<T, D, P>::list_available_plugins,
            (&manager, &front),
            front_list,
        ),
        call_ensures(
            PluginManager::<T, D, P>::list_available_plugins,
            (&manager, &back),
            back_list,
        ),
        call_ensures(PluginManager::<T, D, P>::list_available_plugins, (&manager, &both), list),
    ensures
        list.deep_view() == front_list.deep_view() + back_list.deep_view(),
{
    lemma_plugins_among_concat(front.deep_view(), back.deep_view());
}

proof fn lemma_plugins_among_concat(front: Seq<Option<Seq<char>>>, back: Seq<Option<Seq<char>>>)
    ensures
        plugins_among(front + back) == plugins_among(front) + plugins_among(back),
    decreases back.len(),
{
    if back.len() == 0 {
        assert(front + back =~= front);
        assert(plugins_among(front) + plugins_among(back) =~= plugins_among(front));
    } else {
        let both = front + back;
        lemma_plugins_among_concat(front, back.drop_last());
        assert(both.drop_last() =~= front + back.drop_last());
        assert(both.last() == back.last());
        assert(plugins_among(both) =~= plugins_among(front) + plugins_among(back));
    }
}

/// A directory with a single entry lists the plugin whose file that is: the name
/// before `.wasm`, if it is not empty. It lists nothing otherwise.
pub proof fn law_single_entries_are_listed_by_name<T: 'static, D, P>(
    manager: PluginManager<T, D, P>,
    entries: Vec<Option<String>>,
    list: Vec<String>,
    name: Seq<char>,
)
    requires
        entries.deep_view().len() == 1,
        name.len() > 0,
        call_ensures(PluginManager::<T, D, P>::list_available_plugins, (&manager, &entries), list),
    ensures
        entries.deep_view()[0] == Some(name + seq!['.', 'w', 'a', 's', 'm']) ==> list.deep_view()
            == seq![name],
        list.deep_view().len() <= 1,
        list.deep_view().len() == 1 ==> list.deep_view()[0].len() > 0 && entries.deep_view()[0]
            == Some(list.deep_view()[0] + seq!['.', 'w', 'a', 's', 'm']),
{
    assert(entries.deep_view() =~= seq![entries.deep_view()[0]]);
    lemma_one_entry(entries.deep_view()[0], name);
}

/// A manager that was just made has no plugin that runs, is for the directory
/// that it was made for, and has an engine that takes components. Plugins may
/// import what was defined in a linker of that engine, and if that fails, its
/// error is the manager's.
pub proof fn law_new_managers_run_nothing<
    T: 'static,
    D,
    P,
    E,
    F: FnOnce(&mut Linker<T>) -> Result<(), E>,
>(
    engine: Engine,
    plugins_dir: D,
    define: F,
    made: Result<PluginManager<T, D, P>, PluginError<E>>,
    with: Result<PluginManager<T, D, P>, PluginError<E>>,
)
    requires
        call_ensures(PluginManager::<T, D, P>::new::<E, F>, (plugins_dir, define), made),
        call_ensures(
            PluginManager::<T, D, P>::with_engine::<E, F>,
            (engine, plugins_dir, define),
            with,
        ),
    ensures
        made matches Ok(manager) ==> {
            &&& manager.loaded() is None
            &&& manager.dir() == plugins_dir
            &&& runs_components(manager.used_engine())
            &&& exists|linker: &mut Linker<T>, outcome: Result<(), E>| #[trigger]
                define.ensures((linker,), outcome) && outcome is Ok
                    && manager.imports() == *final(linker) && call_ensures(
                    Linker::<T>::new,
                    (&manager.used_engine(),),
                    *linker,
                )
        },
        made matches Err(PluginError::Imports(error)) ==> exists|
            linker: &mut Linker<T>,
            outcome: Result<(), E>,
        | #[trigger]
            define.ensures((linker,), outcome) && outcome is Err && outcome->Err_0 == error,
        with matches Ok(manager) ==> {
            &&& manager.loaded() is None
            &&& manager.dir() == plugins_dir
            &&& manager.used_engine() == engine
            &&& exists|linker: &mut Linker<T>, outcome: Result<(), E>| #[trigger]
                define.ensures((linker,), outcome) && outcome is Ok
                    && manager.imports() == *final(linker) && call_ensures(
                    Linker::<T>::new,
                    (&engine,),
                    *linker,
                )
        },
        with matches Err(error) ==> error is Imports && exists|
            linker: &mut Linker<T>,
            outcome: Result<(), E>,
        | #[trigger]
            define.ensures((linker,), outcome) && outcome is Err && error == PluginError::Imports(
                outcome->Err_0,
            ),
{
}

/// A plugin that cannot be started replaces nothing: the one that ran still
/// runs. One that was started runs. What is compiled is the file in the directory
/// whose name is that of the plugin, then `.wasm`, and nothing is started if that
/// fails. The engine, the imports and the directory stay as they were.
pub proof fn law_a_failed_load_keeps_the_running_plugin<
    T: 'static,
    D,
    P,
    E,
    F: FnOnce(&Engine, &D, String) -> Result<Component, E>,
    G: FnOnce() -> T,
    H: FnOnce(&mut Store<T>, &Component, &Linker<T>) -> Result<P, E>,
>(name: &str, compile: F, host: G, instantiate: H)
    ensures
        forall|manager: &mut PluginManager<T, D, P>, r: Result<(), E>| #[trigger]
            call_ensures(
                PluginManager::<T, D, P>::load_plugin::<E, F, G, H>,
                (manager, name, compile, host, instantiate),
                r,
            ) ==> {
                &&& final(manager).used_engine() == manager.used_engine()
                &&& final(manager).imports() == manager.imports()
                &&& final(manager).dir() == manager.dir()
                &&& r is Err ==> final(manager).loaded() == manager.loaded()
                &&& r is Ok ==> final(manager).loaded() is Some
                &&& exists|file: String, compiled: Result<Component, E>| #[trigger]
                    compile.ensures((&manager.used_engine(), &manager.dir(), file), compiled)
                        && file@ == name@ + seq!['.', 'w', 'a', 's', 'm'] && (compiled is Err
                        ==> r is Err && r->Err_0 == compiled->Err_0)
                &&& r is Ok ==> exists|
                    store: &mut Store<T>,
                    component: Component,
                    plugin: Result<P, E>,
                | #[trigger]
                    instantiate.ensures((store, &component, &manager.imports()), plugin)
                        && plugin is Ok && final(manager).loaded() == Some(
                        (*final(store), plugin->Ok_0),
                    )
            },
{
}

/// Asking for a layout neither starts nor stops a plugin. Without one there is
/// no placement and no error, and with one the answer is the plugin's.
pub proof fn law_a_layout_is_the_plugins_answer<
    T: 'static,
    D,
    P,
    C,
    W,
    E,
    F: FnOnce(&mut Store<T>, &P, &Vec<WindowInfo>, &C) -> Result<Vec<(u64, W)>, E>,
>(windows: Vec<WindowInfo>, context: C, ask: F)
    ensures
        forall|manager: &mut PluginManager<T, D, P>, r: Result<Vec<(u64, W)>, E>| #[trigger]
            call_ensures(
                PluginManager::<T, D, P>::calculate_layout::<C, W, E, F>,
                (manager, windows, context, ask),
                r,
            ) ==> {
                &&& final(manager).used_engine() == manager.used_engine()
                &&& final(manager).imports() == manager.imports()
                &&& final(manager).dir() == manager.dir()
                &&& match manager.loaded() {
                    Some((before, plugin)) => exists|store: &mut Store<T>| #[trigger]
                        ask.ensures((store, &plugin, &windows, &context), r) && *store == before
                            && final(manager).loaded() == Some((*final(store), plugin)),
                    None => {
                        &&& final(manager).loaded() is None
                        &&& r is Ok
                        &&& r->Ok_0@.len() == 0
                    },
                }
            },
{
}

} // verus!
