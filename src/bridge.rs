//! The export bridge: a registry of module names, modules whose exported
//! symbols are registered one by one while loading, and calls into them.
//!
//! A handle exists from `define_module` on, so a module starts in `Loading`.
//! A registration error aborts the whole load: the module goes to
//! `LoadFailed`, refuses every later registration, and exposes no symbol.
use vstd::prelude::*;

verus! {

/// The native implementations that can stand behind an exported symbol.
#[derive(Clone, Copy, Debug, PartialEq, Eq, Structural)]
pub enum NativeFn {
    /// `greet(name)`, which gives `Hello, {name}!`.
    Greet,
}

/// A value passed across the host boundary.
#[derive(Clone, Debug, PartialEq, Eq)]
pub enum HostValue {
    Str(String),
    Int(i64),
    Bool(bool),
    Nothing,
}

/// The load state of a module.
#[derive(Clone, Copy, Debug, PartialEq, Eq, Structural)]
pub enum LoadState {
    /// The module is defined and symbols are being registered.
    Loading,
    /// Loading completed: the symbols are callable.
    Loaded,
    /// A registration failed: the load is aborted for good.
    LoadFailed,
}

/// Why defining a module or registering a symbol failed.
#[derive(Clone, Debug)]
pub enum BridgeError {
    /// A module of this name is already registered in the load context.
    ModuleNameConflict(String),
    /// A symbol of this name is already exported by the module.
    DuplicateExport(String),
    /// The module is no longer loading.
    RegistrationClosed,
}

/// A bridge error, as text.
pub enum BridgeFailure {
    ModuleNameConflict(Seq<char>),
    DuplicateExport(Seq<char>),
    RegistrationClosed,
}

impl View for BridgeError {
    type V = BridgeFailure;

    open spec fn view(&self) -> BridgeFailure {
        match self {
            BridgeError::ModuleNameConflict(n) => BridgeFailure::ModuleNameConflict(n@),
            BridgeError::DuplicateExport(n) => BridgeFailure::DuplicateExport(n@),
            BridgeError::RegistrationClosed => BridgeFailure::RegistrationClosed,
        }
    }
}

/// Why a call into a module failed.
#[derive(Clone, Debug, PartialEq, Eq)]
pub enum CallError {
    /// The module has not reached `Loaded`.
    ModuleNotLoaded,
    /// The module exports no symbol of this name.
    UnknownSymbol(String),
    /// The arguments do not fit the native function's signature.
    ArgumentTypeMismatch,
}

/// A symbol and the native function behind it.
#[derive(Clone, Debug)]
pub struct ExportedSymbol {
    pub host_visible_name: String,
    pub native_implementation: NativeFn,
}

impl View for ExportedSymbol {
    type V = (Seq<char>, NativeFn);

    open spec fn view(&self) -> (Seq<char>, NativeFn) {
        (self.host_visible_name@, self.native_implementation)
    }
}

/// The model of each symbol: its name and implementation.
pub open spec fn symbols_view(v: Seq<ExportedSymbol>) -> Seq<(Seq<char>, NativeFn)> {
    v.map_values(|e: ExportedSymbol| e@)
}

/// The names of the symbols, in order.
pub open spec fn names_of(s: Seq<(Seq<char>, NativeFn)>) -> Seq<Seq<char>> {
    s.map_values(|e: (Seq<char>, NativeFn)| e.0)
}

/// No name occurs twice.
pub open spec fn distinct(ns: Seq<Seq<char>>) -> bool {
    forall|i: int, j: int| 0 <= i < j < ns.len() ==> ns[i] != ns[j]
}

/// A module: its name, the symbols registered in order, and its state.
pub struct ModuleModel {
    pub name: Seq<char>,
    pub symbols: Seq<(Seq<char>, NativeFn)>,
    pub state: LoadState,
}

/// A module just defined.
pub open spec fn fresh_module(name: Seq<char>) -> ModuleModel {
    ModuleModel { name, symbols: seq![], state: LoadState::Loading }
}

/// What registering `n` in `m` reports.
pub open spec fn export_outcome(m: ModuleModel, n: Seq<char>) -> Result<(), BridgeFailure> {
    if m.state != LoadState::Loading {
        Err(BridgeFailure::RegistrationClosed)
    } else if names_of(m.symbols).contains(n) {
        Err(BridgeFailure::DuplicateExport(n))
    } else {
        Ok(())
    }
}

/// The module after registering `n` with the implementation `f`.
pub open spec fn after_export(m: ModuleModel, n: Seq<char>, f: NativeFn) -> ModuleModel {
    if m.state != LoadState::Loading {
        m
    } else if names_of(m.symbols).contains(n) {
        ModuleModel { state: LoadState::LoadFailed, ..m }
    } else {
        ModuleModel { symbols: m.symbols.push((n, f)), ..m }
    }
}

/// The module after registering each of `regs` in turn.
pub open spec fn register_all(m: ModuleModel, regs: Seq<(Seq<char>, NativeFn)>) -> ModuleModel
    decreases regs.len(),
{
    if regs.len() == 0 {
        m
    } else {
        after_export(register_all(m, regs.drop_last()), regs.last().0, regs.last().1)
    }
}

/// The first error that registering each of `regs` in turn reports.
pub open spec fn first_failure(m: ModuleModel, regs: Seq<(Seq<char>, NativeFn)>) -> Option<
    BridgeFailure,
>
    decreases regs.len(),
{
    if regs.len() == 0 {
        None
    } else {
        match first_failure(m, regs.drop_last()) {
            Some(e) => Some(e),
            None => match export_outcome(register_all(m, regs.drop_last()), regs.last().0) {
                Err(e) => Some(e),
                Ok(_) => None,
            },
        }
    }
}

/// The module once loading completes.
pub open spec fn after_finish(m: ModuleModel) -> ModuleModel {
    if m.state == LoadState::Loading {
        ModuleModel { state: LoadState::Loaded, ..m }
    } else {
        m
    }
}

/// The names that host code sees, in registration order.
pub open spec fn visible_names(m: ModuleModel) -> Seq<Seq<char>> {
    if m.state == LoadState::Loaded {
        names_of(m.symbols)
    } else {
        seq![]
    }
}

/// The implementation registered last under `n`.
pub open spec fn find_symbol(s: Seq<(Seq<char>, NativeFn)>, n: Seq<char>) -> Option<NativeFn>
    decreases s.len(),
{
    if s.len() == 0 {
        None
    } else if s.last().0 == n {
        Some(s.last().1)
    } else {
        find_symbol(s.drop_last(), n)
    }
}

/// What host code finds under `n`.
pub open spec fn lookup_spec(m: ModuleModel, n: Seq<char>) -> Option<NativeFn> {
    if m.state == LoadState::Loaded {
        find_symbol(m.symbols, n)
    } else {
        None
    }
}

proof fn lemma_register_all(m: ModuleModel, regs: Seq<(Seq<char>, NativeFn)>)
    requires
        m.state == LoadState::Loading,
    ensures
        register_all(m, regs).name == m.name,
        first_failure(m, regs) is None <==> register_all(m, regs).state == LoadState::Loading,
        first_failure(m, regs) is Some ==> register_all(m, regs).state == LoadState::LoadFailed,
        first_failure(m, regs) is None ==> register_all(m, regs).symbols == m.symbols + regs,
    decreases regs.len(),
{
    if regs.len() > 0 {
        lemma_register_all(m, regs.drop_last());
        let prev = register_all(m, regs.drop_last());
        if first_failure(m, regs.drop_last()) is None && !names_of(prev.symbols).contains(regs.last().0) {
            assert(prev.symbols.push(regs.last()) =~= m.symbols + regs);
        }
    } else {
        assert(m.symbols + regs =~= m.symbols);
    }
}

proof fn lemma_failed_stays(m: ModuleModel, regs: Seq<(Seq<char>, NativeFn)>)
    requires
        m.state == LoadState::LoadFailed,
    ensures
        register_all(m, regs) == m,
    decreases regs.len(),
{
    if regs.len() > 0 {
        lemma_failed_stays(m, regs.drop_last());
    }
}

/// Registering a name twice fails the second time with `DuplicateExport`
/// and aborts the load; the first registration stays as it was.
pub proof fn duplicate_export_keeps_first(m: ModuleModel, n: Seq<char>, f: NativeFn, g: NativeFn)
    requires
        m.state == LoadState::Loading,
        !names_of(m.symbols).contains(n),
    ensures
        export_outcome(m, n) is Ok,
        export_outcome(after_export(m, n, f), n) == Err::<(), BridgeFailure>(BridgeFailure::DuplicateExport(n)),
        after_export(after_export(m, n, f), n, g).symbols == m.symbols.push((n, f)),
        after_export(after_export(m, n, f), n, g).state == LoadState::LoadFailed,
        find_symbol(after_export(after_export(m, n, f), n, g).symbols, n) == Some(f),
{
    let m1 = after_export(m, n, f);
    assert(names_of(m1.symbols) =~= names_of(m.symbols).push(n));
    assert(names_of(m1.symbols)[names_of(m.symbols).len() as int] == n);
}

/// A module that reaches `Loaded` exposes every name registered while it
/// was loading, after those it had, in registration order.
pub proof fn loaded_module_exposes_registrations(m: ModuleModel, regs: Seq<(Seq<char>, NativeFn)>)
    requires
        m.state == LoadState::Loading,
    ensures
        after_finish(register_all(m, regs)).state == LoadState::Loaded ==> {
            &&& first_failure(m, regs) is None
            &&& visible_names(after_finish(register_all(m, regs))) == names_of(m.symbols) + names_of(regs)
        },
{
    lemma_register_all(m, regs);
    if after_finish(register_all(m, regs)).state == LoadState::Loaded {
        assert(names_of(m.symbols + regs) =~= names_of(m.symbols) + names_of(regs));
    }
}

/// A module that went to `LoadFailed` takes no later registration and
/// exposes no name, even when loading is completed afterwards.
pub proof fn failed_module_exposes_nothing(m: ModuleModel, regs: Seq<(Seq<char>, NativeFn)>)
    requires
        m.state == LoadState::LoadFailed,
    ensures
        register_all(m, regs) == m,
        visible_names(after_finish(register_all(m, regs))) == Seq::<Seq<char>>::empty(),
{
    lemma_failed_stays(m, regs);
}

/// A module defined in a registry.
pub struct ModuleHandle {
    module_name: String,
    exported_symbols: Vec<ExportedSymbol>,
    state: LoadState,
}

impl View for ModuleHandle {
    type V = ModuleModel;

    closed spec fn view(&self) -> ModuleModel {
        ModuleModel {
            name: self.module_name@,
            symbols: symbols_view(self.exported_symbols@),
            state: self.state,
        }
    }
}

impl ModuleHandle {
    /// The symbol names are unique.
    pub open spec fn wf(&self) -> bool {
        distinct(names_of(self@.symbols))
    }

    /// The name under which the module is registered.
    pub fn module_name(&self) -> (r: &str)
        ensures
            r@ == self@.name,
    {
        self.module_name.as_str()
    }

    /// The module's load state.
    pub fn state(&self) -> (r: LoadState)
        ensures
            r == self@.state,
    {
        self.state
    }

    fn define(name: &str) -> (r: ModuleHandle)
        ensures
            r@ == fresh_module(name@),
            r.wf(),
    {
        let r = ModuleHandle {
            module_name: String::from_str(name),
            exported_symbols: Vec::new(),
            state: LoadState::Loading,
        };
        assert(symbols_view(r.exported_symbols@) =~= seq![]);
        r
    }

    fn is_exported(&self, name: &String) -> (r: bool)
        ensures
            r == names_of(self@.symbols).contains(name@),
    {
        let mut i: usize = 0;
        while i < self.exported_symbols.len()
            invariant
                i <= self.exported_symbols@.len(),
                forall|j: int| 0 <= j < i ==> self.exported_symbols@[j].host_visible_name@ != name@,
            decreases self.exported_symbols@.len() - i,
        {
            if self.exported_symbols[i].host_visible_name == *name {
                assert(names_of(self@.symbols)[i as int] == name@);
                return true;
            }
            i = i + 1;
        }
        proof {
            if names_of(self@.symbols).contains(name@) {
                let j = choose|j: int| 0 <= j < names_of(self@.symbols).len() && names_of(self@.symbols)[j] == name@;
                assert(self.exported_symbols@[j].host_visible_name@ == name@);
            }
        }
        false
    }

    /// Registers `name` with the implementation `implementation`. Fails with
    /// `DuplicateExport` where the name is already exported, which aborts
    /// the load; fails with `RegistrationClosed` once the module has left
    /// `Loading`.
    pub fn export_function(&mut self, name: String, implementation: NativeFn) -> (r: Result<(), BridgeError>)
        requires
            old(self).wf(),
        ensures
            final(self).wf(),
            final(self)@ == after_export(old(self)@, name@, implementation),
            match r {
                Ok(_) => export_outcome(old(self)@, name@) is Ok,
                Err(e) => export_outcome(old(self)@, name@) == Err::<(), BridgeFailure>(e@),
            },
    {
        if self.state != LoadState::Loading {
            return Err(BridgeError::RegistrationClosed);
        }
        if self.is_exported(&name) {
            self.state = LoadState::LoadFailed;
            return Err(BridgeError::DuplicateExport(name));
        }
        let ghost prev = self@;
        self.exported_symbols.push(ExportedSymbol { host_visible_name: name, native_implementation: implementation });
        assert(self@.symbols =~= prev.symbols.push((name@, implementation)));
        assert(names_of(self@.symbols) =~= names_of(prev.symbols).push(name@));
        Ok(())
    }

    /// Completes loading: a module still `Loading` becomes `Loaded`.
    pub fn finish_load(&mut self)
        requires
            old(self).wf(),
        ensures
            final(self).wf(),
            final(self)@ == after_finish(old(self)@),
    {
        if self.state == LoadState::Loading {
            self.state = LoadState::Loaded;
        }
    }

    /// Every name registered so far, in order, whatever the state.
    pub fn registered_symbols(&self) -> (r: Vec<String>)
        ensures
            r@.map_values(|s: String| s@) == names_of(self@.symbols),
    {
        let mut r: Vec<String> = Vec::new();
        let mut i: usize = 0;
        while i < self.exported_symbols.len()
            invariant
                i <= self.exported_symbols@.len(),
                r@.len() == i,
                forall|j: int| 0 <= j < i ==> r@[j]@ == self.exported_symbols@[j].host_visible_name@,
            decreases self.exported_symbols@.len() - i,
        {
            r.push(self.exported_symbols[i].host_visible_name.clone());
            i = i + 1;
        }
        assert(r@.map_values(|s: String| s@) =~= names_of(self@.symbols));
        r
    }

    /// The names that host code sees: all registered names once `Loaded`,
    /// none before or after a failed load.
    pub fn visible_symbols(&self) -> (r: Vec<String>)
        ensures
            r@.map_values(|s: String| s@) == visible_names(self@),
    {
        if self.state == LoadState::Loaded {
            self.registered_symbols()
        } else {
            let r: Vec<String> = Vec::new();
            assert(r@.map_values(|s: String| s@) =~= seq![]);
            r
        }
    }

    /// The implementation that host code finds under `name`.
    pub fn lookup(&self, name: &str) -> (r: Option<NativeFn>)
        ensures
            r == lookup_spec(self@, name@),
    {
        if self.state != LoadState::Loaded {
            return None;
        }
        let key = String::from_str(name);
        let mut i: usize = self.exported_symbols.len();
        assert(self@.symbols.subrange(0, i as int) =~= self@.symbols);
        while i > 0
            invariant
                i <= self.exported_symbols@.len(),
                key@ == name@,
                self@.state == LoadState::Loaded,
                find_symbol(self@.symbols, name@) == find_symbol(self@.symbols.subrange(0, i as int), name@),
            decreases i,
        {
            let ghost s = self@.symbols.subrange(0, i as int);
            assert(s.last() == self.exported_symbols@[i - 1]@);
            if self.exported_symbols[i - 1].host_visible_name == key {
                assert(s.len() > 0 && s.last().0 == name@);
                assert(find_symbol(s, name@) == Some(s.last().1));
                return Some(self.exported_symbols[i - 1].native_implementation);
            }
            assert(s.drop_last() =~= self@.symbols.subrange(0, i - 1));
            i = i - 1;
        }
        None
    }

    /// Calls the symbol `name` with `args`, as host code does.
    pub fn call(&self, name: &str, args: &Vec<HostValue>) -> (r: Result<HostValue, CallError>)
        ensures
            self@.state != LoadState::Loaded ==> r == Err::<HostValue, CallError>(CallError::ModuleNotLoaded),
            self@.state == LoadState::Loaded ==> match lookup_spec(self@, name@) {
                None => r is Err && r->Err_0 is UnknownSymbol && r->Err_0->UnknownSymbol_0@ == name@,
                Some(f) => invoked_as(f, args@, r),
            },
    {
        if self.state != LoadState::Loaded {
            return Err(CallError::ModuleNotLoaded);
        }
        match self.lookup(name) {
            None => Err(CallError::UnknownSymbol(String::from_str(name))),
            Some(f) => invoke(f, args),
        }
    }
}

/// The text that `greet` gives for `name`.
pub open spec fn greeting(name: Seq<char>) -> Seq<char> {
    "Hello, "@ + name + "!"@
}

/// Greets `name`: `Hello, {name}!`, whatever `name` holds.
pub fn greet(name: &str) -> (r: String)
    ensures
        r@ == greeting(name@),
{
    let mut r = String::from_str("Hello, ");
    r.append(name);
    r.append("!");
    r
}

/// The arguments fit `greet`: a single string.
pub open spec fn greet_accepts(args: Seq<HostValue>) -> bool {
    args.len() == 1 && args[0] is Str
}

/// `r` is what calling `f` on `args` gives.
pub open spec fn invoked_as(f: NativeFn, args: Seq<HostValue>, r: Result<HostValue, CallError>) -> bool {
    match f {
        NativeFn::Greet => if greet_accepts(args) {
            r is Ok && r->Ok_0 is Str && r->Ok_0->Str_0@ == greeting(args[0]->Str_0@)
        } else {
            r == Err::<HostValue, CallError>(CallError::ArgumentTypeMismatch)
        },
    }
}

/// Calls `f` on host arguments: unpacks them into the native types, fails
/// with `ArgumentTypeMismatch` where they do not fit, and packs the result.
pub fn invoke(f: NativeFn, args: &Vec<HostValue>) -> (r: Result<HostValue, CallError>)
    ensures
        invoked_as(f, args@, r),
{
    match f {
        NativeFn::Greet => {
            if args.len() != 1 {
                return Err(CallError::ArgumentTypeMismatch);
            }
            match &args[0] {
                HostValue::Str(s) => Ok(HostValue::Str(greet(s.as_str()))),
                _ => Err(CallError::ArgumentTypeMismatch),
            }
        },
    }
}

/// The names of the modules defined in one load context.
pub struct ModuleRegistry {
    names: Vec<String>,
}

impl View for ModuleRegistry {
    type V = Seq<Seq<char>>;

    closed spec fn view(&self) -> Seq<Seq<char>> {
        self.names@.map_values(|s: String| s@)
    }
}

impl ModuleRegistry {
    /// A registry with no module.
    pub fn new() -> (r: ModuleRegistry)
        ensures
            r@ == Seq::<Seq<char>>::empty(),
    {
        let r = ModuleRegistry { names: Vec::new() };
        assert(r@ =~= Seq::<Seq<char>>::empty());
        r
    }

    /// Whether a module named `name` is defined.
    pub fn is_registered(&self, name: &str) -> (r: bool)
        ensures
            r == self@.contains(name@),
    {
        let key = String::from_str(name);
        let mut i: usize = 0;
        while i < self.names.len()
            invariant
                i <= self.names@.len(),
                key@ == name@,
                forall|j: int| 0 <= j < i ==> self.names@[j]@ != name@,
            decreases self.names@.len() - i,
        {
            if self.names[i] == key {
                assert(self@[i as int] == name@);
                return true;
            }
            i = i + 1;
        }
        proof {
            if self@.contains(name@) {
                let j = choose|j: int| 0 <= j < self@.len() && self@[j] == name@;
                assert(self.names@[j]@ == name@);
            }
        }
        false
    }

    /// Defines a module named `name`, still loading and with no symbol.
    /// Fails with `ModuleNameConflict` where the name is taken.
    pub fn define_module(&mut self, name: &str) -> (r: Result<ModuleHandle, BridgeError>)
        ensures
            old(self)@.contains(name@) ==> {
                &&& final(self)@ == old(self)@
                &&& r is Err
                &&& r->Err_0@ == BridgeFailure::ModuleNameConflict(name@)
            },
            !old(self)@.contains(name@) ==> {
                &&& final(self)@ == old(self)@.push(name@)
                &&& r is Ok
                &&& r->Ok_0@ == fresh_module(name@)
                &&& r->Ok_0.wf()
            },
    {
        if self.is_registered(name) {
            return Err(BridgeError::ModuleNameConflict(String::from_str(name)));
        }
        let ghost prev = self@;
        self.names.push(String::from_str(name));
        assert(self@ =~= prev.push(name@));
        Ok(ModuleHandle::define(name))
    }
}

/// Defines the module `name` in `registry`, registers each of `exports` in
/// order, and completes the load. Fails with the first registration error,
/// or with `ModuleNameConflict`.
pub fn load_module(registry: &mut ModuleRegistry, name: &str, exports: &Vec<ExportedSymbol>) -> (r:
    Result<ModuleHandle, BridgeError>)
    ensures
        old(registry)@.contains(name@) ==> {
            &&& final(registry)@ == old(registry)@
            &&& r is Err
            &&& r->Err_0@ == BridgeFailure::ModuleNameConflict(name@)
        },
        !old(registry)@.contains(name@) ==> {
            let m = register_all(fresh_module(name@), symbols_view(exports@));
            &&& final(registry)@ == old(registry)@.push(name@)
            &&& match r {
                Ok(h) => {
                    &&& first_failure(fresh_module(name@), symbols_view(exports@)) is None
                    &&& h@ == after_finish(m)
                    &&& h@.state == LoadState::Loaded
                    &&& h@.symbols == symbols_view(exports@)
                    &&& h.wf()
                },
                Err(e) => first_failure(fresh_module(name@), symbols_view(exports@)) == Some(e@),
            }
        },
{
    let mut handle = match registry.define_module(name) {
        Ok(h) => h,
        Err(e) => return Err(e),
    };
    let ghost m0 = handle@;
    let ghost regs = symbols_view(exports@);
    let mut failure: Option<BridgeError> = None;
    let mut i: usize = 0;
    while i < exports.len()
        invariant
            i <= exports@.len(),
            regs == symbols_view(exports@),
            regs.len() == exports@.len(),
            handle.wf(),
            handle@ == register_all(m0, regs.subrange(0, i as int)),
            match failure {
                None => first_failure(m0, regs.subrange(0, i as int)) is None,
                Some(e) => first_failure(m0, regs.subrange(0, i as int)) == Some(e@),
            },
        decreases exports@.len() - i,
    {
        let e = &exports[i];
        let ghost before = regs.subrange(0, i as int);
        let ghost after = regs.subrange(0, i + 1);
        assert(after.drop_last() =~= before);
        assert(after.last() == e@);
        let outcome = handle.export_function(e.host_visible_name.clone(), e.native_implementation);
        match outcome {
            Ok(_) => {},
            Err(err) => {
                if failure.is_none() {
                    failure = Some(err);
                }
            },
        }
        i = i + 1;
    }
    assert(regs.subrange(0, i as int) =~= regs);
    proof {
        lemma_register_all(m0, regs);
        assert(m0.symbols + regs =~= regs);
    }
    match failure {
        Some(e) => Err(e),
        None => {
            handle.finish_load();
            Ok(handle)
        },
    }
}

/// The name of the module that this library defines.
pub open spec fn library_module_name() -> Seq<char> {
    "my_rust_library"@
}

/// The module that this library defines, once loaded: `greet` alone.
pub open spec fn library_module() -> ModuleModel {
    ModuleModel {
        name: library_module_name(),
        symbols: seq![("greet"@, NativeFn::Greet)],
        state: LoadState::Loaded,
    }
}

/// The load entry point of this library: defines its module in `registry`
/// and exports `greet`. Fails only where the module name is taken.
pub fn my_rust_library(registry: &mut ModuleRegistry) -> (r: Result<ModuleHandle, BridgeError>)
    ensures
        old(registry)@.contains(library_module_name()) ==> {
            &&& final(registry)@ == old(registry)@
            &&& r is Err
            &&& r->Err_0@ == BridgeFailure::ModuleNameConflict(library_module_name())
        },
        !old(registry)@.contains(library_module_name()) ==> {
            &&& final(registry)@ == old(registry)@.push(library_module_name())
            &&& r is Ok
            &&& r->Ok_0@ == library_module()
            &&& r->Ok_0.wf()
        },
{
    let mut exports: Vec<ExportedSymbol> = Vec::new();
    exports.push(ExportedSymbol { host_visible_name: String::from_str("greet"), native_implementation: NativeFn::Greet });
    let ghost regs = symbols_view(exports@);
    assert(regs =~= seq![("greet"@, NativeFn::Greet)]);
    let name = "my_rust_library";
    proof {
        let m0 = fresh_module(name@);
        assert(regs.drop_last() =~= Seq::<(Seq<char>, NativeFn)>::empty());
        assert(!names_of(m0.symbols).contains("greet"@));
        assert(first_failure(m0, regs.drop_last()) is None);
        assert(first_failure(m0, regs) is None);
    }
    load_module(registry, name, &exports)
}

} // verus!
