//! Loading and validating one bytecode module, and the pure steps of a guest
//! call: naming the export, coercing the arguments, preparing the results.
use crate::error::{Error, ExecutableError, Result};
use crate::runtime::text::{parse_i32, parse_i64, parsed_i32, parsed_i64};
use vstd::prelude::*;

verus! {

/// A validated bytecode module of the interpreter.
#[verifier::external_type_specification]
#[verifier::external_body]
pub struct ExModule(wasmi::Module);

/// The interpreter features a contract may use.
pub struct EngineSettings {
    pub floats: bool,
    pub mutable_global: bool,
    pub sign_extension: bool,
    pub saturating_float_to_int: bool,
    pub multi_value: bool,
    pub consume_fuel: bool,
}

impl View for EngineSettings {
    type V = (bool, bool, bool, bool, bool, bool);

    open spec fn view(&self) -> (bool, bool, bool, bool, bool, bool) {
        (
            self.floats,
            self.mutable_global,
            self.sign_extension,
            self.saturating_float_to_int,
            self.multi_value,
            self.consume_fuel,
        )
    }
}

/// The settings every contract runs under, for deterministic replay: no
/// floating point, no mutable globals, no sign extension, no saturating
/// conversions; multi-value results and fuel metering on.
pub open spec fn contract_settings() -> (bool, bool, bool, bool, bool, bool) {
    (false, false, false, false, true, true)
}

/// Builds the settings every contract runs under.
pub fn engine_settings() -> (r: EngineSettings)
    ensures
        !r.floats,
        !r.mutable_global,
        !r.sign_extension,
        !r.saturating_float_to_int,
        r.multi_value,
        r.consume_fuel,
        r@ == contract_settings(),
{
    EngineSettings {
        floats: false,
        mutable_global: false,
        sign_extension: false,
        saturating_float_to_int: false,
        multi_value: true,
        consume_fuel: true,
    }
}

/// Whether the interpreter, configured with `settings`, accepts `bytecode` as
/// a module.
pub uninterp spec fn module_accepted(
    settings: (bool, bool, bool, bool, bool, bool),
    bytecode: Seq<u8>,
) -> bool;

/// The export names, in order, of the module that `bytecode` holds.
pub uninterp spec fn module_exports(
    settings: (bool, bool, bool, bool, bool, bool),
    bytecode: Seq<u8>,
) -> Seq<Seq<char>>;

/// Relies on `wasmi::Module::new` under an engine configured from `settings`,
/// and on `Module::exports`: the module and its export names when the bytecode
/// is accepted, nothing when it is not.
#[verifier::external_body]
fn parse_module(settings: &EngineSettings, bytecode: &[u8]) -> (r: Option<(wasmi::Module, Vec<String>)>)
    ensures
        r is Some == module_accepted(settings@, bytecode@),
        r matches Some((_, names)) ==> names@.map_values(|n: String| n@) == module_exports(
            settings@,
            bytecode@,
        ),
{
    let mut config = wasmi::Config::default();
    config.wasm_mutable_global(settings.mutable_global).wasm_sign_extension(settings.sign_extension)
        .wasm_saturating_float_to_int(settings.saturating_float_to_int)
        .wasm_multi_value(settings.multi_value).floats(settings.floats)
        .consume_fuel(settings.consume_fuel);
    let module = wasmi::Module::new(&wasmi::Engine::new(&config), bytecode).ok()?;
    let names = module.exports().map(|item| item.name().to_string()).collect();
    Some((module, names))
}

/// Whether `bytecode` is a contract module: accepted under the contract
/// settings, with exactly one `_constructor` export.
pub open spec fn is_contract(bytecode: Seq<u8>) -> bool {
    module_accepted(contract_settings(), bytecode) && count_constructors(
        module_exports(contract_settings(), bytecode),
    ) == 1
}

/// What loading `bytecode` gives: success on a contract module;
/// `InvalidBytecode` when the interpreter refuses it; `ConstructorNotFound`
/// when it has no single constructor.
pub open spec fn load_outcome<T>(bytecode: Seq<u8>, r: Result<T>) -> bool {
    if !module_accepted(contract_settings(), bytecode) {
        r matches Err(Error::Executable(ExecutableError::InvalidBytecode(_)))
    } else if count_constructors(module_exports(contract_settings(), bytecode)) == 1 {
        r is Ok
    } else {
        r == Err::<T, Error>(Error::Executable(ExecutableError::ConstructorNotFound))
    }
}

/// The name of the export every contract must have.
pub open spec fn constructor_name() -> Seq<char> {
    "_constructor"@
}

/// Enumeration of possible executable functions of a contract.
pub enum LoadableFunction {
    Constructor,
    Call(String),
}

impl LoadableFunction {
    /// The export name this function stands for.
    pub open spec fn name(&self) -> Seq<char> {
        match self {
            LoadableFunction::Constructor => constructor_name(),
            LoadableFunction::Call(n) => n@,
        }
    }

    /// Names a function: `_constructor` is the constructor, any other name an
    /// ordinary call.
    pub fn from_str(s: &str) -> (r: Result<Self>)
        ensures
            r matches Ok(f) && f.name() == s@,
            s@ == constructor_name() ==> r matches Ok(LoadableFunction::Constructor),
    {
        proof {
            reveal_strlit("_constructor");
        }
        let name = s.to_owned();
        let constructor = "_constructor".to_owned();
        if name == constructor {
            Ok(LoadableFunction::Constructor)
        } else {
            Ok(LoadableFunction::Call(name))
        }
    }

    /// The export name, as text.
    pub fn to_string(&self) -> (r: String)
        ensures
            r@ == self.name(),
    {
        proof {
            reveal_strlit("_constructor");
        }
        match self {
            LoadableFunction::Constructor => "_constructor".to_owned(),
            LoadableFunction::Call(name) => name.clone(),
        }
    }
}

/// How many of `names` are the constructor's name.
pub open spec fn count_constructors(names: Seq<Seq<char>>) -> nat
    decreases names.len(),
{
    if names.len() == 0 {
        0
    } else {
        count_constructors(names.drop_last()) + if names.last() == constructor_name() {
            1nat
        } else {
            0nat
        }
    }
}

/// Checks the module's entry convention on its export names: exactly one of
/// them is `_constructor`, else `ConstructorNotFound`.
pub fn check_constructor(names: &Vec<String>) -> (r: Result<()>)
    ensures
        count_constructors(names@.map_values(|n: String| n@)) == 1 ==> r is Ok,
        count_constructors(names@.map_values(|n: String| n@)) != 1 ==> r == Err::<(), Error>(
            Error::Executable(ExecutableError::ConstructorNotFound),
        ),
{
    let ghost all = names@.map_values(|n: String| n@);
    let constructor = LoadableFunction::Constructor.to_string();
    let mut count: usize = 0;
    let mut i: usize = 0;
    while i < names.len()
        invariant
            i <= names@.len(),
            all == names@.map_values(|n: String| n@),
            constructor@ == constructor_name(),
            count == count_constructors(all.subrange(0, i as int)),
            count <= i,
        decreases names@.len() - i,
    {
        assert(all.subrange(0, i + 1).drop_last() =~= all.subrange(0, i as int));
        if names[i] == constructor {
            count = count + 1;
        }
        i = i + 1;
    }
    assert(all.subrange(0, i as int) =~= all);
    if count != 1 {
        return Err(Error::Executable(ExecutableError::ConstructorNotFound));
    }
    Ok(())
}

/// The status a top-level invocation reports: its first result when that is a
/// 32-bit integer, else zero.
pub fn contract_status(results: &Vec<Value>) -> (r: i32)
    ensures
        results@.len() > 0 ==> (results@[0] matches Value::I32(v) ==> r == v),
        results@.len() > 0 ==> (!(results@[0] matches Value::I32(_)) ==> r == 0),
        results@.len() == 0 ==> r == 0,
{
    if results.len() == 0 {
        return 0;
    }
    match results[0] {
        Value::I32(v) => v,
        _ => 0,
    }
}

/// A value type of a guest function's signature, as far as contracts use them.
#[derive(Debug, Clone, Copy, PartialEq, Eq, Structural)]
pub enum ValueType {
    I32,
    I64,
    Other,
}

/// A value passed to or returned by a guest function.
#[derive(Debug, Clone, Copy, PartialEq, Eq, Structural)]
pub enum Value {
    I32(i32),
    I64(i64),
    Other,
}

/// The value of `arg` under the declared type `ty`, if it coerces.
pub open spec fn coerce(ty: ValueType, arg: Seq<char>) -> Option<Value> {
    match ty {
        ValueType::I32 => match parsed_i32(arg) {
            Some(v) => Some(Value::I32(v)),
            None => None,
        },
        ValueType::I64 => match parsed_i64(arg) {
            Some(v) => Some(Value::I64(v)),
            None => None,
        },
        ValueType::Other => None,
    }
}

/// The zero value of a type.
pub open spec fn default_value(ty: ValueType) -> Value {
    match ty {
        ValueType::I32 => Value::I32(0),
        ValueType::I64 => Value::I64(0),
        ValueType::Other => Value::Other,
    }
}

#[derive(Debug)]
pub struct Executable {
    module: Option<wasmi::Module>,
    /// Initial memory size of a contract's sandbox.
    initial: u32,
    /// The maximum memory size of a contract's sandbox.
    maximum: u32,
    /// Fuel limit for contract execution.
    fuel_limit: u64,
}

impl Executable {
    pub closed spec fn loaded(&self) -> bool {
        self.module is Some
    }

    pub closed spec fn limits(&self) -> (u32, u32, u64) {
        (self.initial, self.maximum, self.fuel_limit)
    }

    /// Initializing the contract executable, with no module yet.
    pub fn new(initial: u32, maximum: u32, fuel_limit: u64) -> (r: Self)
        ensures
            !r.loaded(),
            r.limits() == (initial, maximum, fuel_limit),
    {
        Executable { module: None, initial, maximum, fuel_limit }
    }

    /// Load bytecode for execution. On failure the executable stays as it was.
    pub fn load_bytecode(&mut self, bytecode: &[u8]) -> (r: Result<()>)
        ensures
            final(self).limits() == old(self).limits(),
            load_outcome(bytecode@, r),
            r is Ok ==> final(self).loaded(),
            r is Err ==> final(self).loaded() == old(self).loaded(),
    {
        let module = Self::create_module(bytecode)?;
        self.module = Some(module);
        Ok(())
    }

    /// Validate bytecode contract.
    pub fn validate_bytecode(bytecode: &[u8]) -> (r: Result<wasmi::Module>)
        ensures
            load_outcome(bytecode@, r),
    {
        Self::create_module(bytecode)
    }

    /// The module, when one is loaded, else `ModuleNotFound`.
    pub fn module(&self) -> (r: Result<&wasmi::Module>)
        ensures
            r is Ok == self.loaded(),
            r is Err ==> r == Err::<&wasmi::Module, Error>(
                Error::Executable(ExecutableError::ModuleNotFound),
            ),
    {
        match &self.module {
            Some(module) => Ok(module),
            None => Err(Error::Executable(ExecutableError::ModuleNotFound)),
        }
    }

    /// The initial and maximum page counts of the sandbox's linear memory.
    pub fn memory_limits(&self) -> (r: (u32, u32))
        ensures
            r == (self.limits().0, self.limits().1),
    {
        (self.initial, self.maximum)
    }

    /// The fuel a call may burn.
    pub fn fuel_limit(&self) -> (r: u64)
        ensures
            r == self.limits().2,
    {
        self.fuel_limit
    }

    /// Parses and validates the bytecode under the contract settings, then
    /// checks that it exports exactly one constructor.
    fn create_module(bytecode: &[u8]) -> (r: Result<wasmi::Module>)
        ensures
            load_outcome(bytecode@, r),
    {
        let settings = engine_settings();
        let (module, names) = match parse_module(&settings, bytecode) {
            Some(parsed) => parsed,
            None => {
                return Err(Error::Executable(ExecutableError::InvalidBytecode(String::new())));
            },
        };
        check_constructor(&names)?;
        Ok(module)
    }

    /// Type checks the given function arguments and returns them decoded into values.
    ///
    /// Fails with `InvalidNumArgs` when the counts differ, and with
    /// `FailedParseFuncArgs` when an argument does not coerce to its type.
    pub fn type_check_arguments(params: &[ValueType], func_args: &[String]) -> (r: Result<
        Vec<Value>,
    >)
        ensures
            params@.len() != func_args@.len() ==> r == Err::<Vec<Value>, Error>(
                Error::Executable(ExecutableError::InvalidNumArgs),
            ),
            params@.len() == func_args@.len() ==> {
                if forall|i: int|
                    0 <= i < params@.len() ==> #[trigger] coerce(params@[i], func_args@[i]@) is Some {
                    r matches Ok(values) && values@.len() == params@.len() && forall|i: int|
                        0 <= i < params@.len() ==> Some(#[trigger] values@[i]) == coerce(
                            params@[i],
                            func_args@[i]@,
                        )
                } else {
                    r matches Err(Error::Executable(ExecutableError::FailedParseFuncArgs(_)))
                }
            },
    {
        if params.len() != func_args.len() {
            return Err(Error::Executable(ExecutableError::InvalidNumArgs));
        }
        let mut values: Vec<Value> = Vec::new();
        let mut i: usize = 0;
        while i < params.len()
            invariant
                params@.len() == func_args@.len(),
                i <= params@.len(),
                values@.len() == i,
                forall|j: int|
                    0 <= j < i ==> Some(#[trigger] values@[j]) == coerce(
                        params@[j],
                        func_args@[j]@,
                    ),
            decreases params@.len() - i,
        {
            let arg: &str = func_args[i].as_str();
            let value = match params[i] {
                ValueType::I32 => match parse_i32(arg) {
                    Some(v) => Some(Value::I32(v)),
                    None => None,
                },
                ValueType::I64 => match parse_i64(arg) {
                    Some(v) => Some(Value::I64(v)),
                    None => None,
                },
                ValueType::Other => None,
            };
            match value {
                Some(v) => values.push(v),
                None => {
                    assert(coerce(params@[i as int], func_args@[i as int]@) is None);
                    return Err(
                        Error::Executable(ExecutableError::FailedParseFuncArgs(String::new())),
                    );
                },
            }
            i = i + 1;
        }
        assert forall|j: int| 0 <= j < params@.len() implies #[trigger] coerce(
            params@[j],
            func_args@[j]@,
        ) is Some by {
            assert(Some(values@[j]) == coerce(params@[j], func_args@[j]@));
        }
        Ok(values)
    }

    /// Returns a buffer of zero values, one for each result type.
    pub fn prepare_results_buffer(results: &[ValueType]) -> (r: Vec<Value>)
        ensures
            r@.len() == results@.len(),
            forall|i: int| 0 <= i < results@.len() ==> r@[i] == default_value(#[trigger] results@[i]),
    {
        let mut values: Vec<Value> = Vec::new();
        let mut i: usize = 0;
        while i < results.len()
            invariant
                i <= results@.len(),
                values@.len() == i,
                forall|j: int| 0 <= j < i ==> values@[j] == default_value(#[trigger] results@[j]),
            decreases results@.len() - i,
        {
            let v = match results[i] {
                ValueType::I32 => Value::I32(0),
                ValueType::I64 => Value::I64(0),
                ValueType::Other => Value::Other,
            };
            values.push(v);
            i = i + 1;
        }
        values
    }

    /// The initial heap cursor, read from the guest's `__heap_base` global: it
    /// must exist and be a non-negative 32-bit integer, else `HeapBaseNotFound`.
    pub fn heap_base_from_global(global: Option<Value>) -> (r: Result<i32>)
        ensures
            (global matches Some(Value::I32(v)) && v >= 0) ==> r == Ok::<i32, Error>(global->0->I32_0),
            !(global matches Some(Value::I32(v)) && v >= 0) ==> r == Err::<i32, Error>(
                Error::Executable(ExecutableError::HeapBaseNotFound),
            ),
    {
        match global {
            Some(Value::I32(v)) => if v >= 0 {
                Ok(v)
            } else {
                Err(Error::Executable(ExecutableError::HeapBaseNotFound))
            },
            _ => Err(Error::Executable(ExecutableError::HeapBaseNotFound)),
        }
    }
}

} // verus!
